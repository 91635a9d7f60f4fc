use gridd::Coord;
use gridd::Offset;

#[test]
fn test_cardinal_pairs_cancel() {
    assert_eq!(Offset::zero(), Offset::north() + Offset::south());
    assert_eq!(Offset::zero(), Offset::east() + Offset::west());
}

#[test]
fn test_cardinal_sum_matches_weighted_units() {
    assert_eq!(
        Offset::cardinal_sum(1, 0, -1, 0),
        Offset::north() - Offset::south()
    );
    assert_eq!(
        Offset::cardinal_sum(0, 2, 0, 3),
        2 * Offset::east() + 3 * Offset::west()
    );
    assert_eq!(Offset::from((-1, 2)), Offset::cardinal_sum(1, 2, 3, 3));
}

#[test]
fn test_scalar_multiplication_commutes() {
    let v = Offset::from((4, -7));

    assert_eq!(v * 3, 3 * v);
    assert_eq!(v * -2, -2 * v);
    assert_eq!(v * 0, 0 * v);
}

#[test]
fn test_offset_arithmetic() {
    let a = Offset::from((3, -1));
    let b = Offset::from((-5, 4));

    assert_eq!(Offset::from((-2, 3)), a + b);
    assert_eq!(Offset::from((8, -5)), a - b);
    assert_eq!(Offset::from((6, -2)), a * 2);
}

#[test]
fn test_rcoord_examples() {
    let coord: Coord = (3, 5);

    let v1 = Offset::from((-3, 2));
    assert_eq!(Some((0, 7)), v1.rcoord(coord));

    let v2 = Offset::from((-4, 5));
    assert_eq!(None, v2.rcoord(coord));

    assert_eq!(None, Offset::north().rcoord((4, 0)));
    assert_eq!(Some((4, 1)), Offset::south().rcoord((4, 0)));
}

#[test]
fn test_rcoord_never_wraps_around() {
    let step_east = Offset::from((1, 0));
    assert_eq!(None, step_east.rcoord((usize::MAX, 0)));

    let step_south = Offset::from((0, 1));
    assert_eq!(None, step_south.rcoord((0, usize::MAX)));

    let stay = Offset::zero();
    assert_eq!(Some((usize::MAX, 0)), stay.rcoord((usize::MAX, 0)));
}
