use gridd::Grid;
use gridd::Offset;

#[test]
fn test_get_mut() {
    let mut grid = Grid::new(1, 1, 'a');
    let value = grid.get_mut((0, 0)).unwrap();

    assert_eq!(&'a', value);
    *value = 'b';
    assert_eq!(&'b', value);
}

#[test]
fn test_get_set() {
    let mut grid = Grid::new(5, 5, 'a');

    assert_eq!(Some(&'a'), grid.get((2, 3)));
    assert_eq!(Some(&'a'), grid.get((3, 3)));
    assert_eq!(Some(&'a'), grid.get((3, 4)));

    grid.set((2, 3), 'b');
    grid.set((3, 3), 'c');
    grid.set((3, 4), 'd');

    assert_eq!(Some(&'b'), grid.get((2, 3)));
    assert_eq!(Some(&'c'), grid.get((3, 3)));
    assert_eq!(Some(&'d'), grid.get((3, 4)));
}

#[test]
fn test_rget() {
    let mut grid = Grid::new(5, 5, 'a');

    assert_eq!(Some(&'a'), grid.get((2, 3)));

    grid.set((2, 3), 'b');

    assert_eq!(Some(&'b'), grid.rget((2, 4), Offset::north()));
    assert_eq!(Some(&mut 'b'), grid.rget_mut((2, 4), Offset::north()));
}

#[test]
fn test_rset() {
    let mut grid = Grid::new(5, 5, 'a');

    assert_eq!(Some(&'a'), grid.get((2, 3)));

    grid.rset((1, 1), Offset::from((1, 2)), 'b');

    assert_eq!(Some(&'b'), grid.rget((2, 4), Offset::north()));
    assert_eq!(Some(&mut 'b'), grid.rget_mut((2, 4), Offset::north()));
}

#[test]
fn test_transpose() {
    let src_col = 3;
    let src_row = 4;

    let mut grid = Grid::new(src_col, src_row, (0, 0));

    for i in 0..src_col {
        for j in 0..src_row {
            grid.set((i, j), (i, j));
        }
    }

    let tgrid = grid.transpose();

    assert_eq!(4, tgrid.col_count());
    assert_eq!(3, tgrid.row_count());

    for i in 0..src_col {
        for j in 0..src_row {
            assert_eq!(tgrid.get((j, i)), grid.get((i, j)));
        }
    }
}

#[test]
fn test_set_keeps_other_cells() {
    let mut grid = Grid::new(4, 4, 0u32);

    grid.set((1, 2), 7);

    for col in 0..4 {
        for row in 0..4 {
            if (col, row) == (1, 2) {
                assert_eq!(Some(&7), grid.get((col, row)));
            } else {
                assert_eq!(Some(&0), grid.get((col, row)));
            }
        }
    }
}

#[test]
fn test_out_of_range_access() {
    let mut grid = Grid::new(3, 2, 'a');

    assert_eq!(None, grid.get((3, 0)));
    assert_eq!(None, grid.get((0, 2)));
    assert_eq!(None, grid.get_mut((5, 5)));

    grid.set((3, 0), 'z');
    grid.set((0, 2), 'z');

    for col in 0..3 {
        for row in 0..2 {
            assert_eq!(Some(&'a'), grid.get((col, row)));
        }
    }
}

#[test]
fn test_contains() {
    let grid = Grid::new(3, 2, 0u8);

    assert!(grid.contains((0, 0)));
    assert!(grid.contains((2, 1)));
    assert!(!grid.contains((3, 1)));
    assert!(!grid.contains((2, 2)));
}

#[test]
fn test_square() {
    let grid = Grid::square(3, 'q');

    assert_eq!(3, grid.col_count());
    assert_eq!(3, grid.row_count());
    assert_eq!(Some(&'q'), grid.get((2, 2)));
}

#[test]
fn test_empty_grid() {
    let no_cols: Grid<char> = Grid::new(0, 4, 'a');
    let no_rows: Grid<char> = Grid::new(4, 0, 'a');

    assert!(!no_cols.contains((0, 0)));
    assert!(!no_rows.contains((0, 0)));
    assert_eq!(None, no_cols.get((0, 0)));
    assert_eq!(None, no_rows.get((0, 3)));
    assert_eq!(None, no_rows.get((3, 0)));
}

#[test]
fn test_transpose_of_cell_free_grid_is_zero_by_zero() {
    let no_rows: Grid<char> = Grid::new(4, 0, 'a');
    let tgrid = no_rows.transpose();

    assert_eq!(0, tgrid.col_count());
    assert_eq!(0, tgrid.row_count());
}

#[test]
fn test_transpose_involution() {
    let mut grid = Grid::new(3, 4, 0i32);
    for i in 0..3 {
        for j in 0..4 {
            grid.set((i, j), (10 * i + j) as i32);
        }
    }

    let back = grid.transpose().transpose();

    assert_eq!(grid.col_count(), back.col_count());
    assert_eq!(grid.row_count(), back.row_count());
    for i in 0..3 {
        for j in 0..4 {
            assert_eq!(grid.get((i, j)), back.get((i, j)));
        }
    }
}

#[test]
fn test_rget_matches_apply() {
    let mut grid = Grid::new(5, 5, 'a');
    grid.set((2, 3), 'b');

    let offset = Offset::from((-1, 2));
    let anchor = (3, 1);

    let applied = offset.rcoord(anchor).unwrap();
    assert_eq!((2, 3), applied);
    assert_eq!(grid.get(applied), grid.rget(anchor, offset));

    // The anchor sits on the northern edge, so a northern step resolves to
    // no coordinate at all.
    assert_eq!(None, Offset::north().rcoord((0, 0)));
    assert_eq!(None, grid.rget((0, 0), Offset::north()));

    // An in-range application can still fall off the grid's far edge.
    assert_eq!(Some((4, 5)), Offset::south().rcoord((4, 4)));
    assert_eq!(None, grid.rget((4, 4), Offset::south()));
}

#[test]
fn test_rset_out_of_range_is_noop() {
    let mut grid = Grid::new(2, 2, 'a');

    grid.rset((0, 0), Offset::north(), 'z');
    grid.rset((1, 1), Offset::from((5, 5)), 'z');

    for col in 0..2 {
        for row in 0..2 {
            assert_eq!(Some(&'a'), grid.get((col, row)));
        }
    }
}
