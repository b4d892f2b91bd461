use datagrid::error::GridError;
use datagrid::geometry::{cell_geometry, extent_before, Cell};

#[test]
fn extent_before_sums_the_sizes_before_an_index() {
    let sizes = [10usize, 20, 30, 5];
    assert_eq!(extent_before(&sizes, 0), 0);
    assert_eq!(extent_before(&sizes, 1), 10);
    assert_eq!(extent_before(&sizes, 2), 30);
    assert_eq!(extent_before(&sizes, 3), 60);
    assert_eq!(extent_before(&sizes, 4), 65);
}

#[test]
fn extent_before_of_no_sizes_is_zero() {
    let sizes: [usize; 0] = [];
    assert_eq!(extent_before(&sizes, 0), 0);
}

#[test]
fn cell_geometry_with_uniform_sizes() {
    let heights = vec![26usize; 100];
    let widths = vec![100usize; 100];
    assert_eq!(
        cell_geometry(&heights, &widths, 0, 0),
        Ok(Cell { row: 0, col: 0, x: 0, y: 0, width: 100, height: 26 })
    );
    assert_eq!(
        cell_geometry(&heights, &widths, 3, 7),
        Ok(Cell { row: 3, col: 7, x: 700, y: 78, width: 100, height: 26 })
    );
    assert_eq!(
        cell_geometry(&heights, &widths, 99, 99),
        Ok(Cell { row: 99, col: 99, x: 9900, y: 2574, width: 100, height: 26 })
    );
}

#[test]
fn cell_geometry_with_sizes_that_differ() {
    let heights = [10usize, 0, 35, 7];
    let widths = [3usize, 50, 0, 0, 120];
    assert_eq!(
        cell_geometry(&heights, &widths, 2, 4),
        Ok(Cell { row: 2, col: 4, x: 53, y: 10, width: 120, height: 35 })
    );
    assert_eq!(
        cell_geometry(&heights, &widths, 3, 1),
        Ok(Cell { row: 3, col: 1, x: 3, y: 45, width: 50, height: 7 })
    );
    assert_eq!(
        cell_geometry(&heights, &widths, 1, 3),
        Ok(Cell { row: 1, col: 3, x: 53, y: 10, width: 0, height: 0 })
    );
}

#[test]
fn cell_geometry_agrees_with_running_sums() {
    let heights: Vec<usize> = (0..40).map(|i| (i * 7 + 3) % 31).collect();
    let widths: Vec<usize> = (0..50).map(|i| (i * 13 + 5) % 97).collect();
    let mut y = 0;
    for row in 0..heights.len() {
        let mut x = 0;
        for col in 0..widths.len() {
            assert_eq!(
                cell_geometry(&heights, &widths, row, col),
                Ok(Cell { row, col, x, y, width: widths[col], height: heights[row] })
            );
            x += widths[col];
        }
        y += heights[row];
    }
}

#[test]
fn cell_geometry_refuses_an_index_at_or_past_the_count() {
    let heights = [10usize, 20];
    let widths = [5usize, 6, 7];
    assert_eq!(cell_geometry(&heights, &widths, 2, 0), Err(GridError::OutOfBounds));
    assert_eq!(cell_geometry(&heights, &widths, 0, 3), Err(GridError::OutOfBounds));
    assert_eq!(cell_geometry(&heights, &widths, 9, 9), Err(GridError::OutOfBounds));
    assert_eq!(cell_geometry(&[], &widths, 0, 0), Err(GridError::OutOfBounds));
}

#[test]
fn cell_geometry_reaches_the_largest_coordinate() {
    let heights = [usize::MAX - 1, 1];
    let widths = [usize::MAX, 0];
    assert_eq!(
        cell_geometry(&heights, &widths, 1, 1),
        Ok(Cell { row: 1, col: 1, x: usize::MAX, y: usize::MAX - 1, width: 0, height: 1 })
    );
}
