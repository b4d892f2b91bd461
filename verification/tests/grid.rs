use datagrid::error::GridError;
use datagrid::geometry::Cell;
use datagrid::grid::{CellProperty, DataGrid, TextAlign};
use datagrid::selection::{Direction, SelectedCellRange};

fn grid() -> DataGrid {
    DataGrid::new(500, 300).unwrap()
}

fn cell(row: usize, col: usize) -> Option<SelectedCellRange> {
    Some(SelectedCellRange { start_row: row, start_col: col, end_row: row, end_col: col })
}

#[test]
fn create_grid_has_rows_of_columns() {
    let table = DataGrid::create_grid(3, 5, String::from("x"));
    assert_eq!(table.len(), 3);
    for line in &table {
        assert_eq!(line, &vec![String::from("x"); 5]);
    }
    let none: Vec<Vec<u8>> = DataGrid::create_grid(0, 5, 1);
    assert!(none.is_empty());
    let thin: Vec<Vec<u8>> = DataGrid::create_grid(2, 0, 1);
    assert_eq!(thin, vec![Vec::<u8>::new(), Vec::new()]);
}

#[test]
fn new_grid_refuses_an_empty_viewport() {
    assert!(matches!(DataGrid::new(0, 300), Err(GridError::OutOfBounds)));
    assert!(matches!(DataGrid::new(500, 0), Err(GridError::OutOfBounds)));
    assert!(matches!(DataGrid::new(0, 0), Err(GridError::OutOfBounds)));
    assert!(DataGrid::new(1, 1).is_ok());
}

#[test]
fn new_grid_has_a_hundred_rows_and_columns() {
    let grid = grid();
    assert_eq!(grid.view_window().row_count(), 100);
    assert_eq!(grid.view_window().col_count(), 100);
    assert_eq!(grid.view_window().col_widths(), vec![100usize; 100].as_slice());
    assert_eq!(grid.row_heights(), vec![26usize; 100].as_slice());
    assert_eq!(grid.view_window().visible_row_count(), 12);
    assert_eq!(grid.view_window().width(), 500);
    assert_eq!(grid.view_window().height(), 300);
    assert_eq!(grid.view_window().cur_row(), 1);
    assert_eq!(grid.view_window().cur_col(), 1);
}

#[test]
fn new_grid_holds_the_header_texts() {
    let texts = grid().get_spreadsheet_data();
    assert_eq!(texts.len(), 100);
    assert!(texts.iter().all(|line| line.len() == 100));
    assert_eq!(texts[0][0], "");
    assert_eq!(texts[0][1], "A");
    assert_eq!(texts[0][26], "Z");
    assert_eq!(texts[0][27], "AA");
    assert_eq!(texts[0][52], "AZ");
    assert_eq!(texts[0][99], "CU");
    assert_eq!(texts[1][0], "1");
    assert_eq!(texts[10][0], "10");
    assert_eq!(texts[99][0], "99");
    for row in 1..100 {
        for col in 1..100 {
            assert_eq!(texts[row][col], "");
        }
    }
}

#[test]
fn new_grid_aligns_every_cell_left() {
    let grid = grid();
    let left = Some(CellProperty { text_align: TextAlign::Left });
    assert_eq!(grid.cell_property(0, 0), left);
    assert_eq!(grid.cell_property(99, 99), left);
    assert_eq!(grid.cell_property(100, 0), None);
    assert_eq!(grid.cell_property(0, 100), None);
}

#[test]
fn new_grid_selects_the_corner_cell() {
    let grid = grid();
    assert_eq!(grid.selected_cell_range(), cell(0, 0));
    assert_eq!(
        grid.get_selected_cell(),
        Ok(Some(Cell { row: 0, col: 0, x: 0, y: 0, width: 100, height: 26 }))
    );
}

#[test]
fn move_selection_up_from_the_corner_stays() {
    let mut grid = grid();
    grid.move_selection(Direction::UP);
    assert_eq!(grid.selected_cell_range(), cell(0, 0));
    grid.move_selection(Direction::LEFT);
    assert_eq!(grid.selected_cell_range(), cell(0, 0));
}

#[test]
fn move_selection_goes_one_cell() {
    let mut grid = grid();
    grid.move_selection(Direction::DOWN);
    assert_eq!(grid.selected_cell_range(), cell(1, 0));
    grid.move_selection(Direction::RIGHT);
    assert_eq!(grid.selected_cell_range(), cell(1, 1));
    grid.move_selection(Direction::RIGHT);
    grid.move_selection(Direction::DOWN);
    assert_eq!(grid.selected_cell_range(), cell(2, 2));
    grid.move_selection(Direction::UP);
    assert_eq!(grid.selected_cell_range(), cell(1, 2));
    grid.move_selection(Direction::LEFT);
    assert_eq!(grid.selected_cell_range(), cell(1, 1));
    assert_eq!(
        grid.get_selected_cell(),
        Ok(Some(Cell { row: 1, col: 1, x: 100, y: 26, width: 100, height: 26 }))
    );
}

#[test]
fn move_selection_stays_in_the_rows_of_the_grid() {
    let mut grid = grid();
    for _ in 0..250 {
        grid.move_selection(Direction::DOWN);
        assert!(grid.selected_cell_range().unwrap().start_row <= 99);
    }
    assert_eq!(grid.selected_cell_range(), cell(99, 0));
    for _ in 0..250 {
        grid.move_selection(Direction::UP);
    }
    assert_eq!(grid.selected_cell_range(), cell(0, 0));
}

#[test]
fn move_selection_right_ends_one_past_the_last_column() {
    let mut grid = grid();
    for _ in 0..99 {
        grid.move_selection(Direction::RIGHT);
        assert!(grid.selected_cell_range().unwrap().start_col <= 99);
    }
    assert_eq!(grid.selected_cell_range(), cell(0, 99));
    grid.move_selection(Direction::RIGHT);
    assert_eq!(grid.selected_cell_range(), cell(0, 100));
    assert_eq!(grid.get_selected_cell(), Err(GridError::OutOfBounds));
    for _ in 0..50 {
        grid.move_selection(Direction::RIGHT);
    }
    assert_eq!(grid.selected_cell_range(), cell(0, 100));
    grid.move_selection(Direction::DOWN);
    assert_eq!(grid.selected_cell_range(), cell(1, 100));
    grid.move_selection(Direction::LEFT);
    assert_eq!(grid.selected_cell_range(), cell(1, 99));
    assert_eq!(
        grid.get_selected_cell(),
        Ok(Some(Cell { row: 1, col: 99, x: 9900, y: 26, width: 100, height: 26 }))
    );
}

#[test]
fn move_selection_does_not_scroll() {
    let mut grid = grid();
    for _ in 0..60 {
        grid.move_selection(Direction::DOWN);
        grid.move_selection(Direction::RIGHT);
    }
    assert_eq!(grid.view_window().cur_row(), 1);
    assert_eq!(grid.view_window().cur_col(), 1);
}

#[test]
fn scrolling_does_not_move_the_selection() {
    let mut grid = grid();
    grid.move_selection(Direction::DOWN);
    grid.vertical_move(40);
    grid.horizontal_move(40);
    assert_eq!(grid.selected_cell_range(), cell(1, 0));
}

#[test]
fn vertical_move_scrolls_the_window() {
    let mut grid = grid();
    grid.vertical_move(0);
    assert_eq!(grid.view_window().cur_row(), 1);
    grid.vertical_move(50);
    assert_eq!(grid.view_window().cur_row(), 51);
    grid.vertical_move(50);
    assert_eq!(grid.view_window().cur_row(), 90);
    grid.vertical_move(-1000);
    assert_eq!(grid.view_window().cur_row(), 1);
}

#[test]
fn horizontal_move_scrolls_the_window() {
    let mut grid = grid();
    grid.horizontal_move(12);
    assert_eq!(grid.view_window().cur_col(), 13);
    grid.horizontal_move(1000);
    assert_eq!(grid.view_window().cur_col(), 100);
    grid.horizontal_move(-1000);
    assert_eq!(grid.view_window().cur_col(), 1);
}

#[test]
fn scroll_moves_rows_and_columns() {
    let mut grid = grid();
    grid.scroll(7, 9);
    assert_eq!(grid.view_window().cur_row(), 8);
    assert_eq!(grid.view_window().cur_col(), 10);
    grid.scroll(-100, 100);
    assert_eq!(grid.view_window().cur_row(), 1);
    assert_eq!(grid.view_window().cur_col(), 100);
}

#[test]
fn resize_viewport_takes_the_new_size() {
    let mut grid = grid();
    grid.vertical_move(1000);
    assert_eq!(grid.resize_viewport(250, 600), Ok(()));
    assert_eq!(grid.view_window().width(), 250);
    assert_eq!(grid.view_window().height(), 600);
    assert_eq!(grid.view_window().visible_row_count(), 24);
    assert_eq!(grid.view_window().cur_row(), 78);
    let lines = grid.get_grid();
    assert_eq!(lines.len(), 23);
    assert!(lines.iter().all(|line| line.len() == 3));
}

#[test]
fn resize_viewport_refuses_an_empty_viewport() {
    let mut grid = grid();
    assert_eq!(grid.resize_viewport(0, 600), Err(GridError::OutOfBounds));
    assert_eq!(grid.resize_viewport(600, 0), Err(GridError::OutOfBounds));
    assert_eq!(grid.view_window().width(), 500);
    assert_eq!(grid.view_window().height(), 300);
    assert_eq!(grid.view_window().visible_row_count(), 12);
}

#[test]
fn get_grid_of_a_new_grid() {
    let lines = grid().get_grid();
    assert_eq!(lines.len(), 12);
    for (i, line) in lines.iter().enumerate() {
        assert_eq!(line.len(), 5);
        for (j, shown) in line.iter().enumerate() {
            assert_eq!(
                *shown,
                Cell { row: i, col: j, x: 100 * j, y: 26 * i, width: 100, height: 26 }
            );
        }
    }
}

#[test]
fn get_grid_after_scrolling() {
    let mut grid = grid();
    grid.vertical_move(89);
    grid.horizontal_move(97);
    let lines = grid.get_grid();
    let rows = [0usize, 90, 91, 92, 93, 94, 95, 96, 97, 98, 99];
    let cols = [0usize, 98, 99];
    assert_eq!(lines.len(), rows.len());
    for (i, line) in lines.iter().enumerate() {
        assert_eq!(line.len(), cols.len());
        for (j, shown) in line.iter().enumerate() {
            assert_eq!(
                *shown,
                Cell {
                    row: rows[i],
                    col: cols[j],
                    x: 100 * cols[j],
                    y: 26 * rows[i],
                    width: 100,
                    height: 26
                }
            );
        }
    }
}

#[test]
fn get_grid_is_the_same_on_every_call() {
    let mut grid = grid();
    grid.scroll(17, 23);
    assert_eq!(grid.get_grid(), grid.get_grid());
}

#[test]
fn cell_geometry_of_the_grid() {
    let grid = grid();
    assert_eq!(
        grid.cell_geometry(4, 6),
        Ok(Cell { row: 4, col: 6, x: 600, y: 104, width: 100, height: 26 })
    );
    assert_eq!(grid.cell_geometry(100, 6), Err(GridError::OutOfBounds));
    assert_eq!(grid.cell_geometry(4, 100), Err(GridError::OutOfBounds));
}

#[test]
fn update_cell_data_writes_one_cell() {
    let mut grid = grid();
    let before = grid.get_spreadsheet_data();
    assert_eq!(grid.update_cell_data(3, 4, String::from("hello")), Ok(()));
    let after = grid.get_spreadsheet_data();
    let mut changed = 0;
    for row in 0..100 {
        for col in 0..100 {
            if (row, col) == (3, 4) {
                assert_eq!(after[row][col], "hello");
            } else {
                assert_eq!(after[row][col], before[row][col]);
            }
            if after[row][col] != before[row][col] {
                changed += 1;
            }
        }
    }
    assert_eq!(changed, 1);
}

#[test]
fn update_cell_data_overwrites() {
    let mut grid = grid();
    assert_eq!(grid.update_cell_data(0, 1, String::from("Name")), Ok(()));
    assert_eq!(grid.update_cell_data(99, 99, String::from("end")), Ok(()));
    assert_eq!(grid.update_cell_data(99, 99, String::from("last")), Ok(()));
    assert_eq!(grid.update_cell_data(5, 5, String::new()), Ok(()));
    let texts = grid.get_spreadsheet_data();
    assert_eq!(texts[0][1], "Name");
    assert_eq!(texts[0][2], "B");
    assert_eq!(texts[99][99], "last");
    assert_eq!(texts[5][5], "");
}

#[test]
fn update_cell_data_refuses_an_index_at_or_past_the_count() {
    let mut grid = grid();
    let before = grid.get_spreadsheet_data();
    assert_eq!(grid.update_cell_data(100, 0, String::from("x")), Err(GridError::OutOfBounds));
    assert_eq!(grid.update_cell_data(0, 100, String::from("x")), Err(GridError::OutOfBounds));
    assert_eq!(
        grid.update_cell_data(usize::MAX, usize::MAX, String::from("x")),
        Err(GridError::OutOfBounds)
    );
    assert_eq!(grid.get_spreadsheet_data(), before);
}

#[test]
fn the_snapshot_is_a_copy() {
    let mut grid = grid();
    let mut copy = grid.get_spreadsheet_data();
    copy[2][2] = String::from("changed");
    assert_eq!(grid.get_spreadsheet_data()[2][2], "");
    assert_eq!(grid.update_cell_data(2, 2, String::from("written")), Ok(()));
    assert_eq!(copy[2][2], "changed");
}

#[test]
fn update_cell_data_leaves_window_and_selection() {
    let mut grid = grid();
    grid.scroll(3, 4);
    grid.move_selection(Direction::DOWN);
    assert_eq!(grid.update_cell_data(1, 1, String::from("x")), Ok(()));
    assert_eq!(grid.view_window().cur_row(), 4);
    assert_eq!(grid.view_window().cur_col(), 5);
    assert_eq!(grid.selected_cell_range(), cell(1, 0));
}
