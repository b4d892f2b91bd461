//! The grid: cell texts and properties, the row heights, the selected cell
//! and the viewport window, behind the calls that a rendering layer makes.

use vstd::prelude::*;
use crate::column::{column_label, number_to_column_name};
use crate::decimal::{decimal, decimal_string};
use crate::error::GridError;
use crate::geometry::{Cell, cell_geometry, is_cell_at, lemma_extent_uniform, total_extent};
use crate::selection::{Direction, RangeState, SelectedCellRange};
use crate::window::{ViewWindow, WindowState, lists};

verus! {

/// How a cell's text is aligned.
#[derive(Clone, Copy, Debug, PartialEq, Eq, Structural)]
pub enum TextAlign {
    Left,
}

/// How a cell is displayed.
#[derive(Clone, Copy, Debug, PartialEq, Eq, Structural)]
pub struct CellProperty {
    pub text_align: TextAlign,
}

/// The number of rows of a new grid.
pub const ROW_COUNT: usize = 100;

/// The number of columns of a new grid.
pub const COL_COUNT: usize = 100;

/// The height of every row of a new grid, in pixels.
pub const ROW_HEIGHT: usize = 26;

/// The width of every column of a new grid, in pixels.
pub const COL_WIDTH: usize = 100;

/// What a [`DataGrid`] holds, as mathematical values.
pub struct GridState {
    /// The text of each cell: `text[row][col]`.
    pub text: Seq<Seq<Seq<char>>>,
    /// The display properties of each cell: `properties[row][col]`.
    pub properties: Seq<Seq<CellProperty>>,
    /// The height of each row in pixels.
    pub row_heights: Seq<usize>,
    /// The selected cell, if there is one.
    pub selection: Option<RangeState>,
    /// The viewport window.
    pub window: WindowState,
}

/// The text that a new grid shows at `(row, col)`: the column's label in
/// the header row, the row's number in the header column, and nothing in
/// the corner and in all other cells.
pub open spec fn header_text(row: int, col: int) -> Seq<char> {
    if row == 0 && col > 0 {
        column_label(col as nat)
    } else if row > 0 && col == 0 {
        decimal(row as nat)
    } else {
        Seq::empty()
    }
}

/// Whether `table` has `rows` rows of `cols` entries each.
pub open spec fn has_shape<T>(table: Seq<Seq<T>>, rows: int, cols: int) -> bool {
    &&& table.len() == rows
    &&& forall|r: int| 0 <= r < rows ==> (#[trigger] table[r]).len() == cols
}

impl GridState {
    /// What holds of every grid: texts, properties and row heights are as
    /// many as the window's grid has rows and columns, and the selection is
    /// a single cell in a row of the grid and in a column of the grid or
    /// the one after the last.
    pub open spec fn wf(self) -> bool {
        &&& self.window.wf()
        &&& has_shape(self.text, self.window.row_count, self.window.col_count)
        &&& has_shape(self.properties, self.window.row_count, self.window.col_count)
        &&& self.row_heights.len() == self.window.row_count
        &&& self.selection matches Some(range) ==> {
            &&& range.is_single_cell()
            &&& 0 <= range.start_row < self.window.row_count
            &&& 0 <= range.start_col <= self.window.col_count
        }
    }

    /// The grid that a viewport of the given size opens on: rows and
    /// columns of one size, header texts, every cell aligned left, the
    /// corner cell selected, scrolled to the top left.
    pub open spec fn initial(width: int, height: int) -> GridState {
        GridState {
            text: Seq::new(
                ROW_COUNT as nat,
                |r: int| Seq::new(COL_COUNT as nat, |c: int| header_text(r, c)),
            ),
            properties: Seq::new(
                ROW_COUNT as nat,
                |r: int|
                    Seq::new(
                        COL_COUNT as nat,
                        |c: int| CellProperty { text_align: TextAlign::Left },
                    ),
            ),
            row_heights: Seq::new(ROW_COUNT as nat, |r: int| ROW_HEIGHT),
            selection: Some(RangeState::at(0, 0)),
            window: WindowState::initial(
                width,
                height,
                ROW_COUNT as int,
                COL_COUNT as int,
                Seq::new(COL_COUNT as nat, |c: int| COL_WIDTH),
                ROW_HEIGHT as int,
            ),
        }
    }

    /// The grid after scrolling by `step` rows.
    pub open spec fn scrolled_rows(self, step: int) -> GridState {
        GridState { window: self.window.scrolled_rows(step), ..self }
    }

    /// The grid after scrolling by `step` columns.
    pub open spec fn scrolled_cols(self, step: int) -> GridState {
        GridState { window: self.window.scrolled_cols(step), ..self }
    }

    /// The grid after scrolling by `d_row` rows and then by `d_col`
    /// columns.
    pub open spec fn scrolled(self, d_row: int, d_col: int) -> GridState {
        self.scrolled_rows(d_row).scrolled_cols(d_col)
    }

    /// The grid under a viewport of the new size.
    pub open spec fn resized(self, width: int, height: int) -> GridState {
        GridState { window: self.window.resized(width, height), ..self }
    }

    /// The grid after the selection moved one step in `direction`, with
    /// the grid's row and column counts as the bounds. Without a selection
    /// nothing moves.
    pub open spec fn moved(self, direction: Direction) -> GridState {
        match self.selection {
            Some(range) => GridState {
                selection: Some(
                    range.stepped(direction, self.window.row_count, self.window.col_count),
                ),
                ..self
            },
            None => self,
        }
    }

    /// The grid after the selection moved one step in each of
    /// `directions`, in order.
    pub open spec fn after_moves(self, directions: Seq<Direction>) -> GridState
        decreases directions.len(),
    {
        if directions.len() == 0 {
            self
        } else {
            self.after_moves(directions.drop_last()).moved(directions.last())
        }
    }

    /// Whether the selection, if there is one, starts in a row of the grid.
    pub open spec fn selection_in_rows(self) -> bool {
        self.selection matches Some(range) ==> 0 <= range.start_row <= self.window.row_count - 1
    }

    /// Whether the selection, if there is one, starts in a column of the
    /// grid.
    pub open spec fn selection_in_cols(self) -> bool {
        self.selection matches Some(range) ==> 0 <= range.start_col <= self.window.col_count - 1
    }

    /// Whether the selection is on the last column of the grid.
    pub open spec fn selection_on_last_col(self) -> bool {
        self.selection matches Some(range) && range.start_col == self.window.col_count - 1
    }

    /// Whether `lines` holds the visible cells: one line for each shown
    /// row, and in it one cell for each shown column, in order, each with
    /// its geometry.
    pub open spec fn shows(self, lines: Seq<Vec<Cell>>) -> bool {
        let rows = self.window.visible_rows();
        let cols = self.window.visible_cols();
        &&& lines.len() == rows.len()
        &&& forall|i: int| 0 <= i < rows.len() ==> (#[trigger] lines[i])@.len() == cols.len()
        &&& forall|i: int, j: int|
            0 <= i < rows.len() && 0 <= j < cols.len() ==> is_cell_at(
                #[trigger] lines[i]@[j],
                self.row_heights,
                self.window.col_widths,
                rows[i],
                cols[j],
            )
    }

    /// The grid with `text` written at `(row, col)`.
    pub open spec fn with_text(self, row: int, col: int, text: Seq<char>) -> GridState {
        GridState { text: self.text.update(row, self.text[row].update(col, text)), ..self }
    }
}

/// A move of the selection keeps a grid well formed: the selection stays a
/// single cell, in a row of the grid. It stays in a column of the grid on
/// every move but one: a step right from the last column ends one column
/// past it, and no step goes further.
pub proof fn lemma_move_keeps_selection_in_grid(grid: GridState, direction: Direction)
    requires
        grid.wf(),
    ensures
        grid.moved(direction).wf(),
        grid.moved(direction).selection_in_rows(),
        grid.selection_in_cols() && !(direction == Direction::RIGHT
            && grid.selection_on_last_col()) ==> grid.moved(direction).selection_in_cols(),
        direction == Direction::RIGHT && grid.selection_on_last_col() ==> grid.moved(
            direction,
        ).selection->0.start_col == grid.window.col_count,
        grid.moved(direction).selection matches Some(range) ==> range.start_col
            <= grid.window.col_count,
{
}

/// However often the selection moves, and in whatever directions, the grid
/// stays well formed, the window stays where it is, and the selection
/// stays in a row of the grid and at most one column past the last.
pub proof fn lemma_moves_keep_selection_in_rows(grid: GridState, directions: Seq<Direction>)
    requires
        grid.wf(),
    ensures
        grid.after_moves(directions).wf(),
        grid.after_moves(directions).selection_in_rows(),
        grid.after_moves(directions).selection matches Some(range) ==> 0 <= range.start_col
            <= grid.window.col_count,
        grid.after_moves(directions).window == grid.window,
    decreases directions.len(),
{
    if directions.len() > 0 {
        lemma_moves_keep_selection_in_rows(grid, directions.drop_last());
        lemma_move_keeps_selection_in_grid(
            grid.after_moves(directions.drop_last()),
            directions.last(),
        );
    }
}

/// Over any number of moves, a selection in a column of the grid stays in
/// one, as long as no move goes right from the last column.
pub proof fn lemma_moves_keep_selection_in_cols(grid: GridState, directions: Seq<Direction>)
    requires
        grid.wf(),
        grid.selection_in_cols(),
        forall|i: int|
            0 <= i < directions.len() ==> !(directions[i] == Direction::RIGHT
                && #[trigger] grid.after_moves(directions.take(i)).selection_on_last_col()),
    ensures
        grid.after_moves(directions).selection_in_cols(),
    decreases directions.len(),
{
    if directions.len() > 0 {
        let earlier = directions.drop_last();
        assert forall|i: int| 0 <= i < earlier.len() implies !(earlier[i] == Direction::RIGHT
            && #[trigger] grid.after_moves(earlier.take(i)).selection_on_last_col()) by {
            assert(earlier.take(i) =~= directions.take(i));
        }
        lemma_moves_keep_selection_in_cols(grid, earlier);
        lemma_moves_keep_selection_in_rows(grid, earlier);
        assert(directions.take(directions.len() - 1) =~= earlier);
        lemma_move_keeps_selection_in_grid(grid.after_moves(earlier), directions.last());
    }
}

/// A write shows in the texts at its cell and nowhere else: the written
/// cell holds the new text, every other cell holds what it held, and the
/// rest of the grid is as it was.
pub proof fn lemma_write_shows_once(grid: GridState, row: int, col: int, text: Seq<char>)
    requires
        grid.wf(),
        0 <= row < grid.window.row_count,
        0 <= col < grid.window.col_count,
    ensures
        grid.with_text(row, col, text).wf(),
        grid.with_text(row, col, text).text[row][col] == text,
        forall|r: int, c: int|
            0 <= r < grid.window.row_count && 0 <= c < grid.window.col_count && (r != row || c
                != col) ==> #[trigger] grid.with_text(row, col, text).text[r][c]
                == grid.text[r][c],
        grid.with_text(row, col, text).properties == grid.properties,
        grid.with_text(row, col, text).row_heights == grid.row_heights,
        grid.with_text(row, col, text).selection == grid.selection,
        grid.with_text(row, col, text).window == grid.window,
{
}

/// The texts that a table of strings holds.
pub open spec fn texts(table: Seq<Vec<String>>) -> Seq<Seq<Seq<char>>> {
    Seq::new(table.len(), |r: int| Seq::new(table[r]@.len(), |c: int| table[r]@[c]@))
}

/// Writes `value` at `(row, col)` of `table` and leaves every other entry,
/// and the table's shape, as they are.
fn write_text(table: &mut Vec<Vec<String>>, row: usize, col: usize, value: String)
    requires
        row < old(table)@.len(),
        col < old(table)@[row as int]@.len(),
    ensures
        texts(final(table)@) == texts(old(table)@).update(
            row as int,
            texts(old(table)@)[row as int].update(col as int, value@),
        ),
    no_unwind
{
    table[row][col] = value;
    proof {
        assert(texts(table@) =~~= texts(old(table)@).update(
            row as int,
            texts(old(table)@)[row as int].update(col as int, value@),
        ));
    }
}

/// The grid.
pub struct DataGrid {
    cell_properties: Vec<Vec<CellProperty>>,
    spreadsheet_data: Vec<Vec<String>>,
    selected_cell_range: Option<SelectedCellRange>,
    view_window: ViewWindow,
    row_heights: Vec<usize>,
}

impl View for DataGrid {
    type V = GridState;

    closed spec fn view(&self) -> GridState {
        GridState {
            text: texts(self.spreadsheet_data@),
            properties: Seq::new(
                self.cell_properties@.len(),
                |r: int| self.cell_properties@[r]@,
            ),
            row_heights: self.row_heights@,
            selection: match self.selected_cell_range {
                Some(range) => Some(range@),
                None => None,
            },
            window: self.view_window@,
        }
    }
}

impl DataGrid {
    /// What holds of every grid: its state is well formed, the row heights
    /// together fit the machine, and the window derives its rows from the
    /// height of a new grid's rows.
    #[verifier::type_invariant]
    spec fn inv(&self) -> bool {
        &&& self@.wf()
        &&& total_extent(self.row_heights@) <= usize::MAX
        &&& self@.window.row_height == ROW_HEIGHT
    }

    /// A table of `row_count` rows of `col_count` entries, each a clone of
    /// `default_value`.
    pub fn create_grid<T: Clone>(row_count: usize, col_count: usize, default_value: T) -> (table:
        Vec<Vec<T>>)
        ensures
            table@.len() == row_count,
            forall|r: int| 0 <= r < row_count ==> (#[trigger] table@[r])@.len() == col_count,
            forall|r: int, c: int|
                0 <= r < row_count && 0 <= c < col_count ==> cloned(
                    default_value,
                    #[trigger] table@[r]@[c],
                ),
    {
        let mut table: Vec<Vec<T>> = Vec::new();
        let mut r: usize = 0;
        while r < row_count
            invariant
                r <= row_count,
                table@.len() == r,
                forall|i: int| 0 <= i < r ==> (#[trigger] table@[i])@.len() == col_count,
                forall|i: int, c: int|
                    0 <= i < r && 0 <= c < col_count ==> cloned(
                        default_value,
                        #[trigger] table@[i]@[c],
                    ),
            decreases row_count - r,
        {
            let mut line: Vec<T> = Vec::new();
            let mut c: usize = 0;
            while c < col_count
                invariant
                    c <= col_count,
                    line@.len() == c,
                    forall|j: int| 0 <= j < c ==> cloned(default_value, #[trigger] line@[j]),
                decreases col_count - c,
            {
                line.push(default_value.clone());
                c = c + 1;
            }
            table.push(line);
            r = r + 1;
        }
        table
    }

    /// The viewport window.
    pub fn view_window(&self) -> (window: &ViewWindow)
        ensures
            window@ == self@.window,
    {
        &self.view_window
    }

    /// The selection, if there is one.
    pub fn selected_cell_range(&self) -> (selection: Option<SelectedCellRange>)
        ensures
            selection is Some <==> self@.selection is Some,
            selection matches Some(range) ==> self@.selection == Some(range@),
    {
        self.selected_cell_range
    }

    /// The height of each row in pixels.
    pub fn row_heights(&self) -> (heights: &[usize])
        ensures
            heights@ == self@.row_heights,
    {
        self.row_heights.as_slice()
    }

    /// The display properties of the cell at `(row, col)`, or `None` for an
    /// index that is not below its count.
    pub fn cell_property(&self, row: usize, col: usize) -> (property: Option<CellProperty>)
        ensures
            self@.wf(),
            property == if row < self@.window.row_count && col < self@.window.col_count {
                Some(self@.properties[row as int][col as int])
            } else {
                None
            },
    {
        proof {
            use_type_invariant(self);
        }
        if row < self.view_window.row_count() && col < self.view_window.col_count() {
            assert(self@.properties[row as int] == self.cell_properties@[row as int]@);
            Some(self.cell_properties[row][col])
        } else {
            None
        }
    }

    /// Scrolls the window by `step` rows, down for a positive step.
    pub fn vertical_move(&mut self, step: isize)
        ensures
            final(self)@ == old(self)@.scrolled_rows(step as int),
            final(self)@.wf(),
    {
        proof {
            use_type_invariant(&*self);
        }
        self.view_window.vertical_move(step);
    }

    /// Scrolls the window by `step` columns, right for a positive step.
    pub fn horizontal_move(&mut self, step: isize)
        ensures
            final(self)@ == old(self)@.scrolled_cols(step as int),
            final(self)@.wf(),
    {
        proof {
            use_type_invariant(&*self);
        }
        self.view_window.horizontal_move(step);
    }

    /// Scrolls the window by `d_row` rows and `d_col` columns.
    pub fn scroll(&mut self, d_row: isize, d_col: isize)
        ensures
            final(self)@ == old(self)@.scrolled(d_row as int, d_col as int),
            final(self)@.wf(),
    {
        self.vertical_move(d_row);
        self.horizontal_move(d_col);
    }

    /// Takes a new viewport size in pixels. The number of rows that the
    /// viewport has room for follows the new height, and the scroll row is
    /// brought into its new bounds. A viewport without width or height is
    /// refused, and the grid stays as it was.
    pub fn resize_viewport(&mut self, width: usize, height: usize) -> (done: Result<
        (),
        GridError,
    >)
        ensures
            final(self)@.wf(),
            width == 0 || height == 0 ==> done is Err && done->Err_0 == GridError::OutOfBounds
                && final(self)@ == old(self)@,
            width > 0 && height > 0 ==> done is Ok && final(self)@ == old(self)@.resized(
                width as int,
                height as int,
            ),
    {
        proof {
            use_type_invariant(&*self);
        }
        self.view_window.resize(width, height)
    }

    /// Moves the selection one cell in `direction`, within the grid's rows
    /// and up to one column past its last. The window does not follow.
    pub fn move_selection(&mut self, direction: Direction)
        ensures
            final(self)@ == old(self)@.moved(direction),
            final(self)@.wf(),
    {
        proof {
            use_type_invariant(&*self);
        }
        let row_count: usize = self.view_window.row_count();
        let col_count: usize = self.view_window.col_count();
        if let Some(range) = self.selected_cell_range {
            let moved: SelectedCellRange = match direction {
                Direction::UP => range.move_up(),
                Direction::DOWN => match range.move_down(row_count) {
                    Ok(below) => below,
                    Err(_) => range,
                },
                Direction::LEFT => range.move_left(),
                Direction::RIGHT => range.move_right(col_count),
            };
            self.selected_cell_range = Some(moved);
        }
    }

    /// The cell at `(row, col)` with its geometry. An index that is not
    /// below its count is refused.
    pub fn cell_geometry(&self, row: usize, col: usize) -> (cell: Result<Cell, GridError>)
        ensures
            self@.wf(),
            row >= self@.window.row_count || col >= self@.window.col_count ==> cell is Err
                && cell->Err_0 == GridError::OutOfBounds,
            row < self@.window.row_count && col < self@.window.col_count ==> cell is Ok
                && is_cell_at(
                cell->Ok_0,
                self@.row_heights,
                self@.window.col_widths,
                row as int,
                col as int,
            ),
    {
        proof {
            use_type_invariant(self);
        }
        cell_geometry(self.row_heights.as_slice(), self.view_window.col_widths(), row, col)
    }

    /// The selected cell with its geometry, or `None` without a selection.
    /// A selection one past the last column has no cell and is refused.
    pub fn get_selected_cell(&self) -> (cell: Result<Option<Cell>, GridError>)
        ensures
            self@.wf(),
            self@.selection is None ==> cell is Ok && cell->Ok_0 is None,
            self@.selection matches Some(range) ==> {
                if range.start_col < self@.window.col_count {
                    &&& cell matches Ok(Some(selected))
                    &&& is_cell_at(
                        selected,
                        self@.row_heights,
                        self@.window.col_widths,
                        range.start_row as int,
                        range.start_col as int,
                    )
                } else {
                    cell is Err && cell->Err_0 == GridError::OutOfBounds
                }
            },
    {
        proof {
            use_type_invariant(self);
        }
        match self.selected_cell_range {
            Some(range) => match self.cell_geometry(range.start_row, range.start_col) {
                Ok(selected) => Ok(Some(selected)),
                Err(refusal) => Err(refusal),
            },
            None => Ok(None),
        }
    }

    /// Writes `value` as the text of the cell at `(row, col)`. An index that
    /// is not below its count is refused, and nothing is written.
    pub fn update_cell_data(&mut self, row: usize, col: usize, value: String) -> (done: Result<
        (),
        GridError,
    >)
        ensures
            final(self)@.wf(),
            row >= old(self)@.window.row_count || col >= old(self)@.window.col_count ==> done
                is Err && done->Err_0 == GridError::OutOfBounds && final(self)@ == old(self)@,
            row < old(self)@.window.row_count && col < old(self)@.window.col_count ==> done is Ok
                && final(self)@ == old(self)@.with_text(row as int, col as int, value@),
    {
        proof {
            use_type_invariant(&*self);
        }
        if row >= self.view_window.row_count() || col >= self.view_window.col_count() {
            return Err(GridError::OutOfBounds);
        }
        write_text(&mut self.spreadsheet_data, row, col, value);
        Ok(())
    }

    /// A copy of the text of every cell: `texts[row][col]`.
    pub fn get_spreadsheet_data(&self) -> (copy: Vec<Vec<String>>)
        ensures
            self@.wf(),
            texts(copy@) == self@.text,
            copy@.len() == self@.window.row_count,
            forall|r: int|
                0 <= r < self@.window.row_count ==> (#[trigger] copy@[r])@.len()
                    == self@.window.col_count,
            forall|r: int, c: int|
                0 <= r < self@.window.row_count && 0 <= c < self@.window.col_count ==> (
                #[trigger] copy@[r]@[c])@ == self@.text[r][c],
    {
        proof {
            use_type_invariant(self);
        }
        let copy = self.spreadsheet_data.clone();
        proof {
            assert(texts(copy@) =~~= self@.text);
            assert forall|r: int| 0 <= r < self@.window.row_count implies (#[trigger] copy@[r])@.len()
                == self@.window.col_count by {
                assert(self@.text[r].len() == self@.window.col_count);
            }
        }
        copy
    }

    /// The visible cells with their geometry: one line for each shown row,
    /// and in it one cell for each shown column.
    pub fn get_grid(&self) -> (grid: Vec<Vec<Cell>>)
        ensures
            self@.wf(),
            self@.shows(grid@),
    {
        proof {
            use_type_invariant(self);
        }
        let row_idx_vec: Vec<usize> = self.view_window.get_visible_row_idx_vec();
        let col_idx_vec: Vec<usize> = self.view_window.get_visible_col_idx_vec();
        let ghost rows = self@.window.visible_rows();
        let ghost cols = self@.window.visible_cols();
        let mut grid: Vec<Vec<Cell>> = Vec::new();
        let mut i: usize = 0;
        while i < row_idx_vec.len()
            invariant
                self@.wf(),
                total_extent(self.row_heights@) <= usize::MAX,
                rows == self@.window.visible_rows(),
                cols == self@.window.visible_cols(),
                lists(row_idx_vec@, rows),
                lists(col_idx_vec@, cols),
                forall|k: int| 0 <= k < row_idx_vec@.len() ==> #[trigger] row_idx_vec@[k] < self@.window.row_count,
                forall|k: int| 0 <= k < col_idx_vec@.len() ==> #[trigger] col_idx_vec@[k] < self@.window.col_count,
                i <= row_idx_vec@.len(),
                grid@.len() == i,
                forall|r: int| 0 <= r < i ==> (#[trigger] grid@[r])@.len() == cols.len(),
                forall|r: int, c: int|
                    0 <= r < i && 0 <= c < cols.len() ==> is_cell_at(
                        #[trigger] grid@[r]@[c],
                        self@.row_heights,
                        self@.window.col_widths,
                        rows[r],
                        cols[c],
                    ),
            decreases row_idx_vec@.len() - i,
        {
            let row_idx: usize = row_idx_vec[i];
            let mut row_cells: Vec<Cell> = Vec::new();
            let mut j: usize = 0;
            while j < col_idx_vec.len()
                invariant
                    self@.wf(),
                    total_extent(self.row_heights@) <= usize::MAX,
                    lists(col_idx_vec@, cols),
                    forall|k: int| 0 <= k < col_idx_vec@.len() ==> #[trigger] col_idx_vec@[k] < self@.window.col_count,
                    row_idx < self@.window.row_count,
                    j <= col_idx_vec@.len(),
                    row_cells@.len() == j,
                    forall|c: int|
                        0 <= c < j ==> is_cell_at(
                            #[trigger] row_cells@[c],
                            self@.row_heights,
                            self@.window.col_widths,
                            row_idx as int,
                            cols[c],
                        ),
                decreases col_idx_vec@.len() - j,
            {
                let col_idx: usize = col_idx_vec[j];
                match self.cell_geometry(row_idx, col_idx) {
                    Ok(cell) => {
                        row_cells.push(cell);
                    },
                    Err(_) => {},
                }
                j = j + 1;
            }
            grid.push(row_cells);
            i = i + 1;
        }
        grid
    }

    /// A grid of 100 rows of height 26 and 100 columns of width 100 under a
    /// viewport of the given size in pixels: the header row holds the
    /// column labels, the header column the row numbers, the corner cell is
    /// selected and the window is scrolled to the top left. A viewport
    /// without width or height is refused.
    pub fn new(width: usize, height: usize) -> (grid: Result<Self, GridError>)
        ensures
            width == 0 || height == 0 ==> grid is Err && grid->Err_0 == GridError::OutOfBounds,
            width > 0 && height > 0 ==> grid is Ok && grid->Ok_0@ == GridState::initial(
                width as int,
                height as int,
            ) && grid->Ok_0@.wf(),
    {
        if width == 0 || height == 0 {
            return Err(GridError::OutOfBounds);
        }
        let row_count: usize = ROW_COUNT;
        let col_count: usize = COL_COUNT;
        let col_widths: Vec<usize> = vec![COL_WIDTH; col_count];
        let row_heights: Vec<usize> = vec![ROW_HEIGHT; row_count];
        let cell_properties = Self::create_grid(
            row_count,
            col_count,
            CellProperty { text_align: TextAlign::Left },
        );
        let mut spreadsheet_data = Self::create_grid(row_count, col_count, String::new());
        let mut row: usize = 0;
        while row < row_count
            invariant
                row <= row_count == ROW_COUNT,
                col_count == COL_COUNT,
                spreadsheet_data@.len() == row_count,
                forall|r: int|
                    0 <= r < row_count ==> (#[trigger] spreadsheet_data@[r])@.len() == col_count,
                forall|r: int, c: int|
                    0 <= r < row && 0 <= c < col_count ==> (#[trigger] spreadsheet_data@[r]@[c])@
                        == header_text(r, c),
                forall|r: int, c: int|
                    row <= r < row_count && 0 <= c < col_count
                        ==> (#[trigger] spreadsheet_data@[r]@[c])@ == Seq::<char>::empty(),
            decreases row_count - row,
        {
            let mut col: usize = 0;
            while col < col_count
                invariant
                    row < row_count == ROW_COUNT,
                    col <= col_count == COL_COUNT,
                    spreadsheet_data@.len() == row_count,
                    forall|r: int|
                        0 <= r < row_count ==> (#[trigger] spreadsheet_data@[r])@.len()
                            == col_count,
                    forall|r: int, c: int|
                        0 <= r < row && 0 <= c < col_count
                            ==> (#[trigger] spreadsheet_data@[r]@[c])@ == header_text(r, c),
                    forall|c: int|
                        0 <= c < col ==> (#[trigger] spreadsheet_data@[row as int]@[c])@
                            == header_text(row as int, c),
                    forall|c: int|
                        col <= c < col_count ==> (#[trigger] spreadsheet_data@[row as int]@[c])@
                            == Seq::<char>::empty(),
                    forall|r: int, c: int|
                        row < r < row_count && 0 <= c < col_count
                            ==> (#[trigger] spreadsheet_data@[r]@[c])@ == Seq::<char>::empty(),
                decreases col_count - col,
            {
                if row == 0 && col > 0 {
                    spreadsheet_data[row][col] = number_to_column_name(col as u32);
                } else if row > 0 && col == 0 {
                    spreadsheet_data[row][col] = decimal_string(row);
                }
                col = col + 1;
            }
            row = row + 1;
        }
        let range = SelectedCellRange { start_row: 0, start_col: 0, end_row: 0, end_col: 0 };
        proof {
            lemma_extent_uniform(col_widths@, col_count as int, COL_WIDTH as int);
            lemma_extent_uniform(row_heights@, row_count as int, ROW_HEIGHT as int);
            assert(col_widths@ =~= Seq::new(COL_COUNT as nat, |c: int| COL_WIDTH));
            assert(row_heights@ =~= Seq::new(ROW_COUNT as nat, |r: int| ROW_HEIGHT));
        }
        let ghost start = GridState::initial(width as int, height as int);
        match ViewWindow::new(width, height, row_count, col_count, col_widths, ROW_HEIGHT) {
            Ok(view_window) => {
                let grid = DataGrid {
                    cell_properties,
                    spreadsheet_data,
                    selected_cell_range: Some(range),
                    view_window,
                    row_heights,
                };
                proof {
                    assert(grid@.text =~~= start.text);
                    assert(grid@.properties =~~= start.properties);
                    assert(grid@.window == start.window);
                }
                Ok(grid)
            },
            Err(refusal) => Err(refusal),
        }
    }
}

} // verus!
