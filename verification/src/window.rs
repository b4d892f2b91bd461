//! The viewport window: which rows and columns are shown for a scroll
//! position. Rows are shown by count, columns by the pixels they fill.

use vstd::prelude::*;
use crate::error::GridError;
use crate::geometry::{extent, extent_before, lemma_extent_monotone, total_extent};
use crate::selection::{max_int, min_int};

verus! {

/// What a [`ViewWindow`] holds, as mathematical values.
pub struct WindowState {
    /// The viewport's width in pixels.
    pub width: int,
    /// The viewport's height in pixels.
    pub height: int,
    /// The number of rows of the grid.
    pub row_count: int,
    /// The number of columns of the grid.
    pub col_count: int,
    /// The width of each column in pixels.
    pub col_widths: Seq<usize>,
    /// The row height from which the number of shown rows is derived.
    pub row_height: int,
    /// The number of rows that the viewport has room for.
    pub visible_row_count: int,
    /// The last frozen row: rows `0` to `fixed_row` are always shown.
    pub fixed_row: int,
    /// The last frozen column: columns `0` to `fixed_col` are always shown.
    pub fixed_col: int,
    /// The first scrollable row that is shown.
    pub cur_row: int,
    /// The first scrollable column that is shown.
    pub cur_col: int,
}

/// `value` brought into `low ..= high`. Where the two bounds cross, `low`
/// wins.
pub open spec fn clamp(value: int, low: int, high: int) -> int {
    max_int(low, min_int(value, high))
}

/// The integers `start, start + 1, ..` of the given length; empty for a
/// length that is not positive.
pub open spec fn run(start: int, length: int) -> Seq<int> {
    Seq::new(max_int(length, 0) as nat, |i: int| start + i)
}

/// Whether `list` holds exactly the integers of `indices`, in order.
pub open spec fn lists(list: Seq<usize>, indices: Seq<int>) -> bool {
    &&& list.len() == indices.len()
    &&& forall|i: int| 0 <= i < list.len() ==> #[trigger] list[i] == indices[i]
}

/// Where a greedy fill stops: walking the columns from `from`, each column
/// is taken while `filled`, the pixels taken so far, is below `limit`; the
/// result is the first column that is not taken, or the number of columns.
pub open spec fn fill_end(widths: Seq<usize>, from: int, filled: int, limit: int) -> int
    decreases widths.len() - from,
{
    if from < 0 || from >= widths.len() || filled >= limit {
        from
    } else {
        fill_end(widths, from + 1, filled + widths[from], limit)
    }
}

/// The largest of `sizes`, and `0` for none.
pub open spec fn max_size(sizes: Seq<usize>) -> int
    decreases sizes.len(),
{
    if sizes.len() == 0 {
        0
    } else {
        max_int(max_size(sizes.drop_last()), sizes.last() as int)
    }
}

impl WindowState {
    /// The lowest scroll row: the first row below the frozen ones.
    pub open spec fn row_low(self) -> int {
        self.fixed_row + 1
    }

    /// The highest scroll row: the one at which the last row of the grid
    /// fills the last place of the viewport.
    pub open spec fn row_high(self) -> int {
        self.row_count - self.visible_row_count + 2
    }

    /// The lowest scroll column: the first column right of the frozen ones.
    pub open spec fn col_low(self) -> int {
        self.fixed_col + 1
    }

    /// The highest scroll column.
    pub open spec fn col_high(self) -> int {
        self.col_count
    }

    /// The window of a grid of the given size right after construction:
    /// one frozen header row and column, scrolled to the top left.
    pub open spec fn initial(
        width: int,
        height: int,
        row_count: int,
        col_count: int,
        col_widths: Seq<usize>,
        row_height: int,
    ) -> WindowState {
        WindowState {
            width,
            height,
            row_count,
            col_count,
            col_widths,
            row_height,
            visible_row_count: height / row_height + 1,
            fixed_row: 0,
            fixed_col: 0,
            cur_row: 1,
            cur_col: 1,
        }
    }

    /// What holds of every window: the viewport and the grid are not empty,
    /// there is one width per column, the viewport has room for a row,
    /// exactly the header row and column are frozen, and the scroll
    /// position lies within its bounds.
    pub open spec fn wf(self) -> bool {
        &&& self.width >= 1
        &&& self.height >= 1
        &&& self.row_count >= 1
        &&& self.col_count >= 1
        &&& self.col_widths.len() == self.col_count
        &&& self.row_height >= 1
        &&& self.visible_row_count >= 1
        &&& self.fixed_row == 0
        &&& self.fixed_col == 0
        &&& self.row_low() <= self.cur_row <= max_int(self.row_low(), self.row_high())
        &&& self.col_low() <= self.cur_col <= self.col_high()
    }

    /// The window after scrolling by `step` rows: the sum, floored at 0, is
    /// brought into the bounds of the scroll row.
    pub open spec fn scrolled_rows(self, step: int) -> WindowState {
        WindowState {
            cur_row: clamp(max_int(self.cur_row + step, 0), self.row_low(), self.row_high()),
            ..self
        }
    }

    /// The window after scrolling by `step` columns.
    pub open spec fn scrolled_cols(self, step: int) -> WindowState {
        WindowState {
            cur_col: clamp(max_int(self.cur_col + step, 0), self.col_low(), self.col_high()),
            ..self
        }
    }

    /// The window under a viewport of the new size: the number of rows
    /// that it has room for follows the new height, and the scroll row is
    /// brought into its new bounds.
    pub open spec fn resized(self, width: int, height: int) -> WindowState {
        let roomy = WindowState {
            width,
            height,
            visible_row_count: height / self.row_height + 1,
            ..self
        };
        WindowState { cur_row: clamp(self.cur_row, roomy.row_low(), roomy.row_high()), ..roomy }
    }

    /// How many scrollable rows are shown: the places that the frozen rows
    /// leave, or the rows from the scroll row to the grid's end if fewer.
    pub open spec fn scroll_row_count(self) -> int {
        max_int(
            min_int(self.visible_row_count - (self.fixed_row + 1), self.row_count - self.cur_row),
            0,
        )
    }

    /// The rows that are shown: the frozen rows, then consecutive rows from
    /// the scroll row on.
    pub open spec fn visible_rows(self) -> Seq<int> {
        run(0, self.fixed_row + 1) + run(self.cur_row, self.scroll_row_count())
    }

    /// The pixels that the frozen columns fill.
    pub open spec fn frozen_width(self) -> int {
        extent(self.col_widths, self.fixed_col + 1)
    }

    /// The first column right of the shown scrollable columns.
    pub open spec fn scroll_col_end(self) -> int {
        fill_end(self.col_widths, self.cur_col, self.frozen_width(), self.width)
    }

    /// The columns that are shown: the frozen columns, then columns from the
    /// scroll column on, as long as the columns taken before fill less than
    /// the viewport's width.
    pub open spec fn visible_cols(self) -> Seq<int> {
        run(0, self.fixed_col + 1) + run(self.cur_col, self.scroll_col_end() - self.cur_col)
    }

    /// The pixels that the shown columns fill together: the sum of their
    /// widths.
    pub open spec fn visible_width(self) -> int {
        picked_extent(self.col_widths, self.visible_cols())
    }

    /// Why a window of the given size cannot be made, if it cannot: a grid
    /// without rows or columns and a row height of zero are invalid
    /// bounds; after that, a viewport without width or height, and
    /// widths that are not one per column, are out of bounds.
    pub open spec fn refused(
        width: int,
        height: int,
        row_count: int,
        col_count: int,
        col_widths: Seq<usize>,
        row_height: int,
    ) -> Option<GridError> {
        if row_count == 0 || col_count == 0 || row_height == 0 {
            Some(GridError::InvalidBound)
        } else if width == 0 || height == 0 || col_widths.len() != col_count {
            Some(GridError::OutOfBounds)
        } else {
            None
        }
    }
}

/// The sum of the sizes at the indices `picks`.
pub open spec fn picked_extent(sizes: Seq<usize>, picks: Seq<int>) -> int
    decreases picks.len(),
{
    if picks.len() == 0 {
        0
    } else {
        picked_extent(sizes, picks.drop_last()) + sizes[picks.last()]
    }
}

/// The sizes picked by two lists one after the other add up.
pub proof fn lemma_picked_extent_add(sizes: Seq<usize>, first: Seq<int>, second: Seq<int>)
    ensures
        picked_extent(sizes, first + second) == picked_extent(sizes, first) + picked_extent(
            sizes,
            second,
        ),
    decreases second.len(),
{
    if second.len() == 0 {
        assert(first + second =~= first);
    } else {
        lemma_picked_extent_add(sizes, first, second.drop_last());
        assert((first + second).drop_last() =~= first + second.drop_last());
    }
}

/// The sizes at `length` consecutive indices from `start` on fill the
/// pixels between where the first starts and where the last ends.
pub proof fn lemma_picked_extent_run(sizes: Seq<usize>, start: int, length: int)
    requires
        0 <= start,
        0 <= length,
    ensures
        picked_extent(sizes, run(start, length)) == extent(sizes, start + length) - extent(
            sizes,
            start,
        ),
    decreases length,
{
    if length > 0 {
        lemma_picked_extent_run(sizes, start, length - 1);
        assert(run(start, length).drop_last() =~= run(start, length - 1));
    }
}

/// No size is larger than the largest.
pub proof fn lemma_max_size_bounds(sizes: Seq<usize>, i: int)
    requires
        0 <= i < sizes.len(),
    ensures
        sizes[i] <= max_size(sizes),
    decreases sizes.len(),
{
    if i < sizes.len() - 1 {
        lemma_max_size_bounds(sizes.drop_last(), i);
    }
}

/// A greedy fill from `from` stops at a column `end` at or after `from`:
/// before each column that it takes, the pixels taken were below `limit`,
/// and it stops only at the last column or once `limit` is reached.
pub proof fn lemma_fill_end(widths: Seq<usize>, from: int, filled: int, limit: int)
    requires
        0 <= from <= widths.len(),
    ensures
        from <= fill_end(widths, from, filled, limit) <= widths.len(),
        forall|j: int|
            from <= j < fill_end(widths, from, filled, limit) ==> filled + #[trigger] extent(
                widths,
                j,
            ) - extent(widths, from) < limit,
        fill_end(widths, from, filled, limit) == widths.len() || filled + extent(
            widths,
            fill_end(widths, from, filled, limit),
        ) - extent(widths, from) >= limit,
    decreases widths.len() - from,
{
    if from < widths.len() && filled < limit {
        lemma_fill_end(widths, from + 1, filled + widths[from], limit);
    }
}

/// Scrolling keeps a window well formed, and leaves all but the scroll
/// position as it was.
pub proof fn lemma_scroll_keeps_wf(window: WindowState, step: int)
    requires
        window.wf(),
    ensures
        window.scrolled_rows(step).wf(),
        window.scrolled_cols(step).wf(),
        window.row_low() <= window.scrolled_rows(step).cur_row <= max_int(
            window.row_low(),
            window.row_high(),
        ),
        window.col_low() <= window.scrolled_cols(step).cur_col <= window.col_high(),
{
}

/// A new viewport size keeps a window well formed.
pub proof fn lemma_resize_keeps_wf(window: WindowState, width: int, height: int)
    requires
        window.wf(),
        width >= 1,
        height >= 1,
    ensures
        window.resized(width, height).wf(),
{
}

/// The shown rows are at most as many as the viewport has room for, they
/// are rows of the grid, and they come in strictly rising order.
pub proof fn lemma_visible_rows(window: WindowState)
    requires
        window.wf(),
    ensures
        window.visible_rows().len() <= window.visible_row_count,
        forall|i: int|
            0 <= i < window.visible_rows().len() ==> 0 <= #[trigger] window.visible_rows()[i]
                < window.row_count,
        forall|i: int, j: int|
            0 <= i < j < window.visible_rows().len() ==> window.visible_rows()[i]
                < window.visible_rows()[j],
{
}

/// The shown columns are columns of the grid in strictly rising order.
/// Before each scrollable column that is shown, the columns shown so far
/// filled less than the viewport's width; and the columns stop only at the
/// grid's end or once the width is filled. So all shown columns together
/// exceed the viewport's width by less than the widest column.
pub proof fn lemma_visible_cols(window: WindowState)
    requires
        window.wf(),
    ensures
        window.cur_col <= window.scroll_col_end() <= window.col_count,
        forall|i: int|
            0 <= i < window.visible_cols().len() ==> 0 <= #[trigger] window.visible_cols()[i]
                < window.col_count,
        forall|i: int, j: int|
            0 <= i < j < window.visible_cols().len() ==> window.visible_cols()[i]
                < window.visible_cols()[j],
        forall|j: int|
            window.cur_col <= j < window.scroll_col_end() ==> window.frozen_width() + #[trigger] extent(
                window.col_widths,
                j,
            ) - extent(window.col_widths, window.cur_col) < window.width,
        window.visible_width() == window.frozen_width() + extent(
            window.col_widths,
            window.scroll_col_end(),
        ) - extent(window.col_widths, window.cur_col),
        window.scroll_col_end() == window.col_count || window.visible_width() >= window.width,
        window.visible_width() <= window.width + max_size(window.col_widths),
{
    let widths = window.col_widths;
    let end = window.scroll_col_end();
    lemma_fill_end(widths, window.cur_col, window.frozen_width(), window.width);
    lemma_picked_extent_add(
        widths,
        run(0, window.fixed_col + 1),
        run(window.cur_col, end - window.cur_col),
    );
    lemma_picked_extent_run(widths, 0, window.fixed_col + 1);
    lemma_picked_extent_run(widths, window.cur_col, end - window.cur_col);
    if end > window.cur_col {
        assert(window.frozen_width() + extent(widths, end - 1) - extent(widths, window.cur_col)
            < window.width);
        lemma_max_size_bounds(widths, end - 1);
    } else {
        lemma_max_size_bounds(widths, 0);
        assert(extent(widths, 1) == extent(widths, 0) + widths[0]);
    }
}

/// The viewport over a grid: its size in pixels, the grid's dimensions and
/// column widths, and the scroll position.
pub struct ViewWindow {
    width: usize,
    height: usize,
    row_count: usize,
    col_count: usize,
    col_widths: Vec<usize>,
    row_height: usize,
    visible_row_count: usize,
    fixed_row: usize,
    fixed_col: usize,
    cur_row: usize,
    cur_col: usize,
}

impl View for ViewWindow {
    type V = WindowState;

    closed spec fn view(&self) -> WindowState {
        WindowState {
            width: self.width as int,
            height: self.height as int,
            row_count: self.row_count as int,
            col_count: self.col_count as int,
            col_widths: self.col_widths@,
            row_height: self.row_height as int,
            visible_row_count: self.visible_row_count as int,
            fixed_row: self.fixed_row as int,
            fixed_col: self.fixed_col as int,
            cur_row: self.cur_row as int,
            cur_col: self.cur_col as int,
        }
    }
}

/// The integers `start, start + 1, ..` of the given length.
pub fn gen_vec(start: usize, length: usize) -> (list: Vec<usize>)
    requires
        length == 0 || start + length - 1 <= usize::MAX,
    ensures
        lists(list@, run(start as int, length as int)),
{
    let mut list: Vec<usize> = Vec::new();
    let mut i: usize = 0;
    while i < length
        invariant
            i <= length,
            length == 0 || start + length - 1 <= usize::MAX,
            lists(list@, run(start as int, i as int)),
        decreases length - i,
    {
        list.push(start + i);
        i = i + 1;
    }
    list
}

/// `from + step`, held within `0 ..= usize::MAX`.
fn shifted(from: usize, step: isize) -> (target: usize)
    ensures
        target == min_int(max_int(from + step, 0), usize::MAX as int),
    no_unwind
{
    if step >= 0 {
        let up: usize = step as usize;
        if up > usize::MAX - from {
            usize::MAX
        } else {
            from + up
        }
    } else {
        let down: usize = (-(step + 1)) as usize;
        if down >= from {
            0
        } else {
            from - down - 1
        }
    }
}

/// `target` brought between the first row below the frozen ones and the
/// highest scroll row of a grid of `row_count` rows under a viewport with
/// room for `visible_row_count` rows.
fn clamped_row(target: usize, fixed_row: usize, row_count: usize, visible_row_count: usize) -> (row:
    usize)
    requires
        fixed_row < row_count < usize::MAX,
        visible_row_count >= 1,
    ensures
        row == clamp(target as int, fixed_row + 1, row_count - visible_row_count + 2),
    no_unwind
{
    let low: usize = fixed_row + 1;
    let capped: usize = if visible_row_count >= 2 {
        let taken: usize = visible_row_count - 2;
        if taken >= row_count {
            0
        } else if target > row_count - taken {
            row_count - taken
        } else {
            target
        }
    } else if target > row_count + 1 {
        row_count + 1
    } else {
        target
    };
    if capped < low {
        low
    } else {
        capped
    }
}

impl ViewWindow {
    /// What holds of every window: its state is well formed, and the
    /// column widths together, like the row after the last, fit the machine.
    #[verifier::type_invariant]
    spec fn inv(&self) -> bool {
        &&& self@.wf()
        &&& total_extent(self.col_widths@) <= usize::MAX
        &&& self.row_count < usize::MAX
    }

    /// A window over a grid of `row_count` rows and `col_count` columns,
    /// with room for one row more than `row_height` goes into `height`,
    /// scrolled to the top left; or why there is none.
    pub fn new(
        width: usize,
        height: usize,
        row_count: usize,
        col_count: usize,
        col_widths: Vec<usize>,
        row_height: usize,
    ) -> (window: Result<Self, GridError>)
        requires
            row_count < usize::MAX,
            row_height > 0 ==> height / row_height < usize::MAX,
            total_extent(col_widths@) <= usize::MAX,
        ensures
            match WindowState::refused(
                width as int,
                height as int,
                row_count as int,
                col_count as int,
                col_widths@,
                row_height as int,
            ) {
                Some(refusal) => window is Err && window->Err_0 == refusal,
                None => window is Ok && window->Ok_0@.wf() && window->Ok_0@
                    == WindowState::initial(
                    width as int,
                    height as int,
                    row_count as int,
                    col_count as int,
                    col_widths@,
                    row_height as int,
                ),
            },
    {
        if row_count == 0 || col_count == 0 || row_height == 0 {
            return Err(GridError::InvalidBound);
        }
        if width == 0 || height == 0 || col_widths.len() != col_count {
            return Err(GridError::OutOfBounds);
        }
        let visible_row_count: usize = height / row_height + 1;
        Ok(
            ViewWindow {
                width,
                height,
                row_count,
                col_count,
                col_widths,
                row_height,
                visible_row_count,
                fixed_row: 0,
                fixed_col: 0,
                cur_row: 1,
                cur_col: 1,
            },
        )
    }

    /// The viewport's width in pixels.
    pub fn width(&self) -> (width: usize)
        ensures
            width == self@.width,
    {
        self.width
    }

    /// The viewport's height in pixels.
    pub fn height(&self) -> (height: usize)
        ensures
            height == self@.height,
    {
        self.height
    }

    /// The number of rows that the viewport has room for.
    pub fn visible_row_count(&self) -> (count: usize)
        ensures
            count == self@.visible_row_count,
    {
        self.visible_row_count
    }

    /// The first scrollable row that is shown.
    pub fn cur_row(&self) -> (row: usize)
        ensures
            row == self@.cur_row,
    {
        self.cur_row
    }

    /// The first scrollable column that is shown.
    pub fn cur_col(&self) -> (col: usize)
        ensures
            col == self@.cur_col,
    {
        self.cur_col
    }

    /// The number of rows of the grid.
    pub fn row_count(&self) -> (count: usize)
        ensures
            count == self@.row_count,
            count >= 1,
    {
        proof {
            use_type_invariant(self);
        }
        self.row_count
    }

    /// The number of columns of the grid.
    pub fn col_count(&self) -> (count: usize)
        ensures
            count == self@.col_count,
            count >= 1,
    {
        proof {
            use_type_invariant(self);
        }
        self.col_count
    }

    /// The width of each column in pixels.
    pub fn col_widths(&self) -> (widths: &[usize])
        ensures
            widths@ == self@.col_widths,
            widths@.len() == self@.col_count,
            total_extent(widths@) <= usize::MAX,
    {
        proof {
            use_type_invariant(self);
        }
        self.col_widths.as_slice()
    }

    /// Scrolls by `step` rows, down for a positive step. The scroll row
    /// stays between the first row below the frozen ones and the row at
    /// which the grid's last row fills the viewport's last place.
    pub fn vertical_move(&mut self, step: isize)
        ensures
            final(self)@ == old(self)@.scrolled_rows(step as int),
            final(self)@.wf(),
        no_unwind
    {
        proof {
            use_type_invariant(&*self);
        }
        let target: usize = shifted(self.cur_row, step);
        self.cur_row = clamped_row(target, self.fixed_row, self.row_count, self.visible_row_count);
    }

    /// Takes a new viewport size in pixels. The number of rows that the
    /// viewport has room for follows the new height, and the scroll row is
    /// brought into its new bounds. A viewport without width or height is
    /// refused, and the window stays as it was.
    pub fn resize(&mut self, width: usize, height: usize) -> (done: Result<(), GridError>)
        requires
            height as int / old(self)@.row_height < usize::MAX,
        ensures
            final(self)@.wf(),
            width == 0 || height == 0 ==> done is Err && done->Err_0 == GridError::OutOfBounds
                && final(self)@ == old(self)@,
            width > 0 && height > 0 ==> done is Ok && final(self)@ == old(self)@.resized(
                width as int,
                height as int,
            ),
        no_unwind
    {
        proof {
            use_type_invariant(&*self);
        }
        if width == 0 || height == 0 {
            return Err(GridError::OutOfBounds);
        }
        let visible_row_count: usize = height / self.row_height + 1;
        let cur_row: usize = clamped_row(
            self.cur_row,
            self.fixed_row,
            self.row_count,
            visible_row_count,
        );
        self.cur_row = cur_row;
        self.visible_row_count = visible_row_count;
        self.width = width;
        self.height = height;
        Ok(())
    }

    /// The rows to show: the frozen header row, then the rows from the
    /// scroll row on that the viewport has room for, up to the grid's end.
    pub fn get_visible_row_idx_vec(&self) -> (rows: Vec<usize>)
        ensures
            self@.wf(),
            lists(rows@, self@.visible_rows()),
            rows@.len() <= self@.visible_row_count,
            forall|i: int| 0 <= i < rows@.len() ==> #[trigger] rows@[i] < self@.row_count,
            forall|i: int, j: int| 0 <= i < j < rows@.len() ==> rows@[i] < rows@[j],
    {
        proof {
            use_type_invariant(self);
            lemma_visible_rows(self@);
        }
        let mut rows: Vec<usize> = gen_vec(0, self.fixed_row + 1);
        let places: usize = self.visible_row_count - rows.len();
        let left: usize = if self.cur_row <= self.row_count {
            self.row_count - self.cur_row
        } else {
            0
        };
        let count: usize = if places < left {
            places
        } else {
            left
        };
        let mut rest: Vec<usize> = gen_vec(self.cur_row, count);
        rows.append(&mut rest);
        rows
    }

    /// The columns to show: the frozen header column, then the columns from
    /// the scroll column on, each taken while the columns before it fill
    /// less than the viewport's width, up to the grid's end.
    pub fn get_visible_col_idx_vec(&self) -> (cols: Vec<usize>)
        ensures
            self@.wf(),
            lists(cols@, self@.visible_cols()),
            forall|i: int| 0 <= i < cols@.len() ==> #[trigger] cols@[i] < self@.col_count,
            forall|i: int, j: int| 0 <= i < j < cols@.len() ==> cols@[i] < cols@[j],
            self@.visible_width() <= self@.width + max_size(self@.col_widths),
    {
        proof {
            use_type_invariant(self);
            lemma_visible_cols(self@);
        }
        let mut cols: Vec<usize> = gen_vec(0, self.fixed_col + 1);
        let mut content_width: usize = extent_before(self.col_widths.as_slice(), self.fixed_col + 1);
        let mut col_idx: usize = self.cur_col;
        while col_idx < self.col_count && content_width < self.width
            invariant
                self@.wf(),
                total_extent(self.col_widths@) <= usize::MAX,
                self.cur_col <= col_idx <= self.col_count,
                content_width == self@.frozen_width() + extent(self.col_widths@, col_idx as int)
                    - extent(self.col_widths@, self.cur_col as int),
                fill_end(self.col_widths@, col_idx as int, content_width as int, self.width as int)
                    == self@.scroll_col_end(),
                lists(
                    cols@,
                    run(0, self.fixed_col + 1) + run(self.cur_col as int, col_idx - self.cur_col),
                ),
            decreases self.col_count - col_idx,
        {
            proof {
                lemma_extent_monotone(self.col_widths@, self.fixed_col + 1, self.cur_col as int);
                lemma_extent_monotone(
                    self.col_widths@,
                    col_idx + 1,
                    self.col_widths@.len() as int,
                );
            }
            content_width = content_width + self.col_widths[col_idx];
            cols.push(col_idx);
            col_idx = col_idx + 1;
        }
        cols
    }

    /// Scrolls by `step` columns, right for a positive step. The scroll
    /// column stays between the first column right of the frozen ones and
    /// the number of columns.
    pub fn horizontal_move(&mut self, step: isize)
        ensures
            final(self)@ == old(self)@.scrolled_cols(step as int),
            final(self)@.wf(),
        no_unwind
    {
        proof {
            use_type_invariant(&*self);
        }
        let target: usize = shifted(self.cur_col, step);
        let low: usize = self.fixed_col + 1;
        let capped: usize = if target > self.col_count {
            self.col_count
        } else {
            target
        };
        self.cur_col = if capped < low {
            low
        } else {
            capped
        };
    }
}

} // verus!
