//! The screen of the emulated terminal: a fixed grid of cells, a cursor and the
//! current style, changed only by the rules of the interpreter.

use vstd::prelude::*;
use crate::model::{ScreenModel, clamp, groups, mentions, param_or};
use crate::style::{Cell, Style};

verus! {

/// The state of the child terminal's screen.
#[derive(Debug)]
pub struct Screen {
    grid: Vec<Vec<Cell>>,
    cursor: (u16, u16),
    current_style: Style,
    width: u16,
    height: u16,
}

impl View for Screen {
    type V = ScreenModel;

    closed spec fn view(&self) -> ScreenModel {
        ScreenModel {
            width: self.width as int,
            height: self.height as int,
            rows: Seq::new(self.grid@.len(), |y: int| self.grid@[y]@),
            col: self.cursor.0 as int,
            row: self.cursor.1 as int,
            style: self.current_style,
        }
    }
}

/// A row of `width` blank cells in the given style.
fn blank_row(width: u16, style: Style) -> (row: Vec<Cell>)
    ensures
        row@ == Seq::new(width as nat, |x: int| Cell::blank(style)),
{
    let mut row: Vec<Cell> = Vec::new();
    let mut x: u16 = 0;
    while x < width
        invariant
            x <= width,
            row@ == Seq::new(x as nat, |i: int| Cell::blank(style)),
        decreases width - x,
    {
        row.push(Cell::empty(style));
        x += 1;
    }
    row
}

/// A grid of `height` rows of `width` blank cells in the given style.
fn blank_grid(width: u16, height: u16, style: Style) -> (grid: Vec<Vec<Cell>>)
    ensures
        grid@.len() == height,
        forall|y: int|
            0 <= y < height ==> (#[trigger] grid@[y])@ == Seq::new(
                width as nat,
                |x: int| Cell::blank(style),
            ),
{
    let mut grid: Vec<Vec<Cell>> = Vec::new();
    let mut y: u16 = 0;
    while y < height
        invariant
            y <= height,
            grid@.len() == y,
            forall|i: int|
                0 <= i < y ==> (#[trigger] grid@[i])@ == Seq::new(
                    width as nat,
                    |x: int| Cell::blank(style),
                ),
        decreases height - y,
    {
        grid.push(blank_row(width, style));
        y += 1;
    }
    grid
}

/// The first value of the group at `index`, or `default` without one.
fn first_param(params: &Vec<Vec<u16>>, index: usize, default: u16) -> (value: u16)
    ensures
        value == param_or(groups(*params), index as int, default),
{
    if index < params.len() && params[index].len() > 0 {
        params[index][0]
    } else {
        default
    }
}

/// The zero-based index of a one-based position, held inside `0..=last`.
fn to_index(position: u16, last: u16) -> (index: u16)
    ensures
        index == clamp(position - 1, 0, last as int),
{
    if position == 0 {
        0
    } else if position - 1 > last {
        last
    } else {
        position - 1
    }
}

impl Screen {
    /// Whether the screen meets its invariant. Every screen that `new` made
    /// and the methods below changed does.
    pub open spec fn wf(&self) -> bool {
        self@.wf()
    }

    /// A screen of the given size, blank, with the cursor at the origin.
    pub fn new(width: u16, height: u16) -> (screen: Screen)
        requires
            width >= 1,
            height >= 1,
        ensures
            screen.wf(),
            screen@ == ScreenModel::initial(width as int, height as int),
    {
        let style = Style::new();
        let screen = Screen {
            grid: blank_grid(width, height, style),
            cursor: (0, 0),
            current_style: style,
            width,
            height,
        };
        assert(screen@.rows =~~= ScreenModel::initial(width as int, height as int).rows);
        screen
    }

    pub fn width(&self) -> (width: u16)
        ensures
            width == self@.width,
    {
        self.width
    }

    pub fn height(&self) -> (height: u16)
        ensures
            height == self@.height,
    {
        self.height
    }

    /// The cursor as (column, row).
    pub fn cursor(&self) -> (cursor: (u16, u16))
        ensures
            cursor.0 == self@.col,
            cursor.1 == self@.row,
    {
        self.cursor
    }

    pub fn current_style(&self) -> (style: Style)
        ensures
            style == self@.style,
    {
        self.current_style
    }

    /// The cell in column `x` of row `y`, if the grid has one there.
    pub fn cell(&self, x: u16, y: u16) -> (cell: Option<Cell>)
        requires
            self.wf(),
        ensures
            cell == if x < self@.width && y < self@.height {
                Some(self@.rows[y as int][x as int])
            } else {
                None
            },
    {
        if x < self.width && y < self.height {
            assert(self@.rows[y as int].len() == self.width);
            Some(self.grid[y as usize][x as usize])
        } else {
            None
        }
    }

    /// Puts `cell` into column `x` of row `y`.
    fn set_cell(&mut self, x: u16, y: u16, cell: Cell)
        requires
            old(self).wf(),
            x < old(self)@.width,
            y < old(self)@.height,
        ensures
            final(self).wf(),
            final(self)@ == (ScreenModel {
                rows: old(self)@.rows.update(
                    y as int,
                    old(self)@.rows[y as int].update(x as int, cell),
                ),
                ..old(self)@
            }),
    {
        self.grid[y as usize][x as usize] = cell;
        assert(self@.rows =~~= old(self)@.rows.update(
            y as int,
            old(self)@.rows[y as int].update(x as int, cell),
        ));
    }

    /// Blanks the cells of row `y` from column `from` up to, not including, column `to`.
    fn erase_span(&mut self, y: u16, from: u16, to: u16)
        requires
            old(self).wf(),
            y < old(self)@.height,
            from <= to <= old(self)@.width,
        ensures
            final(self).wf(),
            final(self)@ == old(self)@.erase(|x: int, r: int| r == y && from <= x < to),
    {
        let ghost before = self@;
        let blank = Cell::empty(self.current_style);
        let mut x: u16 = from;
        while x < to
            invariant
                from <= x <= to <= before.width,
                y < before.height,
                before.wf(),
                self.wf(),
                self@ == (ScreenModel { rows: self@.rows, ..before }),
                blank == before.blank(),
                forall|r: int, c: int|
                    0 <= r < before.height && 0 <= c < before.width ==> #[trigger] self@.rows[r][c]
                        == if r == y && from <= c < x {
                        blank
                    } else {
                        before.rows[r][c]
                    },
            decreases to - x,
        {
            self.set_cell(x, y, blank);
            x += 1;
        }
        assert(self@.rows =~~= before.erase(|x: int, r: int| r == y && from <= x < to).rows);
    }

    /// Blanks the rows from `from` up to, not including, `to`.
    fn erase_rows(&mut self, from: u16, to: u16)
        requires
            old(self).wf(),
            from <= to <= old(self)@.height,
        ensures
            final(self).wf(),
            final(self)@ == old(self)@.erase(|x: int, r: int| from <= r < to),
    {
        let ghost before = self@;
        let mut y: u16 = from;
        while y < to
            invariant
                from <= y <= to <= before.height,
                before.wf(),
                self.wf(),
                self@ == (ScreenModel { rows: self@.rows, ..before }),
                forall|r: int, c: int|
                    0 <= r < before.height && 0 <= c < before.width ==> #[trigger] self@.rows[r][c]
                        == if from <= r < y {
                        before.blank()
                    } else {
                        before.rows[r][c]
                    },
            decreases to - y,
        {
            self.erase_span(y, 0, self.width);
            y += 1;
        }
        assert(self@.rows =~~= before.erase(|x: int, r: int| from <= r < to).rows);
    }

    /// Clears the cursor's row from its first cell up to and including the cursor.
    pub fn erase_line_to_cursor(&mut self)
        requires
            old(self).wf(),
        ensures
            final(self).wf(),
            final(self)@ == old(self)@.erase_line_to_cursor(),
    {
        let end = if self.cursor.0 < self.width {
            self.cursor.0 + 1
        } else {
            self.width
        };
        self.erase_span(self.cursor.1, 0, end);
        assert(self@.rows =~~= old(self)@.erase_line_to_cursor().rows);
    }

    /// Clears the cursor's row from the cursor to its last cell.
    pub fn erase_line_from_cursor(&mut self)
        requires
            old(self).wf(),
        ensures
            final(self).wf(),
            final(self)@ == old(self)@.erase_line_from_cursor(),
    {
        self.erase_span(self.cursor.1, self.cursor.0, self.width);
        assert(self@.rows =~~= old(self)@.erase_line_from_cursor().rows);
    }

    /// Erase in line, by its mode.
    pub fn erase_in_line(&mut self, mode: u16)
        requires
            old(self).wf(),
        ensures
            final(self).wf(),
            final(self)@ == old(self)@.erase_in_line(mode),
    {
        if mode == 0 {
            self.erase_line_from_cursor();
        } else if mode == 1 {
            self.erase_line_to_cursor();
        } else if mode == 2 {
            self.erase_span(self.cursor.1, 0, self.width);
            assert(self@.rows =~~= old(self)@.erase_in_line(mode).rows);
        }
    }

    /// Erase in display, by its mode.
    pub fn erase_in_display(&mut self, mode: u16)
        requires
            old(self).wf(),
        ensures
            final(self).wf(),
            final(self)@ == old(self)@.erase_in_display(mode),
    {
        if mode == 0 {
            self.erase_line_from_cursor();
            self.erase_rows(self.cursor.1 + 1, self.height);
            assert(self@.rows =~~= old(self)@.erase_in_display(mode).rows);
        } else if mode == 1 {
            self.erase_rows(0, self.cursor.1);
            self.erase_line_to_cursor();
            assert(self@.rows =~~= old(self)@.erase_in_display(mode).rows);
        } else if mode == 2 || mode == 3 {
            self.clear();
        }
    }

    /// A printable character arrived: writes it at the cursor with the
    /// current style, after a pending wrap, and advances the column.
    pub fn print(&mut self, c: char)
        requires
            old(self).wf(),
        ensures
            final(self).wf(),
            final(self)@ == old(self)@.print(c),
    {
        if self.cursor.0 >= self.width {
            if self.cursor.1 >= self.height - 1 {
                self.scroll_up();
                self.cursor = (0, self.height - 1);
            } else {
                self.cursor = (0, self.cursor.1 + 1);
            }
        }
        let (x, y) = self.cursor;
        self.set_cell(x, y, Cell::new(c, self.current_style));
        self.cursor = (x + 1, y);
    }

    /// A control byte arrived.
    pub fn execute(&mut self, byte: u8)
        requires
            old(self).wf(),
        ensures
            final(self).wf(),
            final(self)@ == old(self)@.execute(byte),
    {
        if byte == 0x0A {
            if self.cursor.1 >= self.height - 1 {
                self.scroll_up();
                self.cursor = (0, self.cursor.1);
            } else {
                self.cursor = (0, self.cursor.1 + 1);
            }
        } else if byte == 0x0D {
            self.cursor = (0, self.cursor.1);
        } else if byte == 0x08 {
            if self.cursor.0 > 0 {
                self.cursor = (self.cursor.0 - 1, self.cursor.1);
            }
        }
    }

    /// Applies every parameter of every group, in list order, to the current style.
    pub fn handle_sgr_and_update_style(&mut self, params: &Vec<Vec<u16>>)
        requires
            old(self).wf(),
        ensures
            final(self).wf(),
            final(self)@ == (ScreenModel {
                style: old(self)@.style.sgr_groups(groups(*params)),
                ..old(self)@
            }),
    {
        let ghost list = groups(*params);
        let ghost start = self.current_style;
        let mut style = self.current_style;
        let mut i: usize = 0;
        while i < params.len()
            invariant
                i <= params.len(),
                list == groups(*params),
                style == start.sgr_groups(list.take(i as int)),
            decreases params.len() - i,
        {
            let group = &params[i];
            let ghost entered = style;
            let mut j: usize = 0;
            while j < group.len()
                invariant
                    j <= group.len(),
                    style == entered.sgr_seq(group@.take(j as int)),
                decreases group.len() - j,
            {
                style = style.apply_sgr(group[j]);
                proof {
                    assert(group@.take(j + 1).drop_last() =~= group@.take(j as int));
                }
                j += 1;
            }
            proof {
                assert(group@.take(group.len() as int) =~= group@);
                assert(list.take(i + 1).drop_last() =~= list.take(i as int));
            }
            i += 1;
        }
        proof {
            assert(list.take(params.len() as int) =~= list);
        }
        self.current_style = style;
    }

    /// A control sequence arrived: acts by its final character `c`. The
    /// intermediates and the ignore flag have no effect.
    pub fn csi_dispatch(
        &mut self,
        params: &Vec<Vec<u16>>,
        _intermediates: &Vec<u8>,
        _ignore: bool,
        c: char,
    )
        requires
            old(self).wf(),
        ensures
            final(self).wf(),
            final(self)@ == old(self)@.csi_dispatch(groups(*params), c),
    {
        let (col, row) = self.cursor;
        let last_col = self.width - 1;
        let last_row = self.height - 1;
        if c == 'A' {
            let count = first_param(params, 0, 1);
            self.cursor = (col, if count > row { 0 } else { row - count });
        } else if c == 'B' {
            let count = first_param(params, 0, 1);
            self.cursor = (col, if count > last_row - row { last_row } else { row + count });
        } else if c == 'C' {
            let count = first_param(params, 0, 1);
            self.cursor = (
                if col >= last_col || count > last_col - col { last_col } else { col + count },
                row,
            );
        } else if c == 'D' {
            let count = first_param(params, 0, 1);
            self.cursor = (if count > col { 0 } else { col - count }, row);
        } else if c == 'd' {
            let line = first_param(params, 0, 1);
            self.cursor = (col, to_index(line, last_row));
        } else if c == 'H' || c == 'f' {
            let line = first_param(params, 0, 1);
            let column = first_param(params, 1, 1);
            self.cursor = (to_index(column, last_col), to_index(line, last_row));
        } else if c == 'J' {
            self.erase_in_display(first_param(params, 0, 0));
        } else if c == 'K' {
            self.erase_in_line(first_param(params, 0, 0));
        } else if c == 'm' {
            if params.len() == 0 || (params.len() == 1 && params[0].len() == 0) {
                self.current_style = Style::new();
            } else {
                self.handle_sgr_and_update_style(params);
            }
        } else if c == 'l' {
            self.reset_modes(params);
        }
    }

    /// Reset mode: mode 5 clears the screen, every other mode is passed over.
    fn reset_modes(&mut self, params: &Vec<Vec<u16>>)
        requires
            old(self).wf(),
        ensures
            final(self).wf(),
            final(self)@ == if mentions(groups(*params), 5) {
                old(self)@.clear()
            } else {
                old(self)@
            },
    {
        let ghost list = groups(*params);
        let ghost before = self@;
        let mut i: usize = 0;
        while i < params.len()
            invariant
                i <= params.len(),
                list == groups(*params),
                before.wf(),
                self.wf(),
                self@ == if mentions(list.take(i as int), 5) {
                    before.clear()
                } else {
                    before
                },
            decreases params.len() - i,
        {
            let group = &params[i];
            let ghost seen = mentions(list.take(i as int), 5);
            let mut j: usize = 0;
            while j < group.len()
                invariant
                    j <= group.len(),
                    before.wf(),
                    self.wf(),
                    self@ == if seen || group@.take(j as int).contains(5) {
                        before.clear()
                    } else {
                        before
                    },
                decreases group.len() - j,
            {
                if group[j] == 5 {
                    proof {
                        crate::model::lemma_clear_idempotent(before);
                    }
                    self.clear();
                }
                proof {
                    let shorter = group@.take(j as int);
                    let longer = group@.take(j + 1);
                    assert(longer.contains(5) <==> shorter.contains(5) || group@[j as int] == 5) by {
                        if group@[j as int] == 5 {
                            assert(longer[j as int] == 5);
                        }
                    }
                }
                j += 1;
            }
            proof {
                assert(group@.take(group.len() as int) =~= group@);
                crate::model::lemma_mentions_push(list.take(i as int), group@, 5);
                assert(list.take(i + 1) =~= list.take(i as int).push(group@));
            }
            i += 1;
        }
        proof {
            assert(list.take(params.len() as int) =~= list);
        }
    }

    /// A device control string began. Nothing on the screen depends on it.
    pub fn hook(&mut self, _params: &Vec<Vec<u16>>, _intermediates: &Vec<u8>, _ignore: bool, _c: char)
        ensures
            *final(self) == *old(self),
    {
    }

    /// A byte of a device control string arrived. It is passed over.
    pub fn put(&mut self, _byte: u8)
        ensures
            *final(self) == *old(self),
    {
    }

    /// A device control string ended.
    pub fn unhook(&mut self)
        ensures
            *final(self) == *old(self),
    {
    }

    /// An operating system command arrived. It is passed over.
    pub fn osc_dispatch(&mut self, _params: &Vec<Vec<u8>>, _bell_terminated: bool)
        ensures
            *final(self) == *old(self),
    {
    }

    /// An escape sequence without parameters arrived. It is passed over.
    pub fn esc_dispatch(&mut self, _intermediates: &Vec<u8>, _ignore: bool, _byte: u8)
        ensures
            *final(self) == *old(self),
    {
    }

    /// Blanks every cell with the current style. The cursor stays where it is.
    pub fn clear(&mut self)
        requires
            old(self).wf(),
        ensures
            final(self).wf(),
            final(self)@ == old(self)@.clear(),
    {
        self.grid = blank_grid(self.width, self.height, self.current_style);
        assert(self@.rows =~~= old(self)@.clear().rows);
    }

    /// Scrolls the contents up by one row: the top row leaves, and a blank row
    /// in the current style comes in at the bottom.
    pub fn scroll_up(&mut self)
        requires
            old(self).wf(),
        ensures
            final(self).wf(),
            final(self)@ == old(self)@.scroll_up(),
    {
        self.grid.remove(0);
        self.grid.push(blank_row(self.width, self.current_style));
        assert(self@.rows =~~= old(self)@.scroll_up().rows);
    }
}

} // verus!
