//! The mathematical model of a screen, and what each decoder event does to it.

use vstd::prelude::*;
use crate::style::{Cell, Style};

verus! {

/// A screen as a value: its fixed size, its rows of cells from top to bottom,
/// the cursor and the style that newly written cells get.
pub struct ScreenModel {
    pub width: int,
    pub height: int,
    pub rows: Seq<Seq<Cell>>,
    pub col: int,
    pub row: int,
    pub style: Style,
}

/// A decoder event as a value.
#[allow(inconsistent_fields)]
pub enum EventModel {
    Print(char),
    Execute(u8),
    Hook { params: Seq<Seq<u16>>, intermediates: Seq<u8>, ignore: bool, action: char },
    Put(u8),
    Unhook,
    OscDispatch { params: Seq<Seq<u8>>, bell_terminated: bool },
    CsiDispatch { params: Seq<Seq<u16>>, intermediates: Seq<u8>, ignore: bool, action: char },
    EscDispatch { intermediates: Seq<u8>, ignore: bool, byte: u8 },
}

/// A list of groups as a sequence of sequences.
pub open spec fn groups<T>(list: Vec<Vec<T>>) -> Seq<Seq<T>> {
    Seq::new(list@.len(), |i: int| list@[i]@)
}

/// The first value of the group at `index`, or `default` where the list has
/// no such group or the group is empty.
pub open spec fn param_or(params: Seq<Seq<u16>>, index: int, default: u16) -> u16 {
    if 0 <= index < params.len() && params[index].len() > 0 {
        params[index][0]
    } else {
        default
    }
}

/// Whether some parameter of some group equals `value`.
pub open spec fn mentions(params: Seq<Seq<u16>>, value: u16) -> bool {
    exists|i: int, j: int|
        0 <= i < params.len() && 0 <= j < params[i].len() && #[trigger] params[i][j] == value
}

/// `value` held between `low` and `high`.
pub open spec fn clamp(value: int, low: int, high: int) -> int {
    if value < low {
        low
    } else if value > high {
        high
    } else {
        value
    }
}

impl ScreenModel {
    /// The invariant of a screen: a grid of `height` rows of `width` cells,
    /// neither of them zero, the cursor's row inside the grid and its column
    /// at most one past the last cell (a wrap is then pending).
    pub open spec fn wf(self) -> bool {
        &&& 1 <= self.width <= u16::MAX
        &&& 1 <= self.height <= u16::MAX
        &&& self.rows.len() == self.height
        &&& forall|y: int| 0 <= y < self.height ==> (#[trigger] self.rows[y]).len() == self.width
        &&& 0 <= self.col <= self.width
        &&& 0 <= self.row < self.height
    }

    /// A new screen: every cell blank in the fresh style, the cursor at the origin.
    pub open spec fn initial(width: int, height: int) -> ScreenModel {
        ScreenModel {
            width,
            height,
            rows: Seq::new(
                height as nat,
                |y: int| Seq::new(width as nat, |x: int| Cell::blank(Style::fresh())),
            ),
            col: 0,
            row: 0,
            style: Style::fresh(),
        }
    }

    /// The cell that erasing leaves behind: a space in the current style.
    pub open spec fn blank(self) -> Cell {
        Cell::blank(self.style)
    }

    /// A row of such cells.
    pub open spec fn blank_row(self) -> Seq<Cell> {
        Seq::new(self.width as nat, |x: int| self.blank())
    }

    /// The screen with the cells at the positions that `region` holds replaced by blanks.
    pub open spec fn erase(self, region: spec_fn(int, int) -> bool) -> ScreenModel {
        ScreenModel {
            rows: Seq::new(
                self.height as nat,
                |y: int|
                    Seq::new(
                        self.width as nat,
                        |x: int|
                            if region(x, y) {
                                self.blank()
                            } else {
                                self.rows[y][x]
                            },
                    ),
            ),
            ..self
        }
    }

    /// Every cell blank; the cursor stays.
    pub open spec fn clear(self) -> ScreenModel {
        self.erase(|x: int, y: int| true)
    }

    /// The top row gone, the others one row up, a blank row at the bottom.
    pub open spec fn scroll_up(self) -> ScreenModel {
        ScreenModel { rows: self.rows.subrange(1, self.height).push(self.blank_row()), ..self }
    }

    /// The cursor's row blank from its first cell up to and including the cursor.
    pub open spec fn erase_line_to_cursor(self) -> ScreenModel {
        self.erase(|x: int, y: int| y == self.row && x <= self.col)
    }

    /// The cursor's row blank from the cursor to its last cell.
    pub open spec fn erase_line_from_cursor(self) -> ScreenModel {
        self.erase(|x: int, y: int| y == self.row && x >= self.col)
    }

    /// Erase in line: 0 from the cursor on, 1 up to the cursor, 2 the whole row.
    pub open spec fn erase_in_line(self, mode: u16) -> ScreenModel {
        if mode == 0 {
            self.erase_line_from_cursor()
        } else if mode == 1 {
            self.erase_line_to_cursor()
        } else if mode == 2 {
            self.erase(|x: int, y: int| y == self.row)
        } else {
            self
        }
    }

    /// Erase in display: 0 from the cursor to the end of the screen, 1 from
    /// the start of the screen to the cursor, 2 and 3 everything.
    pub open spec fn erase_in_display(self, mode: u16) -> ScreenModel {
        if mode == 0 {
            self.erase(|x: int, y: int| y > self.row || (y == self.row && x >= self.col))
        } else if mode == 1 {
            self.erase(|x: int, y: int| y < self.row || (y == self.row && x <= self.col))
        } else if mode == 2 || mode == 3 {
            self.clear()
        } else {
            self
        }
    }

    /// A printable character: a pending wrap moves the cursor to the start of
    /// the next row, scrolling at the bottom; the character goes into the
    /// cursor's cell with the current style; the column advances by one.
    pub open spec fn print(self, c: char) -> ScreenModel {
        let wrap = self.col >= self.width;
        let scroll = wrap && self.row + 1 >= self.height;
        let base = if scroll {
            self.scroll_up()
        } else {
            self
        };
        let col = if wrap {
            0
        } else {
            self.col
        };
        let row = if scroll {
            self.height - 1
        } else if wrap {
            self.row + 1
        } else {
            self.row
        };
        ScreenModel {
            rows: base.rows.update(row, base.rows[row].update(col, Cell { ch: c, style: self.style })),
            col: col + 1,
            row,
            ..self
        }
    }

    /// A control byte: line feed, carriage return and backspace act; the rest do nothing.
    pub open spec fn execute(self, byte: u8) -> ScreenModel {
        if byte == 0x0A {
            if self.row >= self.height - 1 {
                ScreenModel { col: 0, ..self.scroll_up() }
            } else {
                ScreenModel { col: 0, row: self.row + 1, ..self }
            }
        } else if byte == 0x0D {
            ScreenModel { col: 0, ..self }
        } else if byte == 0x08 {
            ScreenModel { col: clamp(self.col - 1, 0, self.width), ..self }
        } else {
            self
        }
    }

    /// Select graphic rendition: an empty list, or one empty group, resets the
    /// style; otherwise every parameter is applied in order.
    pub open spec fn select_graphic_rendition(self, params: Seq<Seq<u16>>) -> ScreenModel {
        if params.len() == 0 || (params.len() == 1 && params[0].len() == 0) {
            ScreenModel { style: Style::fresh(), ..self }
        } else {
            ScreenModel { style: self.style.sgr_groups(params), ..self }
        }
    }

    /// A control sequence, by its final character.
    pub open spec fn csi_dispatch(self, params: Seq<Seq<u16>>, action: char) -> ScreenModel {
        if action == 'A' {
            ScreenModel { row: clamp(self.row - param_or(params, 0, 1), 0, self.height - 1), ..self }
        } else if action == 'B' {
            ScreenModel { row: clamp(self.row + param_or(params, 0, 1), 0, self.height - 1), ..self }
        } else if action == 'C' {
            ScreenModel { col: clamp(self.col + param_or(params, 0, 1), 0, self.width - 1), ..self }
        } else if action == 'D' {
            ScreenModel { col: clamp(self.col - param_or(params, 0, 1), 0, self.width), ..self }
        } else if action == 'd' {
            ScreenModel { row: clamp(param_or(params, 0, 1) - 1, 0, self.height - 1), ..self }
        } else if action == 'H' || action == 'f' {
            ScreenModel {
                col: clamp(param_or(params, 1, 1) - 1, 0, self.width - 1),
                row: clamp(param_or(params, 0, 1) - 1, 0, self.height - 1),
                ..self
            }
        } else if action == 'J' {
            self.erase_in_display(param_or(params, 0, 0))
        } else if action == 'K' {
            self.erase_in_line(param_or(params, 0, 0))
        } else if action == 'm' {
            self.select_graphic_rendition(params)
        } else if action == 'l' {
            if mentions(params, 5) {
                self.clear()
            } else {
                self
            }
        } else {
            self
        }
    }

    /// One decoder event. Only printing, control bytes and control sequences act.
    pub open spec fn apply(self, event: EventModel) -> ScreenModel {
        match event {
            EventModel::Print(c) => self.print(c),
            EventModel::Execute(byte) => self.execute(byte),
            EventModel::CsiDispatch { params, intermediates, ignore, action } => self.csi_dispatch(
                params,
                action,
            ),
            _ => self,
        }
    }

    /// The events of a sequence, first to last.
    pub open spec fn run(self, events: Seq<EventModel>) -> ScreenModel
        decreases events.len(),
    {
        if events.len() == 0 {
            self
        } else {
            self.run(events.drop_last()).apply(events.last())
        }
    }
}

/// Clearing a cleared screen changes nothing.
pub proof fn lemma_clear_idempotent(screen: ScreenModel)
    requires
        screen.wf(),
    ensures
        screen.clear().wf(),
        screen.clear().clear() == screen.clear(),
{
    assert(screen.clear().clear().rows =~~= screen.clear().rows);
}

/// A list with one more group mentions a value if the list did or the group holds it.
pub proof fn lemma_mentions_push(params: Seq<Seq<u16>>, group: Seq<u16>, value: u16)
    ensures
        mentions(params.push(group), value) <==> mentions(params, value) || group.contains(value),
{
    let longer = params.push(group);
    if mentions(params, value) {
        let (i, j) = choose|i: int, j: int|
            0 <= i < params.len() && 0 <= j < params[i].len() && #[trigger] params[i][j] == value;
        assert(longer[i][j] == value);
    }
    if group.contains(value) {
        let j = choose|j: int| 0 <= j < group.len() && group[j] == value;
        assert(longer[params.len() as int][j] == value);
    }
}

} // verus!
