//! What holds of every screen, proved over the model that the contracts of
//! `Screen` speak of.

use vstd::prelude::*;
use crate::animation::{Drain, Placement, ReadOutcome, Rect, clipped, placed, placed_row, rendered};
use crate::model::{EventModel, ScreenModel, param_or};
use crate::style::{Cell, Style};

verus! {

/// Whether the final character is one of the cursor movement commands.
pub open spec fn is_cursor_movement(action: char) -> bool {
    action == 'A' || action == 'B' || action == 'C' || action == 'D' || action == 'H' || action
        == 'd'
}

impl ScreenModel {
    /// The screen after `count` scrolls.
    pub open spec fn scroll_up_by(self, count: nat) -> ScreenModel
        decreases count,
    {
        if count == 0 {
            self
        } else {
            self.scroll_up_by((count - 1) as nat).scroll_up()
        }
    }

    /// Whether the two screens hold the same cell everywhere but at column `x` of row `y`.
    pub open spec fn same_cells_but(self, other: ScreenModel, x: int, y: int) -> bool {
        forall|c: int, r: int|
            0 <= r < self.height && 0 <= c < self.width && !(c == x && r == y)
                ==> #[trigger] self.rows[r][c] == other.rows[r][c]
    }
}

/// Printing with the cursor inside the grid changes the cursor's cell and no
/// other, and moves the cursor one column to the right in its row. Printing
/// with a wrap pending does the same at the start of the next row; on the last
/// row the rows move up by one first and the character starts a blank row.
pub proof fn law_print(screen: ScreenModel, c: char)
    requires
        screen.wf(),
    ensures
        ({
            let after = screen.print(c);
            let written = Cell { ch: c, style: screen.style };
            &&& after.wf()
            &&& after.width == screen.width
            &&& after.height == screen.height
            &&& after.style == screen.style
            &&& screen.col < screen.width ==> {
                &&& after.col == screen.col + 1
                &&& after.row == screen.row
                &&& after.rows[screen.row][screen.col] == written
                &&& after.same_cells_but(screen, screen.col, screen.row)
            }
            &&& screen.col == screen.width && screen.row + 1 < screen.height ==> {
                &&& after.col == 1
                &&& after.row == screen.row + 1
                &&& after.rows[screen.row + 1][0] == written
                &&& after.same_cells_but(screen, 0, screen.row + 1)
            }
            &&& screen.col == screen.width && screen.row + 1 == screen.height ==> {
                &&& after.col == 1
                &&& after.row == screen.row
                &&& after.rows[screen.row][0] == written
                &&& after.same_cells_but(screen.scroll_up(), 0, screen.row)
            }
        }),
{
    let after = screen.print(c);
    if screen.col == screen.width && screen.row + 1 == screen.height {
        law_scroll_up(screen);
    }
}

/// One scroll keeps the size of the grid and of every row, moves each row but
/// the first up by one, and leaves the last row blank in the current style.
pub proof fn law_scroll_up(screen: ScreenModel)
    requires
        screen.wf(),
    ensures
        screen.scroll_up().wf(),
        screen.scroll_up().width == screen.width,
        screen.scroll_up().height == screen.height,
        screen.scroll_up().col == screen.col,
        screen.scroll_up().row == screen.row,
        screen.scroll_up().style == screen.style,
        forall|y: int|
            0 <= y < screen.height - 1 ==> #[trigger] screen.scroll_up().rows[y] == screen.rows[y
                + 1],
        screen.scroll_up().rows[screen.height - 1] == screen.blank_row(),
{
}

/// However often the screen scrolls, the grid keeps its `height` rows, and
/// every row its `width` cells.
pub proof fn law_scrolling_keeps_dimensions(screen: ScreenModel, count: nat)
    requires
        screen.wf(),
    ensures
        screen.scroll_up_by(count).wf(),
        screen.scroll_up_by(count).width == screen.width,
        screen.scroll_up_by(count).height == screen.height,
        screen.scroll_up_by(count).rows.len() == screen.height,
        forall|y: int|
            0 <= y < screen.height ==> (#[trigger] screen.scroll_up_by(count).rows[y]).len()
                == screen.width,
    decreases count,
{
    if count > 0 {
        law_scrolling_keeps_dimensions(screen, (count - 1) as nat);
        law_scroll_up(screen.scroll_up_by((count - 1) as nat));
    }
}

/// Every event keeps the invariant of the screen and its size.
pub proof fn law_apply_keeps_invariant(screen: ScreenModel, event: EventModel)
    requires
        screen.wf(),
    ensures
        screen.apply(event).wf(),
        screen.apply(event).width == screen.width,
        screen.apply(event).height == screen.height,
{
    match event {
        EventModel::Print(c) => {
            law_print(screen, c);
        },
        EventModel::Execute(byte) => {
            law_scroll_up(screen);
        },
        EventModel::CsiDispatch { params, intermediates, ignore, action } => {},
        _ => {},
    }
}

/// Every sequence of events keeps the invariant of the screen and its size:
/// the cursor's row stays inside the grid, and its column at most one past
/// the last cell.
pub proof fn law_run_keeps_invariant(screen: ScreenModel, events: Seq<EventModel>)
    requires
        screen.wf(),
    ensures
        screen.run(events).wf(),
        screen.run(events).width == screen.width,
        screen.run(events).height == screen.height,
    decreases events.len(),
{
    if events.len() > 0 {
        law_run_keeps_invariant(screen, events.drop_last());
        law_apply_keeps_invariant(screen.run(events.drop_last()), events.last());
    }
}

/// The parameter 0 of select graphic rendition, an empty parameter list and a
/// list of one empty group each leave the style of a new screen.
pub proof fn law_sgr_reset(screen: ScreenModel, style: Style)
    ensures
        style.sgr(0) == ScreenModel::initial(screen.width, screen.height).style,
        screen.csi_dispatch(seq![seq![0u16]], 'm').style == ScreenModel::initial(
            screen.width,
            screen.height,
        ).style,
        screen.csi_dispatch(Seq::empty(), 'm').style == ScreenModel::initial(
            screen.width,
            screen.height,
        ).style,
        screen.csi_dispatch(seq![Seq::empty()], 'm').style == ScreenModel::initial(
            screen.width,
            screen.height,
        ).style,
{
    reveal_with_fuel(Style::sgr_groups, 2);
    reveal_with_fuel(Style::sgr_seq, 2);
}

/// A parameter list that ends in the parameter 0 leaves the style of a new
/// screen, whatever came before.
pub proof fn law_sgr_ends_in_reset(style: Style, params: Seq<Seq<u16>>)
    requires
        params.len() > 0,
        params.last().len() > 0,
        params.last().last() == 0,
    ensures
        style.sgr_groups(params) == Style::fresh(),
{
}

/// A cursor movement command leaves the cursor's row inside the grid, for
/// every count. It leaves the column inside the grid as well, unless a wrap
/// was pending and the command does not move the column: up, down and line
/// position never do, and backward does not with a count of 0.
pub proof fn law_cursor_movement_stays_in_bounds(
    screen: ScreenModel,
    params: Seq<Seq<u16>>,
    action: char,
)
    requires
        screen.wf(),
        is_cursor_movement(action) || action == 'f',
    ensures
        screen.csi_dispatch(params, action).wf(),
        0 <= screen.csi_dispatch(params, action).row < screen.height,
        0 <= screen.csi_dispatch(params, action).col <= screen.width,
        screen.csi_dispatch(params, action).col < screen.width <==> {
            ||| screen.col < screen.width
            ||| action == 'C'
            ||| action == 'H'
            ||| action == 'f'
            ||| (action == 'D' && param_or(params, 0, 1) > 0)
        },
        screen.csi_dispatch(params, action).rows == screen.rows,
        screen.csi_dispatch(params, action).style == screen.style,
{
}

/// Erase in display with mode 2 blanks every cell in the current style and
/// leaves the cursor; a second dispatch changes nothing more.
pub proof fn law_erase_display_idempotent(screen: ScreenModel, params: Seq<Seq<u16>>)
    requires
        screen.wf(),
        param_or(params, 0, 0) == 2,
    ensures
        screen.csi_dispatch(params, 'J').wf(),
        screen.csi_dispatch(params, 'J').csi_dispatch(params, 'J') == screen.csi_dispatch(
            params,
            'J',
        ),
        screen.csi_dispatch(params, 'J') == screen.clear(),
        screen.clear().col == screen.col,
        screen.clear().row == screen.row,
        screen.clear().style == screen.style,
        forall|x: int, y: int|
            0 <= y < screen.height && 0 <= x < screen.width ==> #[trigger] screen.clear().rows[y][x]
                == Cell::blank(screen.style),
{
    crate::model::lemma_clear_idempotent(screen);
}

/// Select graphic rendition never chooses a colour outside the palette of
/// eight, whatever the parameters.
pub proof fn law_sgr_keeps_palette(style: Style, params: Seq<Seq<u16>>)
    requires
        style.in_palette(),
    ensures
        style.sgr_groups(params).in_palette(),
    decreases params.len(),
{
    if params.len() > 0 {
        law_sgr_keeps_palette(style, params.drop_last());
        lemma_sgr_seq_keeps_palette(style.sgr_groups(params.drop_last()), params.last());
    }
}

proof fn lemma_sgr_keeps_palette(style: Style, param: u16)
    requires
        style.in_palette(),
    ensures
        style.sgr(param).in_palette(),
{
}

proof fn lemma_sgr_seq_keeps_palette(style: Style, params: Seq<u16>)
    requires
        style.in_palette(),
    ensures
        style.sgr_seq(params).in_palette(),
    decreases params.len(),
{
    if params.len() > 0 {
        lemma_sgr_seq_keeps_palette(style, params.drop_last());
        lemma_sgr_keeps_palette(style.sgr_seq(params.drop_last()), params.last());
    }
}

/// The first `rows` rows of `count` cells are placed as `rows * count`
/// cells, and the cell of column `x` in row `y` is the one at `y * count + x`.
proof fn lemma_placed(screen: ScreenModel, area: Rect, rows: int, count: int, x: int, y: int)
    requires
        0 <= y < rows,
        0 <= x < count,
    ensures
        placed(screen, area, rows, count).len() == rows * count,
        0 <= y * count + x < rows * count,
        placed(screen, area, rows, count)[y * count + x] == placed_row(screen, area, y, count)[x],
    decreases rows,
{
    lemma_placed_len(screen, area, rows - 1, count);
    lemma_placed_len(screen, area, rows, count);
    let above = placed(screen, area, rows - 1, count);
    assert(y * count + x < rows * count && 0 <= y * count + x) by (nonlinear_arith)
        requires
            0 <= y < rows,
            0 <= x < count,
    ;
    if y < rows - 1 {
        lemma_placed(screen, area, rows - 1, count, x, y);
    } else {
        assert((y * count + x) - (rows - 1) * count == x) by (nonlinear_arith)
            requires
                y == rows - 1,
        ;
    }
}

proof fn lemma_placed_len(screen: ScreenModel, area: Rect, rows: int, count: int)
    requires
        0 <= rows,
        0 <= count,
    ensures
        placed(screen, area, rows, count).len() == rows * count,
    decreases rows,
{
    if rows > 0 {
        lemma_placed_len(screen, area, rows - 1, count);
        assert((rows - 1) * count + count == rows * count) by (nonlinear_arith);
    } else {
        assert(rows * count == 0) by (nonlinear_arith)
            requires
                rows == 0,
        ;
    }
}

/// Rendering places one cell for each coordinate that the area and the
/// screen have in common, and no other: the cell of column `x` in row `y` of
/// the screen goes to the position `x` to the right of and `y` below the
/// area's corner.
pub proof fn law_rendered(screen: ScreenModel, area: Rect, x: int, y: int)
    requires
        screen.wf(),
        0 <= x < clipped(area.width, screen.width, area.x),
        0 <= y < clipped(area.height, screen.height, area.y),
    ensures
        rendered(screen, area).len() == clipped(area.height, screen.height, area.y) * clipped(
            area.width,
            screen.width,
            area.x,
        ),
        x < area.width && x < screen.width && area.x + x <= u16::MAX,
        y < area.height && y < screen.height && area.y + y <= u16::MAX,
        ({
            let index = y * clipped(area.width, screen.width, area.x) + x;
            &&& 0 <= index < rendered(screen, area).len()
            &&& rendered(screen, area)[index] == (Placement {
                x: (area.x + x) as u16,
                y: (area.y + y) as u16,
                cell: screen.rows[y][x],
            })
        }),
{
    lemma_placed(
        screen,
        area,
        clipped(area.height, screen.height, area.y),
        clipped(area.width, screen.width, area.x),
        x,
        y,
    );
}

impl Drain {
    /// The drain after the reads of a sequence, first to last.
    pub open spec fn steps(self, outcomes: Seq<ReadOutcome>) -> Drain
        decreases outcomes.len(),
    {
        if outcomes.len() == 0 {
            self
        } else {
            self.steps(outcomes.drop_last()).step(outcomes.last())
        }
    }
}

/// A new drain stays unfinished as long as every read brings bytes, and is
/// updated from the first of them on.
pub proof fn law_drain_goes_on_with_data(outcomes: Seq<ReadOutcome>)
    requires
        forall|i: int| 0 <= i < outcomes.len() ==> (#[trigger] outcomes[i]).has_data(),
    ensures
        (Drain { updated: false, finished: false }).steps(outcomes) == (Drain {
            updated: outcomes.len() > 0,
            finished: false,
        }),
    decreases outcomes.len(),
{
    if outcomes.len() > 0 {
        law_drain_goes_on_with_data(outcomes.drop_last());
    }
}

/// The first read that brings no bytes finishes the drain, and the drain
/// then says whether any read before it brought bytes.
pub proof fn law_drain_finishes_without_data(outcomes: Seq<ReadOutcome>, last: ReadOutcome)
    requires
        forall|i: int| 0 <= i < outcomes.len() ==> (#[trigger] outcomes[i]).has_data(),
        !last.has_data(),
    ensures
        (Drain { updated: false, finished: false }).steps(outcomes.push(last)) == (Drain {
            updated: outcomes.len() > 0,
            finished: true,
        }),
{
    law_drain_goes_on_with_data(outcomes);
    assert(outcomes.push(last).drop_last() =~= outcomes);
}

} // verus!
