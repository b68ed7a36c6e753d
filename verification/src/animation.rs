//! The background animation: a decoder and the screen it draws on, fed with
//! what was read from the child's pseudo-terminal.
//!
//! The pseudo-terminal and the child process belong to the caller. On each
//! tick the caller reads from the master side without blocking and hands every
//! result to `update`, until the drain says that it has finished.

use vstd::prelude::*;
use crate::decoder::{Decoder, parser_events};
use crate::model::ScreenModel;
use crate::screen::Screen;
use crate::style::Cell;

verus! {

/// A rectangle of the host's frame, in cells.
#[derive(Clone, Copy, Debug, PartialEq, Eq)]
pub struct Rect {
    pub x: u16,
    pub y: u16,
    pub width: u16,
    pub height: u16,
}

/// A cell of the screen with the position of the frame that it goes to.
#[derive(Clone, Copy, Debug, PartialEq, Eq)]
pub struct Placement {
    pub x: u16,
    pub y: u16,
    pub cell: Cell,
}

/// What one read from the master side of the pseudo-terminal gave.
#[derive(Debug, PartialEq, Eq)]
pub enum ReadOutcome {
    /// The bytes that were read; none at the end of the stream.
    Data(Vec<u8>),
    /// Nothing is there to read right now.
    WouldBlock,
    /// The read failed for another reason.
    Failed,
}

/// The progress of one tick's drain of the pseudo-terminal.
#[derive(Clone, Copy, Debug, PartialEq, Eq)]
pub struct Drain {
    pub updated: bool,
    pub finished: bool,
}

impl ReadOutcome {
    /// Whether the read brought bytes to decode.
    pub open spec fn has_data(self) -> bool {
        self matches ReadOutcome::Data(bytes) && bytes@.len() > 0
    }

    /// The bytes that the read brought.
    pub open spec fn bytes(self) -> Seq<u8> {
        match self {
            ReadOutcome::Data(bytes) => bytes@,
            _ => Seq::empty(),
        }
    }
}

impl Drain {
    /// The drain after one more read: bytes mark it as updated, everything
    /// else (the end of the stream, nothing to read, a failure) finishes it.
    pub open spec fn step(self, outcome: ReadOutcome) -> Drain {
        if outcome.has_data() {
            Drain { updated: true, finished: self.finished }
        } else {
            Drain { updated: self.updated, finished: true }
        }
    }

    /// A drain before its first read.
    pub fn new() -> (drain: Drain)
        ensures
            drain == (Drain { updated: false, finished: false }),
    {
        Drain { updated: false, finished: false }
    }

    /// Whether any bytes were consumed, so that a redraw is warranted.
    pub fn updated(&self) -> (updated: bool)
        ensures
            updated == self.updated,
    {
        self.updated
    }

    /// Whether the caller is to stop reading for this tick.
    pub fn finished(&self) -> (finished: bool)
        ensures
            finished == self.finished,
    {
        self.finished
    }
}

/// How many of `wanted` cells, starting at `origin` in the frame, the source
/// can fill without leaving the frame's coordinates.
pub open spec fn clipped(wanted: u16, available: int, origin: u16) -> int {
    let fitting = if wanted <= available {
        wanted as int
    } else {
        available
    };
    if origin + fitting > u16::MAX + 1 {
        u16::MAX + 1 - origin
    } else {
        fitting
    }
}

/// The first `count` cells of row `y` of the screen, placed in the area.
pub open spec fn placed_row(screen: ScreenModel, area: Rect, y: int, count: int) -> Seq<Placement> {
    Seq::new(
        count as nat,
        |x: int|
            Placement { x: (area.x + x) as u16, y: (area.y + y) as u16, cell: screen.rows[y][x] },
    )
}

/// The first `count` cells of each of the first `rows` rows of the screen,
/// placed in the area, row after row.
pub open spec fn placed(screen: ScreenModel, area: Rect, rows: int, count: int) -> Seq<Placement>
    decreases rows,
{
    if rows <= 0 {
        Seq::empty()
    } else {
        placed(screen, area, rows - 1, count) + placed_row(screen, area, rows - 1, count)
    }
}

/// What rendering into `area` places: the cells at the coordinates that the
/// area and the screen have in common, row after row, each at its offset from
/// the area's corner.
pub open spec fn rendered(screen: ScreenModel, area: Rect) -> Seq<Placement> {
    placed(
        screen,
        area,
        clipped(area.height, screen.height, area.y),
        clipped(area.width, screen.width, area.x),
    )
}

fn clip(wanted: u16, available: u16, origin: u16) -> (count: u16)
    requires
        available >= 1,
    ensures
        count == clipped(wanted, available as int, origin),
        count <= available,
        origin + count <= u16::MAX + 1,
{
    let fitting = if wanted <= available {
        wanted
    } else {
        available
    };
    let room = u16::MAX - origin;
    if fitting > room {
        if room == u16::MAX {
            fitting
        } else {
            room + 1
        }
    } else {
        fitting
    }
}

/// The emulated terminal behind the login form.
pub struct Animation {
    decoder: Decoder,
    screen: Screen,
}

impl View for Animation {
    type V = ScreenModel;

    closed spec fn view(&self) -> ScreenModel {
        self.screen@
    }
}

impl Animation {
    /// Whether the screen inside meets its invariant.
    pub open spec fn wf(&self) -> bool {
        self@.wf()
    }

    /// The decoder inside.
    pub closed spec fn decoder(&self) -> Decoder {
        self.decoder
    }

    /// A fresh decoder and a blank screen of the size of the area. An area
    /// without cells has no animation.
    pub fn new(size: Rect) -> (animation: Option<Animation>)
        ensures
            animation is Some <==> size.width >= 1 && size.height >= 1,
            animation matches Some(a) ==> a.wf() && a.decoder().is_new() && a@
                == ScreenModel::initial(size.width as int, size.height as int),
    {
        if size.width >= 1 && size.height >= 1 {
            Some(Animation { decoder: Decoder::new(), screen: Screen::new(size.width, size.height) })
        } else {
            None
        }
    }

    /// The screen as it stands.
    pub fn screen(&self) -> (screen: &Screen)
        ensures
            screen@ == self@,
    {
        &self.screen
    }

    /// Decodes the bytes and lets the screen interpret every event, in order.
    pub fn advance(&mut self, bytes: &[u8])
        requires
            old(self).wf(),
        ensures
            final(self).wf(),
            final(self)@ == old(self)@.run(parser_events(old(self).decoder().state(), bytes@)),
    {
        let events = self.decoder.decode(bytes);
        self.screen.apply_all(&events);
    }

    /// Takes the result of one read of the drain. Bytes are decoded at once
    /// and the caller reads again; the end of the stream, an empty pipe and
    /// a failure leave the screen alone and finish the drain.
    pub fn update(&mut self, drain: Drain, outcome: &ReadOutcome) -> (next: Drain)
        requires
            old(self).wf(),
        ensures
            final(self).wf(),
            next == drain.step(*outcome),
            outcome.has_data() ==> final(self)@ == old(self)@.run(
                parser_events(old(self).decoder().state(), outcome.bytes()),
            ),
            !outcome.has_data() ==> *final(self) == *old(self),
    {
        match outcome {
            ReadOutcome::Data(bytes) => {
                if bytes.len() > 0 {
                    self.advance(bytes.as_slice());
                    Drain { updated: true, finished: drain.finished }
                } else {
                    Drain { updated: drain.updated, finished: true }
                }
            },
            _ => Drain { updated: drain.updated, finished: true },
        }
    }

    /// The cells to copy into the frame: one for each coordinate that the
    /// area and the screen have in common. No other cell of the frame is touched.
    pub fn render(&self, area: Rect) -> (cells: Vec<Placement>)
        requires
            self.wf(),
        ensures
            cells@ == rendered(self@, area),
    {
        let rows = clip(area.height, self.screen.height(), area.y);
        let count = clip(area.width, self.screen.width(), area.x);
        let mut cells: Vec<Placement> = Vec::new();
        let mut y: u16 = 0;
        while y < rows
            invariant
                self.wf(),
                y <= rows <= self@.height,
                count <= self@.width,
                area.y + rows <= u16::MAX + 1,
                area.x + count <= u16::MAX + 1,
                cells@ == placed(self@, area, y as int, count as int),
            decreases rows - y,
        {
            let ghost above = cells@;
            let mut x: u16 = 0;
            while x < count
                invariant
                    self.wf(),
                    y < rows <= self@.height,
                    x <= count <= self@.width,
                    area.y + rows <= u16::MAX + 1,
                    area.x + count <= u16::MAX + 1,
                    cells@ == above + placed_row(self@, area, y as int, x as int),
                decreases count - x,
            {
                if let Some(cell) = self.screen.cell(x, y) {
                    cells.push(Placement { x: area.x + x, y: area.y + y, cell });
                }
                x += 1;
            }
            y += 1;
        }
        cells
    }
}

} // verus!
