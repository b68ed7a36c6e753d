//! Display cells and the text style that select-graphic-rendition parameters build up.

use vstd::prelude::*;

verus! {

/// A colour of a cell: one of the eight palette entries, or the host's default.
#[derive(Clone, Copy, Debug, PartialEq, Eq)]
pub enum Color {
    Reset,
    Indexed(u8),
}

/// One of the boolean text attributes of a style.
#[derive(Clone, Copy, Debug, PartialEq, Eq)]
pub enum Attribute {
    Bold,
    Dim,
    Italic,
    Underline,
    SlowBlink,
    RapidBlink,
    Reverse,
    Hidden,
    CrossedOut,
}

/// A text style: optional foreground and background, and a set of attributes,
/// held as one flag per attribute.
#[derive(Clone, Copy, Debug, PartialEq, Eq)]
pub struct Style {
    pub fg: Option<Color>,
    pub bg: Option<Color>,
    pub bold: bool,
    pub dim: bool,
    pub italic: bool,
    pub underline: bool,
    pub slow_blink: bool,
    pub rapid_blink: bool,
    pub reverse: bool,
    pub hidden: bool,
    pub crossed_out: bool,
}

/// One display cell: a character and the style it was written with.
#[derive(Clone, Copy, Debug, PartialEq, Eq)]
pub struct Cell {
    pub ch: char,
    pub style: Style,
}

impl Style {
    /// The style of a new screen: no colours chosen, no attribute set.
    pub open spec fn fresh() -> Style {
        Style {
            fg: None,
            bg: None,
            bold: false,
            dim: false,
            italic: false,
            underline: false,
            slow_blink: false,
            rapid_blink: false,
            reverse: false,
            hidden: false,
            crossed_out: false,
        }
    }

    /// Whether the attribute is in the style's set.
    pub open spec fn has(self, attribute: Attribute) -> bool {
        match attribute {
            Attribute::Bold => self.bold,
            Attribute::Dim => self.dim,
            Attribute::Italic => self.italic,
            Attribute::Underline => self.underline,
            Attribute::SlowBlink => self.slow_blink,
            Attribute::RapidBlink => self.rapid_blink,
            Attribute::Reverse => self.reverse,
            Attribute::Hidden => self.hidden,
            Attribute::CrossedOut => self.crossed_out,
        }
    }

    /// The style after one select-graphic-rendition parameter.
    ///
    /// 0 resets; 1 to 9 set an attribute; 22 to 25, 27 and 28 clear attributes;
    /// 29 clears `hidden`, as 28 does; 30 to 37 and 40 to 47 choose a palette
    /// colour; 39 and 49 go back to the default colour. Every other value
    /// leaves the style as it is.
    pub open spec fn sgr(self, param: u16) -> Style {
        if param == 0 {
            Style::fresh()
        } else if param == 1 {
            Style { bold: true, ..self }
        } else if param == 2 {
            Style { dim: true, ..self }
        } else if param == 3 {
            Style { italic: true, ..self }
        } else if param == 4 {
            Style { underline: true, ..self }
        } else if param == 5 {
            Style { slow_blink: true, ..self }
        } else if param == 6 {
            Style { rapid_blink: true, ..self }
        } else if param == 7 {
            Style { reverse: true, ..self }
        } else if param == 8 {
            Style { hidden: true, ..self }
        } else if param == 9 {
            Style { crossed_out: true, ..self }
        } else if param == 22 {
            Style { bold: false, ..self }
        } else if param == 23 {
            Style { italic: false, ..self }
        } else if param == 24 {
            Style { underline: false, ..self }
        } else if param == 25 {
            Style { slow_blink: false, rapid_blink: false, ..self }
        } else if param == 27 {
            Style { reverse: false, ..self }
        } else if param == 28 || param == 29 {
            Style { hidden: false, ..self }
        } else if 30 <= param <= 37 {
            Style { fg: Some(Color::Indexed((param - 30) as u8)), ..self }
        } else if param == 39 {
            Style { fg: Some(Color::Reset), ..self }
        } else if 40 <= param <= 47 {
            Style { bg: Some(Color::Indexed((param - 40) as u8)), ..self }
        } else if param == 49 {
            Style { bg: Some(Color::Reset), ..self }
        } else {
            self
        }
    }

    /// The style after the parameters of one group, applied first to last.
    pub open spec fn sgr_seq(self, params: Seq<u16>) -> Style
        decreases params.len(),
    {
        if params.len() == 0 {
            self
        } else {
            self.sgr_seq(params.drop_last()).sgr(params.last())
        }
    }

    /// The style after every parameter of every group, in list order.
    pub open spec fn sgr_groups(self, groups: Seq<Seq<u16>>) -> Style
        decreases groups.len(),
    {
        if groups.len() == 0 {
            self
        } else {
            self.sgr_groups(groups.drop_last()).sgr_seq(groups.last())
        }
    }

    /// Whether both colours, where chosen from the palette, are one of its eight entries.
    pub open spec fn in_palette(self) -> bool {
        &&& self.fg matches Some(Color::Indexed(n)) ==> n < 8
        &&& self.bg matches Some(Color::Indexed(n)) ==> n < 8
    }

    pub fn new() -> (style: Style)
        ensures
            style == Style::fresh(),
    {
        Style {
            fg: None,
            bg: None,
            bold: false,
            dim: false,
            italic: false,
            underline: false,
            slow_blink: false,
            rapid_blink: false,
            reverse: false,
            hidden: false,
            crossed_out: false,
        }
    }

    pub fn contains(&self, attribute: Attribute) -> (found: bool)
        ensures
            found == self.has(attribute),
    {
        match attribute {
            Attribute::Bold => self.bold,
            Attribute::Dim => self.dim,
            Attribute::Italic => self.italic,
            Attribute::Underline => self.underline,
            Attribute::SlowBlink => self.slow_blink,
            Attribute::RapidBlink => self.rapid_blink,
            Attribute::Reverse => self.reverse,
            Attribute::Hidden => self.hidden,
            Attribute::CrossedOut => self.crossed_out,
        }
    }

    /// Applies one select-graphic-rendition parameter.
    pub fn apply_sgr(self, param: u16) -> (style: Style)
        ensures
            style == self.sgr(param),
    {
        let mut style = self;
        if param == 0 {
            style = Style::new();
        } else if param == 1 {
            style.bold = true;
        } else if param == 2 {
            style.dim = true;
        } else if param == 3 {
            style.italic = true;
        } else if param == 4 {
            style.underline = true;
        } else if param == 5 {
            style.slow_blink = true;
        } else if param == 6 {
            style.rapid_blink = true;
        } else if param == 7 {
            style.reverse = true;
        } else if param == 8 {
            style.hidden = true;
        } else if param == 9 {
            style.crossed_out = true;
        } else if param == 22 {
            style.bold = false;
        } else if param == 23 {
            style.italic = false;
        } else if param == 24 {
            style.underline = false;
        } else if param == 25 {
            style.slow_blink = false;
            style.rapid_blink = false;
        } else if param == 27 {
            style.reverse = false;
        } else if param == 28 || param == 29 {
            style.hidden = false;
        } else if 30 <= param && param <= 37 {
            style.fg = Some(Color::Indexed(low_byte(param - 30)));
        } else if param == 39 {
            style.fg = Some(Color::Reset);
        } else if 40 <= param && param <= 47 {
            style.bg = Some(Color::Indexed(low_byte(param - 40)));
        } else if param == 49 {
            style.bg = Some(Color::Reset);
        }
        style
    }
}

impl Default for Style {
    fn default() -> (style: Style)
        ensures
            style == Style::fresh(),
    {
        Style::new()
    }
}

impl Cell {
    /// A space written with the given style.
    pub open spec fn blank(style: Style) -> Cell {
        Cell { ch: ' ', style }
    }

    pub fn new(ch: char, style: Style) -> (cell: Cell)
        ensures
            cell == (Cell { ch, style }),
    {
        Cell { ch, style }
    }

    pub fn empty(style: Style) -> (cell: Cell)
        ensures
            cell == Cell::blank(style),
    {
        Cell { ch: ' ', style }
    }
}

impl Default for Cell {
    fn default() -> (cell: Cell)
        ensures
            cell == Cell::blank(Style::fresh()),
    {
        Cell::empty(Style::new())
    }
}

fn low_byte(value: u16) -> (byte: u8)
    requires
        value < 256,
    ensures
        byte == value,
{
    value as u8
}

} // verus!
