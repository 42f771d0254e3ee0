//! Colors, paint styles and the one-axis placement and sizing modes.
use vstd::prelude::*;

use crate::utils::{decimal, push_char, push_decimal, EXTENT_MAX};

verus! {

/// A terminal color: none, one of the sixteen named colors, or true color.
#[derive(Debug, Clone, Copy, PartialEq, Eq, Structural)]
pub enum Color {
    NoColor,
    Black,
    Red,
    Green,
    Yellow,
    Blue,
    Magenta,
    Cyan,
    White,
    BrightBlack,
    BrightRed,
    BrightGreen,
    BrightYellow,
    BrightBlue,
    BrightMagenta,
    BrightCyan,
    BrightWhite,
    Rgb(u8, u8, u8),
}

/// The escape introducer `ESC [`.
pub open spec fn csi() -> Seq<char> {
    seq!['\x1b', '[']
}

impl Color {
    /// Offset of a named color from the base code (30 or 40); zero otherwise.
    pub open spec fn offset(self) -> nat {
        match self {
            Color::Red => 1,
            Color::Green => 2,
            Color::Yellow => 3,
            Color::Blue => 4,
            Color::Magenta => 5,
            Color::Cyan => 6,
            Color::White => 7,
            Color::BrightBlack => 60,
            Color::BrightRed => 61,
            Color::BrightGreen => 62,
            Color::BrightYellow => 63,
            Color::BrightBlue => 64,
            Color::BrightMagenta => 65,
            Color::BrightCyan => 66,
            Color::BrightWhite => 67,
            _ => 0,
        }
    }

    /// The bare SGR parameter of this color, as foreground or background.
    pub open spec fn sgr_params(self, fg: bool) -> Seq<char> {
        let base: nat = if fg { 30 } else { 40 };
        match self {
            Color::NoColor => Seq::empty(),
            Color::Rgb(r, g, b) => decimal(base + 8) + seq![';', '2', ';'] + decimal(r as nat)
                + seq![';'] + decimal(g as nat) + seq![';'] + decimal(b as nat),
            _ => decimal(base + self.offset()),
        }
    }

    /// The complete escape sequence that selects this color.
    pub open spec fn escape(self, fg: bool) -> Seq<char> {
        if self is NoColor {
            Seq::empty()
        } else {
            csi() + self.sgr_params(fg) + seq!['m']
        }
    }

    fn offset_exec(&self) -> (r: u8)
        ensures
            r as nat == self.offset(),
    {
        match self {
            Color::Red => 1,
            Color::Green => 2,
            Color::Yellow => 3,
            Color::Blue => 4,
            Color::Magenta => 5,
            Color::Cyan => 6,
            Color::White => 7,
            Color::BrightBlack => 60,
            Color::BrightRed => 61,
            Color::BrightGreen => 62,
            Color::BrightYellow => 63,
            Color::BrightBlue => 64,
            Color::BrightMagenta => 65,
            Color::BrightCyan => 66,
            Color::BrightWhite => 67,
            _ => 0,
        }
    }

    /// Appends the bare SGR parameter of this color to `out`.
    pub(crate) fn push_sgr_params(&self, out: &mut String, fg: bool)
        ensures
            final(out)@ == old(out)@ + self.sgr_params(fg),
    {
        let base: u8 = if fg { 30 } else { 40 };
        match self {
            Color::NoColor => {
                assert(out@ =~= old(out)@ + self.sgr_params(fg));
            },
            Color::Rgb(r, g, b) => {
                push_decimal(out, (base + 8) as u128);
                push_char(out, ';');
                push_char(out, '2');
                push_char(out, ';');
                push_decimal(out, *r as u128);
                push_char(out, ';');
                push_decimal(out, *g as u128);
                push_char(out, ';');
                push_decimal(out, *b as u128);
                assert(out@ =~= old(out)@ + self.sgr_params(fg));
            },
            _ => {
                push_decimal(out, (base + self.offset_exec()) as u128);
            },
        }
    }

    /// The bare SGR parameter of this color (`31`, `104`, `38;2;1;2;3`), or
    /// the empty string for `NoColor`.
    pub fn ansi_number(&self, fg: bool) -> (r: String)
        ensures
            r@ == self.sgr_params(fg),
    {
        let mut out = String::new();
        self.push_sgr_params(&mut out, fg);
        assert(out@ =~= self.sgr_params(fg));
        out
    }

    /// The escape sequence that selects this color (`ESC[31m`), or the empty
    /// string for `NoColor`.
    pub fn to_ansi(&self, foreground: bool) -> (r: String)
        ensures
            r@ == self.escape(foreground),
    {
        let mut out = String::new();
        if let Color::NoColor = self {
            return out;
        }
        push_char(&mut out, '\x1b');
        push_char(&mut out, '[');
        self.push_sgr_params(&mut out, foreground);
        push_char(&mut out, 'm');
        assert(out@ =~= self.escape(foreground));
        out
    }
}

impl Default for Color {
    fn default() -> (r: Self)
        ensures
            r == Color::NoColor,
    {
        Color::NoColor
    }
}

/// Paint attributes of one draw: colors and padding.
#[derive(Debug, Clone, Copy, PartialEq, Eq, Structural)]
pub struct Style {
    pub color: Color,
    pub background: Color,
    /// Cells added on the left and on the right of every line.
    pub px: u16,
    /// Lines added above and below the content.
    pub py: u16,
}

impl Style {
    /// The one escape sequence that sets both colors; empty when neither is set.
    pub open spec fn escape(self) -> Seq<char> {
        let f = self.color.sgr_params(true);
        let b = self.background.sgr_params(false);
        if self.color is NoColor && self.background is NoColor {
            Seq::empty()
        } else if self.background is NoColor {
            csi() + f + seq!['m']
        } else if self.color is NoColor {
            csi() + b + seq!['m']
        } else {
            csi() + f + seq![';'] + b + seq!['m']
        }
    }

    /// The combined color escape of this style, as `escape` describes it.
    pub fn to_ansi(&self) -> (r: String)
        ensures
            r@ == self.escape(),
    {
        let mut out = String::new();
        let no_fg = matches!(self.color, Color::NoColor);
        let no_bg = matches!(self.background, Color::NoColor);
        if no_fg && no_bg {
            return out;
        }
        push_char(&mut out, '\x1b');
        push_char(&mut out, '[');
        self.color.push_sgr_params(&mut out, true);
        if !no_fg && !no_bg {
            push_char(&mut out, ';');
        }
        self.background.push_sgr_params(&mut out, false);
        push_char(&mut out, 'm');
        assert(out@ =~= self.escape());
        out
    }
}

impl Default for Style {
    fn default() -> (r: Self)
        ensures
            r == (Style { color: Color::NoColor, background: Color::NoColor, px: 0, py: 0 }),
    {
        Style { color: Color::NoColor, background: Color::NoColor, px: 0, py: 0 }
    }
}

/// `p` percent of `extent`, rounded down and capped at the largest `u16`.
pub open spec fn percent_of(p: u16, extent: u16) -> u16 {
    let v = (extent as nat * p as nat) / 100;
    if v > EXTENT_MAX {
        EXTENT_MAX
    } else {
        v as u16
    }
}

fn percent(p: u16, extent: u16) -> (r: u16)
    ensures
        r == percent_of(p, extent),
{
    assert((extent as nat) * (p as nat) <= 65535 * 65535) by (nonlinear_arith)
        requires
            extent <= 65535,
            p <= 65535,
    ;
    let v: u32 = (extent as u32) * (p as u32) / 100;
    if v > EXTENT_MAX as u32 {
        EXTENT_MAX
    } else {
        v as u16
    }
}

/// Placement along one axis.
#[derive(Debug, Clone, Copy, PartialEq, Eq, Structural)]
pub enum Position {
    /// A fixed offset from the container's origin.
    Num(u16),
    /// A percentage of the container's extent.
    Percent(u16),
    /// The box centred in the container, the odd cell going right or down.
    Center,
}

impl Position {
    /// The offset this placement gives a box of extent `written` in a
    /// container of extent `frame`. A box larger than its container is
    /// centred at offset zero.
    pub open spec fn resolve(self, written: u16, frame: u16) -> u16 {
        match self {
            Position::Num(n) => n,
            Position::Percent(p) => percent_of(p, frame),
            Position::Center => if written <= frame {
                ((frame - written) / 2) as u16
            } else {
                0
            },
        }
    }

    pub fn get(&self, written: u16, frame: u16) -> (r: u16)
        ensures
            r == self.resolve(written, frame),
    {
        match self {
            Position::Center => {
                if written <= frame {
                    (frame - written) / 2
                } else {
                    0
                }
            },
            Position::Percent(p) => percent(*p, frame),
            Position::Num(n) => *n,
        }
    }
}

/// Sizing along one axis.
#[derive(Debug, Clone, Copy, PartialEq, Eq, Structural)]
pub enum Dimension {
    /// A fixed extent.
    Num(u16),
    /// A percentage of the container's extent.
    Percent(u16),
    /// The extent of the content.
    Auto,
}

impl Dimension {
    /// The extent offered to content before it is rendered: the container
    /// decides, and `Auto` offers all of it.
    pub open spec fn resolve(self, frame: u16) -> u16 {
        match self {
            Dimension::Num(n) => n,
            Dimension::Percent(p) => percent_of(p, frame),
            Dimension::Auto => frame,
        }
    }

    /// The extent of a box whose content measured `written`.
    pub open spec fn resolve_root(self, written: u16, frame: u16) -> u16 {
        match self {
            Dimension::Num(n) => n,
            Dimension::Percent(p) => percent_of(p, frame),
            Dimension::Auto => written,
        }
    }

    /// Sizing to content keeps the measured extent, whatever the container.
    pub proof fn lemma_auto_keeps_measure(written: u16, frame: u16)
        ensures
            Dimension::Auto.resolve_root(written, frame) == written,
    {
    }

    pub fn get(&self, _written: u16, frame: u16) -> (r: u16)
        ensures
            r == self.resolve(frame),
    {
        match self {
            Dimension::Auto => frame,
            Dimension::Percent(p) => percent(*p, frame),
            Dimension::Num(n) => *n,
        }
    }

    pub fn get_root(&self, written: u16, frame: u16) -> (r: u16)
        ensures
            r == self.resolve_root(written, frame),
    {
        match self {
            Dimension::Auto => written,
            Dimension::Percent(p) => percent(*p, frame),
            Dimension::Num(n) => *n,
        }
    }
}

} // verus!
