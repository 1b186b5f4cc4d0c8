//! What a renderer needs to know of a span: how a terminal or a label is to
//! draw it. Drawing itself is left to the caller.

use crate::color::Color;
use crate::styles::Styles;
use vstd::prelude::*;
use vstd::string::*;

verus! {

/// The sixteen colors of a terminal.
#[derive(Debug, Copy, Clone, PartialEq, Eq, Structural, Hash)]
pub enum TerminalColor {
    Black,
    Red,
    Green,
    Yellow,
    Blue,
    Magenta,
    Cyan,
    White,
    BrightBlack,
    BrightRed,
    BrightGreen,
    BrightYellow,
    BrightBlue,
    BrightMagenta,
    BrightCyan,
    BrightWhite,
}

impl TerminalColor {
    /// The name of the color, in lower case and with a space behind `bright`.
    pub open spec fn spec_name(self) -> Seq<char> {
        match self {
            TerminalColor::Black => "black"@,
            TerminalColor::Red => "red"@,
            TerminalColor::Green => "green"@,
            TerminalColor::Yellow => "yellow"@,
            TerminalColor::Blue => "blue"@,
            TerminalColor::Magenta => "magenta"@,
            TerminalColor::Cyan => "cyan"@,
            TerminalColor::White => "white"@,
            TerminalColor::BrightBlack => "bright black"@,
            TerminalColor::BrightRed => "bright red"@,
            TerminalColor::BrightGreen => "bright green"@,
            TerminalColor::BrightYellow => "bright yellow"@,
            TerminalColor::BrightBlue => "bright blue"@,
            TerminalColor::BrightMagenta => "bright magenta"@,
            TerminalColor::BrightCyan => "bright cyan"@,
            TerminalColor::BrightWhite => "bright white"@,
        }
    }

    /// The name of the color, in lower case and with a space behind `bright`.
    pub fn name(&self) -> (r: &'static str)
        ensures
            r@ == self.spec_name(),
    {
        match self {
            TerminalColor::Black => "black",
            TerminalColor::Red => "red",
            TerminalColor::Green => "green",
            TerminalColor::Yellow => "yellow",
            TerminalColor::Blue => "blue",
            TerminalColor::Magenta => "magenta",
            TerminalColor::Cyan => "cyan",
            TerminalColor::White => "white",
            TerminalColor::BrightBlack => "bright black",
            TerminalColor::BrightRed => "bright red",
            TerminalColor::BrightGreen => "bright green",
            TerminalColor::BrightYellow => "bright yellow",
            TerminalColor::BrightBlue => "bright blue",
            TerminalColor::BrightMagenta => "bright magenta",
            TerminalColor::BrightCyan => "bright cyan",
            TerminalColor::BrightWhite => "bright white",
        }
    }
}

impl Color {
    /// The terminal color that comes closest: the dark colors go to the
    /// plain terminal colors and the light ones to the bright ones.
    pub open spec fn spec_terminal_color(self) -> TerminalColor {
        match self {
            Color::Black => TerminalColor::Black,
            Color::DarkBlue => TerminalColor::Blue,
            Color::DarkGreen => TerminalColor::Green,
            Color::DarkAqua => TerminalColor::Cyan,
            Color::DarkRed => TerminalColor::Red,
            Color::DarkPurple => TerminalColor::Magenta,
            Color::Gold => TerminalColor::Yellow,
            Color::Gray => TerminalColor::White,
            Color::DarkGray => TerminalColor::BrightBlack,
            Color::Blue => TerminalColor::BrightBlue,
            Color::Green => TerminalColor::BrightGreen,
            Color::Aqua => TerminalColor::BrightCyan,
            Color::Red => TerminalColor::BrightRed,
            Color::LightPurple => TerminalColor::BrightMagenta,
            Color::Yellow => TerminalColor::BrightYellow,
            Color::White => TerminalColor::BrightWhite,
        }
    }

    /// The terminal color in which this color is printed.
    pub fn terminal_color(&self) -> (r: TerminalColor)
        ensures
            r == self.spec_terminal_color(),
    {
        match self {
            Color::Black => TerminalColor::Black,
            Color::DarkBlue => TerminalColor::Blue,
            Color::DarkGreen => TerminalColor::Green,
            Color::DarkAqua => TerminalColor::Cyan,
            Color::DarkRed => TerminalColor::Red,
            Color::DarkPurple => TerminalColor::Magenta,
            Color::Gold => TerminalColor::Yellow,
            Color::Gray => TerminalColor::White,
            Color::DarkGray => TerminalColor::BrightBlack,
            Color::Blue => TerminalColor::BrightBlue,
            Color::Green => TerminalColor::BrightGreen,
            Color::Aqua => TerminalColor::BrightCyan,
            Color::Red => TerminalColor::BrightRed,
            Color::LightPurple => TerminalColor::BrightMagenta,
            Color::Yellow => TerminalColor::BrightYellow,
            Color::White => TerminalColor::BrightWhite,
        }
    }
}

/// The text that stands for text in the random style, which a renderer is
/// to replace by changing characters.
pub open spec fn random_placeholder() -> Seq<char> {
    "1k4jkmnkjnqo"@
}

/// How text is to be drawn: its color, and which decorations it gets.
#[derive(Debug, Copy, Clone, PartialEq, Eq, Structural, Hash)]
pub struct Decoration {
    pub color: Color,
    pub random: bool,
    pub bold: bool,
    pub strikethrough: bool,
    pub underlined: bool,
    pub italic: bool,
}

impl Decoration {
    /// The decoration for `color` and `styles`: each decoration is on exactly
    /// when its style is set.
    pub open spec fn of(color: Color, styles: Styles) -> Decoration {
        Decoration {
            color,
            random: styles.spec_contains(Styles::RANDOM()),
            bold: styles.spec_contains(Styles::BOLD()),
            strikethrough: styles.spec_contains(Styles::STRIKETHROUGH()),
            underlined: styles.spec_contains(Styles::UNDERLINED()),
            italic: styles.spec_contains(Styles::ITALIC()),
        }
    }

    /// The decoration for `color` and `styles`.
    pub fn new(color: Color, styles: Styles) -> (r: Decoration)
        ensures
            r == Decoration::of(color, styles),
    {
        Decoration {
            color,
            random: styles.contains(Styles::RANDOM()),
            bold: styles.contains(Styles::BOLD()),
            strikethrough: styles.contains(Styles::STRIKETHROUGH()),
            underlined: styles.contains(Styles::UNDERLINED()),
            italic: styles.contains(Styles::ITALIC()),
        }
    }
}

/// The text that a label shows for `text` with `styles`: the placeholder
/// where the random style is set, and `text` otherwise.
pub fn label_text<'a>(text: &'a str, styles: Styles) -> (r: &'a str)
    ensures
        r@ == if styles.spec_contains(Styles::RANDOM()) {
            random_placeholder()
        } else {
            text@
        },
{
    if styles.contains(Styles::RANDOM()) {
        "1k4jkmnkjnqo"
    } else {
        text
    }
}

} // verus!
