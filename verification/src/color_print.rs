//! Spans as text for a terminal, in color where the terminal takes it.

use crate::color::Color;
use crate::render::Decoration;
use crate::span::{Span, SpanView};
use crate::styles::Styles;
use colored::{ColoredString, Colorize};
use vstd::prelude::*;
use vstd::string::*;

verus! {

/// A string of the `colored` crate together with the color and the styles in
/// which it is to be printed. Nothing inside it is visible here.
#[verifier::external_type_specification]
#[verifier::external_body]
pub struct ExColoredString(ColoredString);

/// `Colorize::color` of the `colored` crate on a string slice, with the color
/// given by its name. The crate takes a name that it does not know for white.
/// Nothing is claimed of the result.
#[verifier::external_body]
fn with_color(text: &str, color: &str) -> ColoredString {
    text.color(color)
}

/// `Colorize::bold` of the `colored` crate on a colored string. Nothing is
/// claimed of the result.
#[verifier::external_body]
fn with_bold(text: ColoredString) -> ColoredString {
    text.bold()
}

/// `Colorize::strikethrough` of the `colored` crate on a colored string.
/// Nothing is claimed of the result.
#[verifier::external_body]
fn with_strikethrough(text: ColoredString) -> ColoredString {
    text.strikethrough()
}

/// `Colorize::underline` of the `colored` crate on a colored string. Nothing
/// is claimed of the result.
#[verifier::external_body]
fn with_underline(text: ColoredString) -> ColoredString {
    text.underline()
}

/// `Colorize::italic` of the `colored` crate on a colored string. Nothing is
/// claimed of the result.
#[verifier::external_body]
fn with_italic(text: ColoredString) -> ColoredString {
    text.italic()
}

/// What the `colored` crate prints for a colored string: the text alone, or
/// the text between escape sequences, as the environment and the terminal
/// ask for. Nothing is claimed of the result.
#[verifier::external_body]
fn printed(text: &ColoredString) -> String {
    text.to_string()
}

/// `s` in `color` and with each of `styles` that a terminal knows: the random
/// style has no counterpart there.
fn apply_color_and_styles(s: &str, color: Color, styles: Styles) -> ColoredString {
    let decoration = Decoration::new(color, styles);
    let mut text = with_color(s, decoration.color.terminal_color().name());
    if decoration.bold {
        text = with_bold(text);
    }
    if decoration.strikethrough {
        text = with_strikethrough(text);
    }
    if decoration.underlined {
        text = with_underline(text);
    }
    if decoration.italic {
        text = with_italic(text);
    }
    text
}

/// `piece` written `n` times.
pub open spec fn spec_repeated(piece: Seq<char>, n: nat) -> Seq<char>
    decreases n,
{
    if n == 0 {
        Seq::<char>::empty()
    } else {
        spec_repeated(piece, (n - 1) as nat) + piece
    }
}

/// `piece` written `n` times.
pub fn repeated(piece: &str, n: usize) -> (r: String)
    ensures
        r@ == spec_repeated(piece@, n as nat),
{
    let mut out = String::new();
    let mut i: usize = 0;
    while i < n
        invariant
            i <= n,
            out@ == spec_repeated(piece@, i as nat),
        decreases n - i,
    {
        out.append(piece);
        i = i + 1;
    }
    out
}

/// A wrapper around `Span` that provides colored pretty-printing
#[derive(Debug, Copy, Clone)]
pub struct PrintSpanColored<'a>(pub Span<'a>);

impl<'a> View for PrintSpanColored<'a> {
    type V = SpanView;

    open spec fn view(&self) -> SpanView {
        self.0@
    }
}

impl<'a> PrintSpanColored<'a> {
    /// The span that is printed.
    pub fn span(&self) -> (r: Span<'a>)
        ensures
            r == self.0,
    {
        self.0
    }

    /// The text that is printed, without its color: that of the span, with a
    /// dash for each character of a strikethrough line.
    pub fn text(&self) -> (r: String)
        ensures
            r@ == self@.visible_text(),
    {
        self.0.to_string()
    }

    /// How the text is printed: plain text as it is, without a decoration,
    /// and other text in the color and with the styles of the span.
    pub fn decoration(&self) -> (r: Option<Decoration>)
        ensures
            r == match self@ {
                SpanView::Plain(_) => None,
                _ => Some(Decoration::of(self@.color(), self@.styles())),
            },
    {
        match self.0 {
            Span::Plain(_) => None,
            Span::Styled { color, styles, .. } => Some(Decoration::new(color, styles)),
            Span::StrikethroughWhitespace { color, styles, .. } => Some(
                Decoration::new(color, styles),
            ),
        }
    }

    /// The span as a terminal is to get it.
    ///
    /// Plain text is handed out as it is. Styled text is handed out as the
    /// `colored` crate prints it in the decoration of the span: with escape
    /// sequences or without, which the environment decides. A strikethrough
    /// line is a dash printed so, once for each character of the line.
    pub fn to_string(&self) -> (r: String)
        ensures
            self@ is Plain ==> r@ == self@.text(),
            self@ is StrikethroughWhitespace ==> exists|dash: Seq<char>|
                r@ == #[trigger] spec_repeated(dash, self@.text().len()),
    {
        match self.0 {
            Span::Styled { text, color, styles } => printed(
                &apply_color_and_styles(text, color, styles),
            ),
            Span::Plain(text) => text.to_owned(),
            Span::StrikethroughWhitespace { text, color, styles } => {
                let dash = printed(&apply_color_and_styles("-", color, styles));
                let line = repeated(dash.as_str(), text.unicode_len());
                assert(self@.text() == text@);
                assert(line@ == spec_repeated(dash@, self@.text().len()));
                line
            },
        }
    }
}

impl<'a> From<Span<'a>> for PrintSpanColored<'a> {
    fn from(s: Span<'a>) -> (r: PrintSpanColored<'a>) {
        PrintSpanColored(s)
    }
}

impl<'a> vstd::std_specs::convert::FromSpecImpl<Span<'a>> for PrintSpanColored<'a> {
    open spec fn obeys_from_spec() -> bool {
        true
    }

    open spec fn from_spec(s: Span<'a>) -> PrintSpanColored<'a> {
        PrintSpanColored(s)
    }
}

impl<'a> Span<'a> {
    /// Wraps this span in a type that enables colored printing
    pub fn wrap_colored(self) -> (r: PrintSpanColored<'a>)
        ensures
            r == PrintSpanColored(self),
    {
        PrintSpanColored(self)
    }
}

} // verus!
