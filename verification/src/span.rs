//! The spans that the parser yields.

use crate::color::Color;
use crate::styles::Styles;
use crate::text::{all_ascii_whitespace, spec_all_ascii_whitespace};
use vstd::prelude::*;
use vstd::string::*;

verus! {

/// Text with an associated color and associated styles.
///
/// A span borrows its text from the string that was parsed.
#[derive(Debug, Copy, Clone, PartialEq, Eq, Hash)]
pub enum Span<'a> {
    /// A styled slice of text
    Styled {
        /// The styled text slice
        text: &'a str,
        /// The color of the text
        color: Color,
        /// Styles that should be applied to the text
        styles: Styles,
    },
    /// An unbroken sequence of whitespace that was given the strikethrough
    /// style.
    ///
    /// The vanilla client renders whitespace with the strikethrough style as
    /// a solid line; this variant allows for replicating that behavior.
    StrikethroughWhitespace {
        /// The styled whitespace slice
        text: &'a str,
        /// The color of the whitespace (and therefore the line over it)
        color: Color,
        /// Styles applied to the whitespace (will contain at least
        /// strikethrough)
        styles: Styles,
    },
    /// An unstyled slice of text
    ///
    /// This should be given a default style. The vanilla client would use
    /// white and no styles.
    Plain(&'a str),
}

/// What a span says, with its text as a sequence of characters.
pub enum SpanView {
    Styled { text: Seq<char>, color: Color, styles: Styles },
    StrikethroughWhitespace { text: Seq<char>, color: Color, styles: Styles },
    Plain(Seq<char>),
}

impl SpanView {
    /// The characters of the input that the span covers.
    pub open spec fn text(self) -> Seq<char> {
        match self {
            SpanView::Styled { text, .. } => text,
            SpanView::StrikethroughWhitespace { text, .. } => text,
            SpanView::Plain(text) => text,
        }
    }

    /// The color in which the span is drawn: white where it names none.
    pub open spec fn color(self) -> Color {
        match self {
            SpanView::Styled { color, .. } => color,
            SpanView::StrikethroughWhitespace { color, .. } => color,
            SpanView::Plain(_) => Color::White,
        }
    }

    /// The styles with which the span is drawn: none where it names none.
    pub open spec fn styles(self) -> Styles {
        match self {
            SpanView::Styled { styles, .. } => styles,
            SpanView::StrikethroughWhitespace { styles, .. } => styles,
            SpanView::Plain(_) => Styles::spec_empty(),
        }
    }

    /// The span for `text` drawn in `color` with `styles`.
    ///
    /// Text in white without styles is plain. Otherwise text that is all
    /// whitespace and struck through is a strikethrough line, and any other
    /// text is styled.
    pub open spec fn classify(text: Seq<char>, color: Color, styles: Styles) -> SpanView {
        if color == Color::White && styles == Styles::spec_empty() {
            SpanView::Plain(text)
        } else if spec_all_ascii_whitespace(text) && styles.spec_contains(
            Styles::STRIKETHROUGH(),
        ) {
            SpanView::StrikethroughWhitespace { text, color, styles }
        } else {
            SpanView::Styled { text, color, styles }
        }
    }

    /// What the span shows without color: a dash for each character of a
    /// strikethrough line, and the text itself otherwise.
    pub open spec fn visible_text(self) -> Seq<char> {
        match self {
            SpanView::StrikethroughWhitespace { text, .. } => Seq::new(text.len(), |i: int| '-'),
            _ => self.text(),
        }
    }
}

impl<'a> View for Span<'a> {
    type V = SpanView;

    open spec fn view(&self) -> SpanView {
        match *self {
            Span::Styled { text, color, styles } => SpanView::Styled { text: text@, color, styles },
            Span::StrikethroughWhitespace { text, color, styles } => {
                SpanView::StrikethroughWhitespace { text: text@, color, styles }
            },
            Span::Plain(text) => SpanView::Plain(text@),
        }
    }
}

impl<'a> Span<'a> {
    /// Create a new `Span::Plain`
    pub fn new_plain(s: &'a str) -> (r: Span<'a>)
        ensures
            r == Span::Plain(s),
    {
        Span::Plain(s)
    }

    /// Create a new `Span::StrikethroughWhitespace`
    pub fn new_strikethrough_whitespace(s: &'a str, color: Color, styles: Styles) -> (r: Span<'a>)
        ensures
            r == (Span::StrikethroughWhitespace { text: s, color, styles }),
    {
        Span::StrikethroughWhitespace { text: s, color, styles }
    }

    /// Create a new `Span::Styled`
    pub fn new_styled(s: &'a str, color: Color, styles: Styles) -> (r: Span<'a>)
        ensures
            r == (Span::Styled { text: s, color, styles }),
    {
        Span::Styled { text: s, color, styles }
    }

    /// The span for `text` as the parser yields it when `color` and `styles`
    /// are in force.
    pub fn classify(text: &'a str, color: Color, styles: Styles) -> (r: Span<'a>)
        ensures
            r@ == SpanView::classify(text@, color, styles),
    {
        if color == Color::White && styles.is_empty() {
            Span::Plain(text)
        } else if styles.contains(Styles::STRIKETHROUGH()) && all_ascii_whitespace(text) {
            Span::StrikethroughWhitespace { text, color, styles }
        } else {
            Span::Styled { text, color, styles }
        }
    }

    /// The slice of the input that the span covers.
    pub fn text(&self) -> (r: &'a str)
        ensures
            r@ == self@.text(),
    {
        match *self {
            Span::Styled { text, .. } => text,
            Span::StrikethroughWhitespace { text, .. } => text,
            Span::Plain(text) => text,
        }
    }

    /// The color in which the span is drawn.
    pub fn color(&self) -> (r: Color)
        ensures
            r == self@.color(),
    {
        match *self {
            Span::Styled { color, .. } => color,
            Span::StrikethroughWhitespace { color, .. } => color,
            Span::Plain(_) => Color::White,
        }
    }

    /// The styles with which the span is drawn.
    pub fn styles(&self) -> (r: Styles)
        ensures
            r == self@.styles(),
    {
        match *self {
            Span::Styled { styles, .. } => styles,
            Span::StrikethroughWhitespace { styles, .. } => styles,
            Span::Plain(_) => Styles::empty(),
        }
    }

    /// What the span shows without color: a dash for each character of a
    /// strikethrough line, and the text itself otherwise.
    pub fn to_string(&self) -> (r: String)
        ensures
            r@ == self@.visible_text(),
    {
        match *self {
            Span::Styled { text, .. } => text.to_owned(),
            Span::StrikethroughWhitespace { text, .. } => dashes(text.unicode_len()),
            Span::Plain(text) => text.to_owned(),
        }
    }
}

/// A line of `n` dashes.
pub fn dashes(n: usize) -> (r: String)
    ensures
        r@ == Seq::new(n as nat, |i: int| '-'),
{
    let mut line = String::new();
    let mut i: usize = 0;
    while i < n
        invariant
            i <= n,
            line@ == Seq::new(i as nat, |k: int| '-'),
        decreases n - i,
    {
        proof {
            reveal_strlit("-");
        }
        let ghost before = line@;
        line.append("-");
        i = i + 1;
        assert(line@ =~= Seq::new(i as nat, |k: int| '-')) by {
            assert(line@ == before + "-"@);
            assert("-"@ =~= seq!['-']);
        }
    }
    line
}

} // verus!
