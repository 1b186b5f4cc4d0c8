//! What the parser yields, stated over the characters of the input.
//!
//! A formatting code is the start character followed by a character that
//! selects a color, sets a style or resets both. The input is read in turns:
//! each skips the codes that stand before a run of text, then takes the run up
//! to the next code, which it applies for the turn after.

use crate::color::Color;
use crate::span::SpanView;
use crate::styles::Styles;
use vstd::prelude::*;

verus! {

/// What a formatting code asks for.
#[derive(Debug, Copy, Clone, PartialEq, Eq, Structural)]
pub enum FormatCode {
    /// Draw in this color from here on, without styles.
    Color(Color),
    /// Add this style to those in force.
    Style(Styles),
    /// Go back to white without styles.
    Reset,
}

impl FormatCode {
    /// The code that `c` stands for behind a start character, if any: a
    /// color, else a style, else `r` or `R` for the reset.
    pub open spec fn spec_from_char(c: char) -> Option<FormatCode> {
        match Color::spec_from_char(c) {
            Some(color) => Some(FormatCode::Color(color)),
            None => match Styles::spec_from_char(c) {
                Some(styles) => Some(FormatCode::Style(styles)),
                None => if c == 'r' || c == 'R' {
                    Some(FormatCode::Reset)
                } else {
                    None
                },
            },
        }
    }

    /// The code that `c` stands for behind a start character, if any.
    pub fn from_char(c: char) -> (r: Option<FormatCode>)
        ensures
            r == FormatCode::spec_from_char(c),
    {
        if let Some(color) = Color::from_char(c) {
            Some(FormatCode::Color(color))
        } else if let Some(styles) = Styles::from_char(c) {
            Some(FormatCode::Style(styles))
        } else if c == 'r' || c == 'R' {
            Some(FormatCode::Reset)
        } else {
            None
        }
    }
}

/// The color and the styles in force at a place of the input.
#[derive(Debug, Copy, Clone, PartialEq, Eq, Structural)]
pub struct Format {
    pub color: Color,
    pub styles: Styles,
}

impl Format {
    /// White without styles: what is in force where the input begins.
    pub open spec fn initial() -> Format {
        Format { color: Color::White, styles: Styles::spec_empty() }
    }

    /// What is in force behind `code`. A color drops the styles, a style
    /// joins those in force and keeps the color, a reset gives the initial
    /// format.
    pub open spec fn apply(self, code: FormatCode) -> Format {
        match code {
            FormatCode::Color(color) => Format { color, styles: Styles::spec_empty() },
            FormatCode::Style(styles) => Format {
                color: self.color,
                styles: self.styles.spec_union(styles),
            },
            FormatCode::Reset => Format::initial(),
        }
    }
}

/// The code that stands at position `i` of `s`: the start character there,
/// and behind it a character that stands for a code.
pub open spec fn code_at(s: Seq<char>, marker: char, i: int) -> Option<FormatCode> {
    if 0 <= i && i + 1 < s.len() && s[i] == marker {
        FormatCode::spec_from_char(s[i + 1])
    } else {
        None
    }
}

/// Where the text begins that follows the codes standing at `i`.
pub open spec fn text_start(s: Seq<char>, marker: char, i: int) -> int
    decreases s.len() - i,
{
    if code_at(s, marker, i) is Some {
        text_start(s, marker, i + 2)
    } else {
        i
    }
}

/// What is in force behind the codes standing at `i`, where `format` was in
/// force before them.
pub open spec fn format_at_text(s: Seq<char>, marker: char, i: int, format: Format) -> Format
    decreases s.len() - i,
{
    match code_at(s, marker, i) {
        Some(code) => format_at_text(s, marker, i + 2, format.apply(code)),
        None => format,
    }
}

/// Where the text that holds position `j` ends: at the first code from `j`
/// on, or with the input. A start character without a code behind it is text,
/// and so is the character behind it, whatever it is.
pub open spec fn text_end(s: Seq<char>, marker: char, j: int) -> int
    decreases s.len() - j,
{
    if j < 0 || j >= s.len() {
        s.len() as int
    } else if s[j] != marker {
        text_end(s, marker, j + 1)
    } else if code_at(s, marker, j) is Some {
        j
    } else if j + 1 >= s.len() {
        s.len() as int
    } else {
        text_end(s, marker, j + 2)
    }
}

/// One turn of the parser: the span that it yields, if any, and where and
/// with what format the next turn begins.
pub struct Step {
    pub span: Option<SpanView>,
    pub position: int,
    pub format: Format,
}

/// The turn that begins at `position` with `format` in force.
///
/// The codes at `position` are applied. If the input ends behind them, there
/// is no span. Otherwise the text from there to its end is the span, in the
/// format then in force, and the code that ends it, if one does, is applied
/// for the next turn.
pub open spec fn step(s: Seq<char>, marker: char, position: int, format: Format) -> Step {
    let start = text_start(s, marker, position);
    let at_text = format_at_text(s, marker, position, format);
    if start >= s.len() {
        Step { span: None, position: s.len() as int, format: at_text }
    } else {
        let end = text_end(s, marker, start);
        let span = SpanView::classify(s.subrange(start, end), at_text.color, at_text.styles);
        match code_at(s, marker, end) {
            Some(code) => Step { span: Some(span), position: end + 2, format: at_text.apply(code) },
            None => Step { span: Some(span), position: s.len() as int, format: at_text },
        }
    }
}

/// The spans that the parser yields from `position` on with `format` in
/// force, in the order in which it yields them.
pub open spec fn spans(s: Seq<char>, marker: char, position: int, format: Format) -> Seq<SpanView>
    decreases s.len() - position,
    when 0 <= position <= s.len()
    via spans_decreases
{
    let turn = step(s, marker, position, format);
    match turn.span {
        Some(span) => seq![span] + spans(s, marker, turn.position, turn.format),
        None => seq![],
    }
}

#[via_fn]
proof fn spans_decreases(s: Seq<char>, marker: char, position: int, format: Format) {
    lemma_step(s, marker, position, format);
}

/// The texts of `spans`, one behind the other.
pub open spec fn joined_text(spans: Seq<SpanView>) -> Seq<char>
    decreases spans.len(),
{
    if spans.len() == 0 {
        seq![]
    } else {
        spans[0].text() + joined_text(spans.drop_first())
    }
}

/// The text behind codes begins at or behind them, within the input, and not
/// at a code.
pub proof fn lemma_text_start(s: Seq<char>, marker: char, i: int)
    requires
        0 <= i <= s.len(),
    ensures
        i <= text_start(s, marker, i) <= s.len(),
        code_at(s, marker, text_start(s, marker, i)) is None,
    decreases s.len() - i,
{
    if code_at(s, marker, i) is Some {
        lemma_text_start(s, marker, i + 2);
    }
}

/// A text ends within the input, and before the input does only at a code. A
/// text that begins where no code stands holds a character at least.
pub proof fn lemma_text_end(s: Seq<char>, marker: char, j: int)
    requires
        0 <= j <= s.len(),
    ensures
        j <= text_end(s, marker, j) <= s.len(),
        text_end(s, marker, j) < s.len() ==> code_at(s, marker, text_end(s, marker, j)) is Some,
        j < s.len() && code_at(s, marker, j) is None ==> j < text_end(s, marker, j),
    decreases s.len() - j,
{
    if j >= s.len() {
    } else if s[j] != marker {
        lemma_text_end(s, marker, j + 1);
    } else if code_at(s, marker, j) is Some {
    } else if j + 1 >= s.len() {
    } else {
        lemma_text_end(s, marker, j + 2);
    }
}

/// A turn goes forward and stays within the input. Its span, if it yields
/// one, is a piece of the input that is not empty and lies between where the
/// turn begins and where the next one does. Without a span the input is read.
pub proof fn lemma_step(s: Seq<char>, marker: char, position: int, format: Format)
    requires
        0 <= position <= s.len(),
    ensures
        ({
            let turn = step(s, marker, position, format);
            let start = text_start(s, marker, position);
            let end = text_end(s, marker, start);
            &&& position <= turn.position <= s.len()
            &&& turn.span is None ==> turn.position == s.len()
            &&& turn.span is Some ==> {
                &&& position <= start < end <= turn.position
                &&& turn.span->0.text() == s.subrange(start, end)
                &&& turn.span->0.color() == format_at_text(s, marker, position, format).color
                &&& turn.span->0.styles() == format_at_text(s, marker, position, format).styles
            }
        }),
{
    lemma_text_start(s, marker, position);
    let start = text_start(s, marker, position);
    if start < s.len() {
        lemma_text_end(s, marker, start);
    }
}

} // verus!
