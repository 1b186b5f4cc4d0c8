//! What holds of every input: laws of the parser, proved from the grammar.

use crate::color::Color;
use crate::grammar::{
    code_at, format_at_text, joined_text, lemma_step, lemma_text_end, lemma_text_start, spans,
    step, text_end, text_start, Format, FormatCode, Step,
};
use crate::span::SpanView;
use crate::styles::Styles;
use crate::text::spec_all_ascii_whitespace;
use vstd::prelude::*;

verus! {

/// Once the input is read, every further turn yields no span and leaves the
/// position and the format as they are.
pub proof fn lemma_exhausted_stays_exhausted(s: Seq<char>, marker: char, format: Format)
    ensures
        step(s, marker, s.len() as int, format) == (Step {
            span: None,
            position: s.len() as int,
            format,
        }),
        spans(s, marker, s.len() as int, format) == Seq::<SpanView>::empty(),
{
}

/// A turn that yields no span has read the input: the turn after it, and so
/// every later one, yields none either and changes nothing.
pub proof fn lemma_no_span_is_final(s: Seq<char>, marker: char, position: int, format: Format)
    requires
        0 <= position <= s.len(),
    ensures
        ({
            let turn = step(s, marker, position, format);
            turn.span is None ==> step(s, marker, turn.position, turn.format) == turn
        }),
{
    lemma_step(s, marker, position, format);
    let turn = step(s, marker, position, format);
    lemma_exhausted_stays_exhausted(s, marker, turn.format);
}

/// Where no code stands from `j` on, the text that holds `j` runs to the end
/// of the input.
proof fn lemma_text_runs_to_end(s: Seq<char>, marker: char, j: int)
    requires
        0 <= j <= s.len(),
        forall|i: int| j <= i ==> code_at(s, marker, i) is None,
    ensures
        text_end(s, marker, j) == s.len(),
    decreases s.len() - j,
{
    if j >= s.len() {
    } else if s[j] != marker {
        lemma_text_runs_to_end(s, marker, j + 1);
    } else if j + 1 >= s.len() {
    } else {
        assert(code_at(s, marker, j) is None);
        lemma_text_runs_to_end(s, marker, j + 2);
    }
}

/// An input in which no start character is followed by a code, be it at the
/// start, in the middle, at the end or doubled, gives one plain span that
/// holds the whole input.
pub proof fn lemma_without_codes_one_plain_span(s: Seq<char>, marker: char)
    requires
        s.len() > 0,
        forall|i: int|
            0 <= i && i + 1 < s.len() && s[i] == marker ==> FormatCode::spec_from_char(
                #[trigger] s[i + 1],
            ) is None,
    ensures
        spans(s, marker, 0, Format::initial()) == seq![SpanView::Plain(s)],
{
    assert forall|i: int| 0 <= i implies code_at(s, marker, i) is None by {
        if i + 1 < s.len() && s[i] == marker {
            assert(FormatCode::spec_from_char(s[i + 1]) is None);
        }
    }
    lemma_text_runs_to_end(s, marker, 0);
    assert(s.subrange(0, s.len() as int) =~= s);
    let turn = step(s, marker, 0, Format::initial());
    assert(turn.span == Some(SpanView::Plain(s)));
    assert(turn.position == s.len());
    lemma_exhausted_stays_exhausted(s, marker, turn.format);
    assert(spans(s, marker, 0, Format::initial()) =~= seq![SpanView::Plain(s)]);
}

/// Where the parser reads no code, neither in front of the text nor behind
/// it, the texts of its spans, one behind the other, are the input.
pub proof fn lemma_texts_are_input_where_no_code_is_read(
    s: Seq<char>,
    marker: char,
    format: Format,
)
    requires
        text_start(s, marker, 0) == 0,
        text_end(s, marker, 0) == s.len(),
    ensures
        joined_text(spans(s, marker, 0, format)) == s,
{
    let all = spans(s, marker, 0, format);
    if s.len() == 0 {
        assert(joined_text(all) =~= s);
    } else {
        let turn = step(s, marker, 0, format);
        lemma_exhausted_stays_exhausted(s, marker, turn.format);
        assert(s.subrange(0, s.len() as int) =~= s);
        assert(all =~= seq![turn.span->0]);
        assert(all.drop_first() =~= Seq::<SpanView>::empty());
        assert(joined_text(all.drop_first()) =~= Seq::<char>::empty());
        assert(joined_text(all) =~= s);
    }
}

/// A reset code in front of text gives a plain span, whatever color and
/// styles were in force before it.
pub proof fn lemma_reset_gives_plain(s: Seq<char>, marker: char, position: int, format: Format)
    requires
        0 <= position,
        position + 2 < s.len(),
        code_at(s, marker, position) == Some(FormatCode::Reset),
        code_at(s, marker, position + 2) is None,
    ensures
        step(s, marker, position, format).span == Some(
            SpanView::Plain(
                s.subrange(position + 2, text_end(s, marker, position + 2)),
            ),
        ),
{
    assert(format.apply(FormatCode::Reset) == Format::initial());
    assert(text_start(s, marker, position) == text_start(s, marker, position + 2));
    assert(text_start(s, marker, position + 2) == position + 2);
    assert(format_at_text(s, marker, position, format) == format_at_text(
        s,
        marker,
        position + 2,
        Format::initial(),
    ));
}

/// A style that is set is never the empty set of styles.
pub proof fn lemma_strikethrough_is_a_style(styles: Styles)
    requires
        styles.spec_contains(Styles::STRIKETHROUGH()),
    ensures
        styles != Styles::spec_empty(),
{
    let bits = styles.bits;
    assert(bits & 4 == 4 ==> bits != 0) by (bit_vector);
}

/// Text is a strikethrough line exactly when it is all whitespace and struck
/// through; the line then holds the text, and so its number of characters.
/// Any other text is plain or styled.
pub proof fn lemma_strikethrough_whitespace(text: Seq<char>, color: Color, styles: Styles)
    ensures
        SpanView::classify(text, color, styles) is StrikethroughWhitespace <==> (
        spec_all_ascii_whitespace(text) && styles.spec_contains(Styles::STRIKETHROUGH())),
        SpanView::classify(text, color, styles).text() == text,
        SpanView::classify(text, color, styles).color() == color,
        SpanView::classify(text, color, styles).styles() == styles,
        SpanView::classify(text, color, styles).visible_text().len() == text.len(),
{
    if styles.spec_contains(Styles::STRIKETHROUGH()) {
        lemma_strikethrough_is_a_style(styles);
    }
}

/// Between the place where a turn begins and the text that it finds stand
/// codes and nothing else: the parser leaves out no character but those of
/// the codes that it applies.
pub proof fn lemma_only_codes_before_text(s: Seq<char>, marker: char, position: int)
    requires
        0 <= position <= s.len(),
    ensures
        (text_start(s, marker, position) - position) % 2 == 0,
        forall|k: int|
            position <= k < text_start(s, marker, position) && (k - position) % 2 == 0
                ==> #[trigger] code_at(s, marker, k) is Some,
    decreases s.len() - position,
{
    if code_at(s, marker, position) is Some {
        lemma_only_codes_before_text(s, marker, position + 2);
        assert forall|k: int|
            position <= k < text_start(s, marker, position) && (k - position) % 2
                == 0 implies #[trigger] code_at(s, marker, k) is Some by {
            if k != position {
                assert(position + 2 <= k);
                assert((k - (position + 2)) % 2 == 0);
            }
        }
    }
}

/// Behind the span of a turn, the next turn begins at the end of the input
/// or behind the code that ended the text.
pub proof fn lemma_only_a_code_behind_text(
    s: Seq<char>,
    marker: char,
    position: int,
    format: Format,
)
    requires
        0 <= position <= s.len(),
        step(s, marker, position, format).span is Some,
    ensures
        ({
            let turn = step(s, marker, position, format);
            let end = text_end(s, marker, text_start(s, marker, position));
            if end < s.len() {
                code_at(s, marker, end) is Some && turn.position == end + 2
            } else {
                turn.position == s.len()
            }
        }),
{
    lemma_text_start(s, marker, position);
    lemma_text_end(s, marker, text_start(s, marker, position));
}

/// The code character of a color selects that color again.
pub proof fn lemma_color_code_selects_color(color: Color)
    ensures
        Color::spec_from_char(color.spec_code()) == Some(color),
{
}

/// A character stands for at most one kind of code: none selects a color
/// and sets a style, and the reset does neither.
pub proof fn lemma_codes_are_distinct(c: char)
    ensures
        !(Color::spec_from_char(c) is Some && Styles::spec_from_char(c) is Some),
        c == 'r' || c == 'R' ==> Color::spec_from_char(c) is None && Styles::spec_from_char(
            c,
        ) is None,
{
}

/// Upper and lower case letters stand for the same code.
pub proof fn lemma_code_case_is_ignored(lower: char, upper: char)
    requires
        'a' <= lower <= 'z',
        upper as int == lower as int - 32,
    ensures
        FormatCode::spec_from_char(upper) == FormatCode::spec_from_char(lower),
{
}

/// Every span that the parser yields holds text, and is of the kind that its
/// text, color and styles call for: codes without text between them give no
/// span.
pub proof fn lemma_spans_hold_text(s: Seq<char>, marker: char, position: int, format: Format)
    requires
        0 <= position <= s.len(),
    ensures
        forall|i: int|
            0 <= i < spans(s, marker, position, format).len() ==> {
                let span = #[trigger] spans(s, marker, position, format)[i];
                &&& span.text().len() > 0
                &&& span == SpanView::classify(span.text(), span.color(), span.styles())
            },
    decreases s.len() - position,
{
    let turn = step(s, marker, position, format);
    lemma_step(s, marker, position, format);
    if turn.span is Some {
        lemma_spans_hold_text(s, marker, turn.position, turn.format);
        let rest = spans(s, marker, turn.position, turn.format);
        let all = spans(s, marker, position, format);
        assert(all =~= seq![turn.span->0] + rest);
        let first = turn.span->0;
        lemma_strikethrough_whitespace(
            first.text(),
            format_at_text(s, marker, position, format).color,
            format_at_text(s, marker, position, format).styles,
        );
        assert forall|i: int| 0 <= i < all.len() implies {
            let span = #[trigger] all[i];
            &&& span.text().len() > 0
            &&& span == SpanView::classify(span.text(), span.color(), span.styles())
        } by {
            if i > 0 {
                assert(all[i] == rest[i - 1]);
            }
        }
    }
}

} // verus!
