//! The parser: it walks the input once and yields its spans one by one.

use crate::color::Color;
use crate::grammar::{
    format_at_text, lemma_step, spans, step, text_end, text_start, Format, FormatCode,
};
use crate::span::{Span, SpanView};
use crate::styles::Styles;
use crate::text::{
    byte_offset, lemma_byte_offset_step, lemma_bytes_between, lemma_offset_is_boundary,
    lemma_position_of_offset, position_of, slice_between, utf8_len,
};
use vstd::prelude::*;
use vstd::std_specs::iter::IteratorSpec;
use vstd::string::*;

verus! {

/// An iterator that yields the spans of an input string.
#[derive(Debug)]
pub struct SpanIter<'a> {
    buf: &'a str,
    /// The byte of `buf` at which the part not yet read begins
    offset: usize,
    /// The character that indicates the beginning of a fmt code
    ///
    /// The vanilla client uses `§` for this, but community tooling often uses
    /// `&`, so we allow it to be configured
    start_char: char,
    color: Color,
    styles: Styles,
}

/// The state of a parser: its input, how many characters of it are read, the
/// start character, and the color and styles in force.
pub struct SpanIterView {
    pub input: Seq<char>,
    pub position: int,
    pub start_char: char,
    pub color: Color,
    pub styles: Styles,
}

impl SpanIterView {
    /// The color and the styles in force.
    pub open spec fn format(self) -> Format {
        Format { color: self.color, styles: self.styles }
    }

    /// Whether the whole input is read.
    pub open spec fn is_finished(self) -> bool {
        self.position == self.input.len()
    }
}

impl<'a> View for SpanIter<'a> {
    type V = SpanIterView;

    closed spec fn view(&self) -> SpanIterView {
        SpanIterView {
            input: self.buf@,
            position: position_of(self.buf@, self.offset as int),
            start_char: self.start_char,
            color: self.color,
            styles: self.styles,
        }
    }
}

/// Where the parser stands within one turn.
#[derive(Debug, Copy, Clone)]
enum ScanState {
    /// Reading codes, and looking for a start character
    ExpectingStartChar,
    /// Reading codes, with a start character found and a code expected
    /// behind it
    ExpectingFmtCode,
    /// Reading text, and waiting for a start character
    WaitingForStartChar,
    /// Reading text, with a start character found: a code behind it ends the
    /// text
    ExpectingEndChar,
}

impl<'a> SpanIter<'a> {
    #[verifier::type_invariant]
    spec fn well_formed(&self) -> bool {
        &&& 0 <= position_of(self.buf@, self.offset as int) <= self.buf@.len()
        &&& self.offset == byte_offset(self.buf@, position_of(self.buf@, self.offset as int))
    }

    /// Create a new `SpanIter` to parse the given string
    pub fn new(s: &'a str) -> (r: SpanIter<'a>)
        ensures
            r@ == (SpanIterView {
                input: s@,
                position: 0,
                start_char: '§',
                color: Color::White,
                styles: Styles::spec_empty(),
            }),
    {
        proof {
            assert(s@.take(0) =~= Seq::<char>::empty());
            assert(0 == byte_offset(s@, 0));
            lemma_position_of_offset(s@, 0);
        }
        SpanIter {
            buf: s,
            offset: 0,
            start_char: '§',
            color: Color::White,
            styles: Styles::empty(),
        }
    }

    /// Set the start character used while parsing.
    ///
    /// The start character is chosen before the first span is asked for: it
    /// does not change once a part of the input is read.
    pub fn with_start_char(self, c: char) -> (r: SpanIter<'a>)
        requires
            self@.position == 0,
        ensures
            r@ == (SpanIterView { start_char: c, ..self@ }),
    {
        proof {
            use_type_invariant(&self);
        }
        let mut this = self;
        this.start_char = c;
        this
    }

    /// Set the start character used while parsing.
    ///
    /// The start character is chosen before the first span is asked for: it
    /// does not change once a part of the input is read.
    pub fn set_start_char(&mut self, c: char)
        requires
            old(self)@.position == 0,
        ensures
            final(self)@ == (SpanIterView { start_char: c, ..old(self)@ }),
    {
        proof {
            use_type_invariant(&*self);
        }
        self.start_char = c;
    }

    /// The next span of the input, or `None` when the input is read.
    ///
    /// One pass over the characters not yet read: codes in front of the text
    /// are applied, the text up to the next code is the span, and that code is
    /// applied before the span is handed out.
    pub fn next(&mut self) -> (r: Option<Span<'a>>)
        ensures
            ({
                let before = old(self)@;
                let turn = step(
                    before.input,
                    before.start_char,
                    before.position,
                    before.format(),
                );
                &&& match r {
                    Some(span) => turn.span == Some(span@),
                    None => turn.span is None,
                }
                &&& final(self)@ == (SpanIterView {
                    position: turn.position,
                    color: turn.format.color,
                    styles: turn.format.styles,
                    ..before
                })
            }),
            0 <= old(self)@.position <= final(self)@.position <= old(self)@.input.len(),
            r is Some ==> old(self)@.position < final(self)@.position,
    {
        broadcast use vstd::string::group_string_axioms;

        proof {
            use_type_invariant(&*self);
        }
        let buf = self.buf;
        let marker = self.start_char;
        let total = buf.as_bytes().len();
        let ghost s = buf@;
        let ghost len = s.len() as int;
        let ghost p0 = position_of(s, self.offset as int);
        let ghost f0 = self.format();
        proof {
            lemma_offset_is_boundary(s, p0);
            assert(s.take(len) =~= s);
            lemma_step(s, marker, p0, f0);
        }
        let (_, rest) = buf.split_at(self.offset);
        proof {
            lemma_bytes_between(s, p0, len, rest@);
            assert(s.subrange(p0, len) =~= s.skip(p0));
        }
        let mut chars = rest.chars();
        let mut offset = self.offset;
        let mut state = ScanState::ExpectingStartChar;
        let mut span_start: usize = offset;
        let mut span_end: usize = offset;
        let ghost mut p = p0;
        let ghost mut a = p0;
        let ghost mut b = p0;
        loop
            invariant
                self.buf == buf,
                self.start_char == marker,
                self.offset == old(self).offset,
                old(self).buf == buf,
                old(self).start_char == marker,
                f0 == old(self).format(),
                p0 == position_of(s, old(self).offset as int),
                s == buf@,
                len == s.len(),
                total == byte_offset(s, len),
                0 <= p0 <= p <= len,
                chars.remaining() == s.skip(p),
                offset == byte_offset(s, p),
                match state {
                    ScanState::ExpectingStartChar => {
                        &&& text_start(s, marker, p0) == text_start(s, marker, p)
                        &&& format_at_text(s, marker, p0, f0) == format_at_text(
                            s,
                            marker,
                            p,
                            self.format(),
                        )
                    },
                    ScanState::ExpectingFmtCode => {
                        &&& p0 <= a == p - 1
                        &&& s[a] == marker
                        &&& span_start == byte_offset(s, a)
                        &&& text_start(s, marker, p0) == text_start(s, marker, a)
                        &&& format_at_text(s, marker, p0, f0) == format_at_text(
                            s,
                            marker,
                            a,
                            self.format(),
                        )
                    },
                    ScanState::WaitingForStartChar => {
                        &&& p0 <= a < p
                        &&& span_start == byte_offset(s, a)
                        &&& text_start(s, marker, p0) == a
                        &&& format_at_text(s, marker, p0, f0) == self.format()
                        &&& text_end(s, marker, a) == text_end(s, marker, p)
                    },
                    ScanState::ExpectingEndChar => {
                        &&& p0 <= a < b == p - 1
                        &&& s[b] == marker
                        &&& span_start == byte_offset(s, a)
                        &&& span_end == byte_offset(s, b)
                        &&& text_start(s, marker, p0) == a
                        &&& format_at_text(s, marker, p0, f0) == self.format()
                        &&& text_end(s, marker, a) == text_end(s, marker, b)
                    },
                },
            decreases len - p,
        {
            match chars.next() {
                None => {
                    proof {
                        assert(p == len);
                        lemma_position_of_offset(s, len);
                    }
                    self.offset = offset;
                    return match state {
                        ScanState::ExpectingStartChar => None,
                        _ => Some(self.make_span(span_start, total, Ghost(a), Ghost(len))),
                    };
                },
                Some(c) => {
                    proof {
                        assert(c == s[p]);
                        assert(s.skip(p).drop_first() =~= s.skip(p + 1));
                        lemma_byte_offset_step(s, p);
                    }
                    let idx = offset;
                    offset = offset + utf8_len(c);
                    match state {
                        ScanState::ExpectingStartChar => {
                            span_start = idx;
                            proof {
                                a = p;
                            }
                            if c == marker {
                                state = ScanState::ExpectingFmtCode;
                            } else {
                                state = ScanState::WaitingForStartChar;
                            }
                        },
                        ScanState::ExpectingFmtCode => {
                            match FormatCode::from_char(c) {
                                Some(code) => {
                                    self.apply(code);
                                    state = ScanState::ExpectingStartChar;
                                },
                                None => {
                                    state = ScanState::WaitingForStartChar;
                                },
                            }
                        },
                        ScanState::WaitingForStartChar => {
                            if c == marker {
                                span_end = idx;
                                proof {
                                    b = p;
                                }
                                state = ScanState::ExpectingEndChar;
                            }
                        },
                        ScanState::ExpectingEndChar => {
                            // Only a valid code ends the turn. It is applied
                            // before the span is handed out, so that the next
                            // turn picks up where this one left off.
                            match FormatCode::from_char(c) {
                                Some(code) => {
                                    let span = self.make_span(
                                        span_start,
                                        span_end,
                                        Ghost(a),
                                        Ghost(b),
                                    );
                                    self.apply(code);
                                    proof {
                                        lemma_position_of_offset(s, p + 1);
                                    }
                                    self.offset = offset;
                                    return Some(span);
                                },
                                None => {
                                    state = ScanState::WaitingForStartChar;
                                },
                            }
                        },
                    }
                    proof {
                        p = p + 1;
                    }
                },
            }
        }
    }

    /// All the spans of the input that is not yet read, in order.
    pub fn collect(self) -> (r: Vec<Span<'a>>)
        ensures
            r@.map_values(|span: Span<'a>| span@) == spans(
                self@.input,
                self@.start_char,
                self@.position,
                self@.format(),
            ),
    {
        let mut this = self;
        let mut found: Vec<Span<'a>> = Vec::new();
        let ghost all = spans(self@.input, self@.start_char, self@.position, self@.format());
        proof {
            use_type_invariant(&this);
            lemma_position_of_offset(this.buf@, position_of(this.buf@, this.offset as int));
            assert(found@.map_values(|span: Span<'a>| span@) =~= Seq::<SpanView>::empty());
        }
        loop
            invariant
                this@.input == self@.input,
                this@.start_char == self@.start_char,
                0 <= this@.position <= this@.input.len(),
                all == found@.map_values(|span: Span<'a>| span@) + spans(
                    this@.input,
                    this@.start_char,
                    this@.position,
                    this@.format(),
                ),
            ensures
                all == found@.map_values(|span: Span<'a>| span@),
            decreases this@.input.len() - this@.position,
        {
            let ghost before = this@;
            let ghost seen = found@.map_values(|span: Span<'a>| span@);
            proof {
                lemma_step(before.input, before.start_char, before.position, before.format());
            }
            match this.next() {
                Some(span) => {
                    found.push(span);
                    proof {
                        assert(found@.map_values(|span: Span<'a>| span@) =~= seen + seq![span@]);
                    }
                },
                None => {
                    break;
                },
            }
        }
        found
    }

    /// Update the currently stored color
    fn update_color(&mut self, color: Color)
        ensures
            *final(self) == (SpanIter { color, styles: Styles::spec_empty(), ..*old(self) }),
    {
        proof {
            use_type_invariant(&*self);
        }
        self.color = color;
        // Using a color code resets the current style
        self.styles = Styles::empty();
    }

    /// Insert `styles` into the currently stored styles
    fn update_styles(&mut self, styles: Styles)
        ensures
            *final(self) == (SpanIter {
                styles: old(self).styles.spec_union(styles),
                ..*old(self)
            }),
    {
        proof {
            use_type_invariant(&*self);
        }
        let mut joined = self.styles;
        joined.insert(styles);
        self.styles = joined;
    }

    /// Should be called when encountering the reset code
    fn reset_styles(&mut self)
        ensures
            *final(self) == (SpanIter {
                color: Color::White,
                styles: Styles::spec_empty(),
                ..*old(self)
            }),
    {
        proof {
            use_type_invariant(&*self);
        }
        self.color = Color::White;
        self.styles = Styles::empty();
    }

    /// Bring `code` into force.
    fn apply(&mut self, code: FormatCode)
        ensures
            *final(self) == (SpanIter {
                color: old(self).format().apply(code).color,
                styles: old(self).format().apply(code).styles,
                ..*old(self)
            }),
    {
        match code {
            FormatCode::Color(color) => self.update_color(color),
            FormatCode::Style(styles) => self.update_styles(styles),
            FormatCode::Reset => self.reset_styles(),
        }
    }

    /// The color and the styles in force.
    spec fn format(&self) -> Format {
        Format { color: self.color, styles: self.styles }
    }

    /// Make a span based off the current state of the iterator
    ///
    /// The span will be from byte `start` to byte `end`, which are where the
    /// characters at `from` and `to` begin.
    fn make_span(&self, start: usize, end: usize, Ghost(from): Ghost<int>, Ghost(to): Ghost<int>) -> (r:
        Span<'a>)
        requires
            0 <= from <= to <= self.buf@.len(),
            start == byte_offset(self.buf@, from),
            end == byte_offset(self.buf@, to),
        ensures
            r@ == SpanView::classify(
                self.buf@.subrange(from, to),
                self.color,
                self.styles,
            ),
    {
        let text = slice_between(self.buf, start, end, Ghost(from), Ghost(to));
        Span::classify(text, self.color, self.styles)
    }
}

impl<'a> Clone for SpanIter<'a> {
    /// A second parser over the same input, in the same state.
    fn clone(&self) -> (r: SpanIter<'a>)
        ensures
            r@ == self@,
    {
        proof {
            use_type_invariant(self);
        }
        SpanIter {
            buf: self.buf,
            offset: self.offset,
            start_char: self.start_char,
            color: self.color,
            styles: self.styles,
        }
    }
}

/// An extension trait that adds a method for creating a `SpanIter`
pub trait SpanExt {
    /// The characters of the text that is parsed.
    spec fn text(&self) -> Seq<char>;

    /// Produces a `SpanIter` from `&self`
    fn span_iter(&self) -> (r: SpanIter<'_>)
        ensures
            r@ == (SpanIterView {
                input: self.text(),
                position: 0,
                start_char: '§',
                color: Color::White,
                styles: Styles::spec_empty(),
            }),
    ;
}

impl SpanExt for str {
    open spec fn text(&self) -> Seq<char> {
        self@
    }

    fn span_iter(&self) -> (r: SpanIter<'_>) {
        SpanIter::new(self)
    }
}

impl SpanExt for String {
    open spec fn text(&self) -> Seq<char> {
        self@
    }

    fn span_iter(&self) -> (r: SpanIter<'_>) {
        SpanIter::new(self.as_str())
    }
}

} // verus!
