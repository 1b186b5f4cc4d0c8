//! Positions in a string: its characters against the bytes of their UTF-8
//! encoding.

use vstd::prelude::*;
use vstd::std_specs::iter::IteratorSpec;
use vstd::string::*;
use vstd::utf8::*;

verus! {

/// The number of bytes that the first `i` characters of `s` take in UTF-8.
pub open spec fn byte_offset(s: Seq<char>, i: int) -> int {
    encode_utf8(s.take(i)).len() as int
}

/// Encoding a concatenation gives the concatenation of the encodings.
pub proof fn lemma_encode_concat(x: Seq<char>, y: Seq<char>)
    ensures
        encode_utf8(x + y) == encode_utf8(x) + encode_utf8(y),
    decreases x.len(),
{
    if x.len() == 0 {
        assert(x + y =~= y);
        assert(encode_utf8(x) + encode_utf8(y) =~= encode_utf8(y));
    } else {
        assert((x + y).drop_first() =~= x.drop_first() + y);
        lemma_encode_concat(x.drop_first(), y);
        assert(encode_utf8(x + y) =~= encode_utf8(x) + encode_utf8(y));
    }
}

/// The encoding of a single character is that of its scalar value.
pub proof fn lemma_encode_single(c: char)
    ensures
        encode_utf8(seq![c]) == encode_scalar(c as u32),
{
    let x = seq![c];
    assert(x.drop_first() =~= Seq::<char>::empty());
    assert(encode_utf8(x.drop_first()) =~= Seq::<u8>::empty());
    assert(encode_utf8(x) =~= encode_scalar(c as u32));
}

/// Every character takes between one and four bytes.
pub proof fn lemma_scalar_len(c: char)
    ensures
        1 <= encode_scalar(c as u32).len() <= 4,
{
}

/// The offset of a position is that of the one before it, and the bytes of
/// the character between them.
pub proof fn lemma_byte_offset_step(s: Seq<char>, i: int)
    requires
        0 <= i < s.len(),
    ensures
        byte_offset(s, i + 1) == byte_offset(s, i) + encode_scalar(s[i] as u32).len(),
        byte_offset(s, i + 1) <= byte_offset(s, s.len() as int),
        byte_offset(s, 0) == 0,
{
    assert(s.take(i + 1) =~= s.take(i) + seq![s[i]]);
    lemma_encode_concat(s.take(i), seq![s[i]]);
    lemma_encode_single(s[i]);
    assert(s.take(s.len() as int) =~= s.take(i + 1) + s.skip(i + 1));
    lemma_encode_concat(s.take(i + 1), s.skip(i + 1));
    assert(s.take(0) =~= Seq::<char>::empty());
}

/// Offsets grow with positions.
pub proof fn lemma_byte_offset_monotonic(s: Seq<char>, i: int, j: int)
    requires
        0 <= i <= j <= s.len(),
    ensures
        byte_offset(s, i) <= byte_offset(s, j),
        i < j ==> byte_offset(s, i) < byte_offset(s, j),
    decreases j - i,
{
    if i < j {
        lemma_byte_offset_monotonic(s, i, j - 1);
        lemma_byte_offset_step(s, j - 1);
        lemma_scalar_len(s[j - 1]);
    }
}

/// The offset of every position is a character boundary of the encoding.
pub proof fn lemma_offset_is_boundary(s: Seq<char>, i: int)
    requires
        0 <= i <= s.len(),
    ensures
        is_char_boundary(encode_utf8(s), byte_offset(s, i)),
    decreases i,
{
    let bytes = encode_utf8(s);
    encode_utf8_valid_utf8(s);
    if i == 0 {
        assert(s.take(0) =~= Seq::<char>::empty());
    } else {
        let rest = s.drop_first();
        encode_utf8_first_scalar(s);
        assert(pop_first_scalar(bytes) =~= encode_utf8(rest));
        lemma_offset_is_boundary(rest, i - 1);
        assert(s.take(i) =~= seq![s[0]] + rest.take(i - 1));
        lemma_encode_concat(seq![s[0]], rest.take(i - 1));
        lemma_encode_single(s[0]);
        lemma_scalar_len(s[0]);
        lemma_byte_offset_monotonic(s, i, s.len() as int);
        assert(s.take(s.len() as int) =~= s);
    }
}

/// The bytes between the offsets of two positions encode the characters
/// between the positions, and nothing else does.
pub proof fn lemma_bytes_between(s: Seq<char>, a: int, b: int, t: Seq<char>)
    requires
        0 <= a <= b <= s.len(),
        encode_utf8(t) == encode_utf8(s).subrange(byte_offset(s, a), byte_offset(s, b)),
    ensures
        t == s.subrange(a, b),
{
    let mid = s.subrange(a, b);
    assert(s =~= s.take(a) + mid + s.skip(b));
    assert(s.take(b) =~= s.take(a) + mid);
    lemma_encode_concat(s.take(a), mid);
    lemma_encode_concat(s.take(b), s.skip(b));
    assert(s =~= s.take(b) + s.skip(b));
    assert(encode_utf8(s).subrange(byte_offset(s, a), byte_offset(s, b)) =~= encode_utf8(mid));
    encode_utf8_decode_utf8(t);
    encode_utf8_decode_utf8(mid);
}

/// The number of characters that the first `offset` bytes of the encoding of
/// `s` hold, where `offset` is a character boundary.
pub open spec fn position_of(s: Seq<char>, offset: int) -> int {
    decode_utf8(encode_utf8(s).subrange(0, offset)).len() as int
}

/// The position that has a given offset is found again from that offset.
pub proof fn lemma_position_of_offset(s: Seq<char>, i: int)
    requires
        0 <= i <= s.len(),
    ensures
        position_of(s, byte_offset(s, i)) == i,
{
    assert(s =~= s.take(i) + s.skip(i));
    lemma_encode_concat(s.take(i), s.skip(i));
    assert(encode_utf8(s).subrange(0, byte_offset(s, i)) =~= encode_utf8(s.take(i)));
    encode_utf8_decode_utf8(s.take(i));
}

/// The number of bytes that `c` takes in UTF-8.
pub fn utf8_len(c: char) -> (n: usize)
    ensures
        n == encode_scalar(c as u32).len(),
        1 <= n <= 4,
{
    let v: u32 = c as u32;
    if v < 0x80 {
        1
    } else if v < 0x800 {
        2
    } else if v < 0x10000 {
        3
    } else {
        4
    }
}

/// The part of `buf` between two positions, given by their byte offsets.
pub(crate) fn slice_between<'a>(
    buf: &'a str,
    start: usize,
    end: usize,
    Ghost(a): Ghost<int>,
    Ghost(b): Ghost<int>,
) -> (r: &'a str)
    requires
        0 <= a <= b <= buf@.len(),
        start == byte_offset(buf@, a),
        end == byte_offset(buf@, b),
    ensures
        r@ == buf@.subrange(a, b),
{
    proof {
        lemma_offset_is_boundary(buf@, a);
        lemma_offset_is_boundary(buf@, b);
        lemma_byte_offset_monotonic(buf@, a, b);
        lemma_byte_offset_monotonic(buf@, b, buf@.len() as int);
        assert(buf@.take(buf@.len() as int) =~= buf@);
    }
    let (head, _) = buf.split_at(end);
    proof {
        let bytes = buf.spec_bytes();
        assert(head.spec_bytes() =~= bytes.subrange(0, byte_offset(buf@, b)));
        assert(bytes.subrange(0, byte_offset(buf@, b)) =~= bytes.subrange(
            byte_offset(buf@, 0),
            byte_offset(buf@, b),
        )) by {
            assert(buf@.take(0) =~= Seq::<char>::empty());
        }
        lemma_bytes_between(buf@, 0, b, head@);
        assert(head@ =~= buf@.take(b));
        assert(head@.take(a) =~= buf@.take(a));
        lemma_offset_is_boundary(head@, a);
    }
    let (_, r) = head.split_at(start);
    proof {
        assert(head@.take(head@.len() as int) =~= head@);
        assert(r.spec_bytes() =~= head.spec_bytes().subrange(
            byte_offset(head@, a),
            byte_offset(head@, head@.len() as int),
        ));
        lemma_bytes_between(head@, a, b, r@);
        assert(head@.subrange(a, b) =~= buf@.subrange(a, b));
    }
    r
}

/// Whether `c` is a space, a tab, a line feed, a form feed or a carriage
/// return.
pub open spec fn spec_is_ascii_whitespace(c: char) -> bool {
    c == ' ' || c == '\t' || c == '\n' || c == '\x0C' || c == '\r'
}

/// Whether `c` is a space, a tab, a line feed, a form feed or a carriage
/// return.
pub fn is_ascii_whitespace(c: char) -> (r: bool)
    ensures
        r == spec_is_ascii_whitespace(c),
{
    c == ' ' || c == '\t' || c == '\n' || c == '\x0C' || c == '\r'
}

/// Whether every character of `s` is ASCII whitespace.
pub open spec fn spec_all_ascii_whitespace(s: Seq<char>) -> bool {
    forall|i: int| 0 <= i < s.len() ==> spec_is_ascii_whitespace(#[trigger] s[i])
}

/// Whether every character of `text` is ASCII whitespace.
pub fn all_ascii_whitespace(text: &str) -> (r: bool)
    ensures
        r == spec_all_ascii_whitespace(text@),
{
    broadcast use vstd::string::group_string_axioms;

    let mut chars = text.chars();
    let ghost mut seen: int = 0;
    loop
        invariant
            0 <= seen <= text@.len(),
            chars.remaining() == text@.skip(seen),
            forall|i: int| 0 <= i < seen ==> spec_is_ascii_whitespace(#[trigger] text@[i]),
        decreases text@.len() - seen,
    {
        match chars.next() {
            None => {
                return true;
            },
            Some(c) => {
                assert(c == text@[seen]);
                if !is_ascii_whitespace(c) {
                    return false;
                }
                proof {
                    assert(text@.skip(seen).drop_first() =~= text@.skip(seen + 1));
                    seen = seen + 1;
                }
            },
        }
    }
}

} // verus!
