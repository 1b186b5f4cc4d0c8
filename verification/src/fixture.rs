//! Spans written out as the names that construct them, for pasting into a
//! test.

use crate::color::Color;
use crate::span::{Span, SpanView};
use crate::styles::Styles;
use vstd::prelude::*;
use vstd::string::*;

verus! {

/// `parts` one behind the other, with `separator` between each two.
pub open spec fn joined(parts: Seq<Seq<char>>, separator: Seq<char>) -> Seq<char>
    decreases parts.len(),
{
    if parts.len() == 0 {
        Seq::<char>::empty()
    } else if parts.len() == 1 {
        parts[0]
    } else {
        joined(parts.drop_last(), separator) + separator + parts.last()
    }
}

/// `name` if `set`, and nothing otherwise.
pub open spec fn name_if(set: bool, name: Seq<char>) -> Seq<Seq<char>> {
    if set {
        seq![name]
    } else {
        Seq::<Seq<char>>::empty()
    }
}

/// The names of the flags set in `styles`, each once, in the order random,
/// bold, strikethrough, underlined, italic.
pub open spec fn flag_names(styles: Styles) -> Seq<Seq<char>> {
    name_if(styles.spec_contains(Styles::RANDOM()), "Styles::RANDOM"@) + name_if(
        styles.spec_contains(Styles::BOLD()),
        "Styles::BOLD"@,
    ) + name_if(styles.spec_contains(Styles::STRIKETHROUGH()), "Styles::STRIKETHROUGH"@)
        + name_if(styles.spec_contains(Styles::UNDERLINED()), "Styles::UNDERLINED"@) + name_if(
        styles.spec_contains(Styles::ITALIC()),
        "Styles::ITALIC"@,
    )
}

/// The expression that gives `styles`: the call for the empty set, or the
/// names of the flags that are set with ` | ` between them.
pub open spec fn spec_handle_styles(styles: Styles) -> Seq<char> {
    if styles == Styles::spec_empty() {
        "Styles::empty()"@
    } else {
        joined(flag_names(styles), " | "@)
    }
}

/// Puts `name` behind `out`, with ` | ` in front of it unless it is the
/// first.
fn push_name(out: &mut String, name: &str, Ghost(names): Ghost<Seq<Seq<char>>>)
    requires
        old(out)@ == joined(names, " | "@),
        names.len() > 0 ==> old(out)@.len() > 0,
        name@.len() > 0,
    ensures
        final(out)@ == joined(names.push(name@), " | "@),
        final(out)@.len() > 0,
{
    if !out.as_str().is_empty() {
        out.append(" | ");
    }
    out.append(name);
    proof {
        assert(names.push(name@).drop_last() =~= names);
        if names.len() == 0 {
            assert(old(out)@ =~= Seq::<char>::empty());
            assert(final(out)@ =~= name@);
        }
    }
}

/// The expression that gives `styles`, as source text.
pub fn handle_styles(styles: Styles) -> (r: String)
    ensures
        r@ == spec_handle_styles(styles),
{
    if styles.is_empty() {
        "Styles::empty()".to_owned()
    } else {
        let mut out = String::new();
        let ghost mut names = Seq::<Seq<char>>::empty();
        proof {
            reveal_strlit("Styles::RANDOM");
            reveal_strlit("Styles::BOLD");
            reveal_strlit("Styles::STRIKETHROUGH");
            reveal_strlit("Styles::UNDERLINED");
            reveal_strlit("Styles::ITALIC");
        }
        if styles.contains(Styles::RANDOM()) {
            push_name(&mut out, "Styles::RANDOM", Ghost(names));
            proof {
                names = names.push("Styles::RANDOM"@);
            }
        }
        if styles.contains(Styles::BOLD()) {
            push_name(&mut out, "Styles::BOLD", Ghost(names));
            proof {
                names = names.push("Styles::BOLD"@);
            }
        }
        if styles.contains(Styles::STRIKETHROUGH()) {
            push_name(&mut out, "Styles::STRIKETHROUGH", Ghost(names));
            proof {
                names = names.push("Styles::STRIKETHROUGH"@);
            }
        }
        if styles.contains(Styles::UNDERLINED()) {
            push_name(&mut out, "Styles::UNDERLINED", Ghost(names));
            proof {
                names = names.push("Styles::UNDERLINED"@);
            }
        }
        if styles.contains(Styles::ITALIC()) {
            push_name(&mut out, "Styles::ITALIC", Ghost(names));
            proof {
                names = names.push("Styles::ITALIC"@);
            }
        }
        assert(names =~= flag_names(styles));
        out
    }
}

/// The line that constructs `span`: a tab, the call with the text between
/// double quotes as it is, and a comma.
pub open spec fn spec_span_constructor(span: SpanView) -> Seq<char> {
    match span {
        SpanView::Styled { text, color, styles } => "\tSpan::new_styled(\""@ + text
            + "\", Color::"@ + color.spec_ident() + ", "@ + spec_handle_styles(styles) + "),"@,
        SpanView::StrikethroughWhitespace { text, color, styles } =>
            "\tSpan::new_strikethrough_whitespace(\""@ + text + "\", Color::"@
                + color.spec_ident() + ", "@ + spec_handle_styles(styles) + "),"@,
        SpanView::Plain(text) => "\tSpan::new_plain(\""@ + text + "\"),"@,
    }
}

/// The arguments of a call behind the opening of it: the text, the color and
/// the styles.
fn push_arguments(out: &mut String, text: &str, color: Color, styles: Styles)
    ensures
        final(out)@ == old(out)@ + text@ + "\", Color::"@ + color.spec_ident() + ", "@
            + spec_handle_styles(styles) + "),"@,
{
    out.append(text);
    out.append("\", Color::");
    out.append(color.ident());
    out.append(", ");
    let styles_text = handle_styles(styles);
    out.append(styles_text.as_str());
    out.append("),");
}

/// The line that constructs `span`, as source text.
pub fn span_constructor(span: &Span<'_>) -> (r: String)
    ensures
        r@ == spec_span_constructor(span@),
{
    let mut out = String::new();
    match *span {
        Span::Styled { text, color, styles } => {
            out.append("\tSpan::new_styled(\"");
            push_arguments(&mut out, text, color, styles);
        },
        Span::StrikethroughWhitespace { text, color, styles } => {
            out.append("\tSpan::new_strikethrough_whitespace(\"");
            push_arguments(&mut out, text, color, styles);
        },
        Span::Plain(text) => {
            out.append("\tSpan::new_plain(\"");
            out.append(text);
            out.append("\"),");
        },
    }
    out
}

/// What stands between the first and the last character of `input`, which
/// are taken to be the quotes around it. There is none where `input` is too
/// short to hold both.
pub fn unquoted<'a>(input: &'a str) -> (r: Option<&'a str>)
    ensures
        match r {
            Some(inner) => input@.len() >= 2 && inner@ == input@.subrange(1, input@.len() - 1),
            None => input@.len() < 2,
        },
{
    let n = input.unicode_len();
    if n < 2 {
        None
    } else {
        Some(input.substring_char(1, n - 1))
    }
}

} // verus!
