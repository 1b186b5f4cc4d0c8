//! The style flags of the legacy formatting system, as a bit set.

use vstd::prelude::*;

verus! {

/// Styles that can be combined and applied to a span.
///
/// There is no flag for the reset code: the parser consumes it, and it never
/// shows in the styles of a span.
#[derive(Debug, Copy, Clone, PartialEq, Eq, Structural, Hash, PartialOrd, Ord)]
pub struct Styles {
    /// One bit for each flag that is set.
    pub bits: u32,
}

impl Styles {
    /// Signals that the span's text should be replaced with randomized
    /// characters at a constant interval
    #[allow(non_snake_case)]
    #[verifier::allow_in_spec]
    pub fn RANDOM() -> Styles
        returns
            (Styles { bits: 1 }),
    {
        Styles { bits: 1 }
    }

    /// Signals that the span's text should be bold
    #[allow(non_snake_case)]
    #[verifier::allow_in_spec]
    pub fn BOLD() -> Styles
        returns
            (Styles { bits: 2 }),
    {
        Styles { bits: 2 }
    }

    /// Signals that the span's text should be strikethrough
    #[allow(non_snake_case)]
    #[verifier::allow_in_spec]
    pub fn STRIKETHROUGH() -> Styles
        returns
            (Styles { bits: 4 }),
    {
        Styles { bits: 4 }
    }

    /// Signals that the span's text should be underlined
    #[allow(non_snake_case)]
    #[verifier::allow_in_spec]
    pub fn UNDERLINED() -> Styles
        returns
            (Styles { bits: 8 }),
    {
        Styles { bits: 8 }
    }

    /// Signals that the span's text should be italic
    #[allow(non_snake_case)]
    #[verifier::allow_in_spec]
    pub fn ITALIC() -> Styles
        returns
            (Styles { bits: 16 }),
    {
        Styles { bits: 16 }
    }

    /// The set without any flag.
    pub open spec fn spec_empty() -> Styles {
        Styles { bits: 0 }
    }

    /// The flags of `self` together with those of `other`.
    pub open spec fn spec_union(self, other: Styles) -> Styles {
        Styles { bits: self.bits | other.bits }
    }

    /// Whether every flag of `other` is set in `self`.
    pub open spec fn spec_contains(self, other: Styles) -> bool {
        self.bits & other.bits == other.bits
    }

    /// The flag that a formatting code character sets, if any: `k` random,
    /// `l` bold, `m` strikethrough, `n` underlined, `o` italic, in either
    /// case.
    pub open spec fn spec_from_char(c: char) -> Option<Styles> {
        if c == 'k' || c == 'K' {
            Some(Styles::RANDOM())
        } else if c == 'l' || c == 'L' {
            Some(Styles::BOLD())
        } else if c == 'm' || c == 'M' {
            Some(Styles::STRIKETHROUGH())
        } else if c == 'n' || c == 'N' {
            Some(Styles::UNDERLINED())
        } else if c == 'o' || c == 'O' {
            Some(Styles::ITALIC())
        } else {
            None
        }
    }

    /// Map a `char` to a `Styles` object.
    ///
    /// Returns `None` if `c` didn't map to a `Styles` object.
    pub fn from_char(c: char) -> (r: Option<Styles>)
        ensures
            r == Styles::spec_from_char(c),
    {
        match c {
            // The vanilla client accepts lower or uppercase interchangeably
            'k' | 'K' => Some(Styles::RANDOM()),
            'l' | 'L' => Some(Styles::BOLD()),
            'm' | 'M' => Some(Styles::STRIKETHROUGH()),
            'n' | 'N' => Some(Styles::UNDERLINED()),
            'o' | 'O' => Some(Styles::ITALIC()),
            _ => None,
        }
    }

    /// The name under which these styles are shown to a user: that of the
    /// first that is set among bold, italic, random, strikethrough and
    /// underlined, and that of the reset where none of them is.
    pub open spec fn spec_name(self) -> Seq<char> {
        if self.spec_contains(Styles::BOLD()) {
            "Bold"@
        } else if self.spec_contains(Styles::ITALIC()) {
            "Italic"@
        } else if self.spec_contains(Styles::RANDOM()) {
            "Random"@
        } else if self.spec_contains(Styles::STRIKETHROUGH()) {
            "Strikethrough"@
        } else if self.spec_contains(Styles::UNDERLINED()) {
            "Underlined"@
        } else {
            "Reset"@
        }
    }

    /// The name under which these styles are shown to a user.
    pub fn name(&self) -> (r: &'static str)
        ensures
            r@ == self.spec_name(),
    {
        if self.contains(Styles::BOLD()) {
            "Bold"
        } else if self.contains(Styles::ITALIC()) {
            "Italic"
        } else if self.contains(Styles::RANDOM()) {
            "Random"
        } else if self.contains(Styles::STRIKETHROUGH()) {
            "Strikethrough"
        } else if self.contains(Styles::UNDERLINED()) {
            "Underlined"
        } else {
            "Reset"
        }
    }

    /// The lower-case character that sets these styles behind a start
    /// character: that of the first that is set among bold, italic, random,
    /// strikethrough and underlined, and `r`, the reset, where none of them is.
    pub open spec fn spec_code(self) -> char {
        if self.spec_contains(Styles::BOLD()) {
            'l'
        } else if self.spec_contains(Styles::ITALIC()) {
            'o'
        } else if self.spec_contains(Styles::RANDOM()) {
            'k'
        } else if self.spec_contains(Styles::STRIKETHROUGH()) {
            'm'
        } else if self.spec_contains(Styles::UNDERLINED()) {
            'n'
        } else {
            'r'
        }
    }

    /// The formatting code character of these styles, as a string.
    pub fn code(&self) -> (r: &'static str)
        ensures
            r@ == seq![self.spec_code()],
    {
        if self.contains(Styles::BOLD()) {
            proof {
                reveal_strlit("l");
            }
            "l"
        } else if self.contains(Styles::ITALIC()) {
            proof {
                reveal_strlit("o");
            }
            "o"
        } else if self.contains(Styles::RANDOM()) {
            proof {
                reveal_strlit("k");
            }
            "k"
        } else if self.contains(Styles::STRIKETHROUGH()) {
            proof {
                reveal_strlit("m");
            }
            "m"
        } else if self.contains(Styles::UNDERLINED()) {
            proof {
                reveal_strlit("n");
            }
            "n"
        } else {
            proof {
                reveal_strlit("r");
            }
            "r"
        }
    }

    /// The set without any flag.
    pub fn empty() -> (r: Styles)
        ensures
            r == Styles::spec_empty(),
    {
        Styles { bits: 0 }
    }

    /// Whether no flag is set.
    pub fn is_empty(&self) -> (r: bool)
        ensures
            r == (*self == Styles::spec_empty()),
    {
        self.bits == 0
    }

    /// Whether every flag of `other` is set in `self`.
    pub fn contains(&self, other: Styles) -> (r: bool)
        ensures
            r == self.spec_contains(other),
    {
        self.bits & other.bits == other.bits
    }

    /// Sets the flags of `other` in `self`, and keeps those already set.
    pub fn insert(&mut self, other: Styles)
        ensures
            *final(self) == old(self).spec_union(other),
    {
        self.bits = self.bits | other.bits;
    }
}

impl core::ops::BitOr for Styles {
    type Output = Styles;

    fn bitor(self, rhs: Styles) -> (r: Styles) {
        Styles { bits: self.bits | rhs.bits }
    }
}

impl vstd::std_specs::ops::BitOrSpecImpl for Styles {
    open spec fn obeys_bitor_spec() -> bool {
        true
    }

    open spec fn bitor_req(self, rhs: Styles) -> bool {
        true
    }

    open spec fn bitor_spec(self, rhs: Styles) -> Styles {
        self.spec_union(rhs)
    }
}

impl Default for Styles {
    /// No style: what text has in front of which no style code stands.
    fn default() -> (r: Styles)
        ensures
            r == Styles::spec_empty(),
    {
        Styles { bits: 0 }
    }
}

} // verus!
