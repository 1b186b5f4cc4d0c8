//! Texts to try the parser on, written with `&` as the start character.

use vstd::prelude::*;

verus! {

/// A text that an editor offers to begin with.
#[derive(Debug, Copy, Clone, PartialEq, Eq, Structural)]
pub enum PresetText {
    Simple,
    HypixelMotd,
    MineheroesMotd,
}

impl PresetText {
    /// The text itself.
    pub open spec fn spec_text(self) -> Seq<char> {
        match self {
            PresetText::Simple => "&6This is gold! &aThis is green!"@,
            PresetText::HypixelMotd =>
                "             &aHypixel Network  &c[1.8-1.17]\n          &5&lSKYBLOCK CRYSTAL HOLLOWS!"@,
            PresetText::MineheroesMotd =>
                "&f&b&lMINE&6&lHEROES &7- &astore.mineheroes.net&a &2&l[75% Sale]\n&b&lSKYBLOCK &f&l+ &2&lKRYPTON &f&lRESET! &f&l- &6&lNEW FALL CRATE"@,
        }
    }

    /// The text itself.
    pub fn text(&self) -> (r: &'static str)
        ensures
            r@ == self.spec_text(),
    {
        match self {
            PresetText::Simple => "&6This is gold! &aThis is green!",
            PresetText::HypixelMotd =>
                "             &aHypixel Network  &c[1.8-1.17]\n          &5&lSKYBLOCK CRYSTAL HOLLOWS!",
            PresetText::MineheroesMotd =>
                "&f&b&lMINE&6&lHEROES &7- &astore.mineheroes.net&a &2&l[75% Sale]\n&b&lSKYBLOCK &f&l+ &2&lKRYPTON &f&lRESET! &f&l- &6&lNEW FALL CRATE",
        }
    }

    /// The name under which a menu offers the text.
    pub open spec fn spec_menu_text(self) -> Seq<char> {
        match self {
            PresetText::Simple => "Simple"@,
            PresetText::HypixelMotd => "Hypixel MOTD"@,
            PresetText::MineheroesMotd => "Mineheroes MOTD"@,
        }
    }

    /// The name under which a menu offers the text.
    pub fn menu_text(&self) -> (r: &'static str)
        ensures
            r@ == self.spec_menu_text(),
    {
        match self {
            PresetText::Simple => "Simple",
            PresetText::HypixelMotd => "Hypixel MOTD",
            PresetText::MineheroesMotd => "Mineheroes MOTD",
        }
    }
}

impl Default for PresetText {
    fn default() -> (r: PresetText)
        ensures
            r == PresetText::Simple,
    {
        PresetText::Simple
    }
}

} // verus!
