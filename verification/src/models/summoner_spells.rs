//! The closed sets of wire strings that summoner-spell documents use.
//!
//! Each set is an enumeration mapped one to one onto its wire strings. A
//! string outside the set maps to nothing, so that a drift of the publisher's
//! vocabulary shows as a decode failure and never passes through.

use vstd::prelude::*;
use vstd::string::StringExecFns;

verus! {

/// What a spell costs to cast.
#[derive(Clone, Copy, Debug, PartialEq, Eq, Structural)]
pub enum CostType {
    /// Written as a non-breaking-space entity.
    Nbsp,
    /// Written as "No Cost".
    NoCost,
}

/// The group an image belongs to.
#[derive(Clone, Copy, Debug, PartialEq, Eq, Structural)]
pub enum Group {
    /// Written as "spell".
    Spell,
}

/// The sprite sheet that holds a summoner spell's image.
#[derive(Clone, Copy, Debug, PartialEq, Eq, Structural)]
pub enum SummonerSpellSprite {
    /// Written as "spell0.png".
    Spell0Png,
}

impl CostType {
    /// The wire string of a cost type.
    pub open spec fn wire(self) -> Seq<char> {
        match self {
            CostType::Nbsp => "&nbsp;"@,
            CostType::NoCost => "No Cost"@,
        }
    }

    /// The cost type that `text` is the wire string of, if any.
    pub open spec fn of_wire(text: Seq<char>) -> Option<CostType> {
        if text == "&nbsp;"@ {
            Some(CostType::Nbsp)
        } else if text == "No Cost"@ {
            Some(CostType::NoCost)
        } else {
            None
        }
    }

    /// The wire string of this cost type.
    pub fn as_wire(self) -> (text: String)
        ensures
            text@ == self.wire(),
    {
        match self {
            CostType::Nbsp => String::from_str("&nbsp;"),
            CostType::NoCost => String::from_str("No Cost"),
        }
    }

    /// Reads a wire string. Any string outside the closed set is rejected.
    pub fn from_wire(text: &str) -> (r: Option<CostType>)
        ensures
            r == CostType::of_wire(text@),
            r matches Some(c) ==> c.wire() == text@,
            r is None ==> forall|c: CostType| c.wire() != text@,
    {
        let given = String::from_str(text);
        if given == String::from_str("&nbsp;") {
            Some(CostType::Nbsp)
        } else if given == String::from_str("No Cost") {
            Some(CostType::NoCost)
        } else {
            None
        }
    }

    /// Writing a cost type and reading it back gives the same cost type, and
    /// no two cost types share a wire string.
    pub proof fn wire_round_trip(c: CostType, d: CostType)
        ensures
            CostType::of_wire(c.wire()) == Some(c),
            c.wire() == d.wire() ==> c == d,
    {
        reveal_strlit("&nbsp;");
        reveal_strlit("No Cost");
        assert("&nbsp;"@.len() != "No Cost"@.len());
    }
}

impl Group {
    /// The wire string of a group.
    pub open spec fn wire(self) -> Seq<char> {
        "spell"@
    }

    /// The group that `text` is the wire string of, if any.
    pub open spec fn of_wire(text: Seq<char>) -> Option<Group> {
        if text == "spell"@ {
            Some(Group::Spell)
        } else {
            None
        }
    }

    /// The wire string of this group.
    pub fn as_wire(self) -> (text: String)
        ensures
            text@ == self.wire(),
    {
        String::from_str("spell")
    }

    /// Reads a wire string. Any string outside the closed set is rejected.
    pub fn from_wire(text: &str) -> (r: Option<Group>)
        ensures
            r == Group::of_wire(text@),
            r matches Some(g) ==> g.wire() == text@,
            r is None ==> forall|g: Group| g.wire() != text@,
    {
        if String::from_str(text) == String::from_str("spell") {
            Some(Group::Spell)
        } else {
            None
        }
    }

    /// Writing a group and reading it back gives the same group.
    pub proof fn wire_round_trip(g: Group)
        ensures
            Group::of_wire(g.wire()) == Some(g),
    {
    }
}

impl SummonerSpellSprite {
    /// The file name of a sprite sheet.
    pub open spec fn wire(self) -> Seq<char> {
        "spell0.png"@
    }

    /// The sprite sheet that `text` is the file name of, if any.
    pub open spec fn of_wire(text: Seq<char>) -> Option<SummonerSpellSprite> {
        if text == "spell0.png"@ {
            Some(SummonerSpellSprite::Spell0Png)
        } else {
            None
        }
    }

    /// The file name of this sprite sheet.
    pub fn as_wire(self) -> (text: String)
        ensures
            text@ == self.wire(),
    {
        String::from_str("spell0.png")
    }

    /// Reads a file name. Any string outside the closed set is rejected.
    pub fn from_wire(text: &str) -> (r: Option<SummonerSpellSprite>)
        ensures
            r == SummonerSpellSprite::of_wire(text@),
            r matches Some(s) ==> s.wire() == text@,
            r is None ==> forall|s: SummonerSpellSprite| s.wire() != text@,
    {
        if String::from_str(text) == String::from_str("spell0.png") {
            Some(SummonerSpellSprite::Spell0Png)
        } else {
            None
        }
    }

    /// Writing a sprite sheet and reading it back gives the same sprite sheet.
    pub proof fn wire_round_trip(s: SummonerSpellSprite)
        ensures
            SummonerSpellSprite::of_wire(s.wire()) == Some(s),
    {
    }
}

} // verus!
