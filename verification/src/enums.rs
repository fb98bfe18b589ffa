use vstd::prelude::*;

use crate::error::Error;
use crate::reader::{EsoLogReaderLine, spec_next_token};
use crate::scalars::{chop, sep_ok};
use crate::strutil::str_eq;
use crate::tokens::{clean_atom, lemma_clean_atom_is_atom, lemma_next_token_atom};

verus! {

/// Kind of an in-world actor.
#[derive(Debug, Clone, Copy, PartialEq, Eq, Structural)]
pub enum UnitType {
    Monster,
    Object,
    Player,
    SiegeWeapon,
}

impl UnitType {
    /// Wire spelling of this variant.
    pub open spec fn spec_name(self) -> Seq<char> {
        match self {
            UnitType::Monster => "MONSTER"@,
            UnitType::Object => "OBJECT"@,
            UnitType::Player => "PLAYER"@,
            UnitType::SiegeWeapon => "SIEGE_WEAPON"@,
        }
    }

    /// The variant spelled by the given token, if any.
    pub open spec fn spec_from_name(t: Seq<char>) -> Option<UnitType> {
        if t.len() == 6 {
            if t == "OBJECT"@ {
                Some(UnitType::Object)
            } else if t == "PLAYER"@ {
                Some(UnitType::Player)
            } else {
                None
            }
        } else if t.len() == 7 {
            if t == "MONSTER"@ {
                Some(UnitType::Monster)
            } else {
                None
            }
        } else if t.len() == 12 {
            if t == "SIEGE_WEAPON"@ {
                Some(UnitType::SiegeWeapon)
            } else {
                None
            }
        } else {
            None
        }
    }

    pub fn name(&self) -> (r: &'static str)
        ensures
            r@ == self.spec_name(),
    {
        match self {
            UnitType::Monster => "MONSTER",
            UnitType::Object => "OBJECT",
            UnitType::Player => "PLAYER",
            UnitType::SiegeWeapon => "SIEGE_WEAPON",
        }
    }

    pub fn from_token(t: &str) -> (r: Option<UnitType>)
        ensures
            r == Self::spec_from_name(t@),
    {
        let n = t.unicode_len();
        if n == 6 {
            if str_eq(t, "OBJECT") {
                Some(UnitType::Object)
            } else if str_eq(t, "PLAYER") {
                Some(UnitType::Player)
            } else {
                None
            }
        } else if n == 7 {
            if str_eq(t, "MONSTER") {
                Some(UnitType::Monster)
            } else {
                None
            }
        } else if n == 12 {
            if str_eq(t, "SIEGE_WEAPON") {
                Some(UnitType::SiegeWeapon)
            } else {
                None
            }
        } else {
            None
        }
    }

    /// Reading back a spelled variant yields the variant.
    pub proof fn lemma_name_roundtrip(self)
        ensures
            Self::spec_from_name(self.spec_name()) == Some(self),
    {
        reveal_strlit("MONSTER");
        reveal_strlit("OBJECT");
        reveal_strlit("PLAYER");
        reveal_strlit("SIEGE_WEAPON");
        assert("MONSTER"@.len() == 7);
        assert("OBJECT"@.len() == 6);
        assert("PLAYER"@.len() == 6);
        assert("SIEGE_WEAPON"@.len() == 12);
        assert("OBJECT"@[0] == 'O');
        assert("PLAYER"@[0] == 'P');
        match self {
            UnitType::Monster => assert(Self::spec_from_name(self.spec_name()) == Some(self)),
            UnitType::Object => assert(Self::spec_from_name(self.spec_name()) == Some(self)),
            UnitType::Player => assert(Self::spec_from_name(self.spec_name()) == Some(self)),
            UnitType::SiegeWeapon => assert(Self::spec_from_name(self.spec_name()) == Some(self)),
        }
    }

    /// The wire spelling is capitals, digits and underscores only.
    pub proof fn lemma_name_clean(self)
        ensures
            clean_atom(self.spec_name()),
    {
        reveal_strlit("MONSTER");
        reveal_strlit("OBJECT");
        reveal_strlit("PLAYER");
        reveal_strlit("SIEGE_WEAPON");
        match self {
            UnitType::Monster => {
                assert("MONSTER"@.len() == 7);
                assert("MONSTER"@[0] == 'M');
                assert("MONSTER"@[1] == 'O');
                assert("MONSTER"@[2] == 'N');
                assert("MONSTER"@[3] == 'S');
                assert("MONSTER"@[4] == 'T');
                assert("MONSTER"@[5] == 'E');
                assert("MONSTER"@[6] == 'R');
                assert(clean_atom("MONSTER"@));
            },
            UnitType::Object => {
                assert("OBJECT"@.len() == 6);
                assert("OBJECT"@[0] == 'O');
                assert("OBJECT"@[1] == 'B');
                assert("OBJECT"@[2] == 'J');
                assert("OBJECT"@[3] == 'E');
                assert("OBJECT"@[4] == 'C');
                assert("OBJECT"@[5] == 'T');
                assert(clean_atom("OBJECT"@));
            },
            UnitType::Player => {
                assert("PLAYER"@.len() == 6);
                assert("PLAYER"@[0] == 'P');
                assert("PLAYER"@[1] == 'L');
                assert("PLAYER"@[2] == 'A');
                assert("PLAYER"@[3] == 'Y');
                assert("PLAYER"@[4] == 'E');
                assert("PLAYER"@[5] == 'R');
                assert(clean_atom("PLAYER"@));
            },
            UnitType::SiegeWeapon => {
                assert("SIEGE_WEAPON"@.len() == 12);
                assert("SIEGE_WEAPON"@[0] == 'S');
                assert("SIEGE_WEAPON"@[1] == 'I');
                assert("SIEGE_WEAPON"@[2] == 'E');
                assert("SIEGE_WEAPON"@[3] == 'G');
                assert("SIEGE_WEAPON"@[4] == 'E');
                assert("SIEGE_WEAPON"@[5] == '_');
                assert("SIEGE_WEAPON"@[6] == 'W');
                assert("SIEGE_WEAPON"@[7] == 'E');
                assert("SIEGE_WEAPON"@[8] == 'A');
                assert("SIEGE_WEAPON"@[9] == 'P');
                assert("SIEGE_WEAPON"@[10] == 'O');
                assert("SIEGE_WEAPON"@[11] == 'N');
                assert(clean_atom("SIEGE_WEAPON"@));
            },
        }
    }

    /// Parsing the spelled variant yields the variant and consumes one
    /// separator.
    pub proof fn lemma_parse_roundtrip(self, rest: Seq<char>)
        requires
            sep_ok(rest),
        ensures
            spec_parse_unit_type(Self::spec_name(self) + rest) == Ok::<(UnitType, Seq<char>), Error>((self, chop(rest))),
    {
        self.lemma_name_clean();
        lemma_clean_atom_is_atom(self.spec_name());
        lemma_next_token_atom(self.spec_name(), rest);
        self.lemma_name_roundtrip();
    }
}

/// Parses one `UnitType` token.
pub open spec fn spec_parse_unit_type(s: Seq<char>) -> Result<(UnitType, Seq<char>), Error> {
    match spec_next_token(s) {
        None => Err(Error::UnexpectedEnd),
        Some((tok, rest)) => match UnitType::spec_from_name(tok) {
            None => Err(Error::InvalidToken),
            Some(v) => Ok((v, rest)),
        },
    }
}

/// Reads one `UnitType` token from the line.
pub fn parse_unit_type(r: &mut EsoLogReaderLine) -> (res: Result<UnitType, Error>)
    requires
        old(r).wf(),
    ensures
        final(r).wf(),
        match spec_parse_unit_type(old(r).remaining()) {
            Ok((v, rest)) => res == Ok::<UnitType, Error>(v) && final(r).remaining() == rest,
            Err(e) => res == Err::<UnitType, Error>(e),
        },
{
    let tok = match r.next() {
        Some(t) => t,
        None => {
            return Err(Error::UnexpectedEnd);
        },
    };
    match UnitType::from_token(tok) {
        Some(v) => Ok(v),
        None => Err(Error::InvalidToken),
    }
}

/// How a unit stands toward the local player.
#[derive(Debug, Clone, Copy, PartialEq, Eq, Structural)]
pub enum UnitReactionType {
    Companion,
    Default,
    Friendly,
    Hostile,
    Neutral,
    NpcAlly,
    PlayerAlly,
}

impl UnitReactionType {
    /// Wire spelling of this variant.
    pub open spec fn spec_name(self) -> Seq<char> {
        match self {
            UnitReactionType::Companion => "COMPANION"@,
            UnitReactionType::Default => "DEFAULT"@,
            UnitReactionType::Friendly => "FRIENDLY"@,
            UnitReactionType::Hostile => "HOSTILE"@,
            UnitReactionType::Neutral => "NEUTRAL"@,
            UnitReactionType::NpcAlly => "NPC_ALLY"@,
            UnitReactionType::PlayerAlly => "PLAYER_ALLY"@,
        }
    }

    /// The variant spelled by the given token, if any.
    pub open spec fn spec_from_name(t: Seq<char>) -> Option<UnitReactionType> {
        if t.len() == 7 {
            if t == "DEFAULT"@ {
                Some(UnitReactionType::Default)
            } else if t == "HOSTILE"@ {
                Some(UnitReactionType::Hostile)
            } else if t == "NEUTRAL"@ {
                Some(UnitReactionType::Neutral)
            } else {
                None
            }
        } else if t.len() == 8 {
            if t == "FRIENDLY"@ {
                Some(UnitReactionType::Friendly)
            } else if t == "NPC_ALLY"@ {
                Some(UnitReactionType::NpcAlly)
            } else {
                None
            }
        } else if t.len() == 9 {
            if t == "COMPANION"@ {
                Some(UnitReactionType::Companion)
            } else {
                None
            }
        } else if t.len() == 11 {
            if t == "PLAYER_ALLY"@ {
                Some(UnitReactionType::PlayerAlly)
            } else {
                None
            }
        } else {
            None
        }
    }

    pub fn name(&self) -> (r: &'static str)
        ensures
            r@ == self.spec_name(),
    {
        match self {
            UnitReactionType::Companion => "COMPANION",
            UnitReactionType::Default => "DEFAULT",
            UnitReactionType::Friendly => "FRIENDLY",
            UnitReactionType::Hostile => "HOSTILE",
            UnitReactionType::Neutral => "NEUTRAL",
            UnitReactionType::NpcAlly => "NPC_ALLY",
            UnitReactionType::PlayerAlly => "PLAYER_ALLY",
        }
    }

    pub fn from_token(t: &str) -> (r: Option<UnitReactionType>)
        ensures
            r == Self::spec_from_name(t@),
    {
        let n = t.unicode_len();
        if n == 7 {
            if str_eq(t, "DEFAULT") {
                Some(UnitReactionType::Default)
            } else if str_eq(t, "HOSTILE") {
                Some(UnitReactionType::Hostile)
            } else if str_eq(t, "NEUTRAL") {
                Some(UnitReactionType::Neutral)
            } else {
                None
            }
        } else if n == 8 {
            if str_eq(t, "FRIENDLY") {
                Some(UnitReactionType::Friendly)
            } else if str_eq(t, "NPC_ALLY") {
                Some(UnitReactionType::NpcAlly)
            } else {
                None
            }
        } else if n == 9 {
            if str_eq(t, "COMPANION") {
                Some(UnitReactionType::Companion)
            } else {
                None
            }
        } else if n == 11 {
            if str_eq(t, "PLAYER_ALLY") {
                Some(UnitReactionType::PlayerAlly)
            } else {
                None
            }
        } else {
            None
        }
    }

    /// Reading back a spelled variant yields the variant.
    pub proof fn lemma_name_roundtrip(self)
        ensures
            Self::spec_from_name(self.spec_name()) == Some(self),
    {
        reveal_strlit("COMPANION");
        reveal_strlit("DEFAULT");
        reveal_strlit("FRIENDLY");
        reveal_strlit("HOSTILE");
        reveal_strlit("NEUTRAL");
        reveal_strlit("NPC_ALLY");
        reveal_strlit("PLAYER_ALLY");
        assert("COMPANION"@.len() == 9);
        assert("DEFAULT"@.len() == 7);
        assert("FRIENDLY"@.len() == 8);
        assert("HOSTILE"@.len() == 7);
        assert("NEUTRAL"@.len() == 7);
        assert("NPC_ALLY"@.len() == 8);
        assert("PLAYER_ALLY"@.len() == 11);
        assert("DEFAULT"@[0] == 'D');
        assert("FRIENDLY"@[0] == 'F');
        assert("HOSTILE"@[0] == 'H');
        assert("NEUTRAL"@[0] == 'N');
        assert("NPC_ALLY"@[0] == 'N');
        match self {
            UnitReactionType::Companion => assert(Self::spec_from_name(self.spec_name()) == Some(self)),
            UnitReactionType::Default => assert(Self::spec_from_name(self.spec_name()) == Some(self)),
            UnitReactionType::Friendly => assert(Self::spec_from_name(self.spec_name()) == Some(self)),
            UnitReactionType::Hostile => assert(Self::spec_from_name(self.spec_name()) == Some(self)),
            UnitReactionType::Neutral => assert(Self::spec_from_name(self.spec_name()) == Some(self)),
            UnitReactionType::NpcAlly => assert(Self::spec_from_name(self.spec_name()) == Some(self)),
            UnitReactionType::PlayerAlly => assert(Self::spec_from_name(self.spec_name()) == Some(self)),
        }
    }

    /// The wire spelling is capitals, digits and underscores only.
    pub proof fn lemma_name_clean(self)
        ensures
            clean_atom(self.spec_name()),
    {
        reveal_strlit("COMPANION");
        reveal_strlit("DEFAULT");
        reveal_strlit("FRIENDLY");
        reveal_strlit("HOSTILE");
        reveal_strlit("NEUTRAL");
        reveal_strlit("NPC_ALLY");
        reveal_strlit("PLAYER_ALLY");
        match self {
            UnitReactionType::Companion => {
                assert("COMPANION"@.len() == 9);
                assert("COMPANION"@[0] == 'C');
                assert("COMPANION"@[1] == 'O');
                assert("COMPANION"@[2] == 'M');
                assert("COMPANION"@[3] == 'P');
                assert("COMPANION"@[4] == 'A');
                assert("COMPANION"@[5] == 'N');
                assert("COMPANION"@[6] == 'I');
                assert("COMPANION"@[7] == 'O');
                assert("COMPANION"@[8] == 'N');
                assert(clean_atom("COMPANION"@));
            },
            UnitReactionType::Default => {
                assert("DEFAULT"@.len() == 7);
                assert("DEFAULT"@[0] == 'D');
                assert("DEFAULT"@[1] == 'E');
                assert("DEFAULT"@[2] == 'F');
                assert("DEFAULT"@[3] == 'A');
                assert("DEFAULT"@[4] == 'U');
                assert("DEFAULT"@[5] == 'L');
                assert("DEFAULT"@[6] == 'T');
                assert(clean_atom("DEFAULT"@));
            },
            UnitReactionType::Friendly => {
                assert("FRIENDLY"@.len() == 8);
                assert("FRIENDLY"@[0] == 'F');
                assert("FRIENDLY"@[1] == 'R');
                assert("FRIENDLY"@[2] == 'I');
                assert("FRIENDLY"@[3] == 'E');
                assert("FRIENDLY"@[4] == 'N');
                assert("FRIENDLY"@[5] == 'D');
                assert("FRIENDLY"@[6] == 'L');
                assert("FRIENDLY"@[7] == 'Y');
                assert(clean_atom("FRIENDLY"@));
            },
            UnitReactionType::Hostile => {
                assert("HOSTILE"@.len() == 7);
                assert("HOSTILE"@[0] == 'H');
                assert("HOSTILE"@[1] == 'O');
                assert("HOSTILE"@[2] == 'S');
                assert("HOSTILE"@[3] == 'T');
                assert("HOSTILE"@[4] == 'I');
                assert("HOSTILE"@[5] == 'L');
                assert("HOSTILE"@[6] == 'E');
                assert(clean_atom("HOSTILE"@));
            },
            UnitReactionType::Neutral => {
                assert("NEUTRAL"@.len() == 7);
                assert("NEUTRAL"@[0] == 'N');
                assert("NEUTRAL"@[1] == 'E');
                assert("NEUTRAL"@[2] == 'U');
                assert("NEUTRAL"@[3] == 'T');
                assert("NEUTRAL"@[4] == 'R');
                assert("NEUTRAL"@[5] == 'A');
                assert("NEUTRAL"@[6] == 'L');
                assert(clean_atom("NEUTRAL"@));
            },
            UnitReactionType::NpcAlly => {
                assert("NPC_ALLY"@.len() == 8);
                assert("NPC_ALLY"@[0] == 'N');
                assert("NPC_ALLY"@[1] == 'P');
                assert("NPC_ALLY"@[2] == 'C');
                assert("NPC_ALLY"@[3] == '_');
                assert("NPC_ALLY"@[4] == 'A');
                assert("NPC_ALLY"@[5] == 'L');
                assert("NPC_ALLY"@[6] == 'L');
                assert("NPC_ALLY"@[7] == 'Y');
                assert(clean_atom("NPC_ALLY"@));
            },
            UnitReactionType::PlayerAlly => {
                assert("PLAYER_ALLY"@.len() == 11);
                assert("PLAYER_ALLY"@[0] == 'P');
                assert("PLAYER_ALLY"@[1] == 'L');
                assert("PLAYER_ALLY"@[2] == 'A');
                assert("PLAYER_ALLY"@[3] == 'Y');
                assert("PLAYER_ALLY"@[4] == 'E');
                assert("PLAYER_ALLY"@[5] == 'R');
                assert("PLAYER_ALLY"@[6] == '_');
                assert("PLAYER_ALLY"@[7] == 'A');
                assert("PLAYER_ALLY"@[8] == 'L');
                assert("PLAYER_ALLY"@[9] == 'L');
                assert("PLAYER_ALLY"@[10] == 'Y');
                assert(clean_atom("PLAYER_ALLY"@));
            },
        }
    }

    /// Parsing the spelled variant yields the variant and consumes one
    /// separator.
    pub proof fn lemma_parse_roundtrip(self, rest: Seq<char>)
        requires
            sep_ok(rest),
        ensures
            spec_parse_unit_reaction_type(Self::spec_name(self) + rest) == Ok::<(UnitReactionType, Seq<char>), Error>((self, chop(rest))),
    {
        self.lemma_name_clean();
        lemma_clean_atom_is_atom(self.spec_name());
        lemma_next_token_atom(self.spec_name(), rest);
        self.lemma_name_roundtrip();
    }
}

/// Parses one `UnitReactionType` token.
pub open spec fn spec_parse_unit_reaction_type(s: Seq<char>) -> Result<(UnitReactionType, Seq<char>), Error> {
    match spec_next_token(s) {
        None => Err(Error::UnexpectedEnd),
        Some((tok, rest)) => match UnitReactionType::spec_from_name(tok) {
            None => Err(Error::InvalidToken),
            Some(v) => Ok((v, rest)),
        },
    }
}

/// Reads one `UnitReactionType` token from the line.
pub fn parse_unit_reaction_type(r: &mut EsoLogReaderLine) -> (res: Result<UnitReactionType, Error>)
    requires
        old(r).wf(),
    ensures
        final(r).wf(),
        match spec_parse_unit_reaction_type(old(r).remaining()) {
            Ok((v, rest)) => res == Ok::<UnitReactionType, Error>(v) && final(r).remaining() == rest,
            Err(e) => res == Err::<UnitReactionType, Error>(e),
        },
{
    let tok = match r.next() {
        Some(t) => t,
        None => {
            return Err(Error::UnexpectedEnd);
        },
    };
    match UnitReactionType::from_token(tok) {
        Some(v) => Ok(v),
        None => Err(Error::InvalidToken),
    }
}

/// Damage school of a combat event.
#[derive(Debug, Clone, Copy, PartialEq, Eq, Structural)]
pub enum DamageType {
    Bleed,
    Cold,
    Disease,
    Drown,
    Earth,
    Fire,
    Generic,
    Magic,
    NoneKind,
    Oblivion,
    Physical,
    Poison,
    Shock,
}

impl DamageType {
    /// Wire spelling of this variant.
    pub open spec fn spec_name(self) -> Seq<char> {
        match self {
            DamageType::Bleed => "BLEED"@,
            DamageType::Cold => "COLD"@,
            DamageType::Disease => "DISEASE"@,
            DamageType::Drown => "DROWN"@,
            DamageType::Earth => "EARTH"@,
            DamageType::Fire => "FIRE"@,
            DamageType::Generic => "GENERIC"@,
            DamageType::Magic => "MAGIC"@,
            DamageType::NoneKind => "NONE"@,
            DamageType::Oblivion => "OBLIVION"@,
            DamageType::Physical => "PHYSICAL"@,
            DamageType::Poison => "POISON"@,
            DamageType::Shock => "SHOCK"@,
        }
    }

    /// The variant spelled by the given token, if any.
    pub open spec fn spec_from_name(t: Seq<char>) -> Option<DamageType> {
        if t.len() == 4 {
            if t == "COLD"@ {
                Some(DamageType::Cold)
            } else if t == "FIRE"@ {
                Some(DamageType::Fire)
            } else if t == "NONE"@ {
                Some(DamageType::NoneKind)
            } else {
                None
            }
        } else if t.len() == 5 {
            if t == "BLEED"@ {
                Some(DamageType::Bleed)
            } else if t == "DROWN"@ {
                Some(DamageType::Drown)
            } else if t == "EARTH"@ {
                Some(DamageType::Earth)
            } else if t == "MAGIC"@ {
                Some(DamageType::Magic)
            } else if t == "SHOCK"@ {
                Some(DamageType::Shock)
            } else {
                None
            }
        } else if t.len() == 6 {
            if t == "POISON"@ {
                Some(DamageType::Poison)
            } else {
                None
            }
        } else if t.len() == 7 {
            if t == "DISEASE"@ {
                Some(DamageType::Disease)
            } else if t == "GENERIC"@ {
                Some(DamageType::Generic)
            } else {
                None
            }
        } else if t.len() == 8 {
            if t == "OBLIVION"@ {
                Some(DamageType::Oblivion)
            } else if t == "PHYSICAL"@ {
                Some(DamageType::Physical)
            } else {
                None
            }
        } else {
            None
        }
    }

    pub fn name(&self) -> (r: &'static str)
        ensures
            r@ == self.spec_name(),
    {
        match self {
            DamageType::Bleed => "BLEED",
            DamageType::Cold => "COLD",
            DamageType::Disease => "DISEASE",
            DamageType::Drown => "DROWN",
            DamageType::Earth => "EARTH",
            DamageType::Fire => "FIRE",
            DamageType::Generic => "GENERIC",
            DamageType::Magic => "MAGIC",
            DamageType::NoneKind => "NONE",
            DamageType::Oblivion => "OBLIVION",
            DamageType::Physical => "PHYSICAL",
            DamageType::Poison => "POISON",
            DamageType::Shock => "SHOCK",
        }
    }

    pub fn from_token(t: &str) -> (r: Option<DamageType>)
        ensures
            r == Self::spec_from_name(t@),
    {
        let n = t.unicode_len();
        if n == 4 {
            if str_eq(t, "COLD") {
                Some(DamageType::Cold)
            } else if str_eq(t, "FIRE") {
                Some(DamageType::Fire)
            } else if str_eq(t, "NONE") {
                Some(DamageType::NoneKind)
            } else {
                None
            }
        } else if n == 5 {
            if str_eq(t, "BLEED") {
                Some(DamageType::Bleed)
            } else if str_eq(t, "DROWN") {
                Some(DamageType::Drown)
            } else if str_eq(t, "EARTH") {
                Some(DamageType::Earth)
            } else if str_eq(t, "MAGIC") {
                Some(DamageType::Magic)
            } else if str_eq(t, "SHOCK") {
                Some(DamageType::Shock)
            } else {
                None
            }
        } else if n == 6 {
            if str_eq(t, "POISON") {
                Some(DamageType::Poison)
            } else {
                None
            }
        } else if n == 7 {
            if str_eq(t, "DISEASE") {
                Some(DamageType::Disease)
            } else if str_eq(t, "GENERIC") {
                Some(DamageType::Generic)
            } else {
                None
            }
        } else if n == 8 {
            if str_eq(t, "OBLIVION") {
                Some(DamageType::Oblivion)
            } else if str_eq(t, "PHYSICAL") {
                Some(DamageType::Physical)
            } else {
                None
            }
        } else {
            None
        }
    }

    /// Reading back a spelled variant yields the variant.
    pub proof fn lemma_name_roundtrip(self)
        ensures
            Self::spec_from_name(self.spec_name()) == Some(self),
    {
        reveal_strlit("BLEED");
        reveal_strlit("COLD");
        reveal_strlit("DISEASE");
        reveal_strlit("DROWN");
        reveal_strlit("EARTH");
        reveal_strlit("FIRE");
        reveal_strlit("GENERIC");
        reveal_strlit("MAGIC");
        reveal_strlit("NONE");
        reveal_strlit("OBLIVION");
        reveal_strlit("PHYSICAL");
        reveal_strlit("POISON");
        reveal_strlit("SHOCK");
        assert("BLEED"@.len() == 5);
        assert("COLD"@.len() == 4);
        assert("DISEASE"@.len() == 7);
        assert("DROWN"@.len() == 5);
        assert("EARTH"@.len() == 5);
        assert("FIRE"@.len() == 4);
        assert("GENERIC"@.len() == 7);
        assert("MAGIC"@.len() == 5);
        assert("NONE"@.len() == 4);
        assert("OBLIVION"@.len() == 8);
        assert("PHYSICAL"@.len() == 8);
        assert("POISON"@.len() == 6);
        assert("SHOCK"@.len() == 5);
        assert("BLEED"@[0] == 'B');
        assert("COLD"@[0] == 'C');
        assert("DISEASE"@[0] == 'D');
        assert("DROWN"@[0] == 'D');
        assert("EARTH"@[0] == 'E');
        assert("FIRE"@[0] == 'F');
        assert("GENERIC"@[0] == 'G');
        assert("MAGIC"@[0] == 'M');
        assert("NONE"@[0] == 'N');
        assert("OBLIVION"@[0] == 'O');
        assert("PHYSICAL"@[0] == 'P');
        assert("SHOCK"@[0] == 'S');
        match self {
            DamageType::Bleed => assert(Self::spec_from_name(self.spec_name()) == Some(self)),
            DamageType::Cold => assert(Self::spec_from_name(self.spec_name()) == Some(self)),
            DamageType::Disease => assert(Self::spec_from_name(self.spec_name()) == Some(self)),
            DamageType::Drown => assert(Self::spec_from_name(self.spec_name()) == Some(self)),
            DamageType::Earth => assert(Self::spec_from_name(self.spec_name()) == Some(self)),
            DamageType::Fire => assert(Self::spec_from_name(self.spec_name()) == Some(self)),
            DamageType::Generic => assert(Self::spec_from_name(self.spec_name()) == Some(self)),
            DamageType::Magic => assert(Self::spec_from_name(self.spec_name()) == Some(self)),
            DamageType::NoneKind => assert(Self::spec_from_name(self.spec_name()) == Some(self)),
            DamageType::Oblivion => assert(Self::spec_from_name(self.spec_name()) == Some(self)),
            DamageType::Physical => assert(Self::spec_from_name(self.spec_name()) == Some(self)),
            DamageType::Poison => assert(Self::spec_from_name(self.spec_name()) == Some(self)),
            DamageType::Shock => assert(Self::spec_from_name(self.spec_name()) == Some(self)),
        }
    }

    /// The wire spelling is capitals, digits and underscores only.
    pub proof fn lemma_name_clean(self)
        ensures
            clean_atom(self.spec_name()),
    {
        reveal_strlit("BLEED");
        reveal_strlit("COLD");
        reveal_strlit("DISEASE");
        reveal_strlit("DROWN");
        reveal_strlit("EARTH");
        reveal_strlit("FIRE");
        reveal_strlit("GENERIC");
        reveal_strlit("MAGIC");
        reveal_strlit("NONE");
        reveal_strlit("OBLIVION");
        reveal_strlit("PHYSICAL");
        reveal_strlit("POISON");
        reveal_strlit("SHOCK");
        match self {
            DamageType::Bleed => {
                assert("BLEED"@.len() == 5);
                assert("BLEED"@[0] == 'B');
                assert("BLEED"@[1] == 'L');
                assert("BLEED"@[2] == 'E');
                assert("BLEED"@[3] == 'E');
                assert("BLEED"@[4] == 'D');
                assert(clean_atom("BLEED"@));
            },
            DamageType::Cold => {
                assert("COLD"@.len() == 4);
                assert("COLD"@[0] == 'C');
                assert("COLD"@[1] == 'O');
                assert("COLD"@[2] == 'L');
                assert("COLD"@[3] == 'D');
                assert(clean_atom("COLD"@));
            },
            DamageType::Disease => {
                assert("DISEASE"@.len() == 7);
                assert("DISEASE"@[0] == 'D');
                assert("DISEASE"@[1] == 'I');
                assert("DISEASE"@[2] == 'S');
                assert("DISEASE"@[3] == 'E');
                assert("DISEASE"@[4] == 'A');
                assert("DISEASE"@[5] == 'S');
                assert("DISEASE"@[6] == 'E');
                assert(clean_atom("DISEASE"@));
            },
            DamageType::Drown => {
                assert("DROWN"@.len() == 5);
                assert("DROWN"@[0] == 'D');
                assert("DROWN"@[1] == 'R');
                assert("DROWN"@[2] == 'O');
                assert("DROWN"@[3] == 'W');
                assert("DROWN"@[4] == 'N');
                assert(clean_atom("DROWN"@));
            },
            DamageType::Earth => {
                assert("EARTH"@.len() == 5);
                assert("EARTH"@[0] == 'E');
                assert("EARTH"@[1] == 'A');
                assert("EARTH"@[2] == 'R');
                assert("EARTH"@[3] == 'T');
                assert("EARTH"@[4] == 'H');
                assert(clean_atom("EARTH"@));
            },
            DamageType::Fire => {
                assert("FIRE"@.len() == 4);
                assert("FIRE"@[0] == 'F');
                assert("FIRE"@[1] == 'I');
                assert("FIRE"@[2] == 'R');
                assert("FIRE"@[3] == 'E');
                assert(clean_atom("FIRE"@));
            },
            DamageType::Generic => {
                assert("GENERIC"@.len() == 7);
                assert("GENERIC"@[0] == 'G');
                assert("GENERIC"@[1] == 'E');
                assert("GENERIC"@[2] == 'N');
                assert("GENERIC"@[3] == 'E');
                assert("GENERIC"@[4] == 'R');
                assert("GENERIC"@[5] == 'I');
                assert("GENERIC"@[6] == 'C');
                assert(clean_atom("GENERIC"@));
            },
            DamageType::Magic => {
                assert("MAGIC"@.len() == 5);
                assert("MAGIC"@[0] == 'M');
                assert("MAGIC"@[1] == 'A');
                assert("MAGIC"@[2] == 'G');
                assert("MAGIC"@[3] == 'I');
                assert("MAGIC"@[4] == 'C');
                assert(clean_atom("MAGIC"@));
            },
            DamageType::NoneKind => {
                assert("NONE"@.len() == 4);
                assert("NONE"@[0] == 'N');
                assert("NONE"@[1] == 'O');
                assert("NONE"@[2] == 'N');
                assert("NONE"@[3] == 'E');
                assert(clean_atom("NONE"@));
            },
            DamageType::Oblivion => {
                assert("OBLIVION"@.len() == 8);
                assert("OBLIVION"@[0] == 'O');
                assert("OBLIVION"@[1] == 'B');
                assert("OBLIVION"@[2] == 'L');
                assert("OBLIVION"@[3] == 'I');
                assert("OBLIVION"@[4] == 'V');
                assert("OBLIVION"@[5] == 'I');
                assert("OBLIVION"@[6] == 'O');
                assert("OBLIVION"@[7] == 'N');
                assert(clean_atom("OBLIVION"@));
            },
            DamageType::Physical => {
                assert("PHYSICAL"@.len() == 8);
                assert("PHYSICAL"@[0] == 'P');
                assert("PHYSICAL"@[1] == 'H');
                assert("PHYSICAL"@[2] == 'Y');
                assert("PHYSICAL"@[3] == 'S');
                assert("PHYSICAL"@[4] == 'I');
                assert("PHYSICAL"@[5] == 'C');
                assert("PHYSICAL"@[6] == 'A');
                assert("PHYSICAL"@[7] == 'L');
                assert(clean_atom("PHYSICAL"@));
            },
            DamageType::Poison => {
                assert("POISON"@.len() == 6);
                assert("POISON"@[0] == 'P');
                assert("POISON"@[1] == 'O');
                assert("POISON"@[2] == 'I');
                assert("POISON"@[3] == 'S');
                assert("POISON"@[4] == 'O');
                assert("POISON"@[5] == 'N');
                assert(clean_atom("POISON"@));
            },
            DamageType::Shock => {
                assert("SHOCK"@.len() == 5);
                assert("SHOCK"@[0] == 'S');
                assert("SHOCK"@[1] == 'H');
                assert("SHOCK"@[2] == 'O');
                assert("SHOCK"@[3] == 'C');
                assert("SHOCK"@[4] == 'K');
                assert(clean_atom("SHOCK"@));
            },
        }
    }

    /// Parsing the spelled variant yields the variant and consumes one
    /// separator.
    pub proof fn lemma_parse_roundtrip(self, rest: Seq<char>)
        requires
            sep_ok(rest),
        ensures
            spec_parse_damage_type(Self::spec_name(self) + rest) == Ok::<(DamageType, Seq<char>), Error>((self, chop(rest))),
    {
        self.lemma_name_clean();
        lemma_clean_atom_is_atom(self.spec_name());
        lemma_next_token_atom(self.spec_name(), rest);
        self.lemma_name_roundtrip();
    }
}

/// Parses one `DamageType` token.
pub open spec fn spec_parse_damage_type(s: Seq<char>) -> Result<(DamageType, Seq<char>), Error> {
    match spec_next_token(s) {
        None => Err(Error::UnexpectedEnd),
        Some((tok, rest)) => match DamageType::spec_from_name(tok) {
            None => Err(Error::InvalidToken),
            Some(v) => Ok((v, rest)),
        },
    }
}

/// Reads one `DamageType` token from the line.
pub fn parse_damage_type(r: &mut EsoLogReaderLine) -> (res: Result<DamageType, Error>)
    requires
        old(r).wf(),
    ensures
        final(r).wf(),
        match spec_parse_damage_type(old(r).remaining()) {
            Ok((v, rest)) => res == Ok::<DamageType, Error>(v) && final(r).remaining() == rest,
            Err(e) => res == Err::<DamageType, Error>(e),
        },
{
    let tok = match r.next() {
        Some(t) => t,
        None => {
            return Err(Error::UnexpectedEnd);
        },
    };
    match DamageType::from_token(tok) {
        Some(v) => Ok(v),
        None => Err(Error::InvalidToken),
    }
}

/// Lifecycle step of an applied effect.
#[derive(Debug, Clone, Copy, PartialEq, Eq, Structural)]
pub enum EffectChangeType {
    Gained,
    Faded,
    Updated,
}

impl EffectChangeType {
    /// Wire spelling of this variant.
    pub open spec fn spec_name(self) -> Seq<char> {
        match self {
            EffectChangeType::Gained => "GAINED"@,
            EffectChangeType::Faded => "FADED"@,
            EffectChangeType::Updated => "UPDATED"@,
        }
    }

    /// The variant spelled by the given token, if any.
    pub open spec fn spec_from_name(t: Seq<char>) -> Option<EffectChangeType> {
        if t.len() == 5 {
            if t == "FADED"@ {
                Some(EffectChangeType::Faded)
            } else {
                None
            }
        } else if t.len() == 6 {
            if t == "GAINED"@ {
                Some(EffectChangeType::Gained)
            } else {
                None
            }
        } else if t.len() == 7 {
            if t == "UPDATED"@ {
                Some(EffectChangeType::Updated)
            } else {
                None
            }
        } else {
            None
        }
    }

    pub fn name(&self) -> (r: &'static str)
        ensures
            r@ == self.spec_name(),
    {
        match self {
            EffectChangeType::Gained => "GAINED",
            EffectChangeType::Faded => "FADED",
            EffectChangeType::Updated => "UPDATED",
        }
    }

    pub fn from_token(t: &str) -> (r: Option<EffectChangeType>)
        ensures
            r == Self::spec_from_name(t@),
    {
        let n = t.unicode_len();
        if n == 5 {
            if str_eq(t, "FADED") {
                Some(EffectChangeType::Faded)
            } else {
                None
            }
        } else if n == 6 {
            if str_eq(t, "GAINED") {
                Some(EffectChangeType::Gained)
            } else {
                None
            }
        } else if n == 7 {
            if str_eq(t, "UPDATED") {
                Some(EffectChangeType::Updated)
            } else {
                None
            }
        } else {
            None
        }
    }

    /// Reading back a spelled variant yields the variant.
    pub proof fn lemma_name_roundtrip(self)
        ensures
            Self::spec_from_name(self.spec_name()) == Some(self),
    {
        reveal_strlit("FADED");
        reveal_strlit("GAINED");
        reveal_strlit("UPDATED");
        assert("FADED"@.len() == 5);
        assert("GAINED"@.len() == 6);
        assert("UPDATED"@.len() == 7);
        match self {
            EffectChangeType::Gained => assert(Self::spec_from_name(self.spec_name()) == Some(self)),
            EffectChangeType::Faded => assert(Self::spec_from_name(self.spec_name()) == Some(self)),
            EffectChangeType::Updated => assert(Self::spec_from_name(self.spec_name()) == Some(self)),
        }
    }

    /// The wire spelling is capitals, digits and underscores only.
    pub proof fn lemma_name_clean(self)
        ensures
            clean_atom(self.spec_name()),
    {
        reveal_strlit("FADED");
        reveal_strlit("GAINED");
        reveal_strlit("UPDATED");
        match self {
            EffectChangeType::Gained => {
                assert("GAINED"@.len() == 6);
                assert("GAINED"@[0] == 'G');
                assert("GAINED"@[1] == 'A');
                assert("GAINED"@[2] == 'I');
                assert("GAINED"@[3] == 'N');
                assert("GAINED"@[4] == 'E');
                assert("GAINED"@[5] == 'D');
                assert(clean_atom("GAINED"@));
            },
            EffectChangeType::Faded => {
                assert("FADED"@.len() == 5);
                assert("FADED"@[0] == 'F');
                assert("FADED"@[1] == 'A');
                assert("FADED"@[2] == 'D');
                assert("FADED"@[3] == 'E');
                assert("FADED"@[4] == 'D');
                assert(clean_atom("FADED"@));
            },
            EffectChangeType::Updated => {
                assert("UPDATED"@.len() == 7);
                assert("UPDATED"@[0] == 'U');
                assert("UPDATED"@[1] == 'P');
                assert("UPDATED"@[2] == 'D');
                assert("UPDATED"@[3] == 'A');
                assert("UPDATED"@[4] == 'T');
                assert("UPDATED"@[5] == 'E');
                assert("UPDATED"@[6] == 'D');
                assert(clean_atom("UPDATED"@));
            },
        }
    }

    /// Parsing the spelled variant yields the variant and consumes one
    /// separator.
    pub proof fn lemma_parse_roundtrip(self, rest: Seq<char>)
        requires
            sep_ok(rest),
        ensures
            spec_parse_effect_change_type(Self::spec_name(self) + rest) == Ok::<(EffectChangeType, Seq<char>), Error>((self, chop(rest))),
    {
        self.lemma_name_clean();
        lemma_clean_atom_is_atom(self.spec_name());
        lemma_next_token_atom(self.spec_name(), rest);
        self.lemma_name_roundtrip();
    }
}

/// Parses one `EffectChangeType` token.
pub open spec fn spec_parse_effect_change_type(s: Seq<char>) -> Result<(EffectChangeType, Seq<char>), Error> {
    match spec_next_token(s) {
        None => Err(Error::UnexpectedEnd),
        Some((tok, rest)) => match EffectChangeType::spec_from_name(tok) {
            None => Err(Error::InvalidToken),
            Some(v) => Ok((v, rest)),
        },
    }
}

/// Reads one `EffectChangeType` token from the line.
pub fn parse_effect_change_type(r: &mut EsoLogReaderLine) -> (res: Result<EffectChangeType, Error>)
    requires
        old(r).wf(),
    ensures
        final(r).wf(),
        match spec_parse_effect_change_type(old(r).remaining()) {
            Ok((v, rest)) => res == Ok::<EffectChangeType, Error>(v) && final(r).remaining() == rest,
            Err(e) => res == Err::<EffectChangeType, Error>(e),
        },
{
    let tok = match r.next() {
        Some(t) => t,
        None => {
            return Err(Error::UnexpectedEnd);
        },
    };
    match EffectChangeType::from_token(tok) {
        Some(v) => Ok(v),
        None => Err(Error::InvalidToken),
    }
}

/// Whether an ability's effect helps or harms its target.
#[derive(Debug, Clone, Copy, PartialEq, Eq, Structural)]
pub enum EffectType {
    Buff,
    Debuff,
    NotAnEffect,
}

impl EffectType {
    /// Wire spelling of this variant.
    pub open spec fn spec_name(self) -> Seq<char> {
        match self {
            EffectType::Buff => "BUFF"@,
            EffectType::Debuff => "DEBUFF"@,
            EffectType::NotAnEffect => "NOT_AN_EFFECT"@,
        }
    }

    /// The variant spelled by the given token, if any.
    pub open spec fn spec_from_name(t: Seq<char>) -> Option<EffectType> {
        if t.len() == 4 {
            if t == "BUFF"@ {
                Some(EffectType::Buff)
            } else {
                None
            }
        } else if t.len() == 6 {
            if t == "DEBUFF"@ {
                Some(EffectType::Debuff)
            } else {
                None
            }
        } else if t.len() == 13 {
            if t == "NOT_AN_EFFECT"@ {
                Some(EffectType::NotAnEffect)
            } else {
                None
            }
        } else {
            None
        }
    }

    pub fn name(&self) -> (r: &'static str)
        ensures
            r@ == self.spec_name(),
    {
        match self {
            EffectType::Buff => "BUFF",
            EffectType::Debuff => "DEBUFF",
            EffectType::NotAnEffect => "NOT_AN_EFFECT",
        }
    }

    pub fn from_token(t: &str) -> (r: Option<EffectType>)
        ensures
            r == Self::spec_from_name(t@),
    {
        let n = t.unicode_len();
        if n == 4 {
            if str_eq(t, "BUFF") {
                Some(EffectType::Buff)
            } else {
                None
            }
        } else if n == 6 {
            if str_eq(t, "DEBUFF") {
                Some(EffectType::Debuff)
            } else {
                None
            }
        } else if n == 13 {
            if str_eq(t, "NOT_AN_EFFECT") {
                Some(EffectType::NotAnEffect)
            } else {
                None
            }
        } else {
            None
        }
    }

    /// Reading back a spelled variant yields the variant.
    pub proof fn lemma_name_roundtrip(self)
        ensures
            Self::spec_from_name(self.spec_name()) == Some(self),
    {
        reveal_strlit("BUFF");
        reveal_strlit("DEBUFF");
        reveal_strlit("NOT_AN_EFFECT");
        assert("BUFF"@.len() == 4);
        assert("DEBUFF"@.len() == 6);
        assert("NOT_AN_EFFECT"@.len() == 13);
        match self {
            EffectType::Buff => assert(Self::spec_from_name(self.spec_name()) == Some(self)),
            EffectType::Debuff => assert(Self::spec_from_name(self.spec_name()) == Some(self)),
            EffectType::NotAnEffect => assert(Self::spec_from_name(self.spec_name()) == Some(self)),
        }
    }

    /// The wire spelling is capitals, digits and underscores only.
    pub proof fn lemma_name_clean(self)
        ensures
            clean_atom(self.spec_name()),
    {
        reveal_strlit("BUFF");
        reveal_strlit("DEBUFF");
        reveal_strlit("NOT_AN_EFFECT");
        match self {
            EffectType::Buff => {
                assert("BUFF"@.len() == 4);
                assert("BUFF"@[0] == 'B');
                assert("BUFF"@[1] == 'U');
                assert("BUFF"@[2] == 'F');
                assert("BUFF"@[3] == 'F');
                assert(clean_atom("BUFF"@));
            },
            EffectType::Debuff => {
                assert("DEBUFF"@.len() == 6);
                assert("DEBUFF"@[0] == 'D');
                assert("DEBUFF"@[1] == 'E');
                assert("DEBUFF"@[2] == 'B');
                assert("DEBUFF"@[3] == 'U');
                assert("DEBUFF"@[4] == 'F');
                assert("DEBUFF"@[5] == 'F');
                assert(clean_atom("DEBUFF"@));
            },
            EffectType::NotAnEffect => {
                assert("NOT_AN_EFFECT"@.len() == 13);
                assert("NOT_AN_EFFECT"@[0] == 'N');
                assert("NOT_AN_EFFECT"@[1] == 'O');
                assert("NOT_AN_EFFECT"@[2] == 'T');
                assert("NOT_AN_EFFECT"@[3] == '_');
                assert("NOT_AN_EFFECT"@[4] == 'A');
                assert("NOT_AN_EFFECT"@[5] == 'N');
                assert("NOT_AN_EFFECT"@[6] == '_');
                assert("NOT_AN_EFFECT"@[7] == 'E');
                assert("NOT_AN_EFFECT"@[8] == 'F');
                assert("NOT_AN_EFFECT"@[9] == 'F');
                assert("NOT_AN_EFFECT"@[10] == 'E');
                assert("NOT_AN_EFFECT"@[11] == 'C');
                assert("NOT_AN_EFFECT"@[12] == 'T');
                assert(clean_atom("NOT_AN_EFFECT"@));
            },
        }
    }

    /// Parsing the spelled variant yields the variant and consumes one
    /// separator.
    pub proof fn lemma_parse_roundtrip(self, rest: Seq<char>)
        requires
            sep_ok(rest),
        ensures
            spec_parse_effect_type(Self::spec_name(self) + rest) == Ok::<(EffectType, Seq<char>), Error>((self, chop(rest))),
    {
        self.lemma_name_clean();
        lemma_clean_atom_is_atom(self.spec_name());
        lemma_next_token_atom(self.spec_name(), rest);
        self.lemma_name_roundtrip();
    }
}

/// Parses one `EffectType` token.
pub open spec fn spec_parse_effect_type(s: Seq<char>) -> Result<(EffectType, Seq<char>), Error> {
    match spec_next_token(s) {
        None => Err(Error::UnexpectedEnd),
        Some((tok, rest)) => match EffectType::spec_from_name(tok) {
            None => Err(Error::InvalidToken),
            Some(v) => Ok((v, rest)),
        },
    }
}

/// Reads one `EffectType` token from the line.
pub fn parse_effect_type(r: &mut EsoLogReaderLine) -> (res: Result<EffectType, Error>)
    requires
        old(r).wf(),
    ensures
        final(r).wf(),
        match spec_parse_effect_type(old(r).remaining()) {
            Ok((v, rest)) => res == Ok::<EffectType, Error>(v) && final(r).remaining() == rest,
            Err(e) => res == Err::<EffectType, Error>(e),
        },
{
    let tok = match r.next() {
        Some(t) => t,
        None => {
            return Err(Error::UnexpectedEnd);
        },
    };
    match EffectType::from_token(tok) {
        Some(v) => Ok(v),
        None => Err(Error::InvalidToken),
    }
}

/// Status category of an effect.
#[derive(Debug, Clone, Copy, PartialEq, Eq, Structural)]
pub enum StatusEffectType {
    Bleed,
    Blind,
    Charm,
    Dazed,
    Disease,
    Environment,
    Fear,
    Levitate,
    Magic,
    Mesmerize,
    Nearsight,
    NoneKind,
    Pacify,
    Poison,
    Puncture,
    Root,
    Silence,
    Snare,
    Stun,
    Trauma,
    Weakness,
    Wound,
}

impl StatusEffectType {
    /// Wire spelling of this variant.
    pub open spec fn spec_name(self) -> Seq<char> {
        match self {
            StatusEffectType::Bleed => "BLEED"@,
            StatusEffectType::Blind => "BLIND"@,
            StatusEffectType::Charm => "CHARM"@,
            StatusEffectType::Dazed => "DAZED"@,
            StatusEffectType::Disease => "DISEASE"@,
            StatusEffectType::Environment => "ENVIRONMENT"@,
            StatusEffectType::Fear => "FEAR"@,
            StatusEffectType::Levitate => "LEVITATE"@,
            StatusEffectType::Magic => "MAGIC"@,
            StatusEffectType::Mesmerize => "MESMERIZE"@,
            StatusEffectType::Nearsight => "NEARSIGHT"@,
            StatusEffectType::NoneKind => "NONE"@,
            StatusEffectType::Pacify => "PACIFY"@,
            StatusEffectType::Poison => "POISON"@,
            StatusEffectType::Puncture => "PUNCTURE"@,
            StatusEffectType::Root => "ROOT"@,
            StatusEffectType::Silence => "SILENCE"@,
            StatusEffectType::Snare => "SNARE"@,
            StatusEffectType::Stun => "STUN"@,
            StatusEffectType::Trauma => "TRAUMA"@,
            StatusEffectType::Weakness => "WEAKNESS"@,
            StatusEffectType::Wound => "WOUND"@,
        }
    }

    /// The variant spelled by the given token, if any.
    pub open spec fn spec_from_name(t: Seq<char>) -> Option<StatusEffectType> {
        if t.len() == 4 {
            if t == "FEAR"@ {
                Some(StatusEffectType::Fear)
            } else if t == "NONE"@ {
                Some(StatusEffectType::NoneKind)
            } else if t == "ROOT"@ {
                Some(StatusEffectType::Root)
            } else if t == "STUN"@ {
                Some(StatusEffectType::Stun)
            } else {
                None
            }
        } else if t.len() == 5 {
            if t == "BLEED"@ {
                Some(StatusEffectType::Bleed)
            } else if t == "BLIND"@ {
                Some(StatusEffectType::Blind)
            } else if t == "CHARM"@ {
                Some(StatusEffectType::Charm)
            } else if t == "DAZED"@ {
                Some(StatusEffectType::Dazed)
            } else if t == "MAGIC"@ {
                Some(StatusEffectType::Magic)
            } else if t == "SNARE"@ {
                Some(StatusEffectType::Snare)
            } else if t == "WOUND"@ {
                Some(StatusEffectType::Wound)
            } else {
                None
            }
        } else if t.len() == 6 {
            if t == "PACIFY"@ {
                Some(StatusEffectType::Pacify)
            } else if t == "POISON"@ {
                Some(StatusEffectType::Poison)
            } else if t == "TRAUMA"@ {
                Some(StatusEffectType::Trauma)
            } else {
                None
            }
        } else if t.len() == 7 {
            if t == "DISEASE"@ {
                Some(StatusEffectType::Disease)
            } else if t == "SILENCE"@ {
                Some(StatusEffectType::Silence)
            } else {
                None
            }
        } else if t.len() == 8 {
            if t == "LEVITATE"@ {
                Some(StatusEffectType::Levitate)
            } else if t == "PUNCTURE"@ {
                Some(StatusEffectType::Puncture)
            } else if t == "WEAKNESS"@ {
                Some(StatusEffectType::Weakness)
            } else {
                None
            }
        } else if t.len() == 9 {
            if t == "MESMERIZE"@ {
                Some(StatusEffectType::Mesmerize)
            } else if t == "NEARSIGHT"@ {
                Some(StatusEffectType::Nearsight)
            } else {
                None
            }
        } else if t.len() == 11 {
            if t == "ENVIRONMENT"@ {
                Some(StatusEffectType::Environment)
            } else {
                None
            }
        } else {
            None
        }
    }

    pub fn name(&self) -> (r: &'static str)
        ensures
            r@ == self.spec_name(),
    {
        match self {
            StatusEffectType::Bleed => "BLEED",
            StatusEffectType::Blind => "BLIND",
            StatusEffectType::Charm => "CHARM",
            StatusEffectType::Dazed => "DAZED",
            StatusEffectType::Disease => "DISEASE",
            StatusEffectType::Environment => "ENVIRONMENT",
            StatusEffectType::Fear => "FEAR",
            StatusEffectType::Levitate => "LEVITATE",
            StatusEffectType::Magic => "MAGIC",
            StatusEffectType::Mesmerize => "MESMERIZE",
            StatusEffectType::Nearsight => "NEARSIGHT",
            StatusEffectType::NoneKind => "NONE",
            StatusEffectType::Pacify => "PACIFY",
            StatusEffectType::Poison => "POISON",
            StatusEffectType::Puncture => "PUNCTURE",
            StatusEffectType::Root => "ROOT",
            StatusEffectType::Silence => "SILENCE",
            StatusEffectType::Snare => "SNARE",
            StatusEffectType::Stun => "STUN",
            StatusEffectType::Trauma => "TRAUMA",
            StatusEffectType::Weakness => "WEAKNESS",
            StatusEffectType::Wound => "WOUND",
        }
    }

    pub fn from_token(t: &str) -> (r: Option<StatusEffectType>)
        ensures
            r == Self::spec_from_name(t@),
    {
        let n = t.unicode_len();
        if n == 4 {
            if str_eq(t, "FEAR") {
                Some(StatusEffectType::Fear)
            } else if str_eq(t, "NONE") {
                Some(StatusEffectType::NoneKind)
            } else if str_eq(t, "ROOT") {
                Some(StatusEffectType::Root)
            } else if str_eq(t, "STUN") {
                Some(StatusEffectType::Stun)
            } else {
                None
            }
        } else if n == 5 {
            if str_eq(t, "BLEED") {
                Some(StatusEffectType::Bleed)
            } else if str_eq(t, "BLIND") {
                Some(StatusEffectType::Blind)
            } else if str_eq(t, "CHARM") {
                Some(StatusEffectType::Charm)
            } else if str_eq(t, "DAZED") {
                Some(StatusEffectType::Dazed)
            } else if str_eq(t, "MAGIC") {
                Some(StatusEffectType::Magic)
            } else if str_eq(t, "SNARE") {
                Some(StatusEffectType::Snare)
            } else if str_eq(t, "WOUND") {
                Some(StatusEffectType::Wound)
            } else {
                None
            }
        } else if n == 6 {
            if str_eq(t, "PACIFY") {
                Some(StatusEffectType::Pacify)
            } else if str_eq(t, "POISON") {
                Some(StatusEffectType::Poison)
            } else if str_eq(t, "TRAUMA") {
                Some(StatusEffectType::Trauma)
            } else {
                None
            }
        } else if n == 7 {
            if str_eq(t, "DISEASE") {
                Some(StatusEffectType::Disease)
            } else if str_eq(t, "SILENCE") {
                Some(StatusEffectType::Silence)
            } else {
                None
            }
        } else if n == 8 {
            if str_eq(t, "LEVITATE") {
                Some(StatusEffectType::Levitate)
            } else if str_eq(t, "PUNCTURE") {
                Some(StatusEffectType::Puncture)
            } else if str_eq(t, "WEAKNESS") {
                Some(StatusEffectType::Weakness)
            } else {
                None
            }
        } else if n == 9 {
            if str_eq(t, "MESMERIZE") {
                Some(StatusEffectType::Mesmerize)
            } else if str_eq(t, "NEARSIGHT") {
                Some(StatusEffectType::Nearsight)
            } else {
                None
            }
        } else if n == 11 {
            if str_eq(t, "ENVIRONMENT") {
                Some(StatusEffectType::Environment)
            } else {
                None
            }
        } else {
            None
        }
    }

    /// Reading back a spelled variant yields the variant.
    pub proof fn lemma_name_roundtrip(self)
        ensures
            Self::spec_from_name(self.spec_name()) == Some(self),
    {
        reveal_strlit("BLEED");
        reveal_strlit("BLIND");
        reveal_strlit("CHARM");
        reveal_strlit("DAZED");
        reveal_strlit("DISEASE");
        reveal_strlit("ENVIRONMENT");
        reveal_strlit("FEAR");
        reveal_strlit("LEVITATE");
        reveal_strlit("MAGIC");
        reveal_strlit("MESMERIZE");
        reveal_strlit("NEARSIGHT");
        reveal_strlit("NONE");
        reveal_strlit("PACIFY");
        reveal_strlit("POISON");
        reveal_strlit("PUNCTURE");
        reveal_strlit("ROOT");
        reveal_strlit("SILENCE");
        reveal_strlit("SNARE");
        reveal_strlit("STUN");
        reveal_strlit("TRAUMA");
        reveal_strlit("WEAKNESS");
        reveal_strlit("WOUND");
        assert("BLEED"@.len() == 5);
        assert("BLIND"@.len() == 5);
        assert("CHARM"@.len() == 5);
        assert("DAZED"@.len() == 5);
        assert("DISEASE"@.len() == 7);
        assert("ENVIRONMENT"@.len() == 11);
        assert("FEAR"@.len() == 4);
        assert("LEVITATE"@.len() == 8);
        assert("MAGIC"@.len() == 5);
        assert("MESMERIZE"@.len() == 9);
        assert("NEARSIGHT"@.len() == 9);
        assert("NONE"@.len() == 4);
        assert("PACIFY"@.len() == 6);
        assert("POISON"@.len() == 6);
        assert("PUNCTURE"@.len() == 8);
        assert("ROOT"@.len() == 4);
        assert("SILENCE"@.len() == 7);
        assert("SNARE"@.len() == 5);
        assert("STUN"@.len() == 4);
        assert("TRAUMA"@.len() == 6);
        assert("WEAKNESS"@.len() == 8);
        assert("WOUND"@.len() == 5);
        assert("BLEED"@[0] == 'B');
        assert("BLEED"@[2] == 'E');
        assert("BLIND"@[0] == 'B');
        assert("BLIND"@[2] == 'I');
        assert("CHARM"@[0] == 'C');
        assert("DAZED"@[0] == 'D');
        assert("DISEASE"@[0] == 'D');
        assert("FEAR"@[0] == 'F');
        assert("LEVITATE"@[0] == 'L');
        assert("MAGIC"@[0] == 'M');
        assert("MESMERIZE"@[0] == 'M');
        assert("NEARSIGHT"@[0] == 'N');
        assert("NONE"@[0] == 'N');
        assert("PACIFY"@[0] == 'P');
        assert("PACIFY"@[1] == 'A');
        assert("POISON"@[0] == 'P');
        assert("POISON"@[1] == 'O');
        assert("PUNCTURE"@[0] == 'P');
        assert("ROOT"@[0] == 'R');
        assert("SILENCE"@[0] == 'S');
        assert("SNARE"@[0] == 'S');
        assert("STUN"@[0] == 'S');
        assert("TRAUMA"@[0] == 'T');
        assert("WEAKNESS"@[0] == 'W');
        assert("WOUND"@[0] == 'W');
        match self {
            StatusEffectType::Bleed => assert(Self::spec_from_name(self.spec_name()) == Some(self)),
            StatusEffectType::Blind => assert(Self::spec_from_name(self.spec_name()) == Some(self)),
            StatusEffectType::Charm => assert(Self::spec_from_name(self.spec_name()) == Some(self)),
            StatusEffectType::Dazed => assert(Self::spec_from_name(self.spec_name()) == Some(self)),
            StatusEffectType::Disease => assert(Self::spec_from_name(self.spec_name()) == Some(self)),
            StatusEffectType::Environment => assert(Self::spec_from_name(self.spec_name()) == Some(self)),
            StatusEffectType::Fear => assert(Self::spec_from_name(self.spec_name()) == Some(self)),
            StatusEffectType::Levitate => assert(Self::spec_from_name(self.spec_name()) == Some(self)),
            StatusEffectType::Magic => assert(Self::spec_from_name(self.spec_name()) == Some(self)),
            StatusEffectType::Mesmerize => assert(Self::spec_from_name(self.spec_name()) == Some(self)),
            StatusEffectType::Nearsight => assert(Self::spec_from_name(self.spec_name()) == Some(self)),
            StatusEffectType::NoneKind => assert(Self::spec_from_name(self.spec_name()) == Some(self)),
            StatusEffectType::Pacify => assert(Self::spec_from_name(self.spec_name()) == Some(self)),
            StatusEffectType::Poison => assert(Self::spec_from_name(self.spec_name()) == Some(self)),
            StatusEffectType::Puncture => assert(Self::spec_from_name(self.spec_name()) == Some(self)),
            StatusEffectType::Root => assert(Self::spec_from_name(self.spec_name()) == Some(self)),
            StatusEffectType::Silence => assert(Self::spec_from_name(self.spec_name()) == Some(self)),
            StatusEffectType::Snare => assert(Self::spec_from_name(self.spec_name()) == Some(self)),
            StatusEffectType::Stun => assert(Self::spec_from_name(self.spec_name()) == Some(self)),
            StatusEffectType::Trauma => assert(Self::spec_from_name(self.spec_name()) == Some(self)),
            StatusEffectType::Weakness => assert(Self::spec_from_name(self.spec_name()) == Some(self)),
            StatusEffectType::Wound => assert(Self::spec_from_name(self.spec_name()) == Some(self)),
        }
    }

    /// The wire spelling is capitals, digits and underscores only.
    pub proof fn lemma_name_clean(self)
        ensures
            clean_atom(self.spec_name()),
    {
        reveal_strlit("BLEED");
        reveal_strlit("BLIND");
        reveal_strlit("CHARM");
        reveal_strlit("DAZED");
        reveal_strlit("DISEASE");
        reveal_strlit("ENVIRONMENT");
        reveal_strlit("FEAR");
        reveal_strlit("LEVITATE");
        reveal_strlit("MAGIC");
        reveal_strlit("MESMERIZE");
        reveal_strlit("NEARSIGHT");
        reveal_strlit("NONE");
        reveal_strlit("PACIFY");
        reveal_strlit("POISON");
        reveal_strlit("PUNCTURE");
        reveal_strlit("ROOT");
        reveal_strlit("SILENCE");
        reveal_strlit("SNARE");
        reveal_strlit("STUN");
        reveal_strlit("TRAUMA");
        reveal_strlit("WEAKNESS");
        reveal_strlit("WOUND");
        match self {
            StatusEffectType::Bleed => {
                assert("BLEED"@.len() == 5);
                assert("BLEED"@[0] == 'B');
                assert("BLEED"@[1] == 'L');
                assert("BLEED"@[2] == 'E');
                assert("BLEED"@[3] == 'E');
                assert("BLEED"@[4] == 'D');
                assert(clean_atom("BLEED"@));
            },
            StatusEffectType::Blind => {
                assert("BLIND"@.len() == 5);
                assert("BLIND"@[0] == 'B');
                assert("BLIND"@[1] == 'L');
                assert("BLIND"@[2] == 'I');
                assert("BLIND"@[3] == 'N');
                assert("BLIND"@[4] == 'D');
                assert(clean_atom("BLIND"@));
            },
            StatusEffectType::Charm => {
                assert("CHARM"@.len() == 5);
                assert("CHARM"@[0] == 'C');
                assert("CHARM"@[1] == 'H');
                assert("CHARM"@[2] == 'A');
                assert("CHARM"@[3] == 'R');
                assert("CHARM"@[4] == 'M');
                assert(clean_atom("CHARM"@));
            },
            StatusEffectType::Dazed => {
                assert("DAZED"@.len() == 5);
                assert("DAZED"@[0] == 'D');
                assert("DAZED"@[1] == 'A');
                assert("DAZED"@[2] == 'Z');
                assert("DAZED"@[3] == 'E');
                assert("DAZED"@[4] == 'D');
                assert(clean_atom("DAZED"@));
            },
            StatusEffectType::Disease => {
                assert("DISEASE"@.len() == 7);
                assert("DISEASE"@[0] == 'D');
                assert("DISEASE"@[1] == 'I');
                assert("DISEASE"@[2] == 'S');
                assert("DISEASE"@[3] == 'E');
                assert("DISEASE"@[4] == 'A');
                assert("DISEASE"@[5] == 'S');
                assert("DISEASE"@[6] == 'E');
                assert(clean_atom("DISEASE"@));
            },
            StatusEffectType::Environment => {
                assert("ENVIRONMENT"@.len() == 11);
                assert("ENVIRONMENT"@[0] == 'E');
                assert("ENVIRONMENT"@[1] == 'N');
                assert("ENVIRONMENT"@[2] == 'V');
                assert("ENVIRONMENT"@[3] == 'I');
                assert("ENVIRONMENT"@[4] == 'R');
                assert("ENVIRONMENT"@[5] == 'O');
                assert("ENVIRONMENT"@[6] == 'N');
                assert("ENVIRONMENT"@[7] == 'M');
                assert("ENVIRONMENT"@[8] == 'E');
                assert("ENVIRONMENT"@[9] == 'N');
                assert("ENVIRONMENT"@[10] == 'T');
                assert(clean_atom("ENVIRONMENT"@));
            },
            StatusEffectType::Fear => {
                assert("FEAR"@.len() == 4);
                assert("FEAR"@[0] == 'F');
                assert("FEAR"@[1] == 'E');
                assert("FEAR"@[2] == 'A');
                assert("FEAR"@[3] == 'R');
                assert(clean_atom("FEAR"@));
            },
            StatusEffectType::Levitate => {
                assert("LEVITATE"@.len() == 8);
                assert("LEVITATE"@[0] == 'L');
                assert("LEVITATE"@[1] == 'E');
                assert("LEVITATE"@[2] == 'V');
                assert("LEVITATE"@[3] == 'I');
                assert("LEVITATE"@[4] == 'T');
                assert("LEVITATE"@[5] == 'A');
                assert("LEVITATE"@[6] == 'T');
                assert("LEVITATE"@[7] == 'E');
                assert(clean_atom("LEVITATE"@));
            },
            StatusEffectType::Magic => {
                assert("MAGIC"@.len() == 5);
                assert("MAGIC"@[0] == 'M');
                assert("MAGIC"@[1] == 'A');
                assert("MAGIC"@[2] == 'G');
                assert("MAGIC"@[3] == 'I');
                assert("MAGIC"@[4] == 'C');
                assert(clean_atom("MAGIC"@));
            },
            StatusEffectType::Mesmerize => {
                assert("MESMERIZE"@.len() == 9);
                assert("MESMERIZE"@[0] == 'M');
                assert("MESMERIZE"@[1] == 'E');
                assert("MESMERIZE"@[2] == 'S');
                assert("MESMERIZE"@[3] == 'M');
                assert("MESMERIZE"@[4] == 'E');
                assert("MESMERIZE"@[5] == 'R');
                assert("MESMERIZE"@[6] == 'I');
                assert("MESMERIZE"@[7] == 'Z');
                assert("MESMERIZE"@[8] == 'E');
                assert(clean_atom("MESMERIZE"@));
            },
            StatusEffectType::Nearsight => {
                assert("NEARSIGHT"@.len() == 9);
                assert("NEARSIGHT"@[0] == 'N');
                assert("NEARSIGHT"@[1] == 'E');
                assert("NEARSIGHT"@[2] == 'A');
                assert("NEARSIGHT"@[3] == 'R');
                assert("NEARSIGHT"@[4] == 'S');
                assert("NEARSIGHT"@[5] == 'I');
                assert("NEARSIGHT"@[6] == 'G');
                assert("NEARSIGHT"@[7] == 'H');
                assert("NEARSIGHT"@[8] == 'T');
                assert(clean_atom("NEARSIGHT"@));
            },
            StatusEffectType::NoneKind => {
                assert("NONE"@.len() == 4);
                assert("NONE"@[0] == 'N');
                assert("NONE"@[1] == 'O');
                assert("NONE"@[2] == 'N');
                assert("NONE"@[3] == 'E');
                assert(clean_atom("NONE"@));
            },
            StatusEffectType::Pacify => {
                assert("PACIFY"@.len() == 6);
                assert("PACIFY"@[0] == 'P');
                assert("PACIFY"@[1] == 'A');
                assert("PACIFY"@[2] == 'C');
                assert("PACIFY"@[3] == 'I');
                assert("PACIFY"@[4] == 'F');
                assert("PACIFY"@[5] == 'Y');
                assert(clean_atom("PACIFY"@));
            },
            StatusEffectType::Poison => {
                assert("POISON"@.len() == 6);
                assert("POISON"@[0] == 'P');
                assert("POISON"@[1] == 'O');
                assert("POISON"@[2] == 'I');
                assert("POISON"@[3] == 'S');
                assert("POISON"@[4] == 'O');
                assert("POISON"@[5] == 'N');
                assert(clean_atom("POISON"@));
            },
            StatusEffectType::Puncture => {
                assert("PUNCTURE"@.len() == 8);
                assert("PUNCTURE"@[0] == 'P');
                assert("PUNCTURE"@[1] == 'U');
                assert("PUNCTURE"@[2] == 'N');
                assert("PUNCTURE"@[3] == 'C');
                assert("PUNCTURE"@[4] == 'T');
                assert("PUNCTURE"@[5] == 'U');
                assert("PUNCTURE"@[6] == 'R');
                assert("PUNCTURE"@[7] == 'E');
                assert(clean_atom("PUNCTURE"@));
            },
            StatusEffectType::Root => {
                assert("ROOT"@.len() == 4);
                assert("ROOT"@[0] == 'R');
                assert("ROOT"@[1] == 'O');
                assert("ROOT"@[2] == 'O');
                assert("ROOT"@[3] == 'T');
                assert(clean_atom("ROOT"@));
            },
            StatusEffectType::Silence => {
                assert("SILENCE"@.len() == 7);
                assert("SILENCE"@[0] == 'S');
                assert("SILENCE"@[1] == 'I');
                assert("SILENCE"@[2] == 'L');
                assert("SILENCE"@[3] == 'E');
                assert("SILENCE"@[4] == 'N');
                assert("SILENCE"@[5] == 'C');
                assert("SILENCE"@[6] == 'E');
                assert(clean_atom("SILENCE"@));
            },
            StatusEffectType::Snare => {
                assert("SNARE"@.len() == 5);
                assert("SNARE"@[0] == 'S');
                assert("SNARE"@[1] == 'N');
                assert("SNARE"@[2] == 'A');
                assert("SNARE"@[3] == 'R');
                assert("SNARE"@[4] == 'E');
                assert(clean_atom("SNARE"@));
            },
            StatusEffectType::Stun => {
                assert("STUN"@.len() == 4);
                assert("STUN"@[0] == 'S');
                assert("STUN"@[1] == 'T');
                assert("STUN"@[2] == 'U');
                assert("STUN"@[3] == 'N');
                assert(clean_atom("STUN"@));
            },
            StatusEffectType::Trauma => {
                assert("TRAUMA"@.len() == 6);
                assert("TRAUMA"@[0] == 'T');
                assert("TRAUMA"@[1] == 'R');
                assert("TRAUMA"@[2] == 'A');
                assert("TRAUMA"@[3] == 'U');
                assert("TRAUMA"@[4] == 'M');
                assert("TRAUMA"@[5] == 'A');
                assert(clean_atom("TRAUMA"@));
            },
            StatusEffectType::Weakness => {
                assert("WEAKNESS"@.len() == 8);
                assert("WEAKNESS"@[0] == 'W');
                assert("WEAKNESS"@[1] == 'E');
                assert("WEAKNESS"@[2] == 'A');
                assert("WEAKNESS"@[3] == 'K');
                assert("WEAKNESS"@[4] == 'N');
                assert("WEAKNESS"@[5] == 'E');
                assert("WEAKNESS"@[6] == 'S');
                assert("WEAKNESS"@[7] == 'S');
                assert(clean_atom("WEAKNESS"@));
            },
            StatusEffectType::Wound => {
                assert("WOUND"@.len() == 5);
                assert("WOUND"@[0] == 'W');
                assert("WOUND"@[1] == 'O');
                assert("WOUND"@[2] == 'U');
                assert("WOUND"@[3] == 'N');
                assert("WOUND"@[4] == 'D');
                assert(clean_atom("WOUND"@));
            },
        }
    }

    /// Parsing the spelled variant yields the variant and consumes one
    /// separator.
    pub proof fn lemma_parse_roundtrip(self, rest: Seq<char>)
        requires
            sep_ok(rest),
        ensures
            spec_parse_status_effect_type(Self::spec_name(self) + rest) == Ok::<(StatusEffectType, Seq<char>), Error>((self, chop(rest))),
    {
        self.lemma_name_clean();
        lemma_clean_atom_is_atom(self.spec_name());
        lemma_next_token_atom(self.spec_name(), rest);
        self.lemma_name_roundtrip();
    }
}

/// Parses one `StatusEffectType` token.
pub open spec fn spec_parse_status_effect_type(s: Seq<char>) -> Result<(StatusEffectType, Seq<char>), Error> {
    match spec_next_token(s) {
        None => Err(Error::UnexpectedEnd),
        Some((tok, rest)) => match StatusEffectType::spec_from_name(tok) {
            None => Err(Error::InvalidToken),
            Some(v) => Ok((v, rest)),
        },
    }
}

/// Reads one `StatusEffectType` token from the line.
pub fn parse_status_effect_type(r: &mut EsoLogReaderLine) -> (res: Result<StatusEffectType, Error>)
    requires
        old(r).wf(),
    ensures
        final(r).wf(),
        match spec_parse_status_effect_type(old(r).remaining()) {
            Ok((v, rest)) => res == Ok::<StatusEffectType, Error>(v) && final(r).remaining() == rest,
            Err(e) => res == Err::<StatusEffectType, Error>(e),
        },
{
    let tok = match r.next() {
        Some(t) => t,
        None => {
            return Err(Error::UnexpectedEnd);
        },
    };
    match StatusEffectType::from_token(tok) {
        Some(v) => Ok(v),
        None => Err(Error::InvalidToken),
    }
}

/// How an effect is shown on the effect bar.
#[derive(Debug, Clone, Copy, PartialEq, Eq, Structural)]
pub enum DisplayBehaviour {
    Default,
    Always,
    Never,
}

impl DisplayBehaviour {
    /// Wire spelling of this variant.
    pub open spec fn spec_name(self) -> Seq<char> {
        match self {
            DisplayBehaviour::Default => "DEFAULT"@,
            DisplayBehaviour::Always => "ALWAYS"@,
            DisplayBehaviour::Never => "NEVER"@,
        }
    }

    /// The variant spelled by the given token, if any.
    pub open spec fn spec_from_name(t: Seq<char>) -> Option<DisplayBehaviour> {
        if t.len() == 5 {
            if t == "NEVER"@ {
                Some(DisplayBehaviour::Never)
            } else {
                None
            }
        } else if t.len() == 6 {
            if t == "ALWAYS"@ {
                Some(DisplayBehaviour::Always)
            } else {
                None
            }
        } else if t.len() == 7 {
            if t == "DEFAULT"@ {
                Some(DisplayBehaviour::Default)
            } else {
                None
            }
        } else {
            None
        }
    }

    pub fn name(&self) -> (r: &'static str)
        ensures
            r@ == self.spec_name(),
    {
        match self {
            DisplayBehaviour::Default => "DEFAULT",
            DisplayBehaviour::Always => "ALWAYS",
            DisplayBehaviour::Never => "NEVER",
        }
    }

    pub fn from_token(t: &str) -> (r: Option<DisplayBehaviour>)
        ensures
            r == Self::spec_from_name(t@),
    {
        let n = t.unicode_len();
        if n == 5 {
            if str_eq(t, "NEVER") {
                Some(DisplayBehaviour::Never)
            } else {
                None
            }
        } else if n == 6 {
            if str_eq(t, "ALWAYS") {
                Some(DisplayBehaviour::Always)
            } else {
                None
            }
        } else if n == 7 {
            if str_eq(t, "DEFAULT") {
                Some(DisplayBehaviour::Default)
            } else {
                None
            }
        } else {
            None
        }
    }

    /// Reading back a spelled variant yields the variant.
    pub proof fn lemma_name_roundtrip(self)
        ensures
            Self::spec_from_name(self.spec_name()) == Some(self),
    {
        reveal_strlit("ALWAYS");
        reveal_strlit("DEFAULT");
        reveal_strlit("NEVER");
        assert("ALWAYS"@.len() == 6);
        assert("DEFAULT"@.len() == 7);
        assert("NEVER"@.len() == 5);
        match self {
            DisplayBehaviour::Default => assert(Self::spec_from_name(self.spec_name()) == Some(self)),
            DisplayBehaviour::Always => assert(Self::spec_from_name(self.spec_name()) == Some(self)),
            DisplayBehaviour::Never => assert(Self::spec_from_name(self.spec_name()) == Some(self)),
        }
    }

    /// The wire spelling is capitals, digits and underscores only.
    pub proof fn lemma_name_clean(self)
        ensures
            clean_atom(self.spec_name()),
    {
        reveal_strlit("ALWAYS");
        reveal_strlit("DEFAULT");
        reveal_strlit("NEVER");
        match self {
            DisplayBehaviour::Default => {
                assert("DEFAULT"@.len() == 7);
                assert("DEFAULT"@[0] == 'D');
                assert("DEFAULT"@[1] == 'E');
                assert("DEFAULT"@[2] == 'F');
                assert("DEFAULT"@[3] == 'A');
                assert("DEFAULT"@[4] == 'U');
                assert("DEFAULT"@[5] == 'L');
                assert("DEFAULT"@[6] == 'T');
                assert(clean_atom("DEFAULT"@));
            },
            DisplayBehaviour::Always => {
                assert("ALWAYS"@.len() == 6);
                assert("ALWAYS"@[0] == 'A');
                assert("ALWAYS"@[1] == 'L');
                assert("ALWAYS"@[2] == 'W');
                assert("ALWAYS"@[3] == 'A');
                assert("ALWAYS"@[4] == 'Y');
                assert("ALWAYS"@[5] == 'S');
                assert(clean_atom("ALWAYS"@));
            },
            DisplayBehaviour::Never => {
                assert("NEVER"@.len() == 5);
                assert("NEVER"@[0] == 'N');
                assert("NEVER"@[1] == 'E');
                assert("NEVER"@[2] == 'V');
                assert("NEVER"@[3] == 'E');
                assert("NEVER"@[4] == 'R');
                assert(clean_atom("NEVER"@));
            },
        }
    }

    /// Parsing the spelled variant yields the variant and consumes one
    /// separator.
    pub proof fn lemma_parse_roundtrip(self, rest: Seq<char>)
        requires
            sep_ok(rest),
        ensures
            spec_parse_display_behaviour(Self::spec_name(self) + rest) == Ok::<(DisplayBehaviour, Seq<char>), Error>((self, chop(rest))),
    {
        self.lemma_name_clean();
        lemma_clean_atom_is_atom(self.spec_name());
        lemma_next_token_atom(self.spec_name(), rest);
        self.lemma_name_roundtrip();
    }
}

/// Parses one `DisplayBehaviour` token.
pub open spec fn spec_parse_display_behaviour(s: Seq<char>) -> Result<(DisplayBehaviour, Seq<char>), Error> {
    match spec_next_token(s) {
        None => Err(Error::UnexpectedEnd),
        Some((tok, rest)) => match DisplayBehaviour::spec_from_name(tok) {
            None => Err(Error::InvalidToken),
            Some(v) => Ok((v, rest)),
        },
    }
}

/// Reads one `DisplayBehaviour` token from the line.
pub fn parse_display_behaviour(r: &mut EsoLogReaderLine) -> (res: Result<DisplayBehaviour, Error>)
    requires
        old(r).wf(),
    ensures
        final(r).wf(),
        match spec_parse_display_behaviour(old(r).remaining()) {
            Ok((v, rest)) => res == Ok::<DisplayBehaviour, Error>(v) && final(r).remaining() == rest,
            Err(e) => res == Err::<DisplayBehaviour, Error>(e),
        },
{
    let tok = match r.next() {
        Some(t) => t,
        None => {
            return Err(Error::UnexpectedEnd);
        },
    };
    match DisplayBehaviour::from_token(tok) {
        Some(v) => Ok(v),
        None => Err(Error::InvalidToken),
    }
}

/// Why a cast ended.
#[derive(Debug, Clone, Copy, PartialEq, Eq, Structural)]
pub enum EndCastReason {
    Completed,
    Failed,
    Interrupted,
    PlayerCancelled,
}

impl EndCastReason {
    /// Wire spelling of this variant.
    pub open spec fn spec_name(self) -> Seq<char> {
        match self {
            EndCastReason::Completed => "COMPLETED"@,
            EndCastReason::Failed => "FAILED"@,
            EndCastReason::Interrupted => "INTERRUPTED"@,
            EndCastReason::PlayerCancelled => "PLAYER_CANCELLED"@,
        }
    }

    /// The variant spelled by the given token, if any.
    pub open spec fn spec_from_name(t: Seq<char>) -> Option<EndCastReason> {
        if t.len() == 6 {
            if t == "FAILED"@ {
                Some(EndCastReason::Failed)
            } else {
                None
            }
        } else if t.len() == 9 {
            if t == "COMPLETED"@ {
                Some(EndCastReason::Completed)
            } else {
                None
            }
        } else if t.len() == 11 {
            if t == "INTERRUPTED"@ {
                Some(EndCastReason::Interrupted)
            } else {
                None
            }
        } else if t.len() == 16 {
            if t == "PLAYER_CANCELLED"@ {
                Some(EndCastReason::PlayerCancelled)
            } else {
                None
            }
        } else {
            None
        }
    }

    pub fn name(&self) -> (r: &'static str)
        ensures
            r@ == self.spec_name(),
    {
        match self {
            EndCastReason::Completed => "COMPLETED",
            EndCastReason::Failed => "FAILED",
            EndCastReason::Interrupted => "INTERRUPTED",
            EndCastReason::PlayerCancelled => "PLAYER_CANCELLED",
        }
    }

    pub fn from_token(t: &str) -> (r: Option<EndCastReason>)
        ensures
            r == Self::spec_from_name(t@),
    {
        let n = t.unicode_len();
        if n == 6 {
            if str_eq(t, "FAILED") {
                Some(EndCastReason::Failed)
            } else {
                None
            }
        } else if n == 9 {
            if str_eq(t, "COMPLETED") {
                Some(EndCastReason::Completed)
            } else {
                None
            }
        } else if n == 11 {
            if str_eq(t, "INTERRUPTED") {
                Some(EndCastReason::Interrupted)
            } else {
                None
            }
        } else if n == 16 {
            if str_eq(t, "PLAYER_CANCELLED") {
                Some(EndCastReason::PlayerCancelled)
            } else {
                None
            }
        } else {
            None
        }
    }

    /// Reading back a spelled variant yields the variant.
    pub proof fn lemma_name_roundtrip(self)
        ensures
            Self::spec_from_name(self.spec_name()) == Some(self),
    {
        reveal_strlit("COMPLETED");
        reveal_strlit("FAILED");
        reveal_strlit("INTERRUPTED");
        reveal_strlit("PLAYER_CANCELLED");
        assert("COMPLETED"@.len() == 9);
        assert("FAILED"@.len() == 6);
        assert("INTERRUPTED"@.len() == 11);
        assert("PLAYER_CANCELLED"@.len() == 16);
        match self {
            EndCastReason::Completed => assert(Self::spec_from_name(self.spec_name()) == Some(self)),
            EndCastReason::Failed => assert(Self::spec_from_name(self.spec_name()) == Some(self)),
            EndCastReason::Interrupted => assert(Self::spec_from_name(self.spec_name()) == Some(self)),
            EndCastReason::PlayerCancelled => assert(Self::spec_from_name(self.spec_name()) == Some(self)),
        }
    }

    /// The wire spelling is capitals, digits and underscores only.
    pub proof fn lemma_name_clean(self)
        ensures
            clean_atom(self.spec_name()),
    {
        reveal_strlit("COMPLETED");
        reveal_strlit("FAILED");
        reveal_strlit("INTERRUPTED");
        reveal_strlit("PLAYER_CANCELLED");
        match self {
            EndCastReason::Completed => {
                assert("COMPLETED"@.len() == 9);
                assert("COMPLETED"@[0] == 'C');
                assert("COMPLETED"@[1] == 'O');
                assert("COMPLETED"@[2] == 'M');
                assert("COMPLETED"@[3] == 'P');
                assert("COMPLETED"@[4] == 'L');
                assert("COMPLETED"@[5] == 'E');
                assert("COMPLETED"@[6] == 'T');
                assert("COMPLETED"@[7] == 'E');
                assert("COMPLETED"@[8] == 'D');
                assert(clean_atom("COMPLETED"@));
            },
            EndCastReason::Failed => {
                assert("FAILED"@.len() == 6);
                assert("FAILED"@[0] == 'F');
                assert("FAILED"@[1] == 'A');
                assert("FAILED"@[2] == 'I');
                assert("FAILED"@[3] == 'L');
                assert("FAILED"@[4] == 'E');
                assert("FAILED"@[5] == 'D');
                assert(clean_atom("FAILED"@));
            },
            EndCastReason::Interrupted => {
                assert("INTERRUPTED"@.len() == 11);
                assert("INTERRUPTED"@[0] == 'I');
                assert("INTERRUPTED"@[1] == 'N');
                assert("INTERRUPTED"@[2] == 'T');
                assert("INTERRUPTED"@[3] == 'E');
                assert("INTERRUPTED"@[4] == 'R');
                assert("INTERRUPTED"@[5] == 'R');
                assert("INTERRUPTED"@[6] == 'U');
                assert("INTERRUPTED"@[7] == 'P');
                assert("INTERRUPTED"@[8] == 'T');
                assert("INTERRUPTED"@[9] == 'E');
                assert("INTERRUPTED"@[10] == 'D');
                assert(clean_atom("INTERRUPTED"@));
            },
            EndCastReason::PlayerCancelled => {
                assert("PLAYER_CANCELLED"@.len() == 16);
                assert("PLAYER_CANCELLED"@[0] == 'P');
                assert("PLAYER_CANCELLED"@[1] == 'L');
                assert("PLAYER_CANCELLED"@[2] == 'A');
                assert("PLAYER_CANCELLED"@[3] == 'Y');
                assert("PLAYER_CANCELLED"@[4] == 'E');
                assert("PLAYER_CANCELLED"@[5] == 'R');
                assert("PLAYER_CANCELLED"@[6] == '_');
                assert("PLAYER_CANCELLED"@[7] == 'C');
                assert("PLAYER_CANCELLED"@[8] == 'A');
                assert("PLAYER_CANCELLED"@[9] == 'N');
                assert("PLAYER_CANCELLED"@[10] == 'C');
                assert("PLAYER_CANCELLED"@[11] == 'E');
                assert("PLAYER_CANCELLED"@[12] == 'L');
                assert("PLAYER_CANCELLED"@[13] == 'L');
                assert("PLAYER_CANCELLED"@[14] == 'E');
                assert("PLAYER_CANCELLED"@[15] == 'D');
                assert(clean_atom("PLAYER_CANCELLED"@));
            },
        }
    }

    /// Parsing the spelled variant yields the variant and consumes one
    /// separator.
    pub proof fn lemma_parse_roundtrip(self, rest: Seq<char>)
        requires
            sep_ok(rest),
        ensures
            spec_parse_end_cast_reason(Self::spec_name(self) + rest) == Ok::<(EndCastReason, Seq<char>), Error>((self, chop(rest))),
    {
        self.lemma_name_clean();
        lemma_clean_atom_is_atom(self.spec_name());
        lemma_next_token_atom(self.spec_name(), rest);
        self.lemma_name_roundtrip();
    }
}

/// Parses one `EndCastReason` token.
pub open spec fn spec_parse_end_cast_reason(s: Seq<char>) -> Result<(EndCastReason, Seq<char>), Error> {
    match spec_next_token(s) {
        None => Err(Error::UnexpectedEnd),
        Some((tok, rest)) => match EndCastReason::spec_from_name(tok) {
            None => Err(Error::InvalidToken),
            Some(v) => Ok((v, rest)),
        },
    }
}

/// Reads one `EndCastReason` token from the line.
pub fn parse_end_cast_reason(r: &mut EsoLogReaderLine) -> (res: Result<EndCastReason, Error>)
    requires
        old(r).wf(),
    ensures
        final(r).wf(),
        match spec_parse_end_cast_reason(old(r).remaining()) {
            Ok((v, rest)) => res == Ok::<EndCastReason, Error>(v) && final(r).remaining() == rest,
            Err(e) => res == Err::<EndCastReason, Error>(e),
        },
{
    let tok = match r.next() {
        Some(t) => t,
        None => {
            return Err(Error::UnexpectedEnd);
        },
    };
    match EndCastReason::from_token(tok) {
        Some(v) => Ok(v),
        None => Err(Error::InvalidToken),
    }
}

/// Difficulty setting of the current zone.
#[derive(Debug, Clone, Copy, PartialEq, Eq, Structural)]
pub enum DungeonDifficulty {
    NoneKind,
    Normal,
    Veteran,
}

impl DungeonDifficulty {
    /// Wire spelling of this variant.
    pub open spec fn spec_name(self) -> Seq<char> {
        match self {
            DungeonDifficulty::NoneKind => "NONE"@,
            DungeonDifficulty::Normal => "NORMAL"@,
            DungeonDifficulty::Veteran => "VETERAN"@,
        }
    }

    /// The variant spelled by the given token, if any.
    pub open spec fn spec_from_name(t: Seq<char>) -> Option<DungeonDifficulty> {
        if t.len() == 4 {
            if t == "NONE"@ {
                Some(DungeonDifficulty::NoneKind)
            } else {
                None
            }
        } else if t.len() == 6 {
            if t == "NORMAL"@ {
                Some(DungeonDifficulty::Normal)
            } else {
                None
            }
        } else if t.len() == 7 {
            if t == "VETERAN"@ {
                Some(DungeonDifficulty::Veteran)
            } else {
                None
            }
        } else {
            None
        }
    }

    pub fn name(&self) -> (r: &'static str)
        ensures
            r@ == self.spec_name(),
    {
        match self {
            DungeonDifficulty::NoneKind => "NONE",
            DungeonDifficulty::Normal => "NORMAL",
            DungeonDifficulty::Veteran => "VETERAN",
        }
    }

    pub fn from_token(t: &str) -> (r: Option<DungeonDifficulty>)
        ensures
            r == Self::spec_from_name(t@),
    {
        let n = t.unicode_len();
        if n == 4 {
            if str_eq(t, "NONE") {
                Some(DungeonDifficulty::NoneKind)
            } else {
                None
            }
        } else if n == 6 {
            if str_eq(t, "NORMAL") {
                Some(DungeonDifficulty::Normal)
            } else {
                None
            }
        } else if n == 7 {
            if str_eq(t, "VETERAN") {
                Some(DungeonDifficulty::Veteran)
            } else {
                None
            }
        } else {
            None
        }
    }

    /// Reading back a spelled variant yields the variant.
    pub proof fn lemma_name_roundtrip(self)
        ensures
            Self::spec_from_name(self.spec_name()) == Some(self),
    {
        reveal_strlit("NONE");
        reveal_strlit("NORMAL");
        reveal_strlit("VETERAN");
        assert("NONE"@.len() == 4);
        assert("NORMAL"@.len() == 6);
        assert("VETERAN"@.len() == 7);
        match self {
            DungeonDifficulty::NoneKind => assert(Self::spec_from_name(self.spec_name()) == Some(self)),
            DungeonDifficulty::Normal => assert(Self::spec_from_name(self.spec_name()) == Some(self)),
            DungeonDifficulty::Veteran => assert(Self::spec_from_name(self.spec_name()) == Some(self)),
        }
    }

    /// The wire spelling is capitals, digits and underscores only.
    pub proof fn lemma_name_clean(self)
        ensures
            clean_atom(self.spec_name()),
    {
        reveal_strlit("NONE");
        reveal_strlit("NORMAL");
        reveal_strlit("VETERAN");
        match self {
            DungeonDifficulty::NoneKind => {
                assert("NONE"@.len() == 4);
                assert("NONE"@[0] == 'N');
                assert("NONE"@[1] == 'O');
                assert("NONE"@[2] == 'N');
                assert("NONE"@[3] == 'E');
                assert(clean_atom("NONE"@));
            },
            DungeonDifficulty::Normal => {
                assert("NORMAL"@.len() == 6);
                assert("NORMAL"@[0] == 'N');
                assert("NORMAL"@[1] == 'O');
                assert("NORMAL"@[2] == 'R');
                assert("NORMAL"@[3] == 'M');
                assert("NORMAL"@[4] == 'A');
                assert("NORMAL"@[5] == 'L');
                assert(clean_atom("NORMAL"@));
            },
            DungeonDifficulty::Veteran => {
                assert("VETERAN"@.len() == 7);
                assert("VETERAN"@[0] == 'V');
                assert("VETERAN"@[1] == 'E');
                assert("VETERAN"@[2] == 'T');
                assert("VETERAN"@[3] == 'E');
                assert("VETERAN"@[4] == 'R');
                assert("VETERAN"@[5] == 'A');
                assert("VETERAN"@[6] == 'N');
                assert(clean_atom("VETERAN"@));
            },
        }
    }

    /// Parsing the spelled variant yields the variant and consumes one
    /// separator.
    pub proof fn lemma_parse_roundtrip(self, rest: Seq<char>)
        requires
            sep_ok(rest),
        ensures
            spec_parse_dungeon_difficulty(Self::spec_name(self) + rest) == Ok::<(DungeonDifficulty, Seq<char>), Error>((self, chop(rest))),
    {
        self.lemma_name_clean();
        lemma_clean_atom_is_atom(self.spec_name());
        lemma_next_token_atom(self.spec_name(), rest);
        self.lemma_name_roundtrip();
    }
}

/// Parses one `DungeonDifficulty` token.
pub open spec fn spec_parse_dungeon_difficulty(s: Seq<char>) -> Result<(DungeonDifficulty, Seq<char>), Error> {
    match spec_next_token(s) {
        None => Err(Error::UnexpectedEnd),
        Some((tok, rest)) => match DungeonDifficulty::spec_from_name(tok) {
            None => Err(Error::InvalidToken),
            Some(v) => Ok((v, rest)),
        },
    }
}

/// Reads one `DungeonDifficulty` token from the line.
pub fn parse_dungeon_difficulty(r: &mut EsoLogReaderLine) -> (res: Result<DungeonDifficulty, Error>)
    requires
        old(r).wf(),
    ensures
        final(r).wf(),
        match spec_parse_dungeon_difficulty(old(r).remaining()) {
            Ok((v, rest)) => res == Ok::<DungeonDifficulty, Error>(v) && final(r).remaining() == rest,
            Err(e) => res == Err::<DungeonDifficulty, Error>(e),
        },
{
    let tok = match r.next() {
        Some(t) => t,
        None => {
            return Err(Error::UnexpectedEnd);
        },
    };
    match DungeonDifficulty::from_token(tok) {
        Some(v) => Ok(v),
        None => Err(Error::InvalidToken),
    }
}

/// Display quality tier of an item.
#[derive(Debug, Clone, Copy, PartialEq, Eq, Structural)]
pub enum DisplayQuality {
    MythicOverride,
    Legendary,
    Artifact,
    Arcane,
    Magic,
    Normal,
    Trash,
}

impl DisplayQuality {
    /// Wire spelling of this variant.
    pub open spec fn spec_name(self) -> Seq<char> {
        match self {
            DisplayQuality::MythicOverride => "MYTHIC_OVERRIDE"@,
            DisplayQuality::Legendary => "LEGENDARY"@,
            DisplayQuality::Artifact => "ARTIFACT"@,
            DisplayQuality::Arcane => "ARCANE"@,
            DisplayQuality::Magic => "MAGIC"@,
            DisplayQuality::Normal => "NORMAL"@,
            DisplayQuality::Trash => "TRASH"@,
        }
    }

    /// The variant spelled by the given token, if any.
    pub open spec fn spec_from_name(t: Seq<char>) -> Option<DisplayQuality> {
        if t.len() == 5 {
            if t == "MAGIC"@ {
                Some(DisplayQuality::Magic)
            } else if t == "TRASH"@ {
                Some(DisplayQuality::Trash)
            } else {
                None
            }
        } else if t.len() == 6 {
            if t == "ARCANE"@ {
                Some(DisplayQuality::Arcane)
            } else if t == "NORMAL"@ {
                Some(DisplayQuality::Normal)
            } else {
                None
            }
        } else if t.len() == 8 {
            if t == "ARTIFACT"@ {
                Some(DisplayQuality::Artifact)
            } else {
                None
            }
        } else if t.len() == 9 {
            if t == "LEGENDARY"@ {
                Some(DisplayQuality::Legendary)
            } else {
                None
            }
        } else if t.len() == 15 {
            if t == "MYTHIC_OVERRIDE"@ {
                Some(DisplayQuality::MythicOverride)
            } else {
                None
            }
        } else {
            None
        }
    }

    pub fn name(&self) -> (r: &'static str)
        ensures
            r@ == self.spec_name(),
    {
        match self {
            DisplayQuality::MythicOverride => "MYTHIC_OVERRIDE",
            DisplayQuality::Legendary => "LEGENDARY",
            DisplayQuality::Artifact => "ARTIFACT",
            DisplayQuality::Arcane => "ARCANE",
            DisplayQuality::Magic => "MAGIC",
            DisplayQuality::Normal => "NORMAL",
            DisplayQuality::Trash => "TRASH",
        }
    }

    pub fn from_token(t: &str) -> (r: Option<DisplayQuality>)
        ensures
            r == Self::spec_from_name(t@),
    {
        let n = t.unicode_len();
        if n == 5 {
            if str_eq(t, "MAGIC") {
                Some(DisplayQuality::Magic)
            } else if str_eq(t, "TRASH") {
                Some(DisplayQuality::Trash)
            } else {
                None
            }
        } else if n == 6 {
            if str_eq(t, "ARCANE") {
                Some(DisplayQuality::Arcane)
            } else if str_eq(t, "NORMAL") {
                Some(DisplayQuality::Normal)
            } else {
                None
            }
        } else if n == 8 {
            if str_eq(t, "ARTIFACT") {
                Some(DisplayQuality::Artifact)
            } else {
                None
            }
        } else if n == 9 {
            if str_eq(t, "LEGENDARY") {
                Some(DisplayQuality::Legendary)
            } else {
                None
            }
        } else if n == 15 {
            if str_eq(t, "MYTHIC_OVERRIDE") {
                Some(DisplayQuality::MythicOverride)
            } else {
                None
            }
        } else {
            None
        }
    }

    /// Reading back a spelled variant yields the variant.
    pub proof fn lemma_name_roundtrip(self)
        ensures
            Self::spec_from_name(self.spec_name()) == Some(self),
    {
        reveal_strlit("ARCANE");
        reveal_strlit("ARTIFACT");
        reveal_strlit("LEGENDARY");
        reveal_strlit("MAGIC");
        reveal_strlit("MYTHIC_OVERRIDE");
        reveal_strlit("NORMAL");
        reveal_strlit("TRASH");
        assert("ARCANE"@.len() == 6);
        assert("ARTIFACT"@.len() == 8);
        assert("LEGENDARY"@.len() == 9);
        assert("MAGIC"@.len() == 5);
        assert("MYTHIC_OVERRIDE"@.len() == 15);
        assert("NORMAL"@.len() == 6);
        assert("TRASH"@.len() == 5);
        assert("ARCANE"@[0] == 'A');
        assert("MAGIC"@[0] == 'M');
        assert("NORMAL"@[0] == 'N');
        assert("TRASH"@[0] == 'T');
        match self {
            DisplayQuality::MythicOverride => assert(Self::spec_from_name(self.spec_name()) == Some(self)),
            DisplayQuality::Legendary => assert(Self::spec_from_name(self.spec_name()) == Some(self)),
            DisplayQuality::Artifact => assert(Self::spec_from_name(self.spec_name()) == Some(self)),
            DisplayQuality::Arcane => assert(Self::spec_from_name(self.spec_name()) == Some(self)),
            DisplayQuality::Magic => assert(Self::spec_from_name(self.spec_name()) == Some(self)),
            DisplayQuality::Normal => assert(Self::spec_from_name(self.spec_name()) == Some(self)),
            DisplayQuality::Trash => assert(Self::spec_from_name(self.spec_name()) == Some(self)),
        }
    }

    /// The wire spelling is capitals, digits and underscores only.
    pub proof fn lemma_name_clean(self)
        ensures
            clean_atom(self.spec_name()),
    {
        reveal_strlit("ARCANE");
        reveal_strlit("ARTIFACT");
        reveal_strlit("LEGENDARY");
        reveal_strlit("MAGIC");
        reveal_strlit("MYTHIC_OVERRIDE");
        reveal_strlit("NORMAL");
        reveal_strlit("TRASH");
        match self {
            DisplayQuality::MythicOverride => {
                assert("MYTHIC_OVERRIDE"@.len() == 15);
                assert("MYTHIC_OVERRIDE"@[0] == 'M');
                assert("MYTHIC_OVERRIDE"@[1] == 'Y');
                assert("MYTHIC_OVERRIDE"@[2] == 'T');
                assert("MYTHIC_OVERRIDE"@[3] == 'H');
                assert("MYTHIC_OVERRIDE"@[4] == 'I');
                assert("MYTHIC_OVERRIDE"@[5] == 'C');
                assert("MYTHIC_OVERRIDE"@[6] == '_');
                assert("MYTHIC_OVERRIDE"@[7] == 'O');
                assert("MYTHIC_OVERRIDE"@[8] == 'V');
                assert("MYTHIC_OVERRIDE"@[9] == 'E');
                assert("MYTHIC_OVERRIDE"@[10] == 'R');
                assert("MYTHIC_OVERRIDE"@[11] == 'R');
                assert("MYTHIC_OVERRIDE"@[12] == 'I');
                assert("MYTHIC_OVERRIDE"@[13] == 'D');
                assert("MYTHIC_OVERRIDE"@[14] == 'E');
                assert(clean_atom("MYTHIC_OVERRIDE"@));
            },
            DisplayQuality::Legendary => {
                assert("LEGENDARY"@.len() == 9);
                assert("LEGENDARY"@[0] == 'L');
                assert("LEGENDARY"@[1] == 'E');
                assert("LEGENDARY"@[2] == 'G');
                assert("LEGENDARY"@[3] == 'E');
                assert("LEGENDARY"@[4] == 'N');
                assert("LEGENDARY"@[5] == 'D');
                assert("LEGENDARY"@[6] == 'A');
                assert("LEGENDARY"@[7] == 'R');
                assert("LEGENDARY"@[8] == 'Y');
                assert(clean_atom("LEGENDARY"@));
            },
            DisplayQuality::Artifact => {
                assert("ARTIFACT"@.len() == 8);
                assert("ARTIFACT"@[0] == 'A');
                assert("ARTIFACT"@[1] == 'R');
                assert("ARTIFACT"@[2] == 'T');
                assert("ARTIFACT"@[3] == 'I');
                assert("ARTIFACT"@[4] == 'F');
                assert("ARTIFACT"@[5] == 'A');
                assert("ARTIFACT"@[6] == 'C');
                assert("ARTIFACT"@[7] == 'T');
                assert(clean_atom("ARTIFACT"@));
            },
            DisplayQuality::Arcane => {
                assert("ARCANE"@.len() == 6);
                assert("ARCANE"@[0] == 'A');
                assert("ARCANE"@[1] == 'R');
                assert("ARCANE"@[2] == 'C');
                assert("ARCANE"@[3] == 'A');
                assert("ARCANE"@[4] == 'N');
                assert("ARCANE"@[5] == 'E');
                assert(clean_atom("ARCANE"@));
            },
            DisplayQuality::Magic => {
                assert("MAGIC"@.len() == 5);
                assert("MAGIC"@[0] == 'M');
                assert("MAGIC"@[1] == 'A');
                assert("MAGIC"@[2] == 'G');
                assert("MAGIC"@[3] == 'I');
                assert("MAGIC"@[4] == 'C');
                assert(clean_atom("MAGIC"@));
            },
            DisplayQuality::Normal => {
                assert("NORMAL"@.len() == 6);
                assert("NORMAL"@[0] == 'N');
                assert("NORMAL"@[1] == 'O');
                assert("NORMAL"@[2] == 'R');
                assert("NORMAL"@[3] == 'M');
                assert("NORMAL"@[4] == 'A');
                assert("NORMAL"@[5] == 'L');
                assert(clean_atom("NORMAL"@));
            },
            DisplayQuality::Trash => {
                assert("TRASH"@.len() == 5);
                assert("TRASH"@[0] == 'T');
                assert("TRASH"@[1] == 'R');
                assert("TRASH"@[2] == 'A');
                assert("TRASH"@[3] == 'S');
                assert("TRASH"@[4] == 'H');
                assert(clean_atom("TRASH"@));
            },
        }
    }

    /// Parsing the spelled variant yields the variant and consumes one
    /// separator.
    pub proof fn lemma_parse_roundtrip(self, rest: Seq<char>)
        requires
            sep_ok(rest),
        ensures
            spec_parse_display_quality(Self::spec_name(self) + rest) == Ok::<(DisplayQuality, Seq<char>), Error>((self, chop(rest))),
    {
        self.lemma_name_clean();
        lemma_clean_atom_is_atom(self.spec_name());
        lemma_next_token_atom(self.spec_name(), rest);
        self.lemma_name_roundtrip();
    }
}

/// Parses one `DisplayQuality` token.
pub open spec fn spec_parse_display_quality(s: Seq<char>) -> Result<(DisplayQuality, Seq<char>), Error> {
    match spec_next_token(s) {
        None => Err(Error::UnexpectedEnd),
        Some((tok, rest)) => match DisplayQuality::spec_from_name(tok) {
            None => Err(Error::InvalidToken),
            Some(v) => Ok((v, rest)),
        },
    }
}

/// Reads one `DisplayQuality` token from the line.
pub fn parse_display_quality(r: &mut EsoLogReaderLine) -> (res: Result<DisplayQuality, Error>)
    requires
        old(r).wf(),
    ensures
        final(r).wf(),
        match spec_parse_display_quality(old(r).remaining()) {
            Ok((v, rest)) => res == Ok::<DisplayQuality, Error>(v) && final(r).remaining() == rest,
            Err(e) => res == Err::<DisplayQuality, Error>(e),
        },
{
    let tok = match r.next() {
        Some(t) => t,
        None => {
            return Err(Error::UnexpectedEnd);
        },
    };
    match DisplayQuality::from_token(tok) {
        Some(v) => Ok(v),
        None => Err(Error::InvalidToken),
    }
}

/// Slot a piece of equipment occupies.
#[derive(Debug, Clone, Copy, PartialEq, Eq, Structural)]
pub enum EquipSlot {
    BackupMain,
    BackupOff,
    BackupPoison,
    Chest,
    Class1,
    Class2,
    Class3,
    Costume,
    Feet,
    Hand,
    Head,
    Legs,
    MainHand,
    Neck,
    NoneKind,
    OffHand,
    Poison,
    Ranged,
    Ring1,
    Ring2,
    Shoulders,
    Waist,
    Wrist,
}

impl EquipSlot {
    /// Wire spelling of this variant.
    pub open spec fn spec_name(self) -> Seq<char> {
        match self {
            EquipSlot::BackupMain => "BACKUP_MAIN"@,
            EquipSlot::BackupOff => "BACKUP_OFF"@,
            EquipSlot::BackupPoison => "BACKUP_POISON"@,
            EquipSlot::Chest => "CHEST"@,
            EquipSlot::Class1 => "CLASS1"@,
            EquipSlot::Class2 => "CLASS2"@,
            EquipSlot::Class3 => "CLASS3"@,
            EquipSlot::Costume => "COSTUME"@,
            EquipSlot::Feet => "FEET"@,
            EquipSlot::Hand => "HAND"@,
            EquipSlot::Head => "HEAD"@,
            EquipSlot::Legs => "LEGS"@,
            EquipSlot::MainHand => "MAIN_HAND"@,
            EquipSlot::Neck => "NECK"@,
            EquipSlot::NoneKind => "NONE"@,
            EquipSlot::OffHand => "OFF_HAND"@,
            EquipSlot::Poison => "POISON"@,
            EquipSlot::Ranged => "RANGED"@,
            EquipSlot::Ring1 => "RING1"@,
            EquipSlot::Ring2 => "RING2"@,
            EquipSlot::Shoulders => "SHOULDERS"@,
            EquipSlot::Waist => "WAIST"@,
            EquipSlot::Wrist => "WRIST"@,
        }
    }

    /// The variant spelled by the given token, if any.
    pub open spec fn spec_from_name(t: Seq<char>) -> Option<EquipSlot> {
        if t.len() == 4 {
            if t == "FEET"@ {
                Some(EquipSlot::Feet)
            } else if t == "HAND"@ {
                Some(EquipSlot::Hand)
            } else if t == "HEAD"@ {
                Some(EquipSlot::Head)
            } else if t == "LEGS"@ {
                Some(EquipSlot::Legs)
            } else if t == "NECK"@ {
                Some(EquipSlot::Neck)
            } else if t == "NONE"@ {
                Some(EquipSlot::NoneKind)
            } else {
                None
            }
        } else if t.len() == 5 {
            if t == "CHEST"@ {
                Some(EquipSlot::Chest)
            } else if t == "RING1"@ {
                Some(EquipSlot::Ring1)
            } else if t == "RING2"@ {
                Some(EquipSlot::Ring2)
            } else if t == "WAIST"@ {
                Some(EquipSlot::Waist)
            } else if t == "WRIST"@ {
                Some(EquipSlot::Wrist)
            } else {
                None
            }
        } else if t.len() == 6 {
            if t == "CLASS1"@ {
                Some(EquipSlot::Class1)
            } else if t == "CLASS2"@ {
                Some(EquipSlot::Class2)
            } else if t == "CLASS3"@ {
                Some(EquipSlot::Class3)
            } else if t == "POISON"@ {
                Some(EquipSlot::Poison)
            } else if t == "RANGED"@ {
                Some(EquipSlot::Ranged)
            } else {
                None
            }
        } else if t.len() == 7 {
            if t == "COSTUME"@ {
                Some(EquipSlot::Costume)
            } else {
                None
            }
        } else if t.len() == 8 {
            if t == "OFF_HAND"@ {
                Some(EquipSlot::OffHand)
            } else {
                None
            }
        } else if t.len() == 9 {
            if t == "MAIN_HAND"@ {
                Some(EquipSlot::MainHand)
            } else if t == "SHOULDERS"@ {
                Some(EquipSlot::Shoulders)
            } else {
                None
            }
        } else if t.len() == 10 {
            if t == "BACKUP_OFF"@ {
                Some(EquipSlot::BackupOff)
            } else {
                None
            }
        } else if t.len() == 11 {
            if t == "BACKUP_MAIN"@ {
                Some(EquipSlot::BackupMain)
            } else {
                None
            }
        } else if t.len() == 13 {
            if t == "BACKUP_POISON"@ {
                Some(EquipSlot::BackupPoison)
            } else {
                None
            }
        } else {
            None
        }
    }

    pub fn name(&self) -> (r: &'static str)
        ensures
            r@ == self.spec_name(),
    {
        match self {
            EquipSlot::BackupMain => "BACKUP_MAIN",
            EquipSlot::BackupOff => "BACKUP_OFF",
            EquipSlot::BackupPoison => "BACKUP_POISON",
            EquipSlot::Chest => "CHEST",
            EquipSlot::Class1 => "CLASS1",
            EquipSlot::Class2 => "CLASS2",
            EquipSlot::Class3 => "CLASS3",
            EquipSlot::Costume => "COSTUME",
            EquipSlot::Feet => "FEET",
            EquipSlot::Hand => "HAND",
            EquipSlot::Head => "HEAD",
            EquipSlot::Legs => "LEGS",
            EquipSlot::MainHand => "MAIN_HAND",
            EquipSlot::Neck => "NECK",
            EquipSlot::NoneKind => "NONE",
            EquipSlot::OffHand => "OFF_HAND",
            EquipSlot::Poison => "POISON",
            EquipSlot::Ranged => "RANGED",
            EquipSlot::Ring1 => "RING1",
            EquipSlot::Ring2 => "RING2",
            EquipSlot::Shoulders => "SHOULDERS",
            EquipSlot::Waist => "WAIST",
            EquipSlot::Wrist => "WRIST",
        }
    }

    pub fn from_token(t: &str) -> (r: Option<EquipSlot>)
        ensures
            r == Self::spec_from_name(t@),
    {
        let n = t.unicode_len();
        if n == 4 {
            if str_eq(t, "FEET") {
                Some(EquipSlot::Feet)
            } else if str_eq(t, "HAND") {
                Some(EquipSlot::Hand)
            } else if str_eq(t, "HEAD") {
                Some(EquipSlot::Head)
            } else if str_eq(t, "LEGS") {
                Some(EquipSlot::Legs)
            } else if str_eq(t, "NECK") {
                Some(EquipSlot::Neck)
            } else if str_eq(t, "NONE") {
                Some(EquipSlot::NoneKind)
            } else {
                None
            }
        } else if n == 5 {
            if str_eq(t, "CHEST") {
                Some(EquipSlot::Chest)
            } else if str_eq(t, "RING1") {
                Some(EquipSlot::Ring1)
            } else if str_eq(t, "RING2") {
                Some(EquipSlot::Ring2)
            } else if str_eq(t, "WAIST") {
                Some(EquipSlot::Waist)
            } else if str_eq(t, "WRIST") {
                Some(EquipSlot::Wrist)
            } else {
                None
            }
        } else if n == 6 {
            if str_eq(t, "CLASS1") {
                Some(EquipSlot::Class1)
            } else if str_eq(t, "CLASS2") {
                Some(EquipSlot::Class2)
            } else if str_eq(t, "CLASS3") {
                Some(EquipSlot::Class3)
            } else if str_eq(t, "POISON") {
                Some(EquipSlot::Poison)
            } else if str_eq(t, "RANGED") {
                Some(EquipSlot::Ranged)
            } else {
                None
            }
        } else if n == 7 {
            if str_eq(t, "COSTUME") {
                Some(EquipSlot::Costume)
            } else {
                None
            }
        } else if n == 8 {
            if str_eq(t, "OFF_HAND") {
                Some(EquipSlot::OffHand)
            } else {
                None
            }
        } else if n == 9 {
            if str_eq(t, "MAIN_HAND") {
                Some(EquipSlot::MainHand)
            } else if str_eq(t, "SHOULDERS") {
                Some(EquipSlot::Shoulders)
            } else {
                None
            }
        } else if n == 10 {
            if str_eq(t, "BACKUP_OFF") {
                Some(EquipSlot::BackupOff)
            } else {
                None
            }
        } else if n == 11 {
            if str_eq(t, "BACKUP_MAIN") {
                Some(EquipSlot::BackupMain)
            } else {
                None
            }
        } else if n == 13 {
            if str_eq(t, "BACKUP_POISON") {
                Some(EquipSlot::BackupPoison)
            } else {
                None
            }
        } else {
            None
        }
    }

    /// Reading back a spelled variant yields the variant.
    pub proof fn lemma_name_roundtrip(self)
        ensures
            Self::spec_from_name(self.spec_name()) == Some(self),
    {
        reveal_strlit("BACKUP_MAIN");
        reveal_strlit("BACKUP_OFF");
        reveal_strlit("BACKUP_POISON");
        reveal_strlit("CHEST");
        reveal_strlit("CLASS1");
        reveal_strlit("CLASS2");
        reveal_strlit("CLASS3");
        reveal_strlit("COSTUME");
        reveal_strlit("FEET");
        reveal_strlit("HAND");
        reveal_strlit("HEAD");
        reveal_strlit("LEGS");
        reveal_strlit("MAIN_HAND");
        reveal_strlit("NECK");
        reveal_strlit("NONE");
        reveal_strlit("OFF_HAND");
        reveal_strlit("POISON");
        reveal_strlit("RANGED");
        reveal_strlit("RING1");
        reveal_strlit("RING2");
        reveal_strlit("SHOULDERS");
        reveal_strlit("WAIST");
        reveal_strlit("WRIST");
        assert("BACKUP_MAIN"@.len() == 11);
        assert("BACKUP_OFF"@.len() == 10);
        assert("BACKUP_POISON"@.len() == 13);
        assert("CHEST"@.len() == 5);
        assert("CLASS1"@.len() == 6);
        assert("CLASS2"@.len() == 6);
        assert("CLASS3"@.len() == 6);
        assert("COSTUME"@.len() == 7);
        assert("FEET"@.len() == 4);
        assert("HAND"@.len() == 4);
        assert("HEAD"@.len() == 4);
        assert("LEGS"@.len() == 4);
        assert("MAIN_HAND"@.len() == 9);
        assert("NECK"@.len() == 4);
        assert("NONE"@.len() == 4);
        assert("OFF_HAND"@.len() == 8);
        assert("POISON"@.len() == 6);
        assert("RANGED"@.len() == 6);
        assert("RING1"@.len() == 5);
        assert("RING2"@.len() == 5);
        assert("SHOULDERS"@.len() == 9);
        assert("WAIST"@.len() == 5);
        assert("WRIST"@.len() == 5);
        assert("CHEST"@[0] == 'C');
        assert("CLASS1"@[0] == 'C');
        assert("CLASS1"@[5] == '1');
        assert("CLASS2"@[0] == 'C');
        assert("CLASS2"@[5] == '2');
        assert("CLASS3"@[0] == 'C');
        assert("CLASS3"@[5] == '3');
        assert("FEET"@[0] == 'F');
        assert("HAND"@[0] == 'H');
        assert("HAND"@[1] == 'A');
        assert("HEAD"@[0] == 'H');
        assert("HEAD"@[1] == 'E');
        assert("LEGS"@[0] == 'L');
        assert("MAIN_HAND"@[0] == 'M');
        assert("NECK"@[0] == 'N');
        assert("NECK"@[1] == 'E');
        assert("NONE"@[0] == 'N');
        assert("NONE"@[1] == 'O');
        assert("POISON"@[0] == 'P');
        assert("RANGED"@[0] == 'R');
        assert("RING1"@[0] == 'R');
        assert("RING1"@[4] == '1');
        assert("RING2"@[0] == 'R');
        assert("RING2"@[4] == '2');
        assert("SHOULDERS"@[0] == 'S');
        assert("WAIST"@[0] == 'W');
        assert("WAIST"@[1] == 'A');
        assert("WRIST"@[0] == 'W');
        assert("WRIST"@[1] == 'R');
        match self {
            EquipSlot::BackupMain => assert(Self::spec_from_name(self.spec_name()) == Some(self)),
            EquipSlot::BackupOff => assert(Self::spec_from_name(self.spec_name()) == Some(self)),
            EquipSlot::BackupPoison => assert(Self::spec_from_name(self.spec_name()) == Some(self)),
            EquipSlot::Chest => assert(Self::spec_from_name(self.spec_name()) == Some(self)),
            EquipSlot::Class1 => assert(Self::spec_from_name(self.spec_name()) == Some(self)),
            EquipSlot::Class2 => assert(Self::spec_from_name(self.spec_name()) == Some(self)),
            EquipSlot::Class3 => assert(Self::spec_from_name(self.spec_name()) == Some(self)),
            EquipSlot::Costume => assert(Self::spec_from_name(self.spec_name()) == Some(self)),
            EquipSlot::Feet => assert(Self::spec_from_name(self.spec_name()) == Some(self)),
            EquipSlot::Hand => assert(Self::spec_from_name(self.spec_name()) == Some(self)),
            EquipSlot::Head => assert(Self::spec_from_name(self.spec_name()) == Some(self)),
            EquipSlot::Legs => assert(Self::spec_from_name(self.spec_name()) == Some(self)),
            EquipSlot::MainHand => assert(Self::spec_from_name(self.spec_name()) == Some(self)),
            EquipSlot::Neck => assert(Self::spec_from_name(self.spec_name()) == Some(self)),
            EquipSlot::NoneKind => assert(Self::spec_from_name(self.spec_name()) == Some(self)),
            EquipSlot::OffHand => assert(Self::spec_from_name(self.spec_name()) == Some(self)),
            EquipSlot::Poison => assert(Self::spec_from_name(self.spec_name()) == Some(self)),
            EquipSlot::Ranged => assert(Self::spec_from_name(self.spec_name()) == Some(self)),
            EquipSlot::Ring1 => assert(Self::spec_from_name(self.spec_name()) == Some(self)),
            EquipSlot::Ring2 => assert(Self::spec_from_name(self.spec_name()) == Some(self)),
            EquipSlot::Shoulders => assert(Self::spec_from_name(self.spec_name()) == Some(self)),
            EquipSlot::Waist => assert(Self::spec_from_name(self.spec_name()) == Some(self)),
            EquipSlot::Wrist => assert(Self::spec_from_name(self.spec_name()) == Some(self)),
        }
    }

    /// The wire spelling is capitals, digits and underscores only.
    pub proof fn lemma_name_clean(self)
        ensures
            clean_atom(self.spec_name()),
    {
        reveal_strlit("BACKUP_MAIN");
        reveal_strlit("BACKUP_OFF");
        reveal_strlit("BACKUP_POISON");
        reveal_strlit("CHEST");
        reveal_strlit("CLASS1");
        reveal_strlit("CLASS2");
        reveal_strlit("CLASS3");
        reveal_strlit("COSTUME");
        reveal_strlit("FEET");
        reveal_strlit("HAND");
        reveal_strlit("HEAD");
        reveal_strlit("LEGS");
        reveal_strlit("MAIN_HAND");
        reveal_strlit("NECK");
        reveal_strlit("NONE");
        reveal_strlit("OFF_HAND");
        reveal_strlit("POISON");
        reveal_strlit("RANGED");
        reveal_strlit("RING1");
        reveal_strlit("RING2");
        reveal_strlit("SHOULDERS");
        reveal_strlit("WAIST");
        reveal_strlit("WRIST");
        match self {
            EquipSlot::BackupMain => {
                assert("BACKUP_MAIN"@.len() == 11);
                assert("BACKUP_MAIN"@[0] == 'B');
                assert("BACKUP_MAIN"@[1] == 'A');
                assert("BACKUP_MAIN"@[2] == 'C');
                assert("BACKUP_MAIN"@[3] == 'K');
                assert("BACKUP_MAIN"@[4] == 'U');
                assert("BACKUP_MAIN"@[5] == 'P');
                assert("BACKUP_MAIN"@[6] == '_');
                assert("BACKUP_MAIN"@[7] == 'M');
                assert("BACKUP_MAIN"@[8] == 'A');
                assert("BACKUP_MAIN"@[9] == 'I');
                assert("BACKUP_MAIN"@[10] == 'N');
                assert(clean_atom("BACKUP_MAIN"@));
            },
            EquipSlot::BackupOff => {
                assert("BACKUP_OFF"@.len() == 10);
                assert("BACKUP_OFF"@[0] == 'B');
                assert("BACKUP_OFF"@[1] == 'A');
                assert("BACKUP_OFF"@[2] == 'C');
                assert("BACKUP_OFF"@[3] == 'K');
                assert("BACKUP_OFF"@[4] == 'U');
                assert("BACKUP_OFF"@[5] == 'P');
                assert("BACKUP_OFF"@[6] == '_');
                assert("BACKUP_OFF"@[7] == 'O');
                assert("BACKUP_OFF"@[8] == 'F');
                assert("BACKUP_OFF"@[9] == 'F');
                assert(clean_atom("BACKUP_OFF"@));
            },
            EquipSlot::BackupPoison => {
                assert("BACKUP_POISON"@.len() == 13);
                assert("BACKUP_POISON"@[0] == 'B');
                assert("BACKUP_POISON"@[1] == 'A');
                assert("BACKUP_POISON"@[2] == 'C');
                assert("BACKUP_POISON"@[3] == 'K');
                assert("BACKUP_POISON"@[4] == 'U');
                assert("BACKUP_POISON"@[5] == 'P');
                assert("BACKUP_POISON"@[6] == '_');
                assert("BACKUP_POISON"@[7] == 'P');
                assert("BACKUP_POISON"@[8] == 'O');
                assert("BACKUP_POISON"@[9] == 'I');
                assert("BACKUP_POISON"@[10] == 'S');
                assert("BACKUP_POISON"@[11] == 'O');
                assert("BACKUP_POISON"@[12] == 'N');
                assert(clean_atom("BACKUP_POISON"@));
            },
            EquipSlot::Chest => {
                assert("CHEST"@.len() == 5);
                assert("CHEST"@[0] == 'C');
                assert("CHEST"@[1] == 'H');
                assert("CHEST"@[2] == 'E');
                assert("CHEST"@[3] == 'S');
                assert("CHEST"@[4] == 'T');
                assert(clean_atom("CHEST"@));
            },
            EquipSlot::Class1 => {
                assert("CLASS1"@.len() == 6);
                assert("CLASS1"@[0] == 'C');
                assert("CLASS1"@[1] == 'L');
                assert("CLASS1"@[2] == 'A');
                assert("CLASS1"@[3] == 'S');
                assert("CLASS1"@[4] == 'S');
                assert("CLASS1"@[5] == '1');
                assert(clean_atom("CLASS1"@));
            },
            EquipSlot::Class2 => {
                assert("CLASS2"@.len() == 6);
                assert("CLASS2"@[0] == 'C');
                assert("CLASS2"@[1] == 'L');
                assert("CLASS2"@[2] == 'A');
                assert("CLASS2"@[3] == 'S');
                assert("CLASS2"@[4] == 'S');
                assert("CLASS2"@[5] == '2');
                assert(clean_atom("CLASS2"@));
            },
            EquipSlot::Class3 => {
                assert("CLASS3"@.len() == 6);
                assert("CLASS3"@[0] == 'C');
                assert("CLASS3"@[1] == 'L');
                assert("CLASS3"@[2] == 'A');
                assert("CLASS3"@[3] == 'S');
                assert("CLASS3"@[4] == 'S');
                assert("CLASS3"@[5] == '3');
                assert(clean_atom("CLASS3"@));
            },
            EquipSlot::Costume => {
                assert("COSTUME"@.len() == 7);
                assert("COSTUME"@[0] == 'C');
                assert("COSTUME"@[1] == 'O');
                assert("COSTUME"@[2] == 'S');
                assert("COSTUME"@[3] == 'T');
                assert("COSTUME"@[4] == 'U');
                assert("COSTUME"@[5] == 'M');
                assert("COSTUME"@[6] == 'E');
                assert(clean_atom("COSTUME"@));
            },
            EquipSlot::Feet => {
                assert("FEET"@.len() == 4);
                assert("FEET"@[0] == 'F');
                assert("FEET"@[1] == 'E');
                assert("FEET"@[2] == 'E');
                assert("FEET"@[3] == 'T');
                assert(clean_atom("FEET"@));
            },
            EquipSlot::Hand => {
                assert("HAND"@.len() == 4);
                assert("HAND"@[0] == 'H');
                assert("HAND"@[1] == 'A');
                assert("HAND"@[2] == 'N');
                assert("HAND"@[3] == 'D');
                assert(clean_atom("HAND"@));
            },
            EquipSlot::Head => {
                assert("HEAD"@.len() == 4);
                assert("HEAD"@[0] == 'H');
                assert("HEAD"@[1] == 'E');
                assert("HEAD"@[2] == 'A');
                assert("HEAD"@[3] == 'D');
                assert(clean_atom("HEAD"@));
            },
            EquipSlot::Legs => {
                assert("LEGS"@.len() == 4);
                assert("LEGS"@[0] == 'L');
                assert("LEGS"@[1] == 'E');
                assert("LEGS"@[2] == 'G');
                assert("LEGS"@[3] == 'S');
                assert(clean_atom("LEGS"@));
            },
            EquipSlot::MainHand => {
                assert("MAIN_HAND"@.len() == 9);
                assert("MAIN_HAND"@[0] == 'M');
                assert("MAIN_HAND"@[1] == 'A');
                assert("MAIN_HAND"@[2] == 'I');
                assert("MAIN_HAND"@[3] == 'N');
                assert("MAIN_HAND"@[4] == '_');
                assert("MAIN_HAND"@[5] == 'H');
                assert("MAIN_HAND"@[6] == 'A');
                assert("MAIN_HAND"@[7] == 'N');
                assert("MAIN_HAND"@[8] == 'D');
                assert(clean_atom("MAIN_HAND"@));
            },
            EquipSlot::Neck => {
                assert("NECK"@.len() == 4);
                assert("NECK"@[0] == 'N');
                assert("NECK"@[1] == 'E');
                assert("NECK"@[2] == 'C');
                assert("NECK"@[3] == 'K');
                assert(clean_atom("NECK"@));
            },
            EquipSlot::NoneKind => {
                assert("NONE"@.len() == 4);
                assert("NONE"@[0] == 'N');
                assert("NONE"@[1] == 'O');
                assert("NONE"@[2] == 'N');
                assert("NONE"@[3] == 'E');
                assert(clean_atom("NONE"@));
            },
            EquipSlot::OffHand => {
                assert("OFF_HAND"@.len() == 8);
                assert("OFF_HAND"@[0] == 'O');
                assert("OFF_HAND"@[1] == 'F');
                assert("OFF_HAND"@[2] == 'F');
                assert("OFF_HAND"@[3] == '_');
                assert("OFF_HAND"@[4] == 'H');
                assert("OFF_HAND"@[5] == 'A');
                assert("OFF_HAND"@[6] == 'N');
                assert("OFF_HAND"@[7] == 'D');
                assert(clean_atom("OFF_HAND"@));
            },
            EquipSlot::Poison => {
                assert("POISON"@.len() == 6);
                assert("POISON"@[0] == 'P');
                assert("POISON"@[1] == 'O');
                assert("POISON"@[2] == 'I');
                assert("POISON"@[3] == 'S');
                assert("POISON"@[4] == 'O');
                assert("POISON"@[5] == 'N');
                assert(clean_atom("POISON"@));
            },
            EquipSlot::Ranged => {
                assert("RANGED"@.len() == 6);
                assert("RANGED"@[0] == 'R');
                assert("RANGED"@[1] == 'A');
                assert("RANGED"@[2] == 'N');
                assert("RANGED"@[3] == 'G');
                assert("RANGED"@[4] == 'E');
                assert("RANGED"@[5] == 'D');
                assert(clean_atom("RANGED"@));
            },
            EquipSlot::Ring1 => {
                assert("RING1"@.len() == 5);
                assert("RING1"@[0] == 'R');
                assert("RING1"@[1] == 'I');
                assert("RING1"@[2] == 'N');
                assert("RING1"@[3] == 'G');
                assert("RING1"@[4] == '1');
                assert(clean_atom("RING1"@));
            },
            EquipSlot::Ring2 => {
                assert("RING2"@.len() == 5);
                assert("RING2"@[0] == 'R');
                assert("RING2"@[1] == 'I');
                assert("RING2"@[2] == 'N');
                assert("RING2"@[3] == 'G');
                assert("RING2"@[4] == '2');
                assert(clean_atom("RING2"@));
            },
            EquipSlot::Shoulders => {
                assert("SHOULDERS"@.len() == 9);
                assert("SHOULDERS"@[0] == 'S');
                assert("SHOULDERS"@[1] == 'H');
                assert("SHOULDERS"@[2] == 'O');
                assert("SHOULDERS"@[3] == 'U');
                assert("SHOULDERS"@[4] == 'L');
                assert("SHOULDERS"@[5] == 'D');
                assert("SHOULDERS"@[6] == 'E');
                assert("SHOULDERS"@[7] == 'R');
                assert("SHOULDERS"@[8] == 'S');
                assert(clean_atom("SHOULDERS"@));
            },
            EquipSlot::Waist => {
                assert("WAIST"@.len() == 5);
                assert("WAIST"@[0] == 'W');
                assert("WAIST"@[1] == 'A');
                assert("WAIST"@[2] == 'I');
                assert("WAIST"@[3] == 'S');
                assert("WAIST"@[4] == 'T');
                assert(clean_atom("WAIST"@));
            },
            EquipSlot::Wrist => {
                assert("WRIST"@.len() == 5);
                assert("WRIST"@[0] == 'W');
                assert("WRIST"@[1] == 'R');
                assert("WRIST"@[2] == 'I');
                assert("WRIST"@[3] == 'S');
                assert("WRIST"@[4] == 'T');
                assert(clean_atom("WRIST"@));
            },
        }
    }

    /// Parsing the spelled variant yields the variant and consumes one
    /// separator.
    pub proof fn lemma_parse_roundtrip(self, rest: Seq<char>)
        requires
            sep_ok(rest),
        ensures
            spec_parse_equip_slot(Self::spec_name(self) + rest) == Ok::<(EquipSlot, Seq<char>), Error>((self, chop(rest))),
    {
        self.lemma_name_clean();
        lemma_clean_atom_is_atom(self.spec_name());
        lemma_next_token_atom(self.spec_name(), rest);
        self.lemma_name_roundtrip();
    }
}

/// Parses one `EquipSlot` token.
pub open spec fn spec_parse_equip_slot(s: Seq<char>) -> Result<(EquipSlot, Seq<char>), Error> {
    match spec_next_token(s) {
        None => Err(Error::UnexpectedEnd),
        Some((tok, rest)) => match EquipSlot::spec_from_name(tok) {
            None => Err(Error::InvalidToken),
            Some(v) => Ok((v, rest)),
        },
    }
}

/// Reads one `EquipSlot` token from the line.
pub fn parse_equip_slot(r: &mut EsoLogReaderLine) -> (res: Result<EquipSlot, Error>)
    requires
        old(r).wf(),
    ensures
        final(r).wf(),
        match spec_parse_equip_slot(old(r).remaining()) {
            Ok((v, rest)) => res == Ok::<EquipSlot, Error>(v) && final(r).remaining() == rest,
            Err(e) => res == Err::<EquipSlot, Error>(e),
        },
{
    let tok = match r.next() {
        Some(t) => t,
        None => {
            return Err(Error::UnexpectedEnd);
        },
    };
    match EquipSlot::from_token(tok) {
        Some(v) => Ok(v),
        None => Err(Error::InvalidToken),
    }
}

/// Research trait carried by a piece of equipment.
#[derive(Debug, Clone, Copy, PartialEq, Eq, Structural)]
pub enum Trait {
    ArmorDivines,
    ArmorImpenetrable,
    ArmorInfused,
    ArmorNirnhoned,
    ArmorProsperous,
    ArmorReinforced,
    ArmorSturdy,
    ArmorTraining,
    ArmorWellFitted,
    JewelryArcane,
    JewelryBloodthirsty,
    JewelryHarmony,
    JewelryHealthy,
    JewelryInfused,
    JewelryProtective,
    JewelryRobust,
    JewelrySwift,
    JewelryTriune,
    WeaponCharged,
    WeaponDecisive,
    WeaponDefending,
    WeaponInfused,
    WeaponNirnhoned,
    WeaponPowered,
    WeaponPrecise,
    WeaponSharpened,
    WeaponTraining,
    NoneKind,
}

impl Trait {
    /// Wire spelling of this variant.
    pub open spec fn spec_name(self) -> Seq<char> {
        match self {
            Trait::ArmorDivines => "ARMOR_DIVINES"@,
            Trait::ArmorImpenetrable => "ARMOR_IMPENETRABLE"@,
            Trait::ArmorInfused => "ARMOR_INFUSED"@,
            Trait::ArmorNirnhoned => "ARMOR_NIRNHONED"@,
            Trait::ArmorProsperous => "ARMOR_PROSPEROUS"@,
            Trait::ArmorReinforced => "ARMOR_REINFORCED"@,
            Trait::ArmorSturdy => "ARMOR_STURDY"@,
            Trait::ArmorTraining => "ARMOR_TRAINING"@,
            Trait::ArmorWellFitted => "ARMOR_WELL_FITTED"@,
            Trait::JewelryArcane => "JEWELRY_ARCANE"@,
            Trait::JewelryBloodthirsty => "JEWELRY_BLOODTHIRSTY"@,
            Trait::JewelryHarmony => "JEWELRY_HARMONY"@,
            Trait::JewelryHealthy => "JEWELRY_HEALTHY"@,
            Trait::JewelryInfused => "JEWELRY_INFUSED"@,
            Trait::JewelryProtective => "JEWELRY_PROTECTIVE"@,
            Trait::JewelryRobust => "JEWELRY_ROBUST"@,
            Trait::JewelrySwift => "JEWELRY_SWIFT"@,
            Trait::JewelryTriune => "JEWELRY_TRIUNE"@,
            Trait::WeaponCharged => "WEAPON_CHARGED"@,
            Trait::WeaponDecisive => "WEAPON_DECISIVE"@,
            Trait::WeaponDefending => "WEAPON_DEFENDING"@,
            Trait::WeaponInfused => "WEAPON_INFUSED"@,
            Trait::WeaponNirnhoned => "WEAPON_NIRNHONED"@,
            Trait::WeaponPowered => "WEAPON_POWERED"@,
            Trait::WeaponPrecise => "WEAPON_PRECISE"@,
            Trait::WeaponSharpened => "WEAPON_SHARPENED"@,
            Trait::WeaponTraining => "WEAPON_TRAINING"@,
            Trait::NoneKind => "NONE"@,
        }
    }

    /// The variant spelled by the given token, if any.
    pub open spec fn spec_from_name(t: Seq<char>) -> Option<Trait> {
        if t.len() == 4 {
            if t == "NONE"@ {
                Some(Trait::NoneKind)
            } else {
                None
            }
        } else if t.len() == 12 {
            if t == "ARMOR_STURDY"@ {
                Some(Trait::ArmorSturdy)
            } else {
                None
            }
        } else if t.len() == 13 {
            if t == "ARMOR_DIVINES"@ {
                Some(Trait::ArmorDivines)
            } else if t == "ARMOR_INFUSED"@ {
                Some(Trait::ArmorInfused)
            } else if t == "JEWELRY_SWIFT"@ {
                Some(Trait::JewelrySwift)
            } else {
                None
            }
        } else if t.len() == 14 {
            if t == "ARMOR_TRAINING"@ {
                Some(Trait::ArmorTraining)
            } else if t == "JEWELRY_ARCANE"@ {
                Some(Trait::JewelryArcane)
            } else if t == "JEWELRY_ROBUST"@ {
                Some(Trait::JewelryRobust)
            } else if t == "JEWELRY_TRIUNE"@ {
                Some(Trait::JewelryTriune)
            } else if t == "WEAPON_CHARGED"@ {
                Some(Trait::WeaponCharged)
            } else if t == "WEAPON_INFUSED"@ {
                Some(Trait::WeaponInfused)
            } else if t == "WEAPON_POWERED"@ {
                Some(Trait::WeaponPowered)
            } else if t == "WEAPON_PRECISE"@ {
                Some(Trait::WeaponPrecise)
            } else {
                None
            }
        } else if t.len() == 15 {
            if t == "ARMOR_NIRNHONED"@ {
                Some(Trait::ArmorNirnhoned)
            } else if t == "JEWELRY_HARMONY"@ {
                Some(Trait::JewelryHarmony)
            } else if t == "JEWELRY_HEALTHY"@ {
                Some(Trait::JewelryHealthy)
            } else if t == "JEWELRY_INFUSED"@ {
                Some(Trait::JewelryInfused)
            } else if t == "WEAPON_DECISIVE"@ {
                Some(Trait::WeaponDecisive)
            } else if t == "WEAPON_TRAINING"@ {
                Some(Trait::WeaponTraining)
            } else {
                None
            }
        } else if t.len() == 16 {
            if t == "ARMOR_PROSPEROUS"@ {
                Some(Trait::ArmorProsperous)
            } else if t == "ARMOR_REINFORCED"@ {
                Some(Trait::ArmorReinforced)
            } else if t == "WEAPON_DEFENDING"@ {
                Some(Trait::WeaponDefending)
            } else if t == "WEAPON_NIRNHONED"@ {
                Some(Trait::WeaponNirnhoned)
            } else if t == "WEAPON_SHARPENED"@ {
                Some(Trait::WeaponSharpened)
            } else {
                None
            }
        } else if t.len() == 17 {
            if t == "ARMOR_WELL_FITTED"@ {
                Some(Trait::ArmorWellFitted)
            } else {
                None
            }
        } else if t.len() == 18 {
            if t == "ARMOR_IMPENETRABLE"@ {
                Some(Trait::ArmorImpenetrable)
            } else if t == "JEWELRY_PROTECTIVE"@ {
                Some(Trait::JewelryProtective)
            } else {
                None
            }
        } else if t.len() == 20 {
            if t == "JEWELRY_BLOODTHIRSTY"@ {
                Some(Trait::JewelryBloodthirsty)
            } else {
                None
            }
        } else {
            None
        }
    }

    pub fn name(&self) -> (r: &'static str)
        ensures
            r@ == self.spec_name(),
    {
        match self {
            Trait::ArmorDivines => "ARMOR_DIVINES",
            Trait::ArmorImpenetrable => "ARMOR_IMPENETRABLE",
            Trait::ArmorInfused => "ARMOR_INFUSED",
            Trait::ArmorNirnhoned => "ARMOR_NIRNHONED",
            Trait::ArmorProsperous => "ARMOR_PROSPEROUS",
            Trait::ArmorReinforced => "ARMOR_REINFORCED",
            Trait::ArmorSturdy => "ARMOR_STURDY",
            Trait::ArmorTraining => "ARMOR_TRAINING",
            Trait::ArmorWellFitted => "ARMOR_WELL_FITTED",
            Trait::JewelryArcane => "JEWELRY_ARCANE",
            Trait::JewelryBloodthirsty => "JEWELRY_BLOODTHIRSTY",
            Trait::JewelryHarmony => "JEWELRY_HARMONY",
            Trait::JewelryHealthy => "JEWELRY_HEALTHY",
            Trait::JewelryInfused => "JEWELRY_INFUSED",
            Trait::JewelryProtective => "JEWELRY_PROTECTIVE",
            Trait::JewelryRobust => "JEWELRY_ROBUST",
            Trait::JewelrySwift => "JEWELRY_SWIFT",
            Trait::JewelryTriune => "JEWELRY_TRIUNE",
            Trait::WeaponCharged => "WEAPON_CHARGED",
            Trait::WeaponDecisive => "WEAPON_DECISIVE",
            Trait::WeaponDefending => "WEAPON_DEFENDING",
            Trait::WeaponInfused => "WEAPON_INFUSED",
            Trait::WeaponNirnhoned => "WEAPON_NIRNHONED",
            Trait::WeaponPowered => "WEAPON_POWERED",
            Trait::WeaponPrecise => "WEAPON_PRECISE",
            Trait::WeaponSharpened => "WEAPON_SHARPENED",
            Trait::WeaponTraining => "WEAPON_TRAINING",
            Trait::NoneKind => "NONE",
        }
    }

    pub fn from_token(t: &str) -> (r: Option<Trait>)
        ensures
            r == Self::spec_from_name(t@),
    {
        let n = t.unicode_len();
        if n == 4 {
            if str_eq(t, "NONE") {
                Some(Trait::NoneKind)
            } else {
                None
            }
        } else if n == 12 {
            if str_eq(t, "ARMOR_STURDY") {
                Some(Trait::ArmorSturdy)
            } else {
                None
            }
        } else if n == 13 {
            if str_eq(t, "ARMOR_DIVINES") {
                Some(Trait::ArmorDivines)
            } else if str_eq(t, "ARMOR_INFUSED") {
                Some(Trait::ArmorInfused)
            } else if str_eq(t, "JEWELRY_SWIFT") {
                Some(Trait::JewelrySwift)
            } else {
                None
            }
        } else if n == 14 {
            if str_eq(t, "ARMOR_TRAINING") {
                Some(Trait::ArmorTraining)
            } else if str_eq(t, "JEWELRY_ARCANE") {
                Some(Trait::JewelryArcane)
            } else if str_eq(t, "JEWELRY_ROBUST") {
                Some(Trait::JewelryRobust)
            } else if str_eq(t, "JEWELRY_TRIUNE") {
                Some(Trait::JewelryTriune)
            } else if str_eq(t, "WEAPON_CHARGED") {
                Some(Trait::WeaponCharged)
            } else if str_eq(t, "WEAPON_INFUSED") {
                Some(Trait::WeaponInfused)
            } else if str_eq(t, "WEAPON_POWERED") {
                Some(Trait::WeaponPowered)
            } else if str_eq(t, "WEAPON_PRECISE") {
                Some(Trait::WeaponPrecise)
            } else {
                None
            }
        } else if n == 15 {
            if str_eq(t, "ARMOR_NIRNHONED") {
                Some(Trait::ArmorNirnhoned)
            } else if str_eq(t, "JEWELRY_HARMONY") {
                Some(Trait::JewelryHarmony)
            } else if str_eq(t, "JEWELRY_HEALTHY") {
                Some(Trait::JewelryHealthy)
            } else if str_eq(t, "JEWELRY_INFUSED") {
                Some(Trait::JewelryInfused)
            } else if str_eq(t, "WEAPON_DECISIVE") {
                Some(Trait::WeaponDecisive)
            } else if str_eq(t, "WEAPON_TRAINING") {
                Some(Trait::WeaponTraining)
            } else {
                None
            }
        } else if n == 16 {
            if str_eq(t, "ARMOR_PROSPEROUS") {
                Some(Trait::ArmorProsperous)
            } else if str_eq(t, "ARMOR_REINFORCED") {
                Some(Trait::ArmorReinforced)
            } else if str_eq(t, "WEAPON_DEFENDING") {
                Some(Trait::WeaponDefending)
            } else if str_eq(t, "WEAPON_NIRNHONED") {
                Some(Trait::WeaponNirnhoned)
            } else if str_eq(t, "WEAPON_SHARPENED") {
                Some(Trait::WeaponSharpened)
            } else {
                None
            }
        } else if n == 17 {
            if str_eq(t, "ARMOR_WELL_FITTED") {
                Some(Trait::ArmorWellFitted)
            } else {
                None
            }
        } else if n == 18 {
            if str_eq(t, "ARMOR_IMPENETRABLE") {
                Some(Trait::ArmorImpenetrable)
            } else if str_eq(t, "JEWELRY_PROTECTIVE") {
                Some(Trait::JewelryProtective)
            } else {
                None
            }
        } else if n == 20 {
            if str_eq(t, "JEWELRY_BLOODTHIRSTY") {
                Some(Trait::JewelryBloodthirsty)
            } else {
                None
            }
        } else {
            None
        }
    }

    /// Reading back a spelled variant yields the variant.
    pub proof fn lemma_name_roundtrip(self)
        ensures
            Self::spec_from_name(self.spec_name()) == Some(self),
    {
        reveal_strlit("ARMOR_DIVINES");
        reveal_strlit("ARMOR_IMPENETRABLE");
        reveal_strlit("ARMOR_INFUSED");
        reveal_strlit("ARMOR_NIRNHONED");
        reveal_strlit("ARMOR_PROSPEROUS");
        reveal_strlit("ARMOR_REINFORCED");
        reveal_strlit("ARMOR_STURDY");
        reveal_strlit("ARMOR_TRAINING");
        reveal_strlit("ARMOR_WELL_FITTED");
        reveal_strlit("JEWELRY_ARCANE");
        reveal_strlit("JEWELRY_BLOODTHIRSTY");
        reveal_strlit("JEWELRY_HARMONY");
        reveal_strlit("JEWELRY_HEALTHY");
        reveal_strlit("JEWELRY_INFUSED");
        reveal_strlit("JEWELRY_PROTECTIVE");
        reveal_strlit("JEWELRY_ROBUST");
        reveal_strlit("JEWELRY_SWIFT");
        reveal_strlit("JEWELRY_TRIUNE");
        reveal_strlit("NONE");
        reveal_strlit("WEAPON_CHARGED");
        reveal_strlit("WEAPON_DECISIVE");
        reveal_strlit("WEAPON_DEFENDING");
        reveal_strlit("WEAPON_INFUSED");
        reveal_strlit("WEAPON_NIRNHONED");
        reveal_strlit("WEAPON_POWERED");
        reveal_strlit("WEAPON_PRECISE");
        reveal_strlit("WEAPON_SHARPENED");
        reveal_strlit("WEAPON_TRAINING");
        assert("ARMOR_DIVINES"@.len() == 13);
        assert("ARMOR_IMPENETRABLE"@.len() == 18);
        assert("ARMOR_INFUSED"@.len() == 13);
        assert("ARMOR_NIRNHONED"@.len() == 15);
        assert("ARMOR_PROSPEROUS"@.len() == 16);
        assert("ARMOR_REINFORCED"@.len() == 16);
        assert("ARMOR_STURDY"@.len() == 12);
        assert("ARMOR_TRAINING"@.len() == 14);
        assert("ARMOR_WELL_FITTED"@.len() == 17);
        assert("JEWELRY_ARCANE"@.len() == 14);
        assert("JEWELRY_BLOODTHIRSTY"@.len() == 20);
        assert("JEWELRY_HARMONY"@.len() == 15);
        assert("JEWELRY_HEALTHY"@.len() == 15);
        assert("JEWELRY_INFUSED"@.len() == 15);
        assert("JEWELRY_PROTECTIVE"@.len() == 18);
        assert("JEWELRY_ROBUST"@.len() == 14);
        assert("JEWELRY_SWIFT"@.len() == 13);
        assert("JEWELRY_TRIUNE"@.len() == 14);
        assert("NONE"@.len() == 4);
        assert("WEAPON_CHARGED"@.len() == 14);
        assert("WEAPON_DECISIVE"@.len() == 15);
        assert("WEAPON_DEFENDING"@.len() == 16);
        assert("WEAPON_INFUSED"@.len() == 14);
        assert("WEAPON_NIRNHONED"@.len() == 16);
        assert("WEAPON_POWERED"@.len() == 14);
        assert("WEAPON_PRECISE"@.len() == 14);
        assert("WEAPON_SHARPENED"@.len() == 16);
        assert("WEAPON_TRAINING"@.len() == 15);
        assert("ARMOR_DIVINES"@[0] == 'A');
        assert("ARMOR_DIVINES"@[6] == 'D');
        assert("ARMOR_IMPENETRABLE"@[0] == 'A');
        assert("ARMOR_INFUSED"@[0] == 'A');
        assert("ARMOR_INFUSED"@[6] == 'I');
        assert("ARMOR_NIRNHONED"@[0] == 'A');
        assert("ARMOR_PROSPEROUS"@[0] == 'A');
        assert("ARMOR_PROSPEROUS"@[6] == 'P');
        assert("ARMOR_REINFORCED"@[0] == 'A');
        assert("ARMOR_REINFORCED"@[6] == 'R');
        assert("ARMOR_TRAINING"@[0] == 'A');
        assert("JEWELRY_ARCANE"@[0] == 'J');
        assert("JEWELRY_ARCANE"@[8] == 'A');
        assert("JEWELRY_HARMONY"@[0] == 'J');
        assert("JEWELRY_HARMONY"@[8] == 'H');
        assert("JEWELRY_HARMONY"@[9] == 'A');
        assert("JEWELRY_HEALTHY"@[0] == 'J');
        assert("JEWELRY_HEALTHY"@[8] == 'H');
        assert("JEWELRY_HEALTHY"@[9] == 'E');
        assert("JEWELRY_INFUSED"@[0] == 'J');
        assert("JEWELRY_INFUSED"@[8] == 'I');
        assert("JEWELRY_PROTECTIVE"@[0] == 'J');
        assert("JEWELRY_ROBUST"@[0] == 'J');
        assert("JEWELRY_ROBUST"@[8] == 'R');
        assert("JEWELRY_SWIFT"@[0] == 'J');
        assert("JEWELRY_TRIUNE"@[0] == 'J');
        assert("JEWELRY_TRIUNE"@[8] == 'T');
        assert("WEAPON_CHARGED"@[0] == 'W');
        assert("WEAPON_CHARGED"@[7] == 'C');
        assert("WEAPON_DECISIVE"@[0] == 'W');
        assert("WEAPON_DECISIVE"@[7] == 'D');
        assert("WEAPON_DEFENDING"@[0] == 'W');
        assert("WEAPON_DEFENDING"@[7] == 'D');
        assert("WEAPON_INFUSED"@[0] == 'W');
        assert("WEAPON_INFUSED"@[7] == 'I');
        assert("WEAPON_NIRNHONED"@[0] == 'W');
        assert("WEAPON_NIRNHONED"@[7] == 'N');
        assert("WEAPON_POWERED"@[0] == 'W');
        assert("WEAPON_POWERED"@[7] == 'P');
        assert("WEAPON_POWERED"@[8] == 'O');
        assert("WEAPON_PRECISE"@[0] == 'W');
        assert("WEAPON_PRECISE"@[7] == 'P');
        assert("WEAPON_PRECISE"@[8] == 'R');
        assert("WEAPON_SHARPENED"@[0] == 'W');
        assert("WEAPON_SHARPENED"@[7] == 'S');
        assert("WEAPON_TRAINING"@[0] == 'W');
        assert("WEAPON_TRAINING"@[7] == 'T');
        match self {
            Trait::ArmorDivines => assert(Self::spec_from_name(self.spec_name()) == Some(self)),
            Trait::ArmorImpenetrable => assert(Self::spec_from_name(self.spec_name()) == Some(self)),
            Trait::ArmorInfused => assert(Self::spec_from_name(self.spec_name()) == Some(self)),
            Trait::ArmorNirnhoned => assert(Self::spec_from_name(self.spec_name()) == Some(self)),
            Trait::ArmorProsperous => assert(Self::spec_from_name(self.spec_name()) == Some(self)),
            Trait::ArmorReinforced => assert(Self::spec_from_name(self.spec_name()) == Some(self)),
            Trait::ArmorSturdy => assert(Self::spec_from_name(self.spec_name()) == Some(self)),
            Trait::ArmorTraining => assert(Self::spec_from_name(self.spec_name()) == Some(self)),
            Trait::ArmorWellFitted => assert(Self::spec_from_name(self.spec_name()) == Some(self)),
            Trait::JewelryArcane => assert(Self::spec_from_name(self.spec_name()) == Some(self)),
            Trait::JewelryBloodthirsty => assert(Self::spec_from_name(self.spec_name()) == Some(self)),
            Trait::JewelryHarmony => assert(Self::spec_from_name(self.spec_name()) == Some(self)),
            Trait::JewelryHealthy => assert(Self::spec_from_name(self.spec_name()) == Some(self)),
            Trait::JewelryInfused => assert(Self::spec_from_name(self.spec_name()) == Some(self)),
            Trait::JewelryProtective => assert(Self::spec_from_name(self.spec_name()) == Some(self)),
            Trait::JewelryRobust => assert(Self::spec_from_name(self.spec_name()) == Some(self)),
            Trait::JewelrySwift => assert(Self::spec_from_name(self.spec_name()) == Some(self)),
            Trait::JewelryTriune => assert(Self::spec_from_name(self.spec_name()) == Some(self)),
            Trait::WeaponCharged => assert(Self::spec_from_name(self.spec_name()) == Some(self)),
            Trait::WeaponDecisive => assert(Self::spec_from_name(self.spec_name()) == Some(self)),
            Trait::WeaponDefending => assert(Self::spec_from_name(self.spec_name()) == Some(self)),
            Trait::WeaponInfused => assert(Self::spec_from_name(self.spec_name()) == Some(self)),
            Trait::WeaponNirnhoned => assert(Self::spec_from_name(self.spec_name()) == Some(self)),
            Trait::WeaponPowered => assert(Self::spec_from_name(self.spec_name()) == Some(self)),
            Trait::WeaponPrecise => assert(Self::spec_from_name(self.spec_name()) == Some(self)),
            Trait::WeaponSharpened => assert(Self::spec_from_name(self.spec_name()) == Some(self)),
            Trait::WeaponTraining => assert(Self::spec_from_name(self.spec_name()) == Some(self)),
            Trait::NoneKind => assert(Self::spec_from_name(self.spec_name()) == Some(self)),
        }
    }

    /// The wire spelling is capitals, digits and underscores only.
    pub proof fn lemma_name_clean(self)
        ensures
            clean_atom(self.spec_name()),
    {
        reveal_strlit("ARMOR_DIVINES");
        reveal_strlit("ARMOR_IMPENETRABLE");
        reveal_strlit("ARMOR_INFUSED");
        reveal_strlit("ARMOR_NIRNHONED");
        reveal_strlit("ARMOR_PROSPEROUS");
        reveal_strlit("ARMOR_REINFORCED");
        reveal_strlit("ARMOR_STURDY");
        reveal_strlit("ARMOR_TRAINING");
        reveal_strlit("ARMOR_WELL_FITTED");
        reveal_strlit("JEWELRY_ARCANE");
        reveal_strlit("JEWELRY_BLOODTHIRSTY");
        reveal_strlit("JEWELRY_HARMONY");
        reveal_strlit("JEWELRY_HEALTHY");
        reveal_strlit("JEWELRY_INFUSED");
        reveal_strlit("JEWELRY_PROTECTIVE");
        reveal_strlit("JEWELRY_ROBUST");
        reveal_strlit("JEWELRY_SWIFT");
        reveal_strlit("JEWELRY_TRIUNE");
        reveal_strlit("NONE");
        reveal_strlit("WEAPON_CHARGED");
        reveal_strlit("WEAPON_DECISIVE");
        reveal_strlit("WEAPON_DEFENDING");
        reveal_strlit("WEAPON_INFUSED");
        reveal_strlit("WEAPON_NIRNHONED");
        reveal_strlit("WEAPON_POWERED");
        reveal_strlit("WEAPON_PRECISE");
        reveal_strlit("WEAPON_SHARPENED");
        reveal_strlit("WEAPON_TRAINING");
        match self {
            Trait::ArmorDivines => {
                assert("ARMOR_DIVINES"@.len() == 13);
                assert("ARMOR_DIVINES"@[0] == 'A');
                assert("ARMOR_DIVINES"@[1] == 'R');
                assert("ARMOR_DIVINES"@[2] == 'M');
                assert("ARMOR_DIVINES"@[3] == 'O');
                assert("ARMOR_DIVINES"@[4] == 'R');
                assert("ARMOR_DIVINES"@[5] == '_');
                assert("ARMOR_DIVINES"@[6] == 'D');
                assert("ARMOR_DIVINES"@[7] == 'I');
                assert("ARMOR_DIVINES"@[8] == 'V');
                assert("ARMOR_DIVINES"@[9] == 'I');
                assert("ARMOR_DIVINES"@[10] == 'N');
                assert("ARMOR_DIVINES"@[11] == 'E');
                assert("ARMOR_DIVINES"@[12] == 'S');
                assert(clean_atom("ARMOR_DIVINES"@));
            },
            Trait::ArmorImpenetrable => {
                assert("ARMOR_IMPENETRABLE"@.len() == 18);
                assert("ARMOR_IMPENETRABLE"@[0] == 'A');
                assert("ARMOR_IMPENETRABLE"@[1] == 'R');
                assert("ARMOR_IMPENETRABLE"@[2] == 'M');
                assert("ARMOR_IMPENETRABLE"@[3] == 'O');
                assert("ARMOR_IMPENETRABLE"@[4] == 'R');
                assert("ARMOR_IMPENETRABLE"@[5] == '_');
                assert("ARMOR_IMPENETRABLE"@[6] == 'I');
                assert("ARMOR_IMPENETRABLE"@[7] == 'M');
                assert("ARMOR_IMPENETRABLE"@[8] == 'P');
                assert("ARMOR_IMPENETRABLE"@[9] == 'E');
                assert("ARMOR_IMPENETRABLE"@[10] == 'N');
                assert("ARMOR_IMPENETRABLE"@[11] == 'E');
                assert("ARMOR_IMPENETRABLE"@[12] == 'T');
                assert("ARMOR_IMPENETRABLE"@[13] == 'R');
                assert("ARMOR_IMPENETRABLE"@[14] == 'A');
                assert("ARMOR_IMPENETRABLE"@[15] == 'B');
                assert("ARMOR_IMPENETRABLE"@[16] == 'L');
                assert("ARMOR_IMPENETRABLE"@[17] == 'E');
                assert(clean_atom("ARMOR_IMPENETRABLE"@));
            },
            Trait::ArmorInfused => {
                assert("ARMOR_INFUSED"@.len() == 13);
                assert("ARMOR_INFUSED"@[0] == 'A');
                assert("ARMOR_INFUSED"@[1] == 'R');
                assert("ARMOR_INFUSED"@[2] == 'M');
                assert("ARMOR_INFUSED"@[3] == 'O');
                assert("ARMOR_INFUSED"@[4] == 'R');
                assert("ARMOR_INFUSED"@[5] == '_');
                assert("ARMOR_INFUSED"@[6] == 'I');
                assert("ARMOR_INFUSED"@[7] == 'N');
                assert("ARMOR_INFUSED"@[8] == 'F');
                assert("ARMOR_INFUSED"@[9] == 'U');
                assert("ARMOR_INFUSED"@[10] == 'S');
                assert("ARMOR_INFUSED"@[11] == 'E');
                assert("ARMOR_INFUSED"@[12] == 'D');
                assert(clean_atom("ARMOR_INFUSED"@));
            },
            Trait::ArmorNirnhoned => {
                assert("ARMOR_NIRNHONED"@.len() == 15);
                assert("ARMOR_NIRNHONED"@[0] == 'A');
                assert("ARMOR_NIRNHONED"@[1] == 'R');
                assert("ARMOR_NIRNHONED"@[2] == 'M');
                assert("ARMOR_NIRNHONED"@[3] == 'O');
                assert("ARMOR_NIRNHONED"@[4] == 'R');
                assert("ARMOR_NIRNHONED"@[5] == '_');
                assert("ARMOR_NIRNHONED"@[6] == 'N');
                assert("ARMOR_NIRNHONED"@[7] == 'I');
                assert("ARMOR_NIRNHONED"@[8] == 'R');
                assert("ARMOR_NIRNHONED"@[9] == 'N');
                assert("ARMOR_NIRNHONED"@[10] == 'H');
                assert("ARMOR_NIRNHONED"@[11] == 'O');
                assert("ARMOR_NIRNHONED"@[12] == 'N');
                assert("ARMOR_NIRNHONED"@[13] == 'E');
                assert("ARMOR_NIRNHONED"@[14] == 'D');
                assert(clean_atom("ARMOR_NIRNHONED"@));
            },
            Trait::ArmorProsperous => {
                assert("ARMOR_PROSPEROUS"@.len() == 16);
                assert("ARMOR_PROSPEROUS"@[0] == 'A');
                assert("ARMOR_PROSPEROUS"@[1] == 'R');
                assert("ARMOR_PROSPEROUS"@[2] == 'M');
                assert("ARMOR_PROSPEROUS"@[3] == 'O');
                assert("ARMOR_PROSPEROUS"@[4] == 'R');
                assert("ARMOR_PROSPEROUS"@[5] == '_');
                assert("ARMOR_PROSPEROUS"@[6] == 'P');
                assert("ARMOR_PROSPEROUS"@[7] == 'R');
                assert("ARMOR_PROSPEROUS"@[8] == 'O');
                assert("ARMOR_PROSPEROUS"@[9] == 'S');
                assert("ARMOR_PROSPEROUS"@[10] == 'P');
                assert("ARMOR_PROSPEROUS"@[11] == 'E');
                assert("ARMOR_PROSPEROUS"@[12] == 'R');
                assert("ARMOR_PROSPEROUS"@[13] == 'O');
                assert("ARMOR_PROSPEROUS"@[14] == 'U');
                assert("ARMOR_PROSPEROUS"@[15] == 'S');
                assert(clean_atom("ARMOR_PROSPEROUS"@));
            },
            Trait::ArmorReinforced => {
                assert("ARMOR_REINFORCED"@.len() == 16);
                assert("ARMOR_REINFORCED"@[0] == 'A');
                assert("ARMOR_REINFORCED"@[1] == 'R');
                assert("ARMOR_REINFORCED"@[2] == 'M');
                assert("ARMOR_REINFORCED"@[3] == 'O');
                assert("ARMOR_REINFORCED"@[4] == 'R');
                assert("ARMOR_REINFORCED"@[5] == '_');
                assert("ARMOR_REINFORCED"@[6] == 'R');
                assert("ARMOR_REINFORCED"@[7] == 'E');
                assert("ARMOR_REINFORCED"@[8] == 'I');
                assert("ARMOR_REINFORCED"@[9] == 'N');
                assert("ARMOR_REINFORCED"@[10] == 'F');
                assert("ARMOR_REINFORCED"@[11] == 'O');
                assert("ARMOR_REINFORCED"@[12] == 'R');
                assert("ARMOR_REINFORCED"@[13] == 'C');
                assert("ARMOR_REINFORCED"@[14] == 'E');
                assert("ARMOR_REINFORCED"@[15] == 'D');
                assert(clean_atom("ARMOR_REINFORCED"@));
            },
            Trait::ArmorSturdy => {
                assert("ARMOR_STURDY"@.len() == 12);
                assert("ARMOR_STURDY"@[0] == 'A');
                assert("ARMOR_STURDY"@[1] == 'R');
                assert("ARMOR_STURDY"@[2] == 'M');
                assert("ARMOR_STURDY"@[3] == 'O');
                assert("ARMOR_STURDY"@[4] == 'R');
                assert("ARMOR_STURDY"@[5] == '_');
                assert("ARMOR_STURDY"@[6] == 'S');
                assert("ARMOR_STURDY"@[7] == 'T');
                assert("ARMOR_STURDY"@[8] == 'U');
                assert("ARMOR_STURDY"@[9] == 'R');
                assert("ARMOR_STURDY"@[10] == 'D');
                assert("ARMOR_STURDY"@[11] == 'Y');
                assert(clean_atom("ARMOR_STURDY"@));
            },
            Trait::ArmorTraining => {
                assert("ARMOR_TRAINING"@.len() == 14);
                assert("ARMOR_TRAINING"@[0] == 'A');
                assert("ARMOR_TRAINING"@[1] == 'R');
                assert("ARMOR_TRAINING"@[2] == 'M');
                assert("ARMOR_TRAINING"@[3] == 'O');
                assert("ARMOR_TRAINING"@[4] == 'R');
                assert("ARMOR_TRAINING"@[5] == '_');
                assert("ARMOR_TRAINING"@[6] == 'T');
                assert("ARMOR_TRAINING"@[7] == 'R');
                assert("ARMOR_TRAINING"@[8] == 'A');
                assert("ARMOR_TRAINING"@[9] == 'I');
                assert("ARMOR_TRAINING"@[10] == 'N');
                assert("ARMOR_TRAINING"@[11] == 'I');
                assert("ARMOR_TRAINING"@[12] == 'N');
                assert("ARMOR_TRAINING"@[13] == 'G');
                assert(clean_atom("ARMOR_TRAINING"@));
            },
            Trait::ArmorWellFitted => {
                assert("ARMOR_WELL_FITTED"@.len() == 17);
                assert("ARMOR_WELL_FITTED"@[0] == 'A');
                assert("ARMOR_WELL_FITTED"@[1] == 'R');
                assert("ARMOR_WELL_FITTED"@[2] == 'M');
                assert("ARMOR_WELL_FITTED"@[3] == 'O');
                assert("ARMOR_WELL_FITTED"@[4] == 'R');
                assert("ARMOR_WELL_FITTED"@[5] == '_');
                assert("ARMOR_WELL_FITTED"@[6] == 'W');
                assert("ARMOR_WELL_FITTED"@[7] == 'E');
                assert("ARMOR_WELL_FITTED"@[8] == 'L');
                assert("ARMOR_WELL_FITTED"@[9] == 'L');
                assert("ARMOR_WELL_FITTED"@[10] == '_');
                assert("ARMOR_WELL_FITTED"@[11] == 'F');
                assert("ARMOR_WELL_FITTED"@[12] == 'I');
                assert("ARMOR_WELL_FITTED"@[13] == 'T');
                assert("ARMOR_WELL_FITTED"@[14] == 'T');
                assert("ARMOR_WELL_FITTED"@[15] == 'E');
                assert("ARMOR_WELL_FITTED"@[16] == 'D');
                assert(clean_atom("ARMOR_WELL_FITTED"@));
            },
            Trait::JewelryArcane => {
                assert("JEWELRY_ARCANE"@.len() == 14);
                assert("JEWELRY_ARCANE"@[0] == 'J');
                assert("JEWELRY_ARCANE"@[1] == 'E');
                assert("JEWELRY_ARCANE"@[2] == 'W');
                assert("JEWELRY_ARCANE"@[3] == 'E');
                assert("JEWELRY_ARCANE"@[4] == 'L');
                assert("JEWELRY_ARCANE"@[5] == 'R');
                assert("JEWELRY_ARCANE"@[6] == 'Y');
                assert("JEWELRY_ARCANE"@[7] == '_');
                assert("JEWELRY_ARCANE"@[8] == 'A');
                assert("JEWELRY_ARCANE"@[9] == 'R');
                assert("JEWELRY_ARCANE"@[10] == 'C');
                assert("JEWELRY_ARCANE"@[11] == 'A');
                assert("JEWELRY_ARCANE"@[12] == 'N');
                assert("JEWELRY_ARCANE"@[13] == 'E');
                assert(clean_atom("JEWELRY_ARCANE"@));
            },
            Trait::JewelryBloodthirsty => {
                assert("JEWELRY_BLOODTHIRSTY"@.len() == 20);
                assert("JEWELRY_BLOODTHIRSTY"@[0] == 'J');
                assert("JEWELRY_BLOODTHIRSTY"@[1] == 'E');
                assert("JEWELRY_BLOODTHIRSTY"@[2] == 'W');
                assert("JEWELRY_BLOODTHIRSTY"@[3] == 'E');
                assert("JEWELRY_BLOODTHIRSTY"@[4] == 'L');
                assert("JEWELRY_BLOODTHIRSTY"@[5] == 'R');
                assert("JEWELRY_BLOODTHIRSTY"@[6] == 'Y');
                assert("JEWELRY_BLOODTHIRSTY"@[7] == '_');
                assert("JEWELRY_BLOODTHIRSTY"@[8] == 'B');
                assert("JEWELRY_BLOODTHIRSTY"@[9] == 'L');
                assert("JEWELRY_BLOODTHIRSTY"@[10] == 'O');
                assert("JEWELRY_BLOODTHIRSTY"@[11] == 'O');
                assert("JEWELRY_BLOODTHIRSTY"@[12] == 'D');
                assert("JEWELRY_BLOODTHIRSTY"@[13] == 'T');
                assert("JEWELRY_BLOODTHIRSTY"@[14] == 'H');
                assert("JEWELRY_BLOODTHIRSTY"@[15] == 'I');
                assert("JEWELRY_BLOODTHIRSTY"@[16] == 'R');
                assert("JEWELRY_BLOODTHIRSTY"@[17] == 'S');
                assert("JEWELRY_BLOODTHIRSTY"@[18] == 'T');
                assert("JEWELRY_BLOODTHIRSTY"@[19] == 'Y');
                assert(clean_atom("JEWELRY_BLOODTHIRSTY"@));
            },
            Trait::JewelryHarmony => {
                assert("JEWELRY_HARMONY"@.len() == 15);
                assert("JEWELRY_HARMONY"@[0] == 'J');
                assert("JEWELRY_HARMONY"@[1] == 'E');
                assert("JEWELRY_HARMONY"@[2] == 'W');
                assert("JEWELRY_HARMONY"@[3] == 'E');
                assert("JEWELRY_HARMONY"@[4] == 'L');
                assert("JEWELRY_HARMONY"@[5] == 'R');
                assert("JEWELRY_HARMONY"@[6] == 'Y');
                assert("JEWELRY_HARMONY"@[7] == '_');
                assert("JEWELRY_HARMONY"@[8] == 'H');
                assert("JEWELRY_HARMONY"@[9] == 'A');
                assert("JEWELRY_HARMONY"@[10] == 'R');
                assert("JEWELRY_HARMONY"@[11] == 'M');
                assert("JEWELRY_HARMONY"@[12] == 'O');
                assert("JEWELRY_HARMONY"@[13] == 'N');
                assert("JEWELRY_HARMONY"@[14] == 'Y');
                assert(clean_atom("JEWELRY_HARMONY"@));
            },
            Trait::JewelryHealthy => {
                assert("JEWELRY_HEALTHY"@.len() == 15);
                assert("JEWELRY_HEALTHY"@[0] == 'J');
                assert("JEWELRY_HEALTHY"@[1] == 'E');
                assert("JEWELRY_HEALTHY"@[2] == 'W');
                assert("JEWELRY_HEALTHY"@[3] == 'E');
                assert("JEWELRY_HEALTHY"@[4] == 'L');
                assert("JEWELRY_HEALTHY"@[5] == 'R');
                assert("JEWELRY_HEALTHY"@[6] == 'Y');
                assert("JEWELRY_HEALTHY"@[7] == '_');
                assert("JEWELRY_HEALTHY"@[8] == 'H');
                assert("JEWELRY_HEALTHY"@[9] == 'E');
                assert("JEWELRY_HEALTHY"@[10] == 'A');
                assert("JEWELRY_HEALTHY"@[11] == 'L');
                assert("JEWELRY_HEALTHY"@[12] == 'T');
                assert("JEWELRY_HEALTHY"@[13] == 'H');
                assert("JEWELRY_HEALTHY"@[14] == 'Y');
                assert(clean_atom("JEWELRY_HEALTHY"@));
            },
            Trait::JewelryInfused => {
                assert("JEWELRY_INFUSED"@.len() == 15);
                assert("JEWELRY_INFUSED"@[0] == 'J');
                assert("JEWELRY_INFUSED"@[1] == 'E');
                assert("JEWELRY_INFUSED"@[2] == 'W');
                assert("JEWELRY_INFUSED"@[3] == 'E');
                assert("JEWELRY_INFUSED"@[4] == 'L');
                assert("JEWELRY_INFUSED"@[5] == 'R');
                assert("JEWELRY_INFUSED"@[6] == 'Y');
                assert("JEWELRY_INFUSED"@[7] == '_');
                assert("JEWELRY_INFUSED"@[8] == 'I');
                assert("JEWELRY_INFUSED"@[9] == 'N');
                assert("JEWELRY_INFUSED"@[10] == 'F');
                assert("JEWELRY_INFUSED"@[11] == 'U');
                assert("JEWELRY_INFUSED"@[12] == 'S');
                assert("JEWELRY_INFUSED"@[13] == 'E');
                assert("JEWELRY_INFUSED"@[14] == 'D');
                assert(clean_atom("JEWELRY_INFUSED"@));
            },
            Trait::JewelryProtective => {
                assert("JEWELRY_PROTECTIVE"@.len() == 18);
                assert("JEWELRY_PROTECTIVE"@[0] == 'J');
                assert("JEWELRY_PROTECTIVE"@[1] == 'E');
                assert("JEWELRY_PROTECTIVE"@[2] == 'W');
                assert("JEWELRY_PROTECTIVE"@[3] == 'E');
                assert("JEWELRY_PROTECTIVE"@[4] == 'L');
                assert("JEWELRY_PROTECTIVE"@[5] == 'R');
                assert("JEWELRY_PROTECTIVE"@[6] == 'Y');
                assert("JEWELRY_PROTECTIVE"@[7] == '_');
                assert("JEWELRY_PROTECTIVE"@[8] == 'P');
                assert("JEWELRY_PROTECTIVE"@[9] == 'R');
                assert("JEWELRY_PROTECTIVE"@[10] == 'O');
                assert("JEWELRY_PROTECTIVE"@[11] == 'T');
                assert("JEWELRY_PROTECTIVE"@[12] == 'E');
                assert("JEWELRY_PROTECTIVE"@[13] == 'C');
                assert("JEWELRY_PROTECTIVE"@[14] == 'T');
                assert("JEWELRY_PROTECTIVE"@[15] == 'I');
                assert("JEWELRY_PROTECTIVE"@[16] == 'V');
                assert("JEWELRY_PROTECTIVE"@[17] == 'E');
                assert(clean_atom("JEWELRY_PROTECTIVE"@));
            },
            Trait::JewelryRobust => {
                assert("JEWELRY_ROBUST"@.len() == 14);
                assert("JEWELRY_ROBUST"@[0] == 'J');
                assert("JEWELRY_ROBUST"@[1] == 'E');
                assert("JEWELRY_ROBUST"@[2] == 'W');
                assert("JEWELRY_ROBUST"@[3] == 'E');
                assert("JEWELRY_ROBUST"@[4] == 'L');
                assert("JEWELRY_ROBUST"@[5] == 'R');
                assert("JEWELRY_ROBUST"@[6] == 'Y');
                assert("JEWELRY_ROBUST"@[7] == '_');
                assert("JEWELRY_ROBUST"@[8] == 'R');
                assert("JEWELRY_ROBUST"@[9] == 'O');
                assert("JEWELRY_ROBUST"@[10] == 'B');
                assert("JEWELRY_ROBUST"@[11] == 'U');
                assert("JEWELRY_ROBUST"@[12] == 'S');
                assert("JEWELRY_ROBUST"@[13] == 'T');
                assert(clean_atom("JEWELRY_ROBUST"@));
            },
            Trait::JewelrySwift => {
                assert("JEWELRY_SWIFT"@.len() == 13);
                assert("JEWELRY_SWIFT"@[0] == 'J');
                assert("JEWELRY_SWIFT"@[1] == 'E');
                assert("JEWELRY_SWIFT"@[2] == 'W');
                assert("JEWELRY_SWIFT"@[3] == 'E');
                assert("JEWELRY_SWIFT"@[4] == 'L');
                assert("JEWELRY_SWIFT"@[5] == 'R');
                assert("JEWELRY_SWIFT"@[6] == 'Y');
                assert("JEWELRY_SWIFT"@[7] == '_');
                assert("JEWELRY_SWIFT"@[8] == 'S');
                assert("JEWELRY_SWIFT"@[9] == 'W');
                assert("JEWELRY_SWIFT"@[10] == 'I');
                assert("JEWELRY_SWIFT"@[11] == 'F');
                assert("JEWELRY_SWIFT"@[12] == 'T');
                assert(clean_atom("JEWELRY_SWIFT"@));
            },
            Trait::JewelryTriune => {
                assert("JEWELRY_TRIUNE"@.len() == 14);
                assert("JEWELRY_TRIUNE"@[0] == 'J');
                assert("JEWELRY_TRIUNE"@[1] == 'E');
                assert("JEWELRY_TRIUNE"@[2] == 'W');
                assert("JEWELRY_TRIUNE"@[3] == 'E');
                assert("JEWELRY_TRIUNE"@[4] == 'L');
                assert("JEWELRY_TRIUNE"@[5] == 'R');
                assert("JEWELRY_TRIUNE"@[6] == 'Y');
                assert("JEWELRY_TRIUNE"@[7] == '_');
                assert("JEWELRY_TRIUNE"@[8] == 'T');
                assert("JEWELRY_TRIUNE"@[9] == 'R');
                assert("JEWELRY_TRIUNE"@[10] == 'I');
                assert("JEWELRY_TRIUNE"@[11] == 'U');
                assert("JEWELRY_TRIUNE"@[12] == 'N');
                assert("JEWELRY_TRIUNE"@[13] == 'E');
                assert(clean_atom("JEWELRY_TRIUNE"@));
            },
            Trait::WeaponCharged => {
                assert("WEAPON_CHARGED"@.len() == 14);
                assert("WEAPON_CHARGED"@[0] == 'W');
                assert("WEAPON_CHARGED"@[1] == 'E');
                assert("WEAPON_CHARGED"@[2] == 'A');
                assert("WEAPON_CHARGED"@[3] == 'P');
                assert("WEAPON_CHARGED"@[4] == 'O');
                assert("WEAPON_CHARGED"@[5] == 'N');
                assert("WEAPON_CHARGED"@[6] == '_');
                assert("WEAPON_CHARGED"@[7] == 'C');
                assert("WEAPON_CHARGED"@[8] == 'H');
                assert("WEAPON_CHARGED"@[9] == 'A');
                assert("WEAPON_CHARGED"@[10] == 'R');
                assert("WEAPON_CHARGED"@[11] == 'G');
                assert("WEAPON_CHARGED"@[12] == 'E');
                assert("WEAPON_CHARGED"@[13] == 'D');
                assert(clean_atom("WEAPON_CHARGED"@));
            },
            Trait::WeaponDecisive => {
                assert("WEAPON_DECISIVE"@.len() == 15);
                assert("WEAPON_DECISIVE"@[0] == 'W');
                assert("WEAPON_DECISIVE"@[1] == 'E');
                assert("WEAPON_DECISIVE"@[2] == 'A');
                assert("WEAPON_DECISIVE"@[3] == 'P');
                assert("WEAPON_DECISIVE"@[4] == 'O');
                assert("WEAPON_DECISIVE"@[5] == 'N');
                assert("WEAPON_DECISIVE"@[6] == '_');
                assert("WEAPON_DECISIVE"@[7] == 'D');
                assert("WEAPON_DECISIVE"@[8] == 'E');
                assert("WEAPON_DECISIVE"@[9] == 'C');
                assert("WEAPON_DECISIVE"@[10] == 'I');
                assert("WEAPON_DECISIVE"@[11] == 'S');
                assert("WEAPON_DECISIVE"@[12] == 'I');
                assert("WEAPON_DECISIVE"@[13] == 'V');
                assert("WEAPON_DECISIVE"@[14] == 'E');
                assert(clean_atom("WEAPON_DECISIVE"@));
            },
            Trait::WeaponDefending => {
                assert("WEAPON_DEFENDING"@.len() == 16);
                assert("WEAPON_DEFENDING"@[0] == 'W');
                assert("WEAPON_DEFENDING"@[1] == 'E');
                assert("WEAPON_DEFENDING"@[2] == 'A');
                assert("WEAPON_DEFENDING"@[3] == 'P');
                assert("WEAPON_DEFENDING"@[4] == 'O');
                assert("WEAPON_DEFENDING"@[5] == 'N');
                assert("WEAPON_DEFENDING"@[6] == '_');
                assert("WEAPON_DEFENDING"@[7] == 'D');
                assert("WEAPON_DEFENDING"@[8] == 'E');
                assert("WEAPON_DEFENDING"@[9] == 'F');
                assert("WEAPON_DEFENDING"@[10] == 'E');
                assert("WEAPON_DEFENDING"@[11] == 'N');
                assert("WEAPON_DEFENDING"@[12] == 'D');
                assert("WEAPON_DEFENDING"@[13] == 'I');
                assert("WEAPON_DEFENDING"@[14] == 'N');
                assert("WEAPON_DEFENDING"@[15] == 'G');
                assert(clean_atom("WEAPON_DEFENDING"@));
            },
            Trait::WeaponInfused => {
                assert("WEAPON_INFUSED"@.len() == 14);
                assert("WEAPON_INFUSED"@[0] == 'W');
                assert("WEAPON_INFUSED"@[1] == 'E');
                assert("WEAPON_INFUSED"@[2] == 'A');
                assert("WEAPON_INFUSED"@[3] == 'P');
                assert("WEAPON_INFUSED"@[4] == 'O');
                assert("WEAPON_INFUSED"@[5] == 'N');
                assert("WEAPON_INFUSED"@[6] == '_');
                assert("WEAPON_INFUSED"@[7] == 'I');
                assert("WEAPON_INFUSED"@[8] == 'N');
                assert("WEAPON_INFUSED"@[9] == 'F');
                assert("WEAPON_INFUSED"@[10] == 'U');
                assert("WEAPON_INFUSED"@[11] == 'S');
                assert("WEAPON_INFUSED"@[12] == 'E');
                assert("WEAPON_INFUSED"@[13] == 'D');
                assert(clean_atom("WEAPON_INFUSED"@));
            },
            Trait::WeaponNirnhoned => {
                assert("WEAPON_NIRNHONED"@.len() == 16);
                assert("WEAPON_NIRNHONED"@[0] == 'W');
                assert("WEAPON_NIRNHONED"@[1] == 'E');
                assert("WEAPON_NIRNHONED"@[2] == 'A');
                assert("WEAPON_NIRNHONED"@[3] == 'P');
                assert("WEAPON_NIRNHONED"@[4] == 'O');
                assert("WEAPON_NIRNHONED"@[5] == 'N');
                assert("WEAPON_NIRNHONED"@[6] == '_');
                assert("WEAPON_NIRNHONED"@[7] == 'N');
                assert("WEAPON_NIRNHONED"@[8] == 'I');
                assert("WEAPON_NIRNHONED"@[9] == 'R');
                assert("WEAPON_NIRNHONED"@[10] == 'N');
                assert("WEAPON_NIRNHONED"@[11] == 'H');
                assert("WEAPON_NIRNHONED"@[12] == 'O');
                assert("WEAPON_NIRNHONED"@[13] == 'N');
                assert("WEAPON_NIRNHONED"@[14] == 'E');
                assert("WEAPON_NIRNHONED"@[15] == 'D');
                assert(clean_atom("WEAPON_NIRNHONED"@));
            },
            Trait::WeaponPowered => {
                assert("WEAPON_POWERED"@.len() == 14);
                assert("WEAPON_POWERED"@[0] == 'W');
                assert("WEAPON_POWERED"@[1] == 'E');
                assert("WEAPON_POWERED"@[2] == 'A');
                assert("WEAPON_POWERED"@[3] == 'P');
                assert("WEAPON_POWERED"@[4] == 'O');
                assert("WEAPON_POWERED"@[5] == 'N');
                assert("WEAPON_POWERED"@[6] == '_');
                assert("WEAPON_POWERED"@[7] == 'P');
                assert("WEAPON_POWERED"@[8] == 'O');
                assert("WEAPON_POWERED"@[9] == 'W');
                assert("WEAPON_POWERED"@[10] == 'E');
                assert("WEAPON_POWERED"@[11] == 'R');
                assert("WEAPON_POWERED"@[12] == 'E');
                assert("WEAPON_POWERED"@[13] == 'D');
                assert(clean_atom("WEAPON_POWERED"@));
            },
            Trait::WeaponPrecise => {
                assert("WEAPON_PRECISE"@.len() == 14);
                assert("WEAPON_PRECISE"@[0] == 'W');
                assert("WEAPON_PRECISE"@[1] == 'E');
                assert("WEAPON_PRECISE"@[2] == 'A');
                assert("WEAPON_PRECISE"@[3] == 'P');
                assert("WEAPON_PRECISE"@[4] == 'O');
                assert("WEAPON_PRECISE"@[5] == 'N');
                assert("WEAPON_PRECISE"@[6] == '_');
                assert("WEAPON_PRECISE"@[7] == 'P');
                assert("WEAPON_PRECISE"@[8] == 'R');
                assert("WEAPON_PRECISE"@[9] == 'E');
                assert("WEAPON_PRECISE"@[10] == 'C');
                assert("WEAPON_PRECISE"@[11] == 'I');
                assert("WEAPON_PRECISE"@[12] == 'S');
                assert("WEAPON_PRECISE"@[13] == 'E');
                assert(clean_atom("WEAPON_PRECISE"@));
            },
            Trait::WeaponSharpened => {
                assert("WEAPON_SHARPENED"@.len() == 16);
                assert("WEAPON_SHARPENED"@[0] == 'W');
                assert("WEAPON_SHARPENED"@[1] == 'E');
                assert("WEAPON_SHARPENED"@[2] == 'A');
                assert("WEAPON_SHARPENED"@[3] == 'P');
                assert("WEAPON_SHARPENED"@[4] == 'O');
                assert("WEAPON_SHARPENED"@[5] == 'N');
                assert("WEAPON_SHARPENED"@[6] == '_');
                assert("WEAPON_SHARPENED"@[7] == 'S');
                assert("WEAPON_SHARPENED"@[8] == 'H');
                assert("WEAPON_SHARPENED"@[9] == 'A');
                assert("WEAPON_SHARPENED"@[10] == 'R');
                assert("WEAPON_SHARPENED"@[11] == 'P');
                assert("WEAPON_SHARPENED"@[12] == 'E');
                assert("WEAPON_SHARPENED"@[13] == 'N');
                assert("WEAPON_SHARPENED"@[14] == 'E');
                assert("WEAPON_SHARPENED"@[15] == 'D');
                assert(clean_atom("WEAPON_SHARPENED"@));
            },
            Trait::WeaponTraining => {
                assert("WEAPON_TRAINING"@.len() == 15);
                assert("WEAPON_TRAINING"@[0] == 'W');
                assert("WEAPON_TRAINING"@[1] == 'E');
                assert("WEAPON_TRAINING"@[2] == 'A');
                assert("WEAPON_TRAINING"@[3] == 'P');
                assert("WEAPON_TRAINING"@[4] == 'O');
                assert("WEAPON_TRAINING"@[5] == 'N');
                assert("WEAPON_TRAINING"@[6] == '_');
                assert("WEAPON_TRAINING"@[7] == 'T');
                assert("WEAPON_TRAINING"@[8] == 'R');
                assert("WEAPON_TRAINING"@[9] == 'A');
                assert("WEAPON_TRAINING"@[10] == 'I');
                assert("WEAPON_TRAINING"@[11] == 'N');
                assert("WEAPON_TRAINING"@[12] == 'I');
                assert("WEAPON_TRAINING"@[13] == 'N');
                assert("WEAPON_TRAINING"@[14] == 'G');
                assert(clean_atom("WEAPON_TRAINING"@));
            },
            Trait::NoneKind => {
                assert("NONE"@.len() == 4);
                assert("NONE"@[0] == 'N');
                assert("NONE"@[1] == 'O');
                assert("NONE"@[2] == 'N');
                assert("NONE"@[3] == 'E');
                assert(clean_atom("NONE"@));
            },
        }
    }

    /// Parsing the spelled variant yields the variant and consumes one
    /// separator.
    pub proof fn lemma_parse_roundtrip(self, rest: Seq<char>)
        requires
            sep_ok(rest),
        ensures
            spec_parse_trait(Self::spec_name(self) + rest) == Ok::<(Trait, Seq<char>), Error>((self, chop(rest))),
    {
        self.lemma_name_clean();
        lemma_clean_atom_is_atom(self.spec_name());
        lemma_next_token_atom(self.spec_name(), rest);
        self.lemma_name_roundtrip();
    }
}

/// Parses one `Trait` token.
pub open spec fn spec_parse_trait(s: Seq<char>) -> Result<(Trait, Seq<char>), Error> {
    match spec_next_token(s) {
        None => Err(Error::UnexpectedEnd),
        Some((tok, rest)) => match Trait::spec_from_name(tok) {
            None => Err(Error::InvalidToken),
            Some(v) => Ok((v, rest)),
        },
    }
}

/// Reads one `Trait` token from the line.
pub fn parse_trait(r: &mut EsoLogReaderLine) -> (res: Result<Trait, Error>)
    requires
        old(r).wf(),
    ensures
        final(r).wf(),
        match spec_parse_trait(old(r).remaining()) {
            Ok((v, rest)) => res == Ok::<Trait, Error>(v) && final(r).remaining() == rest,
            Err(e) => res == Err::<Trait, Error>(e),
        },
{
    let tok = match r.next() {
        Some(t) => t,
        None => {
            return Err(Error::UnexpectedEnd);
        },
    };
    match Trait::from_token(tok) {
        Some(v) => Ok(v),
        None => Err(Error::InvalidToken),
    }
}

/// Enchantment carried by a piece of equipment.
#[derive(Debug, Clone, Copy, PartialEq, Eq, Structural)]
pub enum EnchantType {
    AbsorbHealth,
    AbsorbMagicka,
    AbsorbStamina,
    Berserker,
    ChargedWeapon,
    DamageHealth,
    DamageShield,
    FieryWeapon,
    FrozenWeapon,
    Health,
    IncreaseBashDamage,
    IncreasePhysicalDamage,
    IncreaseSpellDamage,
    Invalid,
    Magicka,
    NoneKind,
    PoisonedWeapon,
    PrismaticDefense,
    ReduceArmor,
    ReduceBlockAndBash,
    ReduceFeatCost,
    ReducePotionCooldown,
    ReducePower,
    ReduceSpellCost,
    Stamina,
}

impl EnchantType {
    /// Wire spelling of this variant.
    pub open spec fn spec_name(self) -> Seq<char> {
        match self {
            EnchantType::AbsorbHealth => "ABSORB_HEALTH"@,
            EnchantType::AbsorbMagicka => "ABSORB_MAGICKA"@,
            EnchantType::AbsorbStamina => "ABSORB_STAMINA"@,
            EnchantType::Berserker => "BERSERKER"@,
            EnchantType::ChargedWeapon => "CHARGED_WEAPON"@,
            EnchantType::DamageHealth => "DAMAGE_HEALTH"@,
            EnchantType::DamageShield => "DAMAGE_SHIELD"@,
            EnchantType::FieryWeapon => "FIERY_WEAPON"@,
            EnchantType::FrozenWeapon => "FROZEN_WEAPON"@,
            EnchantType::Health => "HEALTH"@,
            EnchantType::IncreaseBashDamage => "INCREASE_BASH_DAMAGE"@,
            EnchantType::IncreasePhysicalDamage => "INCREASE_PHYSICAL_DAMAGE"@,
            EnchantType::IncreaseSpellDamage => "INCREASE_SPELL_DAMAGE"@,
            EnchantType::Invalid => "INVALID"@,
            EnchantType::Magicka => "MAGICKA"@,
            EnchantType::NoneKind => "NONE"@,
            EnchantType::PoisonedWeapon => "POISONED_WEAPON"@,
            EnchantType::PrismaticDefense => "PRISMATIC_DEFENSE"@,
            EnchantType::ReduceArmor => "REDUCE_ARMOR"@,
            EnchantType::ReduceBlockAndBash => "REDUCE_BLOCK_AND_BASH"@,
            EnchantType::ReduceFeatCost => "REDUCE_FEAT_COST"@,
            EnchantType::ReducePotionCooldown => "REDUCE_POTION_COOLDOWN"@,
            EnchantType::ReducePower => "REDUCE_POWER"@,
            EnchantType::ReduceSpellCost => "REDUCE_SPELL_COST"@,
            EnchantType::Stamina => "STAMINA"@,
        }
    }

    /// The variant spelled by the given token, if any.
    pub open spec fn spec_from_name(t: Seq<char>) -> Option<EnchantType> {
        if t.len() == 4 {
            if t == "NONE"@ {
                Some(EnchantType::NoneKind)
            } else {
                None
            }
        } else if t.len() == 6 {
            if t == "HEALTH"@ {
                Some(EnchantType::Health)
            } else {
                None
            }
        } else if t.len() == 7 {
            if t == "INVALID"@ {
                Some(EnchantType::Invalid)
            } else if t == "MAGICKA"@ {
                Some(EnchantType::Magicka)
            } else if t == "STAMINA"@ {
                Some(EnchantType::Stamina)
            } else {
                None
            }
        } else if t.len() == 9 {
            if t == "BERSERKER"@ {
                Some(EnchantType::Berserker)
            } else {
                None
            }
        } else if t.len() == 12 {
            if t == "FIERY_WEAPON"@ {
                Some(EnchantType::FieryWeapon)
            } else if t == "REDUCE_ARMOR"@ {
                Some(EnchantType::ReduceArmor)
            } else if t == "REDUCE_POWER"@ {
                Some(EnchantType::ReducePower)
            } else {
                None
            }
        } else if t.len() == 13 {
            if t == "ABSORB_HEALTH"@ {
                Some(EnchantType::AbsorbHealth)
            } else if t == "DAMAGE_HEALTH"@ {
                Some(EnchantType::DamageHealth)
            } else if t == "DAMAGE_SHIELD"@ {
                Some(EnchantType::DamageShield)
            } else if t == "FROZEN_WEAPON"@ {
                Some(EnchantType::FrozenWeapon)
            } else {
                None
            }
        } else if t.len() == 14 {
            if t == "ABSORB_MAGICKA"@ {
                Some(EnchantType::AbsorbMagicka)
            } else if t == "ABSORB_STAMINA"@ {
                Some(EnchantType::AbsorbStamina)
            } else if t == "CHARGED_WEAPON"@ {
                Some(EnchantType::ChargedWeapon)
            } else {
                None
            }
        } else if t.len() == 15 {
            if t == "POISONED_WEAPON"@ {
                Some(EnchantType::PoisonedWeapon)
            } else {
                None
            }
        } else if t.len() == 16 {
            if t == "REDUCE_FEAT_COST"@ {
                Some(EnchantType::ReduceFeatCost)
            } else {
                None
            }
        } else if t.len() == 17 {
            if t == "PRISMATIC_DEFENSE"@ {
                Some(EnchantType::PrismaticDefense)
            } else if t == "REDUCE_SPELL_COST"@ {
                Some(EnchantType::ReduceSpellCost)
            } else {
                None
            }
        } else if t.len() == 20 {
            if t == "INCREASE_BASH_DAMAGE"@ {
                Some(EnchantType::IncreaseBashDamage)
            } else {
                None
            }
        } else if t.len() == 21 {
            if t == "INCREASE_SPELL_DAMAGE"@ {
                Some(EnchantType::IncreaseSpellDamage)
            } else if t == "REDUCE_BLOCK_AND_BASH"@ {
                Some(EnchantType::ReduceBlockAndBash)
            } else {
                None
            }
        } else if t.len() == 22 {
            if t == "REDUCE_POTION_COOLDOWN"@ {
                Some(EnchantType::ReducePotionCooldown)
            } else {
                None
            }
        } else if t.len() == 24 {
            if t == "INCREASE_PHYSICAL_DAMAGE"@ {
                Some(EnchantType::IncreasePhysicalDamage)
            } else {
                None
            }
        } else {
            None
        }
    }

    pub fn name(&self) -> (r: &'static str)
        ensures
            r@ == self.spec_name(),
    {
        match self {
            EnchantType::AbsorbHealth => "ABSORB_HEALTH",
            EnchantType::AbsorbMagicka => "ABSORB_MAGICKA",
            EnchantType::AbsorbStamina => "ABSORB_STAMINA",
            EnchantType::Berserker => "BERSERKER",
            EnchantType::ChargedWeapon => "CHARGED_WEAPON",
            EnchantType::DamageHealth => "DAMAGE_HEALTH",
            EnchantType::DamageShield => "DAMAGE_SHIELD",
            EnchantType::FieryWeapon => "FIERY_WEAPON",
            EnchantType::FrozenWeapon => "FROZEN_WEAPON",
            EnchantType::Health => "HEALTH",
            EnchantType::IncreaseBashDamage => "INCREASE_BASH_DAMAGE",
            EnchantType::IncreasePhysicalDamage => "INCREASE_PHYSICAL_DAMAGE",
            EnchantType::IncreaseSpellDamage => "INCREASE_SPELL_DAMAGE",
            EnchantType::Invalid => "INVALID",
            EnchantType::Magicka => "MAGICKA",
            EnchantType::NoneKind => "NONE",
            EnchantType::PoisonedWeapon => "POISONED_WEAPON",
            EnchantType::PrismaticDefense => "PRISMATIC_DEFENSE",
            EnchantType::ReduceArmor => "REDUCE_ARMOR",
            EnchantType::ReduceBlockAndBash => "REDUCE_BLOCK_AND_BASH",
            EnchantType::ReduceFeatCost => "REDUCE_FEAT_COST",
            EnchantType::ReducePotionCooldown => "REDUCE_POTION_COOLDOWN",
            EnchantType::ReducePower => "REDUCE_POWER",
            EnchantType::ReduceSpellCost => "REDUCE_SPELL_COST",
            EnchantType::Stamina => "STAMINA",
        }
    }

    pub fn from_token(t: &str) -> (r: Option<EnchantType>)
        ensures
            r == Self::spec_from_name(t@),
    {
        let n = t.unicode_len();
        if n == 4 {
            if str_eq(t, "NONE") {
                Some(EnchantType::NoneKind)
            } else {
                None
            }
        } else if n == 6 {
            if str_eq(t, "HEALTH") {
                Some(EnchantType::Health)
            } else {
                None
            }
        } else if n == 7 {
            if str_eq(t, "INVALID") {
                Some(EnchantType::Invalid)
            } else if str_eq(t, "MAGICKA") {
                Some(EnchantType::Magicka)
            } else if str_eq(t, "STAMINA") {
                Some(EnchantType::Stamina)
            } else {
                None
            }
        } else if n == 9 {
            if str_eq(t, "BERSERKER") {
                Some(EnchantType::Berserker)
            } else {
                None
            }
        } else if n == 12 {
            if str_eq(t, "FIERY_WEAPON") {
                Some(EnchantType::FieryWeapon)
            } else if str_eq(t, "REDUCE_ARMOR") {
                Some(EnchantType::ReduceArmor)
            } else if str_eq(t, "REDUCE_POWER") {
                Some(EnchantType::ReducePower)
            } else {
                None
            }
        } else if n == 13 {
            if str_eq(t, "ABSORB_HEALTH") {
                Some(EnchantType::AbsorbHealth)
            } else if str_eq(t, "DAMAGE_HEALTH") {
                Some(EnchantType::DamageHealth)
            } else if str_eq(t, "DAMAGE_SHIELD") {
                Some(EnchantType::DamageShield)
            } else if str_eq(t, "FROZEN_WEAPON") {
                Some(EnchantType::FrozenWeapon)
            } else {
                None
            }
        } else if n == 14 {
            if str_eq(t, "ABSORB_MAGICKA") {
                Some(EnchantType::AbsorbMagicka)
            } else if str_eq(t, "ABSORB_STAMINA") {
                Some(EnchantType::AbsorbStamina)
            } else if str_eq(t, "CHARGED_WEAPON") {
                Some(EnchantType::ChargedWeapon)
            } else {
                None
            }
        } else if n == 15 {
            if str_eq(t, "POISONED_WEAPON") {
                Some(EnchantType::PoisonedWeapon)
            } else {
                None
            }
        } else if n == 16 {
            if str_eq(t, "REDUCE_FEAT_COST") {
                Some(EnchantType::ReduceFeatCost)
            } else {
                None
            }
        } else if n == 17 {
            if str_eq(t, "PRISMATIC_DEFENSE") {
                Some(EnchantType::PrismaticDefense)
            } else if str_eq(t, "REDUCE_SPELL_COST") {
                Some(EnchantType::ReduceSpellCost)
            } else {
                None
            }
        } else if n == 20 {
            if str_eq(t, "INCREASE_BASH_DAMAGE") {
                Some(EnchantType::IncreaseBashDamage)
            } else {
                None
            }
        } else if n == 21 {
            if str_eq(t, "INCREASE_SPELL_DAMAGE") {
                Some(EnchantType::IncreaseSpellDamage)
            } else if str_eq(t, "REDUCE_BLOCK_AND_BASH") {
                Some(EnchantType::ReduceBlockAndBash)
            } else {
                None
            }
        } else if n == 22 {
            if str_eq(t, "REDUCE_POTION_COOLDOWN") {
                Some(EnchantType::ReducePotionCooldown)
            } else {
                None
            }
        } else if n == 24 {
            if str_eq(t, "INCREASE_PHYSICAL_DAMAGE") {
                Some(EnchantType::IncreasePhysicalDamage)
            } else {
                None
            }
        } else {
            None
        }
    }

    /// Reading back a spelled variant yields the variant.
    pub proof fn lemma_name_roundtrip(self)
        ensures
            Self::spec_from_name(self.spec_name()) == Some(self),
    {
        reveal_strlit("ABSORB_HEALTH");
        reveal_strlit("ABSORB_MAGICKA");
        reveal_strlit("ABSORB_STAMINA");
        reveal_strlit("BERSERKER");
        reveal_strlit("CHARGED_WEAPON");
        reveal_strlit("DAMAGE_HEALTH");
        reveal_strlit("DAMAGE_SHIELD");
        reveal_strlit("FIERY_WEAPON");
        reveal_strlit("FROZEN_WEAPON");
        reveal_strlit("HEALTH");
        reveal_strlit("INCREASE_BASH_DAMAGE");
        reveal_strlit("INCREASE_PHYSICAL_DAMAGE");
        reveal_strlit("INCREASE_SPELL_DAMAGE");
        reveal_strlit("INVALID");
        reveal_strlit("MAGICKA");
        reveal_strlit("NONE");
        reveal_strlit("POISONED_WEAPON");
        reveal_strlit("PRISMATIC_DEFENSE");
        reveal_strlit("REDUCE_ARMOR");
        reveal_strlit("REDUCE_BLOCK_AND_BASH");
        reveal_strlit("REDUCE_FEAT_COST");
        reveal_strlit("REDUCE_POTION_COOLDOWN");
        reveal_strlit("REDUCE_POWER");
        reveal_strlit("REDUCE_SPELL_COST");
        reveal_strlit("STAMINA");
        assert("ABSORB_HEALTH"@.len() == 13);
        assert("ABSORB_MAGICKA"@.len() == 14);
        assert("ABSORB_STAMINA"@.len() == 14);
        assert("BERSERKER"@.len() == 9);
        assert("CHARGED_WEAPON"@.len() == 14);
        assert("DAMAGE_HEALTH"@.len() == 13);
        assert("DAMAGE_SHIELD"@.len() == 13);
        assert("FIERY_WEAPON"@.len() == 12);
        assert("FROZEN_WEAPON"@.len() == 13);
        assert("HEALTH"@.len() == 6);
        assert("INCREASE_BASH_DAMAGE"@.len() == 20);
        assert("INCREASE_PHYSICAL_DAMAGE"@.len() == 24);
        assert("INCREASE_SPELL_DAMAGE"@.len() == 21);
        assert("INVALID"@.len() == 7);
        assert("MAGICKA"@.len() == 7);
        assert("NONE"@.len() == 4);
        assert("POISONED_WEAPON"@.len() == 15);
        assert("PRISMATIC_DEFENSE"@.len() == 17);
        assert("REDUCE_ARMOR"@.len() == 12);
        assert("REDUCE_BLOCK_AND_BASH"@.len() == 21);
        assert("REDUCE_FEAT_COST"@.len() == 16);
        assert("REDUCE_POTION_COOLDOWN"@.len() == 22);
        assert("REDUCE_POWER"@.len() == 12);
        assert("REDUCE_SPELL_COST"@.len() == 17);
        assert("STAMINA"@.len() == 7);
        assert("ABSORB_HEALTH"@[0] == 'A');
        assert("ABSORB_MAGICKA"@[0] == 'A');
        assert("ABSORB_MAGICKA"@[7] == 'M');
        assert("ABSORB_STAMINA"@[0] == 'A');
        assert("ABSORB_STAMINA"@[7] == 'S');
        assert("CHARGED_WEAPON"@[0] == 'C');
        assert("DAMAGE_HEALTH"@[0] == 'D');
        assert("DAMAGE_HEALTH"@[7] == 'H');
        assert("DAMAGE_SHIELD"@[0] == 'D');
        assert("DAMAGE_SHIELD"@[7] == 'S');
        assert("FIERY_WEAPON"@[0] == 'F');
        assert("FROZEN_WEAPON"@[0] == 'F');
        assert("INCREASE_SPELL_DAMAGE"@[0] == 'I');
        assert("INVALID"@[0] == 'I');
        assert("MAGICKA"@[0] == 'M');
        assert("PRISMATIC_DEFENSE"@[0] == 'P');
        assert("REDUCE_ARMOR"@[0] == 'R');
        assert("REDUCE_ARMOR"@[7] == 'A');
        assert("REDUCE_BLOCK_AND_BASH"@[0] == 'R');
        assert("REDUCE_POWER"@[0] == 'R');
        assert("REDUCE_POWER"@[7] == 'P');
        assert("REDUCE_SPELL_COST"@[0] == 'R');
        assert("STAMINA"@[0] == 'S');
        match self {
            EnchantType::AbsorbHealth => assert(Self::spec_from_name(self.spec_name()) == Some(self)),
            EnchantType::AbsorbMagicka => assert(Self::spec_from_name(self.spec_name()) == Some(self)),
            EnchantType::AbsorbStamina => assert(Self::spec_from_name(self.spec_name()) == Some(self)),
            EnchantType::Berserker => assert(Self::spec_from_name(self.spec_name()) == Some(self)),
            EnchantType::ChargedWeapon => assert(Self::spec_from_name(self.spec_name()) == Some(self)),
            EnchantType::DamageHealth => assert(Self::spec_from_name(self.spec_name()) == Some(self)),
            EnchantType::DamageShield => assert(Self::spec_from_name(self.spec_name()) == Some(self)),
            EnchantType::FieryWeapon => assert(Self::spec_from_name(self.spec_name()) == Some(self)),
            EnchantType::FrozenWeapon => assert(Self::spec_from_name(self.spec_name()) == Some(self)),
            EnchantType::Health => assert(Self::spec_from_name(self.spec_name()) == Some(self)),
            EnchantType::IncreaseBashDamage => assert(Self::spec_from_name(self.spec_name()) == Some(self)),
            EnchantType::IncreasePhysicalDamage => assert(Self::spec_from_name(self.spec_name()) == Some(self)),
            EnchantType::IncreaseSpellDamage => assert(Self::spec_from_name(self.spec_name()) == Some(self)),
            EnchantType::Invalid => assert(Self::spec_from_name(self.spec_name()) == Some(self)),
            EnchantType::Magicka => assert(Self::spec_from_name(self.spec_name()) == Some(self)),
            EnchantType::NoneKind => assert(Self::spec_from_name(self.spec_name()) == Some(self)),
            EnchantType::PoisonedWeapon => assert(Self::spec_from_name(self.spec_name()) == Some(self)),
            EnchantType::PrismaticDefense => assert(Self::spec_from_name(self.spec_name()) == Some(self)),
            EnchantType::ReduceArmor => assert(Self::spec_from_name(self.spec_name()) == Some(self)),
            EnchantType::ReduceBlockAndBash => assert(Self::spec_from_name(self.spec_name()) == Some(self)),
            EnchantType::ReduceFeatCost => assert(Self::spec_from_name(self.spec_name()) == Some(self)),
            EnchantType::ReducePotionCooldown => assert(Self::spec_from_name(self.spec_name()) == Some(self)),
            EnchantType::ReducePower => assert(Self::spec_from_name(self.spec_name()) == Some(self)),
            EnchantType::ReduceSpellCost => assert(Self::spec_from_name(self.spec_name()) == Some(self)),
            EnchantType::Stamina => assert(Self::spec_from_name(self.spec_name()) == Some(self)),
        }
    }

    /// The wire spelling is capitals, digits and underscores only.
    pub proof fn lemma_name_clean(self)
        ensures
            clean_atom(self.spec_name()),
    {
        reveal_strlit("ABSORB_HEALTH");
        reveal_strlit("ABSORB_MAGICKA");
        reveal_strlit("ABSORB_STAMINA");
        reveal_strlit("BERSERKER");
        reveal_strlit("CHARGED_WEAPON");
        reveal_strlit("DAMAGE_HEALTH");
        reveal_strlit("DAMAGE_SHIELD");
        reveal_strlit("FIERY_WEAPON");
        reveal_strlit("FROZEN_WEAPON");
        reveal_strlit("HEALTH");
        reveal_strlit("INCREASE_BASH_DAMAGE");
        reveal_strlit("INCREASE_PHYSICAL_DAMAGE");
        reveal_strlit("INCREASE_SPELL_DAMAGE");
        reveal_strlit("INVALID");
        reveal_strlit("MAGICKA");
        reveal_strlit("NONE");
        reveal_strlit("POISONED_WEAPON");
        reveal_strlit("PRISMATIC_DEFENSE");
        reveal_strlit("REDUCE_ARMOR");
        reveal_strlit("REDUCE_BLOCK_AND_BASH");
        reveal_strlit("REDUCE_FEAT_COST");
        reveal_strlit("REDUCE_POTION_COOLDOWN");
        reveal_strlit("REDUCE_POWER");
        reveal_strlit("REDUCE_SPELL_COST");
        reveal_strlit("STAMINA");
        match self {
            EnchantType::AbsorbHealth => {
                assert("ABSORB_HEALTH"@.len() == 13);
                assert("ABSORB_HEALTH"@[0] == 'A');
                assert("ABSORB_HEALTH"@[1] == 'B');
                assert("ABSORB_HEALTH"@[2] == 'S');
                assert("ABSORB_HEALTH"@[3] == 'O');
                assert("ABSORB_HEALTH"@[4] == 'R');
                assert("ABSORB_HEALTH"@[5] == 'B');
                assert("ABSORB_HEALTH"@[6] == '_');
                assert("ABSORB_HEALTH"@[7] == 'H');
                assert("ABSORB_HEALTH"@[8] == 'E');
                assert("ABSORB_HEALTH"@[9] == 'A');
                assert("ABSORB_HEALTH"@[10] == 'L');
                assert("ABSORB_HEALTH"@[11] == 'T');
                assert("ABSORB_HEALTH"@[12] == 'H');
                assert(clean_atom("ABSORB_HEALTH"@));
            },
            EnchantType::AbsorbMagicka => {
                assert("ABSORB_MAGICKA"@.len() == 14);
                assert("ABSORB_MAGICKA"@[0] == 'A');
                assert("ABSORB_MAGICKA"@[1] == 'B');
                assert("ABSORB_MAGICKA"@[2] == 'S');
                assert("ABSORB_MAGICKA"@[3] == 'O');
                assert("ABSORB_MAGICKA"@[4] == 'R');
                assert("ABSORB_MAGICKA"@[5] == 'B');
                assert("ABSORB_MAGICKA"@[6] == '_');
                assert("ABSORB_MAGICKA"@[7] == 'M');
                assert("ABSORB_MAGICKA"@[8] == 'A');
                assert("ABSORB_MAGICKA"@[9] == 'G');
                assert("ABSORB_MAGICKA"@[10] == 'I');
                assert("ABSORB_MAGICKA"@[11] == 'C');
                assert("ABSORB_MAGICKA"@[12] == 'K');
                assert("ABSORB_MAGICKA"@[13] == 'A');
                assert(clean_atom("ABSORB_MAGICKA"@));
            },
            EnchantType::AbsorbStamina => {
                assert("ABSORB_STAMINA"@.len() == 14);
                assert("ABSORB_STAMINA"@[0] == 'A');
                assert("ABSORB_STAMINA"@[1] == 'B');
                assert("ABSORB_STAMINA"@[2] == 'S');
                assert("ABSORB_STAMINA"@[3] == 'O');
                assert("ABSORB_STAMINA"@[4] == 'R');
                assert("ABSORB_STAMINA"@[5] == 'B');
                assert("ABSORB_STAMINA"@[6] == '_');
                assert("ABSORB_STAMINA"@[7] == 'S');
                assert("ABSORB_STAMINA"@[8] == 'T');
                assert("ABSORB_STAMINA"@[9] == 'A');
                assert("ABSORB_STAMINA"@[10] == 'M');
                assert("ABSORB_STAMINA"@[11] == 'I');
                assert("ABSORB_STAMINA"@[12] == 'N');
                assert("ABSORB_STAMINA"@[13] == 'A');
                assert(clean_atom("ABSORB_STAMINA"@));
            },
            EnchantType::Berserker => {
                assert("BERSERKER"@.len() == 9);
                assert("BERSERKER"@[0] == 'B');
                assert("BERSERKER"@[1] == 'E');
                assert("BERSERKER"@[2] == 'R');
                assert("BERSERKER"@[3] == 'S');
                assert("BERSERKER"@[4] == 'E');
                assert("BERSERKER"@[5] == 'R');
                assert("BERSERKER"@[6] == 'K');
                assert("BERSERKER"@[7] == 'E');
                assert("BERSERKER"@[8] == 'R');
                assert(clean_atom("BERSERKER"@));
            },
            EnchantType::ChargedWeapon => {
                assert("CHARGED_WEAPON"@.len() == 14);
                assert("CHARGED_WEAPON"@[0] == 'C');
                assert("CHARGED_WEAPON"@[1] == 'H');
                assert("CHARGED_WEAPON"@[2] == 'A');
                assert("CHARGED_WEAPON"@[3] == 'R');
                assert("CHARGED_WEAPON"@[4] == 'G');
                assert("CHARGED_WEAPON"@[5] == 'E');
                assert("CHARGED_WEAPON"@[6] == 'D');
                assert("CHARGED_WEAPON"@[7] == '_');
                assert("CHARGED_WEAPON"@[8] == 'W');
                assert("CHARGED_WEAPON"@[9] == 'E');
                assert("CHARGED_WEAPON"@[10] == 'A');
                assert("CHARGED_WEAPON"@[11] == 'P');
                assert("CHARGED_WEAPON"@[12] == 'O');
                assert("CHARGED_WEAPON"@[13] == 'N');
                assert(clean_atom("CHARGED_WEAPON"@));
            },
            EnchantType::DamageHealth => {
                assert("DAMAGE_HEALTH"@.len() == 13);
                assert("DAMAGE_HEALTH"@[0] == 'D');
                assert("DAMAGE_HEALTH"@[1] == 'A');
                assert("DAMAGE_HEALTH"@[2] == 'M');
                assert("DAMAGE_HEALTH"@[3] == 'A');
                assert("DAMAGE_HEALTH"@[4] == 'G');
                assert("DAMAGE_HEALTH"@[5] == 'E');
                assert("DAMAGE_HEALTH"@[6] == '_');
                assert("DAMAGE_HEALTH"@[7] == 'H');
                assert("DAMAGE_HEALTH"@[8] == 'E');
                assert("DAMAGE_HEALTH"@[9] == 'A');
                assert("DAMAGE_HEALTH"@[10] == 'L');
                assert("DAMAGE_HEALTH"@[11] == 'T');
                assert("DAMAGE_HEALTH"@[12] == 'H');
                assert(clean_atom("DAMAGE_HEALTH"@));
            },
            EnchantType::DamageShield => {
                assert("DAMAGE_SHIELD"@.len() == 13);
                assert("DAMAGE_SHIELD"@[0] == 'D');
                assert("DAMAGE_SHIELD"@[1] == 'A');
                assert("DAMAGE_SHIELD"@[2] == 'M');
                assert("DAMAGE_SHIELD"@[3] == 'A');
                assert("DAMAGE_SHIELD"@[4] == 'G');
                assert("DAMAGE_SHIELD"@[5] == 'E');
                assert("DAMAGE_SHIELD"@[6] == '_');
                assert("DAMAGE_SHIELD"@[7] == 'S');
                assert("DAMAGE_SHIELD"@[8] == 'H');
                assert("DAMAGE_SHIELD"@[9] == 'I');
                assert("DAMAGE_SHIELD"@[10] == 'E');
                assert("DAMAGE_SHIELD"@[11] == 'L');
                assert("DAMAGE_SHIELD"@[12] == 'D');
                assert(clean_atom("DAMAGE_SHIELD"@));
            },
            EnchantType::FieryWeapon => {
                assert("FIERY_WEAPON"@.len() == 12);
                assert("FIERY_WEAPON"@[0] == 'F');
                assert("FIERY_WEAPON"@[1] == 'I');
                assert("FIERY_WEAPON"@[2] == 'E');
                assert("FIERY_WEAPON"@[3] == 'R');
                assert("FIERY_WEAPON"@[4] == 'Y');
                assert("FIERY_WEAPON"@[5] == '_');
                assert("FIERY_WEAPON"@[6] == 'W');
                assert("FIERY_WEAPON"@[7] == 'E');
                assert("FIERY_WEAPON"@[8] == 'A');
                assert("FIERY_WEAPON"@[9] == 'P');
                assert("FIERY_WEAPON"@[10] == 'O');
                assert("FIERY_WEAPON"@[11] == 'N');
                assert(clean_atom("FIERY_WEAPON"@));
            },
            EnchantType::FrozenWeapon => {
                assert("FROZEN_WEAPON"@.len() == 13);
                assert("FROZEN_WEAPON"@[0] == 'F');
                assert("FROZEN_WEAPON"@[1] == 'R');
                assert("FROZEN_WEAPON"@[2] == 'O');
                assert("FROZEN_WEAPON"@[3] == 'Z');
                assert("FROZEN_WEAPON"@[4] == 'E');
                assert("FROZEN_WEAPON"@[5] == 'N');
                assert("FROZEN_WEAPON"@[6] == '_');
                assert("FROZEN_WEAPON"@[7] == 'W');
                assert("FROZEN_WEAPON"@[8] == 'E');
                assert("FROZEN_WEAPON"@[9] == 'A');
                assert("FROZEN_WEAPON"@[10] == 'P');
                assert("FROZEN_WEAPON"@[11] == 'O');
                assert("FROZEN_WEAPON"@[12] == 'N');
                assert(clean_atom("FROZEN_WEAPON"@));
            },
            EnchantType::Health => {
                assert("HEALTH"@.len() == 6);
                assert("HEALTH"@[0] == 'H');
                assert("HEALTH"@[1] == 'E');
                assert("HEALTH"@[2] == 'A');
                assert("HEALTH"@[3] == 'L');
                assert("HEALTH"@[4] == 'T');
                assert("HEALTH"@[5] == 'H');
                assert(clean_atom("HEALTH"@));
            },
            EnchantType::IncreaseBashDamage => {
                assert("INCREASE_BASH_DAMAGE"@.len() == 20);
                assert("INCREASE_BASH_DAMAGE"@[0] == 'I');
                assert("INCREASE_BASH_DAMAGE"@[1] == 'N');
                assert("INCREASE_BASH_DAMAGE"@[2] == 'C');
                assert("INCREASE_BASH_DAMAGE"@[3] == 'R');
                assert("INCREASE_BASH_DAMAGE"@[4] == 'E');
                assert("INCREASE_BASH_DAMAGE"@[5] == 'A');
                assert("INCREASE_BASH_DAMAGE"@[6] == 'S');
                assert("INCREASE_BASH_DAMAGE"@[7] == 'E');
                assert("INCREASE_BASH_DAMAGE"@[8] == '_');
                assert("INCREASE_BASH_DAMAGE"@[9] == 'B');
                assert("INCREASE_BASH_DAMAGE"@[10] == 'A');
                assert("INCREASE_BASH_DAMAGE"@[11] == 'S');
                assert("INCREASE_BASH_DAMAGE"@[12] == 'H');
                assert("INCREASE_BASH_DAMAGE"@[13] == '_');
                assert("INCREASE_BASH_DAMAGE"@[14] == 'D');
                assert("INCREASE_BASH_DAMAGE"@[15] == 'A');
                assert("INCREASE_BASH_DAMAGE"@[16] == 'M');
                assert("INCREASE_BASH_DAMAGE"@[17] == 'A');
                assert("INCREASE_BASH_DAMAGE"@[18] == 'G');
                assert("INCREASE_BASH_DAMAGE"@[19] == 'E');
                assert(clean_atom("INCREASE_BASH_DAMAGE"@));
            },
            EnchantType::IncreasePhysicalDamage => {
                assert("INCREASE_PHYSICAL_DAMAGE"@.len() == 24);
                assert("INCREASE_PHYSICAL_DAMAGE"@[0] == 'I');
                assert("INCREASE_PHYSICAL_DAMAGE"@[1] == 'N');
                assert("INCREASE_PHYSICAL_DAMAGE"@[2] == 'C');
                assert("INCREASE_PHYSICAL_DAMAGE"@[3] == 'R');
                assert("INCREASE_PHYSICAL_DAMAGE"@[4] == 'E');
                assert("INCREASE_PHYSICAL_DAMAGE"@[5] == 'A');
                assert("INCREASE_PHYSICAL_DAMAGE"@[6] == 'S');
                assert("INCREASE_PHYSICAL_DAMAGE"@[7] == 'E');
                assert("INCREASE_PHYSICAL_DAMAGE"@[8] == '_');
                assert("INCREASE_PHYSICAL_DAMAGE"@[9] == 'P');
                assert("INCREASE_PHYSICAL_DAMAGE"@[10] == 'H');
                assert("INCREASE_PHYSICAL_DAMAGE"@[11] == 'Y');
                assert("INCREASE_PHYSICAL_DAMAGE"@[12] == 'S');
                assert("INCREASE_PHYSICAL_DAMAGE"@[13] == 'I');
                assert("INCREASE_PHYSICAL_DAMAGE"@[14] == 'C');
                assert("INCREASE_PHYSICAL_DAMAGE"@[15] == 'A');
                assert("INCREASE_PHYSICAL_DAMAGE"@[16] == 'L');
                assert("INCREASE_PHYSICAL_DAMAGE"@[17] == '_');
                assert("INCREASE_PHYSICAL_DAMAGE"@[18] == 'D');
                assert("INCREASE_PHYSICAL_DAMAGE"@[19] == 'A');
                assert("INCREASE_PHYSICAL_DAMAGE"@[20] == 'M');
                assert("INCREASE_PHYSICAL_DAMAGE"@[21] == 'A');
                assert("INCREASE_PHYSICAL_DAMAGE"@[22] == 'G');
                assert("INCREASE_PHYSICAL_DAMAGE"@[23] == 'E');
                assert(clean_atom("INCREASE_PHYSICAL_DAMAGE"@));
            },
            EnchantType::IncreaseSpellDamage => {
                assert("INCREASE_SPELL_DAMAGE"@.len() == 21);
                assert("INCREASE_SPELL_DAMAGE"@[0] == 'I');
                assert("INCREASE_SPELL_DAMAGE"@[1] == 'N');
                assert("INCREASE_SPELL_DAMAGE"@[2] == 'C');
                assert("INCREASE_SPELL_DAMAGE"@[3] == 'R');
                assert("INCREASE_SPELL_DAMAGE"@[4] == 'E');
                assert("INCREASE_SPELL_DAMAGE"@[5] == 'A');
                assert("INCREASE_SPELL_DAMAGE"@[6] == 'S');
                assert("INCREASE_SPELL_DAMAGE"@[7] == 'E');
                assert("INCREASE_SPELL_DAMAGE"@[8] == '_');
                assert("INCREASE_SPELL_DAMAGE"@[9] == 'S');
                assert("INCREASE_SPELL_DAMAGE"@[10] == 'P');
                assert("INCREASE_SPELL_DAMAGE"@[11] == 'E');
                assert("INCREASE_SPELL_DAMAGE"@[12] == 'L');
                assert("INCREASE_SPELL_DAMAGE"@[13] == 'L');
                assert("INCREASE_SPELL_DAMAGE"@[14] == '_');
                assert("INCREASE_SPELL_DAMAGE"@[15] == 'D');
                assert("INCREASE_SPELL_DAMAGE"@[16] == 'A');
                assert("INCREASE_SPELL_DAMAGE"@[17] == 'M');
                assert("INCREASE_SPELL_DAMAGE"@[18] == 'A');
                assert("INCREASE_SPELL_DAMAGE"@[19] == 'G');
                assert("INCREASE_SPELL_DAMAGE"@[20] == 'E');
                assert(clean_atom("INCREASE_SPELL_DAMAGE"@));
            },
            EnchantType::Invalid => {
                assert("INVALID"@.len() == 7);
                assert("INVALID"@[0] == 'I');
                assert("INVALID"@[1] == 'N');
                assert("INVALID"@[2] == 'V');
                assert("INVALID"@[3] == 'A');
                assert("INVALID"@[4] == 'L');
                assert("INVALID"@[5] == 'I');
                assert("INVALID"@[6] == 'D');
                assert(clean_atom("INVALID"@));
            },
            EnchantType::Magicka => {
                assert("MAGICKA"@.len() == 7);
                assert("MAGICKA"@[0] == 'M');
                assert("MAGICKA"@[1] == 'A');
                assert("MAGICKA"@[2] == 'G');
                assert("MAGICKA"@[3] == 'I');
                assert("MAGICKA"@[4] == 'C');
                assert("MAGICKA"@[5] == 'K');
                assert("MAGICKA"@[6] == 'A');
                assert(clean_atom("MAGICKA"@));
            },
            EnchantType::NoneKind => {
                assert("NONE"@.len() == 4);
                assert("NONE"@[0] == 'N');
                assert("NONE"@[1] == 'O');
                assert("NONE"@[2] == 'N');
                assert("NONE"@[3] == 'E');
                assert(clean_atom("NONE"@));
            },
            EnchantType::PoisonedWeapon => {
                assert("POISONED_WEAPON"@.len() == 15);
                assert("POISONED_WEAPON"@[0] == 'P');
                assert("POISONED_WEAPON"@[1] == 'O');
                assert("POISONED_WEAPON"@[2] == 'I');
                assert("POISONED_WEAPON"@[3] == 'S');
                assert("POISONED_WEAPON"@[4] == 'O');
                assert("POISONED_WEAPON"@[5] == 'N');
                assert("POISONED_WEAPON"@[6] == 'E');
                assert("POISONED_WEAPON"@[7] == 'D');
                assert("POISONED_WEAPON"@[8] == '_');
                assert("POISONED_WEAPON"@[9] == 'W');
                assert("POISONED_WEAPON"@[10] == 'E');
                assert("POISONED_WEAPON"@[11] == 'A');
                assert("POISONED_WEAPON"@[12] == 'P');
                assert("POISONED_WEAPON"@[13] == 'O');
                assert("POISONED_WEAPON"@[14] == 'N');
                assert(clean_atom("POISONED_WEAPON"@));
            },
            EnchantType::PrismaticDefense => {
                assert("PRISMATIC_DEFENSE"@.len() == 17);
                assert("PRISMATIC_DEFENSE"@[0] == 'P');
                assert("PRISMATIC_DEFENSE"@[1] == 'R');
                assert("PRISMATIC_DEFENSE"@[2] == 'I');
                assert("PRISMATIC_DEFENSE"@[3] == 'S');
                assert("PRISMATIC_DEFENSE"@[4] == 'M');
                assert("PRISMATIC_DEFENSE"@[5] == 'A');
                assert("PRISMATIC_DEFENSE"@[6] == 'T');
                assert("PRISMATIC_DEFENSE"@[7] == 'I');
                assert("PRISMATIC_DEFENSE"@[8] == 'C');
                assert("PRISMATIC_DEFENSE"@[9] == '_');
                assert("PRISMATIC_DEFENSE"@[10] == 'D');
                assert("PRISMATIC_DEFENSE"@[11] == 'E');
                assert("PRISMATIC_DEFENSE"@[12] == 'F');
                assert("PRISMATIC_DEFENSE"@[13] == 'E');
                assert("PRISMATIC_DEFENSE"@[14] == 'N');
                assert("PRISMATIC_DEFENSE"@[15] == 'S');
                assert("PRISMATIC_DEFENSE"@[16] == 'E');
                assert(clean_atom("PRISMATIC_DEFENSE"@));
            },
            EnchantType::ReduceArmor => {
                assert("REDUCE_ARMOR"@.len() == 12);
                assert("REDUCE_ARMOR"@[0] == 'R');
                assert("REDUCE_ARMOR"@[1] == 'E');
                assert("REDUCE_ARMOR"@[2] == 'D');
                assert("REDUCE_ARMOR"@[3] == 'U');
                assert("REDUCE_ARMOR"@[4] == 'C');
                assert("REDUCE_ARMOR"@[5] == 'E');
                assert("REDUCE_ARMOR"@[6] == '_');
                assert("REDUCE_ARMOR"@[7] == 'A');
                assert("REDUCE_ARMOR"@[8] == 'R');
                assert("REDUCE_ARMOR"@[9] == 'M');
                assert("REDUCE_ARMOR"@[10] == 'O');
                assert("REDUCE_ARMOR"@[11] == 'R');
                assert(clean_atom("REDUCE_ARMOR"@));
            },
            EnchantType::ReduceBlockAndBash => {
                assert("REDUCE_BLOCK_AND_BASH"@.len() == 21);
                assert("REDUCE_BLOCK_AND_BASH"@[0] == 'R');
                assert("REDUCE_BLOCK_AND_BASH"@[1] == 'E');
                assert("REDUCE_BLOCK_AND_BASH"@[2] == 'D');
                assert("REDUCE_BLOCK_AND_BASH"@[3] == 'U');
                assert("REDUCE_BLOCK_AND_BASH"@[4] == 'C');
                assert("REDUCE_BLOCK_AND_BASH"@[5] == 'E');
                assert("REDUCE_BLOCK_AND_BASH"@[6] == '_');
                assert("REDUCE_BLOCK_AND_BASH"@[7] == 'B');
                assert("REDUCE_BLOCK_AND_BASH"@[8] == 'L');
                assert("REDUCE_BLOCK_AND_BASH"@[9] == 'O');
                assert("REDUCE_BLOCK_AND_BASH"@[10] == 'C');
                assert("REDUCE_BLOCK_AND_BASH"@[11] == 'K');
                assert("REDUCE_BLOCK_AND_BASH"@[12] == '_');
                assert("REDUCE_BLOCK_AND_BASH"@[13] == 'A');
                assert("REDUCE_BLOCK_AND_BASH"@[14] == 'N');
                assert("REDUCE_BLOCK_AND_BASH"@[15] == 'D');
                assert("REDUCE_BLOCK_AND_BASH"@[16] == '_');
                assert("REDUCE_BLOCK_AND_BASH"@[17] == 'B');
                assert("REDUCE_BLOCK_AND_BASH"@[18] == 'A');
                assert("REDUCE_BLOCK_AND_BASH"@[19] == 'S');
                assert("REDUCE_BLOCK_AND_BASH"@[20] == 'H');
                assert(clean_atom("REDUCE_BLOCK_AND_BASH"@));
            },
            EnchantType::ReduceFeatCost => {
                assert("REDUCE_FEAT_COST"@.len() == 16);
                assert("REDUCE_FEAT_COST"@[0] == 'R');
                assert("REDUCE_FEAT_COST"@[1] == 'E');
                assert("REDUCE_FEAT_COST"@[2] == 'D');
                assert("REDUCE_FEAT_COST"@[3] == 'U');
                assert("REDUCE_FEAT_COST"@[4] == 'C');
                assert("REDUCE_FEAT_COST"@[5] == 'E');
                assert("REDUCE_FEAT_COST"@[6] == '_');
                assert("REDUCE_FEAT_COST"@[7] == 'F');
                assert("REDUCE_FEAT_COST"@[8] == 'E');
                assert("REDUCE_FEAT_COST"@[9] == 'A');
                assert("REDUCE_FEAT_COST"@[10] == 'T');
                assert("REDUCE_FEAT_COST"@[11] == '_');
                assert("REDUCE_FEAT_COST"@[12] == 'C');
                assert("REDUCE_FEAT_COST"@[13] == 'O');
                assert("REDUCE_FEAT_COST"@[14] == 'S');
                assert("REDUCE_FEAT_COST"@[15] == 'T');
                assert(clean_atom("REDUCE_FEAT_COST"@));
            },
            EnchantType::ReducePotionCooldown => {
                assert("REDUCE_POTION_COOLDOWN"@.len() == 22);
                assert("REDUCE_POTION_COOLDOWN"@[0] == 'R');
                assert("REDUCE_POTION_COOLDOWN"@[1] == 'E');
                assert("REDUCE_POTION_COOLDOWN"@[2] == 'D');
                assert("REDUCE_POTION_COOLDOWN"@[3] == 'U');
                assert("REDUCE_POTION_COOLDOWN"@[4] == 'C');
                assert("REDUCE_POTION_COOLDOWN"@[5] == 'E');
                assert("REDUCE_POTION_COOLDOWN"@[6] == '_');
                assert("REDUCE_POTION_COOLDOWN"@[7] == 'P');
                assert("REDUCE_POTION_COOLDOWN"@[8] == 'O');
                assert("REDUCE_POTION_COOLDOWN"@[9] == 'T');
                assert("REDUCE_POTION_COOLDOWN"@[10] == 'I');
                assert("REDUCE_POTION_COOLDOWN"@[11] == 'O');
                assert("REDUCE_POTION_COOLDOWN"@[12] == 'N');
                assert("REDUCE_POTION_COOLDOWN"@[13] == '_');
                assert("REDUCE_POTION_COOLDOWN"@[14] == 'C');
                assert("REDUCE_POTION_COOLDOWN"@[15] == 'O');
                assert("REDUCE_POTION_COOLDOWN"@[16] == 'O');
                assert("REDUCE_POTION_COOLDOWN"@[17] == 'L');
                assert("REDUCE_POTION_COOLDOWN"@[18] == 'D');
                assert("REDUCE_POTION_COOLDOWN"@[19] == 'O');
                assert("REDUCE_POTION_COOLDOWN"@[20] == 'W');
                assert("REDUCE_POTION_COOLDOWN"@[21] == 'N');
                assert(clean_atom("REDUCE_POTION_COOLDOWN"@));
            },
            EnchantType::ReducePower => {
                assert("REDUCE_POWER"@.len() == 12);
                assert("REDUCE_POWER"@[0] == 'R');
                assert("REDUCE_POWER"@[1] == 'E');
                assert("REDUCE_POWER"@[2] == 'D');
                assert("REDUCE_POWER"@[3] == 'U');
                assert("REDUCE_POWER"@[4] == 'C');
                assert("REDUCE_POWER"@[5] == 'E');
                assert("REDUCE_POWER"@[6] == '_');
                assert("REDUCE_POWER"@[7] == 'P');
                assert("REDUCE_POWER"@[8] == 'O');
                assert("REDUCE_POWER"@[9] == 'W');
                assert("REDUCE_POWER"@[10] == 'E');
                assert("REDUCE_POWER"@[11] == 'R');
                assert(clean_atom("REDUCE_POWER"@));
            },
            EnchantType::ReduceSpellCost => {
                assert("REDUCE_SPELL_COST"@.len() == 17);
                assert("REDUCE_SPELL_COST"@[0] == 'R');
                assert("REDUCE_SPELL_COST"@[1] == 'E');
                assert("REDUCE_SPELL_COST"@[2] == 'D');
                assert("REDUCE_SPELL_COST"@[3] == 'U');
                assert("REDUCE_SPELL_COST"@[4] == 'C');
                assert("REDUCE_SPELL_COST"@[5] == 'E');
                assert("REDUCE_SPELL_COST"@[6] == '_');
                assert("REDUCE_SPELL_COST"@[7] == 'S');
                assert("REDUCE_SPELL_COST"@[8] == 'P');
                assert("REDUCE_SPELL_COST"@[9] == 'E');
                assert("REDUCE_SPELL_COST"@[10] == 'L');
                assert("REDUCE_SPELL_COST"@[11] == 'L');
                assert("REDUCE_SPELL_COST"@[12] == '_');
                assert("REDUCE_SPELL_COST"@[13] == 'C');
                assert("REDUCE_SPELL_COST"@[14] == 'O');
                assert("REDUCE_SPELL_COST"@[15] == 'S');
                assert("REDUCE_SPELL_COST"@[16] == 'T');
                assert(clean_atom("REDUCE_SPELL_COST"@));
            },
            EnchantType::Stamina => {
                assert("STAMINA"@.len() == 7);
                assert("STAMINA"@[0] == 'S');
                assert("STAMINA"@[1] == 'T');
                assert("STAMINA"@[2] == 'A');
                assert("STAMINA"@[3] == 'M');
                assert("STAMINA"@[4] == 'I');
                assert("STAMINA"@[5] == 'N');
                assert("STAMINA"@[6] == 'A');
                assert(clean_atom("STAMINA"@));
            },
        }
    }

    /// Parsing the spelled variant yields the variant and consumes one
    /// separator.
    pub proof fn lemma_parse_roundtrip(self, rest: Seq<char>)
        requires
            sep_ok(rest),
        ensures
            spec_parse_enchant_type(Self::spec_name(self) + rest) == Ok::<(EnchantType, Seq<char>), Error>((self, chop(rest))),
    {
        self.lemma_name_clean();
        lemma_clean_atom_is_atom(self.spec_name());
        lemma_next_token_atom(self.spec_name(), rest);
        self.lemma_name_roundtrip();
    }
}

/// Parses one `EnchantType` token.
pub open spec fn spec_parse_enchant_type(s: Seq<char>) -> Result<(EnchantType, Seq<char>), Error> {
    match spec_next_token(s) {
        None => Err(Error::UnexpectedEnd),
        Some((tok, rest)) => match EnchantType::spec_from_name(tok) {
            None => Err(Error::InvalidToken),
            Some(v) => Ok((v, rest)),
        },
    }
}

/// Reads one `EnchantType` token from the line.
pub fn parse_enchant_type(r: &mut EsoLogReaderLine) -> (res: Result<EnchantType, Error>)
    requires
        old(r).wf(),
    ensures
        final(r).wf(),
        match spec_parse_enchant_type(old(r).remaining()) {
            Ok((v, rest)) => res == Ok::<EnchantType, Error>(v) && final(r).remaining() == rest,
            Err(e) => res == Err::<EnchantType, Error>(e),
        },
{
    let tok = match r.next() {
        Some(t) => t,
        None => {
            return Err(Error::UnexpectedEnd);
        },
    };
    match EnchantType::from_token(tok) {
        Some(v) => Ok(v),
        None => Err(Error::InvalidToken),
    }
}

/// Leading identifier of an event body on the wire.
#[derive(Debug, Clone, Copy, PartialEq, Eq, Structural)]
pub enum EventTag {
    AbilityInfo,
    BeginCast,
    BeginCombat,
    BeginLog,
    BeginTrial,
    CombatEvent,
    EffectChanged,
    EffectInfo,
    EndCast,
    EndCombat,
    EndLog,
    EndTrial,
    HealthRegen,
    MapChanged,
    PlayerInfo,
    TrialInit,
    UnitAdded,
    UnitChanged,
    UnitRemoved,
    ZoneChanged,
}

impl EventTag {
    /// Wire spelling of this variant.
    pub open spec fn spec_name(self) -> Seq<char> {
        match self {
            EventTag::AbilityInfo => "ABILITY_INFO"@,
            EventTag::BeginCast => "BEGIN_CAST"@,
            EventTag::BeginCombat => "BEGIN_COMBAT"@,
            EventTag::BeginLog => "BEGIN_LOG"@,
            EventTag::BeginTrial => "BEGIN_TRIAL"@,
            EventTag::CombatEvent => "COMBAT_EVENT"@,
            EventTag::EffectChanged => "EFFECT_CHANGED"@,
            EventTag::EffectInfo => "EFFECT_INFO"@,
            EventTag::EndCast => "END_CAST"@,
            EventTag::EndCombat => "END_COMBAT"@,
            EventTag::EndLog => "END_LOG"@,
            EventTag::EndTrial => "END_TRIAL"@,
            EventTag::HealthRegen => "HEALTH_REGEN"@,
            EventTag::MapChanged => "MAP_CHANGED"@,
            EventTag::PlayerInfo => "PLAYER_INFO"@,
            EventTag::TrialInit => "TRIAL_INIT"@,
            EventTag::UnitAdded => "UNIT_ADDED"@,
            EventTag::UnitChanged => "UNIT_CHANGED"@,
            EventTag::UnitRemoved => "UNIT_REMOVED"@,
            EventTag::ZoneChanged => "ZONE_CHANGED"@,
        }
    }

    /// The variant spelled by the given token, if any.
    pub open spec fn spec_from_name(t: Seq<char>) -> Option<EventTag> {
        if t.len() == 7 {
            if t == "END_LOG"@ {
                Some(EventTag::EndLog)
            } else {
                None
            }
        } else if t.len() == 8 {
            if t == "END_CAST"@ {
                Some(EventTag::EndCast)
            } else if t == "MAP_INFO"@ {
                Some(EventTag::MapChanged)
            } else {
                None
            }
        } else if t.len() == 9 {
            if t == "BEGIN_LOG"@ {
                Some(EventTag::BeginLog)
            } else if t == "END_TRIAL"@ {
                Some(EventTag::EndTrial)
            } else if t == "ZONE_INFO"@ {
                Some(EventTag::ZoneChanged)
            } else {
                None
            }
        } else if t.len() == 10 {
            if t == "BEGIN_CAST"@ {
                Some(EventTag::BeginCast)
            } else if t == "END_COMBAT"@ {
                Some(EventTag::EndCombat)
            } else if t == "TRIAL_INIT"@ {
                Some(EventTag::TrialInit)
            } else if t == "UNIT_ADDED"@ {
                Some(EventTag::UnitAdded)
            } else {
                None
            }
        } else if t.len() == 11 {
            if t == "BEGIN_TRIAL"@ {
                Some(EventTag::BeginTrial)
            } else if t == "EFFECT_INFO"@ {
                Some(EventTag::EffectInfo)
            } else if t == "MAP_CHANGED"@ {
                Some(EventTag::MapChanged)
            } else if t == "PLAYER_INFO"@ {
                Some(EventTag::PlayerInfo)
            } else {
                None
            }
        } else if t.len() == 12 {
            if t == "ABILITY_INFO"@ {
                Some(EventTag::AbilityInfo)
            } else if t == "BEGIN_COMBAT"@ {
                Some(EventTag::BeginCombat)
            } else if t == "COMBAT_EVENT"@ {
                Some(EventTag::CombatEvent)
            } else if t == "HEALTH_REGEN"@ {
                Some(EventTag::HealthRegen)
            } else if t == "UNIT_CHANGED"@ {
                Some(EventTag::UnitChanged)
            } else if t == "UNIT_REMOVED"@ {
                Some(EventTag::UnitRemoved)
            } else if t == "ZONE_CHANGED"@ {
                Some(EventTag::ZoneChanged)
            } else {
                None
            }
        } else if t.len() == 14 {
            if t == "EFFECT_CHANGED"@ {
                Some(EventTag::EffectChanged)
            } else {
                None
            }
        } else {
            None
        }
    }

    pub fn name(&self) -> (r: &'static str)
        ensures
            r@ == self.spec_name(),
    {
        match self {
            EventTag::AbilityInfo => "ABILITY_INFO",
            EventTag::BeginCast => "BEGIN_CAST",
            EventTag::BeginCombat => "BEGIN_COMBAT",
            EventTag::BeginLog => "BEGIN_LOG",
            EventTag::BeginTrial => "BEGIN_TRIAL",
            EventTag::CombatEvent => "COMBAT_EVENT",
            EventTag::EffectChanged => "EFFECT_CHANGED",
            EventTag::EffectInfo => "EFFECT_INFO",
            EventTag::EndCast => "END_CAST",
            EventTag::EndCombat => "END_COMBAT",
            EventTag::EndLog => "END_LOG",
            EventTag::EndTrial => "END_TRIAL",
            EventTag::HealthRegen => "HEALTH_REGEN",
            EventTag::MapChanged => "MAP_CHANGED",
            EventTag::PlayerInfo => "PLAYER_INFO",
            EventTag::TrialInit => "TRIAL_INIT",
            EventTag::UnitAdded => "UNIT_ADDED",
            EventTag::UnitChanged => "UNIT_CHANGED",
            EventTag::UnitRemoved => "UNIT_REMOVED",
            EventTag::ZoneChanged => "ZONE_CHANGED",
        }
    }

    pub fn from_token(t: &str) -> (r: Option<EventTag>)
        ensures
            r == Self::spec_from_name(t@),
    {
        let n = t.unicode_len();
        if n == 7 {
            if str_eq(t, "END_LOG") {
                Some(EventTag::EndLog)
            } else {
                None
            }
        } else if n == 8 {
            if str_eq(t, "END_CAST") {
                Some(EventTag::EndCast)
            } else if str_eq(t, "MAP_INFO") {
                Some(EventTag::MapChanged)
            } else {
                None
            }
        } else if n == 9 {
            if str_eq(t, "BEGIN_LOG") {
                Some(EventTag::BeginLog)
            } else if str_eq(t, "END_TRIAL") {
                Some(EventTag::EndTrial)
            } else if str_eq(t, "ZONE_INFO") {
                Some(EventTag::ZoneChanged)
            } else {
                None
            }
        } else if n == 10 {
            if str_eq(t, "BEGIN_CAST") {
                Some(EventTag::BeginCast)
            } else if str_eq(t, "END_COMBAT") {
                Some(EventTag::EndCombat)
            } else if str_eq(t, "TRIAL_INIT") {
                Some(EventTag::TrialInit)
            } else if str_eq(t, "UNIT_ADDED") {
                Some(EventTag::UnitAdded)
            } else {
                None
            }
        } else if n == 11 {
            if str_eq(t, "BEGIN_TRIAL") {
                Some(EventTag::BeginTrial)
            } else if str_eq(t, "EFFECT_INFO") {
                Some(EventTag::EffectInfo)
            } else if str_eq(t, "MAP_CHANGED") {
                Some(EventTag::MapChanged)
            } else if str_eq(t, "PLAYER_INFO") {
                Some(EventTag::PlayerInfo)
            } else {
                None
            }
        } else if n == 12 {
            if str_eq(t, "ABILITY_INFO") {
                Some(EventTag::AbilityInfo)
            } else if str_eq(t, "BEGIN_COMBAT") {
                Some(EventTag::BeginCombat)
            } else if str_eq(t, "COMBAT_EVENT") {
                Some(EventTag::CombatEvent)
            } else if str_eq(t, "HEALTH_REGEN") {
                Some(EventTag::HealthRegen)
            } else if str_eq(t, "UNIT_CHANGED") {
                Some(EventTag::UnitChanged)
            } else if str_eq(t, "UNIT_REMOVED") {
                Some(EventTag::UnitRemoved)
            } else if str_eq(t, "ZONE_CHANGED") {
                Some(EventTag::ZoneChanged)
            } else {
                None
            }
        } else if n == 14 {
            if str_eq(t, "EFFECT_CHANGED") {
                Some(EventTag::EffectChanged)
            } else {
                None
            }
        } else {
            None
        }
    }

    /// Reading back a spelled variant yields the variant.
    pub proof fn lemma_name_roundtrip(self)
        ensures
            Self::spec_from_name(self.spec_name()) == Some(self),
    {
        reveal_strlit("ABILITY_INFO");
        reveal_strlit("BEGIN_CAST");
        reveal_strlit("BEGIN_COMBAT");
        reveal_strlit("BEGIN_LOG");
        reveal_strlit("BEGIN_TRIAL");
        reveal_strlit("COMBAT_EVENT");
        reveal_strlit("EFFECT_CHANGED");
        reveal_strlit("EFFECT_INFO");
        reveal_strlit("END_CAST");
        reveal_strlit("END_COMBAT");
        reveal_strlit("END_LOG");
        reveal_strlit("END_TRIAL");
        reveal_strlit("HEALTH_REGEN");
        reveal_strlit("MAP_CHANGED");
        reveal_strlit("MAP_INFO");
        reveal_strlit("PLAYER_INFO");
        reveal_strlit("TRIAL_INIT");
        reveal_strlit("UNIT_ADDED");
        reveal_strlit("UNIT_CHANGED");
        reveal_strlit("UNIT_REMOVED");
        reveal_strlit("ZONE_CHANGED");
        reveal_strlit("ZONE_INFO");
        assert("ABILITY_INFO"@.len() == 12);
        assert("BEGIN_CAST"@.len() == 10);
        assert("BEGIN_COMBAT"@.len() == 12);
        assert("BEGIN_LOG"@.len() == 9);
        assert("BEGIN_TRIAL"@.len() == 11);
        assert("COMBAT_EVENT"@.len() == 12);
        assert("EFFECT_CHANGED"@.len() == 14);
        assert("EFFECT_INFO"@.len() == 11);
        assert("END_CAST"@.len() == 8);
        assert("END_COMBAT"@.len() == 10);
        assert("END_LOG"@.len() == 7);
        assert("END_TRIAL"@.len() == 9);
        assert("HEALTH_REGEN"@.len() == 12);
        assert("MAP_CHANGED"@.len() == 11);
        assert("MAP_INFO"@.len() == 8);
        assert("PLAYER_INFO"@.len() == 11);
        assert("TRIAL_INIT"@.len() == 10);
        assert("UNIT_ADDED"@.len() == 10);
        assert("UNIT_CHANGED"@.len() == 12);
        assert("UNIT_REMOVED"@.len() == 12);
        assert("ZONE_CHANGED"@.len() == 12);
        assert("ZONE_INFO"@.len() == 9);
        assert("ABILITY_INFO"@[0] == 'A');
        assert("BEGIN_CAST"@[0] == 'B');
        assert("BEGIN_COMBAT"@[0] == 'B');
        assert("BEGIN_LOG"@[0] == 'B');
        assert("BEGIN_TRIAL"@[0] == 'B');
        assert("COMBAT_EVENT"@[0] == 'C');
        assert("EFFECT_INFO"@[0] == 'E');
        assert("END_CAST"@[0] == 'E');
        assert("END_COMBAT"@[0] == 'E');
        assert("END_TRIAL"@[0] == 'E');
        assert("HEALTH_REGEN"@[0] == 'H');
        assert("MAP_CHANGED"@[0] == 'M');
        assert("MAP_INFO"@[0] == 'M');
        assert("PLAYER_INFO"@[0] == 'P');
        assert("TRIAL_INIT"@[0] == 'T');
        assert("UNIT_ADDED"@[0] == 'U');
        assert("UNIT_CHANGED"@[0] == 'U');
        assert("UNIT_CHANGED"@[5] == 'C');
        assert("UNIT_REMOVED"@[0] == 'U');
        assert("UNIT_REMOVED"@[5] == 'R');
        assert("ZONE_CHANGED"@[0] == 'Z');
        assert("ZONE_INFO"@[0] == 'Z');
        match self {
            EventTag::AbilityInfo => assert(Self::spec_from_name(self.spec_name()) == Some(self)),
            EventTag::BeginCast => assert(Self::spec_from_name(self.spec_name()) == Some(self)),
            EventTag::BeginCombat => assert(Self::spec_from_name(self.spec_name()) == Some(self)),
            EventTag::BeginLog => assert(Self::spec_from_name(self.spec_name()) == Some(self)),
            EventTag::BeginTrial => assert(Self::spec_from_name(self.spec_name()) == Some(self)),
            EventTag::CombatEvent => assert(Self::spec_from_name(self.spec_name()) == Some(self)),
            EventTag::EffectChanged => assert(Self::spec_from_name(self.spec_name()) == Some(self)),
            EventTag::EffectInfo => assert(Self::spec_from_name(self.spec_name()) == Some(self)),
            EventTag::EndCast => assert(Self::spec_from_name(self.spec_name()) == Some(self)),
            EventTag::EndCombat => assert(Self::spec_from_name(self.spec_name()) == Some(self)),
            EventTag::EndLog => assert(Self::spec_from_name(self.spec_name()) == Some(self)),
            EventTag::EndTrial => assert(Self::spec_from_name(self.spec_name()) == Some(self)),
            EventTag::HealthRegen => assert(Self::spec_from_name(self.spec_name()) == Some(self)),
            EventTag::MapChanged => assert(Self::spec_from_name(self.spec_name()) == Some(self)),
            EventTag::PlayerInfo => assert(Self::spec_from_name(self.spec_name()) == Some(self)),
            EventTag::TrialInit => assert(Self::spec_from_name(self.spec_name()) == Some(self)),
            EventTag::UnitAdded => assert(Self::spec_from_name(self.spec_name()) == Some(self)),
            EventTag::UnitChanged => assert(Self::spec_from_name(self.spec_name()) == Some(self)),
            EventTag::UnitRemoved => assert(Self::spec_from_name(self.spec_name()) == Some(self)),
            EventTag::ZoneChanged => assert(Self::spec_from_name(self.spec_name()) == Some(self)),
        }
    }

    /// The wire spelling is capitals, digits and underscores only.
    pub proof fn lemma_name_clean(self)
        ensures
            clean_atom(self.spec_name()),
    {
        reveal_strlit("ABILITY_INFO");
        reveal_strlit("BEGIN_CAST");
        reveal_strlit("BEGIN_COMBAT");
        reveal_strlit("BEGIN_LOG");
        reveal_strlit("BEGIN_TRIAL");
        reveal_strlit("COMBAT_EVENT");
        reveal_strlit("EFFECT_CHANGED");
        reveal_strlit("EFFECT_INFO");
        reveal_strlit("END_CAST");
        reveal_strlit("END_COMBAT");
        reveal_strlit("END_LOG");
        reveal_strlit("END_TRIAL");
        reveal_strlit("HEALTH_REGEN");
        reveal_strlit("MAP_CHANGED");
        reveal_strlit("MAP_INFO");
        reveal_strlit("PLAYER_INFO");
        reveal_strlit("TRIAL_INIT");
        reveal_strlit("UNIT_ADDED");
        reveal_strlit("UNIT_CHANGED");
        reveal_strlit("UNIT_REMOVED");
        reveal_strlit("ZONE_CHANGED");
        reveal_strlit("ZONE_INFO");
        match self {
            EventTag::AbilityInfo => {
                assert("ABILITY_INFO"@.len() == 12);
                assert("ABILITY_INFO"@[0] == 'A');
                assert("ABILITY_INFO"@[1] == 'B');
                assert("ABILITY_INFO"@[2] == 'I');
                assert("ABILITY_INFO"@[3] == 'L');
                assert("ABILITY_INFO"@[4] == 'I');
                assert("ABILITY_INFO"@[5] == 'T');
                assert("ABILITY_INFO"@[6] == 'Y');
                assert("ABILITY_INFO"@[7] == '_');
                assert("ABILITY_INFO"@[8] == 'I');
                assert("ABILITY_INFO"@[9] == 'N');
                assert("ABILITY_INFO"@[10] == 'F');
                assert("ABILITY_INFO"@[11] == 'O');
                assert(clean_atom("ABILITY_INFO"@));
            },
            EventTag::BeginCast => {
                assert("BEGIN_CAST"@.len() == 10);
                assert("BEGIN_CAST"@[0] == 'B');
                assert("BEGIN_CAST"@[1] == 'E');
                assert("BEGIN_CAST"@[2] == 'G');
                assert("BEGIN_CAST"@[3] == 'I');
                assert("BEGIN_CAST"@[4] == 'N');
                assert("BEGIN_CAST"@[5] == '_');
                assert("BEGIN_CAST"@[6] == 'C');
                assert("BEGIN_CAST"@[7] == 'A');
                assert("BEGIN_CAST"@[8] == 'S');
                assert("BEGIN_CAST"@[9] == 'T');
                assert(clean_atom("BEGIN_CAST"@));
            },
            EventTag::BeginCombat => {
                assert("BEGIN_COMBAT"@.len() == 12);
                assert("BEGIN_COMBAT"@[0] == 'B');
                assert("BEGIN_COMBAT"@[1] == 'E');
                assert("BEGIN_COMBAT"@[2] == 'G');
                assert("BEGIN_COMBAT"@[3] == 'I');
                assert("BEGIN_COMBAT"@[4] == 'N');
                assert("BEGIN_COMBAT"@[5] == '_');
                assert("BEGIN_COMBAT"@[6] == 'C');
                assert("BEGIN_COMBAT"@[7] == 'O');
                assert("BEGIN_COMBAT"@[8] == 'M');
                assert("BEGIN_COMBAT"@[9] == 'B');
                assert("BEGIN_COMBAT"@[10] == 'A');
                assert("BEGIN_COMBAT"@[11] == 'T');
                assert(clean_atom("BEGIN_COMBAT"@));
            },
            EventTag::BeginLog => {
                assert("BEGIN_LOG"@.len() == 9);
                assert("BEGIN_LOG"@[0] == 'B');
                assert("BEGIN_LOG"@[1] == 'E');
                assert("BEGIN_LOG"@[2] == 'G');
                assert("BEGIN_LOG"@[3] == 'I');
                assert("BEGIN_LOG"@[4] == 'N');
                assert("BEGIN_LOG"@[5] == '_');
                assert("BEGIN_LOG"@[6] == 'L');
                assert("BEGIN_LOG"@[7] == 'O');
                assert("BEGIN_LOG"@[8] == 'G');
                assert(clean_atom("BEGIN_LOG"@));
            },
            EventTag::BeginTrial => {
                assert("BEGIN_TRIAL"@.len() == 11);
                assert("BEGIN_TRIAL"@[0] == 'B');
                assert("BEGIN_TRIAL"@[1] == 'E');
                assert("BEGIN_TRIAL"@[2] == 'G');
                assert("BEGIN_TRIAL"@[3] == 'I');
                assert("BEGIN_TRIAL"@[4] == 'N');
                assert("BEGIN_TRIAL"@[5] == '_');
                assert("BEGIN_TRIAL"@[6] == 'T');
                assert("BEGIN_TRIAL"@[7] == 'R');
                assert("BEGIN_TRIAL"@[8] == 'I');
                assert("BEGIN_TRIAL"@[9] == 'A');
                assert("BEGIN_TRIAL"@[10] == 'L');
                assert(clean_atom("BEGIN_TRIAL"@));
            },
            EventTag::CombatEvent => {
                assert("COMBAT_EVENT"@.len() == 12);
                assert("COMBAT_EVENT"@[0] == 'C');
                assert("COMBAT_EVENT"@[1] == 'O');
                assert("COMBAT_EVENT"@[2] == 'M');
                assert("COMBAT_EVENT"@[3] == 'B');
                assert("COMBAT_EVENT"@[4] == 'A');
                assert("COMBAT_EVENT"@[5] == 'T');
                assert("COMBAT_EVENT"@[6] == '_');
                assert("COMBAT_EVENT"@[7] == 'E');
                assert("COMBAT_EVENT"@[8] == 'V');
                assert("COMBAT_EVENT"@[9] == 'E');
                assert("COMBAT_EVENT"@[10] == 'N');
                assert("COMBAT_EVENT"@[11] == 'T');
                assert(clean_atom("COMBAT_EVENT"@));
            },
            EventTag::EffectChanged => {
                assert("EFFECT_CHANGED"@.len() == 14);
                assert("EFFECT_CHANGED"@[0] == 'E');
                assert("EFFECT_CHANGED"@[1] == 'F');
                assert("EFFECT_CHANGED"@[2] == 'F');
                assert("EFFECT_CHANGED"@[3] == 'E');
                assert("EFFECT_CHANGED"@[4] == 'C');
                assert("EFFECT_CHANGED"@[5] == 'T');
                assert("EFFECT_CHANGED"@[6] == '_');
                assert("EFFECT_CHANGED"@[7] == 'C');
                assert("EFFECT_CHANGED"@[8] == 'H');
                assert("EFFECT_CHANGED"@[9] == 'A');
                assert("EFFECT_CHANGED"@[10] == 'N');
                assert("EFFECT_CHANGED"@[11] == 'G');
                assert("EFFECT_CHANGED"@[12] == 'E');
                assert("EFFECT_CHANGED"@[13] == 'D');
                assert(clean_atom("EFFECT_CHANGED"@));
            },
            EventTag::EffectInfo => {
                assert("EFFECT_INFO"@.len() == 11);
                assert("EFFECT_INFO"@[0] == 'E');
                assert("EFFECT_INFO"@[1] == 'F');
                assert("EFFECT_INFO"@[2] == 'F');
                assert("EFFECT_INFO"@[3] == 'E');
                assert("EFFECT_INFO"@[4] == 'C');
                assert("EFFECT_INFO"@[5] == 'T');
                assert("EFFECT_INFO"@[6] == '_');
                assert("EFFECT_INFO"@[7] == 'I');
                assert("EFFECT_INFO"@[8] == 'N');
                assert("EFFECT_INFO"@[9] == 'F');
                assert("EFFECT_INFO"@[10] == 'O');
                assert(clean_atom("EFFECT_INFO"@));
            },
            EventTag::EndCast => {
                assert("END_CAST"@.len() == 8);
                assert("END_CAST"@[0] == 'E');
                assert("END_CAST"@[1] == 'N');
                assert("END_CAST"@[2] == 'D');
                assert("END_CAST"@[3] == '_');
                assert("END_CAST"@[4] == 'C');
                assert("END_CAST"@[5] == 'A');
                assert("END_CAST"@[6] == 'S');
                assert("END_CAST"@[7] == 'T');
                assert(clean_atom("END_CAST"@));
            },
            EventTag::EndCombat => {
                assert("END_COMBAT"@.len() == 10);
                assert("END_COMBAT"@[0] == 'E');
                assert("END_COMBAT"@[1] == 'N');
                assert("END_COMBAT"@[2] == 'D');
                assert("END_COMBAT"@[3] == '_');
                assert("END_COMBAT"@[4] == 'C');
                assert("END_COMBAT"@[5] == 'O');
                assert("END_COMBAT"@[6] == 'M');
                assert("END_COMBAT"@[7] == 'B');
                assert("END_COMBAT"@[8] == 'A');
                assert("END_COMBAT"@[9] == 'T');
                assert(clean_atom("END_COMBAT"@));
            },
            EventTag::EndLog => {
                assert("END_LOG"@.len() == 7);
                assert("END_LOG"@[0] == 'E');
                assert("END_LOG"@[1] == 'N');
                assert("END_LOG"@[2] == 'D');
                assert("END_LOG"@[3] == '_');
                assert("END_LOG"@[4] == 'L');
                assert("END_LOG"@[5] == 'O');
                assert("END_LOG"@[6] == 'G');
                assert(clean_atom("END_LOG"@));
            },
            EventTag::EndTrial => {
                assert("END_TRIAL"@.len() == 9);
                assert("END_TRIAL"@[0] == 'E');
                assert("END_TRIAL"@[1] == 'N');
                assert("END_TRIAL"@[2] == 'D');
                assert("END_TRIAL"@[3] == '_');
                assert("END_TRIAL"@[4] == 'T');
                assert("END_TRIAL"@[5] == 'R');
                assert("END_TRIAL"@[6] == 'I');
                assert("END_TRIAL"@[7] == 'A');
                assert("END_TRIAL"@[8] == 'L');
                assert(clean_atom("END_TRIAL"@));
            },
            EventTag::HealthRegen => {
                assert("HEALTH_REGEN"@.len() == 12);
                assert("HEALTH_REGEN"@[0] == 'H');
                assert("HEALTH_REGEN"@[1] == 'E');
                assert("HEALTH_REGEN"@[2] == 'A');
                assert("HEALTH_REGEN"@[3] == 'L');
                assert("HEALTH_REGEN"@[4] == 'T');
                assert("HEALTH_REGEN"@[5] == 'H');
                assert("HEALTH_REGEN"@[6] == '_');
                assert("HEALTH_REGEN"@[7] == 'R');
                assert("HEALTH_REGEN"@[8] == 'E');
                assert("HEALTH_REGEN"@[9] == 'G');
                assert("HEALTH_REGEN"@[10] == 'E');
                assert("HEALTH_REGEN"@[11] == 'N');
                assert(clean_atom("HEALTH_REGEN"@));
            },
            EventTag::MapChanged => {
                assert("MAP_CHANGED"@.len() == 11);
                assert("MAP_CHANGED"@[0] == 'M');
                assert("MAP_CHANGED"@[1] == 'A');
                assert("MAP_CHANGED"@[2] == 'P');
                assert("MAP_CHANGED"@[3] == '_');
                assert("MAP_CHANGED"@[4] == 'C');
                assert("MAP_CHANGED"@[5] == 'H');
                assert("MAP_CHANGED"@[6] == 'A');
                assert("MAP_CHANGED"@[7] == 'N');
                assert("MAP_CHANGED"@[8] == 'G');
                assert("MAP_CHANGED"@[9] == 'E');
                assert("MAP_CHANGED"@[10] == 'D');
                assert(clean_atom("MAP_CHANGED"@));
            },
            EventTag::PlayerInfo => {
                assert("PLAYER_INFO"@.len() == 11);
                assert("PLAYER_INFO"@[0] == 'P');
                assert("PLAYER_INFO"@[1] == 'L');
                assert("PLAYER_INFO"@[2] == 'A');
                assert("PLAYER_INFO"@[3] == 'Y');
                assert("PLAYER_INFO"@[4] == 'E');
                assert("PLAYER_INFO"@[5] == 'R');
                assert("PLAYER_INFO"@[6] == '_');
                assert("PLAYER_INFO"@[7] == 'I');
                assert("PLAYER_INFO"@[8] == 'N');
                assert("PLAYER_INFO"@[9] == 'F');
                assert("PLAYER_INFO"@[10] == 'O');
                assert(clean_atom("PLAYER_INFO"@));
            },
            EventTag::TrialInit => {
                assert("TRIAL_INIT"@.len() == 10);
                assert("TRIAL_INIT"@[0] == 'T');
                assert("TRIAL_INIT"@[1] == 'R');
                assert("TRIAL_INIT"@[2] == 'I');
                assert("TRIAL_INIT"@[3] == 'A');
                assert("TRIAL_INIT"@[4] == 'L');
                assert("TRIAL_INIT"@[5] == '_');
                assert("TRIAL_INIT"@[6] == 'I');
                assert("TRIAL_INIT"@[7] == 'N');
                assert("TRIAL_INIT"@[8] == 'I');
                assert("TRIAL_INIT"@[9] == 'T');
                assert(clean_atom("TRIAL_INIT"@));
            },
            EventTag::UnitAdded => {
                assert("UNIT_ADDED"@.len() == 10);
                assert("UNIT_ADDED"@[0] == 'U');
                assert("UNIT_ADDED"@[1] == 'N');
                assert("UNIT_ADDED"@[2] == 'I');
                assert("UNIT_ADDED"@[3] == 'T');
                assert("UNIT_ADDED"@[4] == '_');
                assert("UNIT_ADDED"@[5] == 'A');
                assert("UNIT_ADDED"@[6] == 'D');
                assert("UNIT_ADDED"@[7] == 'D');
                assert("UNIT_ADDED"@[8] == 'E');
                assert("UNIT_ADDED"@[9] == 'D');
                assert(clean_atom("UNIT_ADDED"@));
            },
            EventTag::UnitChanged => {
                assert("UNIT_CHANGED"@.len() == 12);
                assert("UNIT_CHANGED"@[0] == 'U');
                assert("UNIT_CHANGED"@[1] == 'N');
                assert("UNIT_CHANGED"@[2] == 'I');
                assert("UNIT_CHANGED"@[3] == 'T');
                assert("UNIT_CHANGED"@[4] == '_');
                assert("UNIT_CHANGED"@[5] == 'C');
                assert("UNIT_CHANGED"@[6] == 'H');
                assert("UNIT_CHANGED"@[7] == 'A');
                assert("UNIT_CHANGED"@[8] == 'N');
                assert("UNIT_CHANGED"@[9] == 'G');
                assert("UNIT_CHANGED"@[10] == 'E');
                assert("UNIT_CHANGED"@[11] == 'D');
                assert(clean_atom("UNIT_CHANGED"@));
            },
            EventTag::UnitRemoved => {
                assert("UNIT_REMOVED"@.len() == 12);
                assert("UNIT_REMOVED"@[0] == 'U');
                assert("UNIT_REMOVED"@[1] == 'N');
                assert("UNIT_REMOVED"@[2] == 'I');
                assert("UNIT_REMOVED"@[3] == 'T');
                assert("UNIT_REMOVED"@[4] == '_');
                assert("UNIT_REMOVED"@[5] == 'R');
                assert("UNIT_REMOVED"@[6] == 'E');
                assert("UNIT_REMOVED"@[7] == 'M');
                assert("UNIT_REMOVED"@[8] == 'O');
                assert("UNIT_REMOVED"@[9] == 'V');
                assert("UNIT_REMOVED"@[10] == 'E');
                assert("UNIT_REMOVED"@[11] == 'D');
                assert(clean_atom("UNIT_REMOVED"@));
            },
            EventTag::ZoneChanged => {
                assert("ZONE_CHANGED"@.len() == 12);
                assert("ZONE_CHANGED"@[0] == 'Z');
                assert("ZONE_CHANGED"@[1] == 'O');
                assert("ZONE_CHANGED"@[2] == 'N');
                assert("ZONE_CHANGED"@[3] == 'E');
                assert("ZONE_CHANGED"@[4] == '_');
                assert("ZONE_CHANGED"@[5] == 'C');
                assert("ZONE_CHANGED"@[6] == 'H');
                assert("ZONE_CHANGED"@[7] == 'A');
                assert("ZONE_CHANGED"@[8] == 'N');
                assert("ZONE_CHANGED"@[9] == 'G');
                assert("ZONE_CHANGED"@[10] == 'E');
                assert("ZONE_CHANGED"@[11] == 'D');
                assert(clean_atom("ZONE_CHANGED"@));
            },
        }
    }

    /// Parsing the spelled variant yields the variant and consumes one
    /// separator.
    pub proof fn lemma_parse_roundtrip(self, rest: Seq<char>)
        requires
            sep_ok(rest),
        ensures
            spec_parse_event_tag(Self::spec_name(self) + rest) == Ok::<(EventTag, Seq<char>), Error>((self, chop(rest))),
    {
        self.lemma_name_clean();
        lemma_clean_atom_is_atom(self.spec_name());
        lemma_next_token_atom(self.spec_name(), rest);
        self.lemma_name_roundtrip();
    }
}

/// Parses one `EventTag` token.
pub open spec fn spec_parse_event_tag(s: Seq<char>) -> Result<(EventTag, Seq<char>), Error> {
    match spec_next_token(s) {
        None => Err(Error::UnexpectedEnd),
        Some((tok, rest)) => match EventTag::spec_from_name(tok) {
            None => Err(Error::InvalidToken),
            Some(v) => Ok((v, rest)),
        },
    }
}

/// Reads one `EventTag` token from the line.
pub fn parse_event_tag(r: &mut EsoLogReaderLine) -> (res: Result<EventTag, Error>)
    requires
        old(r).wf(),
    ensures
        final(r).wf(),
        match spec_parse_event_tag(old(r).remaining()) {
            Ok((v, rest)) => res == Ok::<EventTag, Error>(v) && final(r).remaining() == rest,
            Err(e) => res == Err::<EventTag, Error>(e),
        },
{
    let tok = match r.next() {
        Some(t) => t,
        None => {
            return Err(Error::UnexpectedEnd);
        },
    };
    match EventTag::from_token(tok) {
        Some(v) => Ok(v),
        None => Err(Error::InvalidToken),
    }
}
} // verus!
