//! A player's rank league.

use vstd::prelude::*;
use vstd::string::StringExecFns;

use crate::error::UnknownName;
use crate::text::same_text;

verus! {

/// A player's rank league and division (e.g. Conq III).
#[derive(Debug, Clone, PartialEq, Eq, PartialOrd, Ord)]
pub enum League {
    /// No rank.
    Unranked,
    Bronze1,
    Bronze2,
    Bronze3,
    Silver1,
    Silver2,
    Silver3,
    Gold1,
    Gold2,
    Gold3,
    Platinum1,
    Platinum2,
    Platinum3,
    Diamond1,
    Diamond2,
    Diamond3,
    Conqueror1,
    Conqueror2,
    Conqueror3,
    /// Reserved for professional players.
    Conqueror4,
    /// Unknown league.
    /// A value that this library does not know by name; it keeps the text.
    Unknown(String),
}

impl League {
    /// The text by which the API names this value.
    pub open spec fn name_text(self) -> Seq<char> {
        match self {
            League::Unranked => "unranked"@,
            League::Bronze1 => "bronze_1"@,
            League::Bronze2 => "bronze_2"@,
            League::Bronze3 => "bronze_3"@,
            League::Silver1 => "silver_1"@,
            League::Silver2 => "silver_2"@,
            League::Silver3 => "silver_3"@,
            League::Gold1 => "gold_1"@,
            League::Gold2 => "gold_2"@,
            League::Gold3 => "gold_3"@,
            League::Platinum1 => "platinum_1"@,
            League::Platinum2 => "platinum_2"@,
            League::Platinum3 => "platinum_3"@,
            League::Diamond1 => "diamond_1"@,
            League::Diamond2 => "diamond_2"@,
            League::Diamond3 => "diamond_3"@,
            League::Conqueror1 => "conqueror_1"@,
            League::Conqueror2 => "conqueror_2"@,
            League::Conqueror3 => "conqueror_3"@,
            League::Conqueror4 => "conqueror_4"@,
            League::Unknown(text) => text@,
        }
    }

    /// Whether `text` is the name of one of the values listed by name.
    pub open spec fn is_name(text: Seq<char>) -> bool {
        ||| text == "unranked"@
        ||| text == "bronze_1"@
        ||| text == "bronze_2"@
        ||| text == "bronze_3"@
        ||| text == "silver_1"@
        ||| text == "silver_2"@
        ||| text == "silver_3"@
        ||| text == "gold_1"@
        ||| text == "gold_2"@
        ||| text == "gold_3"@
        ||| text == "platinum_1"@
        ||| text == "platinum_2"@
        ||| text == "platinum_3"@
        ||| text == "diamond_1"@
        ||| text == "diamond_2"@
        ||| text == "diamond_3"@
        ||| text == "conqueror_1"@
        ||| text == "conqueror_2"@
        ||| text == "conqueror_3"@
        ||| text == "conqueror_4"@
    }

    /// The text by which the API names this value.
    pub fn name(&self) -> (text: &str)
        ensures
            text@ == self.name_text(),
    {
        match self {
            League::Unranked => "unranked",
            League::Bronze1 => "bronze_1",
            League::Bronze2 => "bronze_2",
            League::Bronze3 => "bronze_3",
            League::Silver1 => "silver_1",
            League::Silver2 => "silver_2",
            League::Silver3 => "silver_3",
            League::Gold1 => "gold_1",
            League::Gold2 => "gold_2",
            League::Gold3 => "gold_3",
            League::Platinum1 => "platinum_1",
            League::Platinum2 => "platinum_2",
            League::Platinum3 => "platinum_3",
            League::Diamond1 => "diamond_1",
            League::Diamond2 => "diamond_2",
            League::Diamond3 => "diamond_3",
            League::Conqueror1 => "conqueror_1",
            League::Conqueror2 => "conqueror_2",
            League::Conqueror3 => "conqueror_3",
            League::Conqueror4 => "conqueror_4",
            League::Unknown(text) => text.as_str(),
        }
    }

    /// The name as an owned string.
    pub fn to_string(&self) -> (text: String)
        ensures
            text@ == self.name_text(),
    {
        String::from_str(self.name())
    }

    /// Reads a value from its name. A name that is not listed is kept as
    /// [`League::Unknown`], so every text can be read and written back unchanged.
    pub fn from_name(text: &str) -> (value: Self)
        ensures
            value.name_text() == text@,
            value is Unknown <==> !Self::is_name(text@),
    {
        if same_text(text, "unranked") {
            League::Unranked
        } else if same_text(text, "bronze_1") {
            League::Bronze1
        } else if same_text(text, "bronze_2") {
            League::Bronze2
        } else if same_text(text, "bronze_3") {
            League::Bronze3
        } else if same_text(text, "silver_1") {
            League::Silver1
        } else if same_text(text, "silver_2") {
            League::Silver2
        } else if same_text(text, "silver_3") {
            League::Silver3
        } else if same_text(text, "gold_1") {
            League::Gold1
        } else if same_text(text, "gold_2") {
            League::Gold2
        } else if same_text(text, "gold_3") {
            League::Gold3
        } else if same_text(text, "platinum_1") {
            League::Platinum1
        } else if same_text(text, "platinum_2") {
            League::Platinum2
        } else if same_text(text, "platinum_3") {
            League::Platinum3
        } else if same_text(text, "diamond_1") {
            League::Diamond1
        } else if same_text(text, "diamond_2") {
            League::Diamond2
        } else if same_text(text, "diamond_3") {
            League::Diamond3
        } else if same_text(text, "conqueror_1") {
            League::Conqueror1
        } else if same_text(text, "conqueror_2") {
            League::Conqueror2
        } else if same_text(text, "conqueror_3") {
            League::Conqueror3
        } else if same_text(text, "conqueror_4") {
            League::Conqueror4
        } else {
            League::Unknown(text.to_owned())
        }
    }

    /// Every value that is listed by name, in declaration order.
    pub fn variants() -> (all: Vec<Self>)
        ensures
            all@.len() == 20,
            forall|i: int| 0 <= i < all@.len() ==> !(#[trigger] all@[i] is Unknown),
            forall|v: Self| !(v is Unknown) ==> all@.contains(v),
    {
        let mut all: Vec<Self> = Vec::new();
        all.push(League::Unranked);
        all.push(League::Bronze1);
        all.push(League::Bronze2);
        all.push(League::Bronze3);
        all.push(League::Silver1);
        all.push(League::Silver2);
        all.push(League::Silver3);
        all.push(League::Gold1);
        all.push(League::Gold2);
        all.push(League::Gold3);
        all.push(League::Platinum1);
        all.push(League::Platinum2);
        all.push(League::Platinum3);
        all.push(League::Diamond1);
        all.push(League::Diamond2);
        all.push(League::Diamond3);
        all.push(League::Conqueror1);
        all.push(League::Conqueror2);
        all.push(League::Conqueror3);
        all.push(League::Conqueror4);
        assert forall|v: Self| !(v is Unknown) implies all@.contains(v) by {
            match v {
                League::Unranked => assert(all@[0] == v),
                League::Bronze1 => assert(all@[1] == v),
                League::Bronze2 => assert(all@[2] == v),
                League::Bronze3 => assert(all@[3] == v),
                League::Silver1 => assert(all@[4] == v),
                League::Silver2 => assert(all@[5] == v),
                League::Silver3 => assert(all@[6] == v),
                League::Gold1 => assert(all@[7] == v),
                League::Gold2 => assert(all@[8] == v),
                League::Gold3 => assert(all@[9] == v),
                League::Platinum1 => assert(all@[10] == v),
                League::Platinum2 => assert(all@[11] == v),
                League::Platinum3 => assert(all@[12] == v),
                League::Diamond1 => assert(all@[13] == v),
                League::Diamond2 => assert(all@[14] == v),
                League::Diamond3 => assert(all@[15] == v),
                League::Conqueror1 => assert(all@[16] == v),
                League::Conqueror2 => assert(all@[17] == v),
                League::Conqueror3 => assert(all@[18] == v),
                League::Conqueror4 => assert(all@[19] == v),
                League::Unknown(_) => {},
            }
        }
        all
    }

    /// The names tell the listed values apart: two listed values with the same
    /// name are the same value.
    pub proof fn lemma_names_differ(a: Self, b: Self)
        requires
            !(a is Unknown),
            !(b is Unknown),
            a.name_text() == b.name_text(),
        ensures
            a == b,
    {
        reveal_strlit("unranked");
        reveal_strlit("bronze_1");
        reveal_strlit("bronze_2");
        reveal_strlit("bronze_3");
        reveal_strlit("silver_1");
        reveal_strlit("silver_2");
        reveal_strlit("silver_3");
        reveal_strlit("gold_1");
        reveal_strlit("gold_2");
        reveal_strlit("gold_3");
        reveal_strlit("platinum_1");
        reveal_strlit("platinum_2");
        reveal_strlit("platinum_3");
        reveal_strlit("diamond_1");
        reveal_strlit("diamond_2");
        reveal_strlit("diamond_3");
        reveal_strlit("conqueror_1");
        reveal_strlit("conqueror_2");
        reveal_strlit("conqueror_3");
        reveal_strlit("conqueror_4");
        assert("unranked"@.len() == 8);
        assert("unranked"@[0] == 'u');
        assert("unranked"@[7] == 'd');
        assert("bronze_1"@.len() == 8);
        assert("bronze_1"@[0] == 'b');
        assert("bronze_1"@[7] == '1');
        assert("bronze_2"@.len() == 8);
        assert("bronze_2"@[0] == 'b');
        assert("bronze_2"@[7] == '2');
        assert("bronze_3"@.len() == 8);
        assert("bronze_3"@[0] == 'b');
        assert("bronze_3"@[7] == '3');
        assert("silver_1"@.len() == 8);
        assert("silver_1"@[0] == 's');
        assert("silver_1"@[7] == '1');
        assert("silver_2"@.len() == 8);
        assert("silver_2"@[0] == 's');
        assert("silver_2"@[7] == '2');
        assert("silver_3"@.len() == 8);
        assert("silver_3"@[0] == 's');
        assert("silver_3"@[7] == '3');
        assert("gold_1"@.len() == 6);
        assert("gold_1"@[5] == '1');
        assert("gold_2"@.len() == 6);
        assert("gold_2"@[5] == '2');
        assert("gold_3"@.len() == 6);
        assert("gold_3"@[5] == '3');
        assert("platinum_1"@.len() == 10);
        assert("platinum_1"@[9] == '1');
        assert("platinum_2"@.len() == 10);
        assert("platinum_2"@[9] == '2');
        assert("platinum_3"@.len() == 10);
        assert("platinum_3"@[9] == '3');
        assert("diamond_1"@.len() == 9);
        assert("diamond_1"@[8] == '1');
        assert("diamond_2"@.len() == 9);
        assert("diamond_2"@[8] == '2');
        assert("diamond_3"@.len() == 9);
        assert("diamond_3"@[8] == '3');
        assert("conqueror_1"@.len() == 11);
        assert("conqueror_1"@[10] == '1');
        assert("conqueror_2"@.len() == 11);
        assert("conqueror_2"@[10] == '2');
        assert("conqueror_3"@.len() == 11);
        assert("conqueror_3"@[10] == '3');
        assert("conqueror_4"@.len() == 11);
        assert("conqueror_4"@[10] == '4');
    }

    /// Reading gives back what was written: whatever [`League::from_name`]
    /// promises to return for the name of a listed value is that value.
    pub proof fn law_name_round_trip(value: Self, read: Self)
        requires
            !(value is Unknown),
            read.name_text() == value.name_text(),
            read is Unknown <==> !Self::is_name(value.name_text()),
        ensures
            read == value,
    {
        Self::lemma_names_differ(value, read);
    }

    /// Is the league unranked?
    pub fn is_unranked(&self) -> (yes: bool)
        ensures
            yes == (*self is Unranked),
    {
        matches!(self, League::Unranked)
    }

    /// Is the league bronze?
    pub fn is_bronze(&self) -> (yes: bool)
        ensures
            yes == (*self is Bronze1 || *self is Bronze2 || *self is Bronze3),
    {
        matches!(self, League::Bronze1 | League::Bronze2 | League::Bronze3)
    }

    /// Is the league silver?
    pub fn is_silver(&self) -> (yes: bool)
        ensures
            yes == (*self is Silver1 || *self is Silver2 || *self is Silver3),
    {
        matches!(self, League::Silver1 | League::Silver2 | League::Silver3)
    }

    /// Is the league gold?
    pub fn is_gold(&self) -> (yes: bool)
        ensures
            yes == (*self is Gold1 || *self is Gold2 || *self is Gold3),
    {
        matches!(self, League::Gold1 | League::Gold2 | League::Gold3)
    }

    /// Is the league platinum?
    pub fn is_platinum(&self) -> (yes: bool)
        ensures
            yes == (*self is Platinum1 || *self is Platinum2 || *self is Platinum3),
    {
        matches!(self, League::Platinum1 | League::Platinum2 | League::Platinum3)
    }

    /// Is the league diamond?
    pub fn is_diamond(&self) -> (yes: bool)
        ensures
            yes == (*self is Diamond1 || *self is Diamond2 || *self is Diamond3),
    {
        matches!(self, League::Diamond1 | League::Diamond2 | League::Diamond3)
    }

    /// Is the league conqueror?
    pub fn is_conqueror(&self) -> (yes: bool)
        ensures
            yes == (*self is Conqueror1 || *self is Conqueror2 || *self is Conqueror3
                || *self is Conqueror4),
    {
        matches!(
            self,
            League::Conqueror1 | League::Conqueror2 | League::Conqueror3 | League::Conqueror4
        )
    }

    /// Whether the league is one of the metals: bronze, silver, gold or platinum.
    pub open spec fn metal(self) -> bool {
        ||| self is Bronze1
        ||| self is Bronze2
        ||| self is Bronze3
        ||| self is Silver1
        ||| self is Silver2
        ||| self is Silver3
        ||| self is Gold1
        ||| self is Gold2
        ||| self is Gold3
        ||| self is Platinum1
        ||| self is Platinum2
        ||| self is Platinum3
    }

    /// Is this a metal league?
    pub fn is_metal(&self) -> (yes: bool)
        ensures
            yes == self.metal(),
    {
        matches!(
            self,
            League::Bronze1
                | League::Bronze2
                | League::Bronze3
                | League::Silver1
                | League::Silver2
                | League::Silver3
                | League::Gold1
                | League::Gold2
                | League::Gold3
                | League::Platinum1
                | League::Platinum2
                | League::Platinum3
        )
    }
}

impl std::str::FromStr for League {
    type Err = UnknownName;

    /// Reads a value from its name, as [`League::from_name`] does: every text
    /// is read, and one that is not listed is kept as [`League::Unknown`].
    fn from_str(text: &str) -> (value: Result<Self, UnknownName>)
        ensures
            value matches Ok(v) && v.name_text() == text@ && (v is Unknown <==> !Self::is_name(
                text@,
            )),
    {
        Ok(Self::from_name(text))
    }
}

} // verus!
