//! Civilizations.

use std::cmp::Ordering;

use vstd::prelude::*;
use vstd::string::StringExecFns;

use crate::error::UnknownName;
use crate::order::compare_text;
use crate::order::text_order;
use crate::text::same_text;

verus! {

/// A civilization in AoEIV.
#[derive(Debug, Clone, PartialEq, Eq)]
pub enum Civilization {
    English,
    French,
    HolyRomanEmpire,
    Rus,
    Mongols,
    Chinese,
    AbbasidDynasty,
    DelhiSultanate,
    Ottomans,
    Malians,
    Byzantines,
    Japanese,
    JeanneDarc,
    Ayyubids,
    ZhuXisLegacy,
    OrderOfTheDragon,
    KnightsTemplar,
    HouseOfLancaster,
    GoldenHorde,
    MacedonianDynasty,
    SengokuDaimyo,
    TughlaqDynasty,
    /// A value that this library does not know by name; it keeps the text.
    Unknown(String),
}

impl Civilization {
    /// The text by which the API names this value.
    pub open spec fn name_text(self) -> Seq<char> {
        match self {
            Civilization::English => "english"@,
            Civilization::French => "french"@,
            Civilization::HolyRomanEmpire => "holy_roman_empire"@,
            Civilization::Rus => "rus"@,
            Civilization::Mongols => "mongols"@,
            Civilization::Chinese => "chinese"@,
            Civilization::AbbasidDynasty => "abbasid_dynasty"@,
            Civilization::DelhiSultanate => "delhi_sultanate"@,
            Civilization::Ottomans => "ottomans"@,
            Civilization::Malians => "malians"@,
            Civilization::Byzantines => "byzantines"@,
            Civilization::Japanese => "japanese"@,
            Civilization::JeanneDarc => "jeanne_darc"@,
            Civilization::Ayyubids => "ayyubids"@,
            Civilization::ZhuXisLegacy => "zhu_xis_legacy"@,
            Civilization::OrderOfTheDragon => "order_of_the_dragon"@,
            Civilization::KnightsTemplar => "knights_templar"@,
            Civilization::HouseOfLancaster => "house_of_lancaster"@,
            Civilization::GoldenHorde => "golden_horde"@,
            Civilization::MacedonianDynasty => "macedonian_dynasty"@,
            Civilization::SengokuDaimyo => "sengoku_daimyo"@,
            Civilization::TughlaqDynasty => "tughlaq_dynasty"@,
            Civilization::Unknown(text) => text@,
        }
    }

    /// Whether `text` is the name of one of the values listed by name.
    pub open spec fn is_name(text: Seq<char>) -> bool {
        ||| text == "english"@
        ||| text == "french"@
        ||| text == "holy_roman_empire"@
        ||| text == "rus"@
        ||| text == "mongols"@
        ||| text == "chinese"@
        ||| text == "abbasid_dynasty"@
        ||| text == "delhi_sultanate"@
        ||| text == "ottomans"@
        ||| text == "malians"@
        ||| text == "byzantines"@
        ||| text == "japanese"@
        ||| text == "jeanne_darc"@
        ||| text == "ayyubids"@
        ||| text == "zhu_xis_legacy"@
        ||| text == "order_of_the_dragon"@
        ||| text == "knights_templar"@
        ||| text == "house_of_lancaster"@
        ||| text == "golden_horde"@
        ||| text == "macedonian_dynasty"@
        ||| text == "sengoku_daimyo"@
        ||| text == "tughlaq_dynasty"@
    }

    /// The text by which the API names this value.
    pub fn name(&self) -> (text: &str)
        ensures
            text@ == self.name_text(),
    {
        match self {
            Civilization::English => "english",
            Civilization::French => "french",
            Civilization::HolyRomanEmpire => "holy_roman_empire",
            Civilization::Rus => "rus",
            Civilization::Mongols => "mongols",
            Civilization::Chinese => "chinese",
            Civilization::AbbasidDynasty => "abbasid_dynasty",
            Civilization::DelhiSultanate => "delhi_sultanate",
            Civilization::Ottomans => "ottomans",
            Civilization::Malians => "malians",
            Civilization::Byzantines => "byzantines",
            Civilization::Japanese => "japanese",
            Civilization::JeanneDarc => "jeanne_darc",
            Civilization::Ayyubids => "ayyubids",
            Civilization::ZhuXisLegacy => "zhu_xis_legacy",
            Civilization::OrderOfTheDragon => "order_of_the_dragon",
            Civilization::KnightsTemplar => "knights_templar",
            Civilization::HouseOfLancaster => "house_of_lancaster",
            Civilization::GoldenHorde => "golden_horde",
            Civilization::MacedonianDynasty => "macedonian_dynasty",
            Civilization::SengokuDaimyo => "sengoku_daimyo",
            Civilization::TughlaqDynasty => "tughlaq_dynasty",
            Civilization::Unknown(text) => text.as_str(),
        }
    }

    /// The name as an owned string.
    pub fn to_string(&self) -> (text: String)
        ensures
            text@ == self.name_text(),
    {
        String::from_str(self.name())
    }

    /// Reads a value from its name. A name that is not listed is kept as
    /// [`Civilization::Unknown`], so every text can be read and written back unchanged.
    pub fn from_name(text: &str) -> (value: Self)
        ensures
            value.name_text() == text@,
            value is Unknown <==> !Self::is_name(text@),
    {
        if same_text(text, "english") {
            Civilization::English
        } else if same_text(text, "french") {
            Civilization::French
        } else if same_text(text, "holy_roman_empire") {
            Civilization::HolyRomanEmpire
        } else if same_text(text, "rus") {
            Civilization::Rus
        } else if same_text(text, "mongols") {
            Civilization::Mongols
        } else if same_text(text, "chinese") {
            Civilization::Chinese
        } else if same_text(text, "abbasid_dynasty") {
            Civilization::AbbasidDynasty
        } else if same_text(text, "delhi_sultanate") {
            Civilization::DelhiSultanate
        } else if same_text(text, "ottomans") {
            Civilization::Ottomans
        } else if same_text(text, "malians") {
            Civilization::Malians
        } else if same_text(text, "byzantines") {
            Civilization::Byzantines
        } else if same_text(text, "japanese") {
            Civilization::Japanese
        } else if same_text(text, "jeanne_darc") {
            Civilization::JeanneDarc
        } else if same_text(text, "ayyubids") {
            Civilization::Ayyubids
        } else if same_text(text, "zhu_xis_legacy") {
            Civilization::ZhuXisLegacy
        } else if same_text(text, "order_of_the_dragon") {
            Civilization::OrderOfTheDragon
        } else if same_text(text, "knights_templar") {
            Civilization::KnightsTemplar
        } else if same_text(text, "house_of_lancaster") {
            Civilization::HouseOfLancaster
        } else if same_text(text, "golden_horde") {
            Civilization::GoldenHorde
        } else if same_text(text, "macedonian_dynasty") {
            Civilization::MacedonianDynasty
        } else if same_text(text, "sengoku_daimyo") {
            Civilization::SengokuDaimyo
        } else if same_text(text, "tughlaq_dynasty") {
            Civilization::TughlaqDynasty
        } else {
            Civilization::Unknown(text.to_owned())
        }
    }

    /// Every value that is listed by name, in declaration order.
    pub fn variants() -> (all: Vec<Self>)
        ensures
            all@.len() == 22,
            forall|i: int| 0 <= i < all@.len() ==> !(#[trigger] all@[i] is Unknown),
            forall|v: Self| !(v is Unknown) ==> all@.contains(v),
    {
        let mut all: Vec<Self> = Vec::new();
        all.push(Civilization::English);
        all.push(Civilization::French);
        all.push(Civilization::HolyRomanEmpire);
        all.push(Civilization::Rus);
        all.push(Civilization::Mongols);
        all.push(Civilization::Chinese);
        all.push(Civilization::AbbasidDynasty);
        all.push(Civilization::DelhiSultanate);
        all.push(Civilization::Ottomans);
        all.push(Civilization::Malians);
        all.push(Civilization::Byzantines);
        all.push(Civilization::Japanese);
        all.push(Civilization::JeanneDarc);
        all.push(Civilization::Ayyubids);
        all.push(Civilization::ZhuXisLegacy);
        all.push(Civilization::OrderOfTheDragon);
        all.push(Civilization::KnightsTemplar);
        all.push(Civilization::HouseOfLancaster);
        all.push(Civilization::GoldenHorde);
        all.push(Civilization::MacedonianDynasty);
        all.push(Civilization::SengokuDaimyo);
        all.push(Civilization::TughlaqDynasty);
        assert forall|v: Self| !(v is Unknown) implies all@.contains(v) by {
            match v {
                Civilization::English => assert(all@[0] == v),
                Civilization::French => assert(all@[1] == v),
                Civilization::HolyRomanEmpire => assert(all@[2] == v),
                Civilization::Rus => assert(all@[3] == v),
                Civilization::Mongols => assert(all@[4] == v),
                Civilization::Chinese => assert(all@[5] == v),
                Civilization::AbbasidDynasty => assert(all@[6] == v),
                Civilization::DelhiSultanate => assert(all@[7] == v),
                Civilization::Ottomans => assert(all@[8] == v),
                Civilization::Malians => assert(all@[9] == v),
                Civilization::Byzantines => assert(all@[10] == v),
                Civilization::Japanese => assert(all@[11] == v),
                Civilization::JeanneDarc => assert(all@[12] == v),
                Civilization::Ayyubids => assert(all@[13] == v),
                Civilization::ZhuXisLegacy => assert(all@[14] == v),
                Civilization::OrderOfTheDragon => assert(all@[15] == v),
                Civilization::KnightsTemplar => assert(all@[16] == v),
                Civilization::HouseOfLancaster => assert(all@[17] == v),
                Civilization::GoldenHorde => assert(all@[18] == v),
                Civilization::MacedonianDynasty => assert(all@[19] == v),
                Civilization::SengokuDaimyo => assert(all@[20] == v),
                Civilization::TughlaqDynasty => assert(all@[21] == v),
                Civilization::Unknown(_) => {},
            }
        }
        all
    }

    /// The names tell the listed values apart: two listed values with the same
    /// name are the same value.
    pub proof fn lemma_names_differ(a: Self, b: Self)
        requires
            !(a is Unknown),
            !(b is Unknown),
            a.name_text() == b.name_text(),
        ensures
            a == b,
    {
        reveal_strlit("english");
        reveal_strlit("french");
        reveal_strlit("holy_roman_empire");
        reveal_strlit("rus");
        reveal_strlit("mongols");
        reveal_strlit("chinese");
        reveal_strlit("abbasid_dynasty");
        reveal_strlit("delhi_sultanate");
        reveal_strlit("ottomans");
        reveal_strlit("malians");
        reveal_strlit("byzantines");
        reveal_strlit("japanese");
        reveal_strlit("jeanne_darc");
        reveal_strlit("ayyubids");
        reveal_strlit("zhu_xis_legacy");
        reveal_strlit("order_of_the_dragon");
        reveal_strlit("knights_templar");
        reveal_strlit("house_of_lancaster");
        reveal_strlit("golden_horde");
        reveal_strlit("macedonian_dynasty");
        reveal_strlit("sengoku_daimyo");
        reveal_strlit("tughlaq_dynasty");
        assert("english"@.len() == 7);
        assert("english"@[1] == 'n');
        assert("french"@.len() == 6);
        assert("holy_roman_empire"@.len() == 17);
        assert("rus"@.len() == 3);
        assert("mongols"@.len() == 7);
        assert("mongols"@[1] == 'o');
        assert("chinese"@.len() == 7);
        assert("chinese"@[1] == 'h');
        assert("abbasid_dynasty"@.len() == 15);
        assert("abbasid_dynasty"@[0] == 'a');
        assert("delhi_sultanate"@.len() == 15);
        assert("delhi_sultanate"@[0] == 'd');
        assert("ottomans"@.len() == 8);
        assert("ottomans"@[0] == 'o');
        assert("malians"@.len() == 7);
        assert("malians"@[1] == 'a');
        assert("byzantines"@.len() == 10);
        assert("japanese"@.len() == 8);
        assert("japanese"@[0] == 'j');
        assert("jeanne_darc"@.len() == 11);
        assert("ayyubids"@.len() == 8);
        assert("ayyubids"@[0] == 'a');
        assert("zhu_xis_legacy"@.len() == 14);
        assert("zhu_xis_legacy"@[0] == 'z');
        assert("order_of_the_dragon"@.len() == 19);
        assert("knights_templar"@.len() == 15);
        assert("knights_templar"@[0] == 'k');
        assert("house_of_lancaster"@.len() == 18);
        assert("house_of_lancaster"@[0] == 'h');
        assert("golden_horde"@.len() == 12);
        assert("macedonian_dynasty"@.len() == 18);
        assert("macedonian_dynasty"@[0] == 'm');
        assert("sengoku_daimyo"@.len() == 14);
        assert("sengoku_daimyo"@[0] == 's');
        assert("tughlaq_dynasty"@.len() == 15);
        assert("tughlaq_dynasty"@[0] == 't');
    }

    /// Reading gives back what was written: whatever [`Civilization::from_name`]
    /// promises to return for the name of a listed value is that value.
    pub proof fn law_name_round_trip(value: Self, read: Self)
        requires
            !(value is Unknown),
            read.name_text() == value.name_text(),
            read is Unknown <==> !Self::is_name(value.name_text()),
        ensures
            read == value,
    {
        Self::lemma_names_differ(value, read);
    }

    /// Orders the values by their names, as texts.
    pub fn cmp(&self, other: &Self) -> (order: Ordering)
        ensures
            order == text_order(self.name_text(), other.name_text()),
    {
        compare_text(self.name(), other.name())
    }
}

impl std::str::FromStr for Civilization {
    type Err = UnknownName;

    /// Reads a value from its name, as [`Civilization::from_name`] does: every text
    /// is read, and one that is not listed is kept as [`Civilization::Unknown`].
    fn from_str(text: &str) -> (value: Result<Self, UnknownName>)
        ensures
            value matches Ok(v) && v.name_text() == text@ && (v is Unknown <==> !Self::is_name(
                text@,
            )),
    {
        Ok(Self::from_name(text))
    }
}

impl PartialOrd for Civilization {
    /// Orders the values by their names, as texts.
    fn partial_cmp(&self, other: &Self) -> (order: Option<Ordering>) {
        Some(compare_text(self.name(), other.name()))
    }
}

impl vstd::std_specs::cmp::PartialOrdSpecImpl for Civilization {
    open spec fn obeys_partial_cmp_spec() -> bool {
        true
    }

    open spec fn partial_cmp_spec(&self, other: &Self) -> Option<Ordering> {
        Some(text_order(self.name_text(), other.name_text()))
    }
}

} // verus!
