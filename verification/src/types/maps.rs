//! Maps and their kinds.

use std::cmp::Ordering;

use vstd::prelude::*;
use vstd::string::StringExecFns;

use crate::error::UnknownName;
use crate::order::compare_text;
use crate::order::text_order;
use crate::text::same_text;

verus! {

/// A map in AoE4.
#[derive(Debug, Clone, PartialEq, Eq)]
pub enum GameMap {
    CraftedMap,
    Altai,
    AncientSpires,
    Archipelago,
    BlackForest,
    BoulderBay,
    Confluence,
    DanubeRiver,
    DryArabia,
    FrenchPass,
    HighView,
    HillAndDale,
    KingOfTheHill,
    Lipany,
    MongolianHeights,
    MountainPass,
    Nagari,
    WarringIslands,
    MegaRandom,
    ThePit,
    Oasis,
    Baltic,
    ForestPonds,
    Wetlands,
    Prairie,
    WateringHoles,
    Hideout,
    MountainClearing,
    Continental,
    Marshland,
    FourLakes,
    Migration,
    VolcanicIsland,
    GoldenHeights,
    AfricanWaters,
    Thickets,
    GoldenPit,
    Cliffside,
    Gorge,
    Canal,
    Glade,
    Haywire,
    TurtleRidge,
    RockyRiver,
    Himeyama,
    Forts,
    HiddenValley,
    /// A value that this library does not know by name; it keeps the text.
    Unknown(String),
}

impl GameMap {
    /// The text by which the API names this value.
    pub open spec fn name_text(self) -> Seq<char> {
        match self {
            GameMap::CraftedMap => "Crafted Map"@,
            GameMap::Altai => "Altai"@,
            GameMap::AncientSpires => "Ancient Spires"@,
            GameMap::Archipelago => "Archipelago"@,
            GameMap::BlackForest => "Black Forest"@,
            GameMap::BoulderBay => "Boulder Bay"@,
            GameMap::Confluence => "Confluence"@,
            GameMap::DanubeRiver => "Danube River"@,
            GameMap::DryArabia => "Dry Arabia"@,
            GameMap::FrenchPass => "French Pass"@,
            GameMap::HighView => "High View"@,
            GameMap::HillAndDale => "Hill and Dale"@,
            GameMap::KingOfTheHill => "King of the Hill"@,
            GameMap::Lipany => "Lipany"@,
            GameMap::MongolianHeights => "Mongolian Heights"@,
            GameMap::MountainPass => "Mountain Pass"@,
            GameMap::Nagari => "Nagari"@,
            GameMap::WarringIslands => "Warring Islands"@,
            GameMap::MegaRandom => "MegaRandom"@,
            GameMap::ThePit => "The Pit"@,
            GameMap::Oasis => "Oasis"@,
            GameMap::Baltic => "Baltic"@,
            GameMap::ForestPonds => "Forest Ponds"@,
            GameMap::Wetlands => "Wetlands"@,
            GameMap::Prairie => "Prairie"@,
            GameMap::WateringHoles => "Watering Holes"@,
            GameMap::Hideout => "Hideout"@,
            GameMap::MountainClearing => "Mountain Clearing"@,
            GameMap::Continental => "Continental"@,
            GameMap::Marshland => "Marshland"@,
            GameMap::FourLakes => "Four Lakes"@,
            GameMap::Migration => "Migration"@,
            GameMap::VolcanicIsland => "Volcanic Island"@,
            GameMap::GoldenHeights => "Golden Heights"@,
            GameMap::AfricanWaters => "African Waters"@,
            GameMap::Thickets => "Thickets"@,
            GameMap::GoldenPit => "Golden Pit"@,
            GameMap::Cliffside => "Cliffside"@,
            GameMap::Gorge => "Gorge"@,
            GameMap::Canal => "Canal"@,
            GameMap::Glade => "Glade"@,
            GameMap::Haywire => "Haywire"@,
            GameMap::TurtleRidge => "Turtle Ridge"@,
            GameMap::RockyRiver => "Rocky River"@,
            GameMap::Himeyama => "Himeyama"@,
            GameMap::Forts => "Forts"@,
            GameMap::HiddenValley => "Hidden Valley"@,
            GameMap::Unknown(text) => text@,
        }
    }

    /// Whether `text` is the name of one of the values listed by name.
    pub open spec fn is_name(text: Seq<char>) -> bool {
        ||| text == "Crafted Map"@
        ||| text == "Altai"@
        ||| text == "Ancient Spires"@
        ||| text == "Archipelago"@
        ||| text == "Black Forest"@
        ||| text == "Boulder Bay"@
        ||| text == "Confluence"@
        ||| text == "Danube River"@
        ||| text == "Dry Arabia"@
        ||| text == "French Pass"@
        ||| text == "High View"@
        ||| text == "Hill and Dale"@
        ||| text == "King of the Hill"@
        ||| text == "Lipany"@
        ||| text == "Mongolian Heights"@
        ||| text == "Mountain Pass"@
        ||| text == "Nagari"@
        ||| text == "Warring Islands"@
        ||| text == "MegaRandom"@
        ||| text == "The Pit"@
        ||| text == "Oasis"@
        ||| text == "Baltic"@
        ||| text == "Forest Ponds"@
        ||| text == "Wetlands"@
        ||| text == "Prairie"@
        ||| text == "Watering Holes"@
        ||| text == "Hideout"@
        ||| text == "Mountain Clearing"@
        ||| text == "Continental"@
        ||| text == "Marshland"@
        ||| text == "Four Lakes"@
        ||| text == "Migration"@
        ||| text == "Volcanic Island"@
        ||| text == "Golden Heights"@
        ||| text == "African Waters"@
        ||| text == "Thickets"@
        ||| text == "Golden Pit"@
        ||| text == "Cliffside"@
        ||| text == "Gorge"@
        ||| text == "Canal"@
        ||| text == "Glade"@
        ||| text == "Haywire"@
        ||| text == "Turtle Ridge"@
        ||| text == "Rocky River"@
        ||| text == "Himeyama"@
        ||| text == "Forts"@
        ||| text == "Hidden Valley"@
    }

    /// The text by which the API names this value.
    pub fn name(&self) -> (text: &str)
        ensures
            text@ == self.name_text(),
    {
        match self {
            GameMap::CraftedMap => "Crafted Map",
            GameMap::Altai => "Altai",
            GameMap::AncientSpires => "Ancient Spires",
            GameMap::Archipelago => "Archipelago",
            GameMap::BlackForest => "Black Forest",
            GameMap::BoulderBay => "Boulder Bay",
            GameMap::Confluence => "Confluence",
            GameMap::DanubeRiver => "Danube River",
            GameMap::DryArabia => "Dry Arabia",
            GameMap::FrenchPass => "French Pass",
            GameMap::HighView => "High View",
            GameMap::HillAndDale => "Hill and Dale",
            GameMap::KingOfTheHill => "King of the Hill",
            GameMap::Lipany => "Lipany",
            GameMap::MongolianHeights => "Mongolian Heights",
            GameMap::MountainPass => "Mountain Pass",
            GameMap::Nagari => "Nagari",
            GameMap::WarringIslands => "Warring Islands",
            GameMap::MegaRandom => "MegaRandom",
            GameMap::ThePit => "The Pit",
            GameMap::Oasis => "Oasis",
            GameMap::Baltic => "Baltic",
            GameMap::ForestPonds => "Forest Ponds",
            GameMap::Wetlands => "Wetlands",
            GameMap::Prairie => "Prairie",
            GameMap::WateringHoles => "Watering Holes",
            GameMap::Hideout => "Hideout",
            GameMap::MountainClearing => "Mountain Clearing",
            GameMap::Continental => "Continental",
            GameMap::Marshland => "Marshland",
            GameMap::FourLakes => "Four Lakes",
            GameMap::Migration => "Migration",
            GameMap::VolcanicIsland => "Volcanic Island",
            GameMap::GoldenHeights => "Golden Heights",
            GameMap::AfricanWaters => "African Waters",
            GameMap::Thickets => "Thickets",
            GameMap::GoldenPit => "Golden Pit",
            GameMap::Cliffside => "Cliffside",
            GameMap::Gorge => "Gorge",
            GameMap::Canal => "Canal",
            GameMap::Glade => "Glade",
            GameMap::Haywire => "Haywire",
            GameMap::TurtleRidge => "Turtle Ridge",
            GameMap::RockyRiver => "Rocky River",
            GameMap::Himeyama => "Himeyama",
            GameMap::Forts => "Forts",
            GameMap::HiddenValley => "Hidden Valley",
            GameMap::Unknown(text) => text.as_str(),
        }
    }

    /// The name as an owned string.
    pub fn to_string(&self) -> (text: String)
        ensures
            text@ == self.name_text(),
    {
        String::from_str(self.name())
    }

    /// Reads a value from its name. A name that is not listed is kept as
    /// [`GameMap::Unknown`], so every text can be read and written back unchanged.
    pub fn from_name(text: &str) -> (value: Self)
        ensures
            value.name_text() == text@,
            value is Unknown <==> !Self::is_name(text@),
    {
        if same_text(text, "Crafted Map") {
            GameMap::CraftedMap
        } else if same_text(text, "Altai") {
            GameMap::Altai
        } else if same_text(text, "Ancient Spires") {
            GameMap::AncientSpires
        } else if same_text(text, "Archipelago") {
            GameMap::Archipelago
        } else if same_text(text, "Black Forest") {
            GameMap::BlackForest
        } else if same_text(text, "Boulder Bay") {
            GameMap::BoulderBay
        } else if same_text(text, "Confluence") {
            GameMap::Confluence
        } else if same_text(text, "Danube River") {
            GameMap::DanubeRiver
        } else if same_text(text, "Dry Arabia") {
            GameMap::DryArabia
        } else if same_text(text, "French Pass") {
            GameMap::FrenchPass
        } else if same_text(text, "High View") {
            GameMap::HighView
        } else if same_text(text, "Hill and Dale") {
            GameMap::HillAndDale
        } else if same_text(text, "King of the Hill") {
            GameMap::KingOfTheHill
        } else if same_text(text, "Lipany") {
            GameMap::Lipany
        } else if same_text(text, "Mongolian Heights") {
            GameMap::MongolianHeights
        } else if same_text(text, "Mountain Pass") {
            GameMap::MountainPass
        } else if same_text(text, "Nagari") {
            GameMap::Nagari
        } else if same_text(text, "Warring Islands") {
            GameMap::WarringIslands
        } else if same_text(text, "MegaRandom") {
            GameMap::MegaRandom
        } else if same_text(text, "The Pit") {
            GameMap::ThePit
        } else if same_text(text, "Oasis") {
            GameMap::Oasis
        } else if same_text(text, "Baltic") {
            GameMap::Baltic
        } else if same_text(text, "Forest Ponds") {
            GameMap::ForestPonds
        } else if same_text(text, "Wetlands") {
            GameMap::Wetlands
        } else if same_text(text, "Prairie") {
            GameMap::Prairie
        } else if same_text(text, "Watering Holes") {
            GameMap::WateringHoles
        } else if same_text(text, "Hideout") {
            GameMap::Hideout
        } else if same_text(text, "Mountain Clearing") {
            GameMap::MountainClearing
        } else if same_text(text, "Continental") {
            GameMap::Continental
        } else if same_text(text, "Marshland") {
            GameMap::Marshland
        } else if same_text(text, "Four Lakes") {
            GameMap::FourLakes
        } else if same_text(text, "Migration") {
            GameMap::Migration
        } else if same_text(text, "Volcanic Island") {
            GameMap::VolcanicIsland
        } else if same_text(text, "Golden Heights") {
            GameMap::GoldenHeights
        } else if same_text(text, "African Waters") {
            GameMap::AfricanWaters
        } else if same_text(text, "Thickets") {
            GameMap::Thickets
        } else if same_text(text, "Golden Pit") {
            GameMap::GoldenPit
        } else if same_text(text, "Cliffside") {
            GameMap::Cliffside
        } else if same_text(text, "Gorge") {
            GameMap::Gorge
        } else if same_text(text, "Canal") {
            GameMap::Canal
        } else if same_text(text, "Glade") {
            GameMap::Glade
        } else if same_text(text, "Haywire") {
            GameMap::Haywire
        } else if same_text(text, "Turtle Ridge") {
            GameMap::TurtleRidge
        } else if same_text(text, "Rocky River") {
            GameMap::RockyRiver
        } else if same_text(text, "Himeyama") {
            GameMap::Himeyama
        } else if same_text(text, "Forts") {
            GameMap::Forts
        } else if same_text(text, "Hidden Valley") {
            GameMap::HiddenValley
        } else {
            GameMap::Unknown(text.to_owned())
        }
    }

    /// Every value that is listed by name, in declaration order.
    pub fn variants() -> (all: Vec<Self>)
        ensures
            all@.len() == 47,
            forall|i: int| 0 <= i < all@.len() ==> !(#[trigger] all@[i] is Unknown),
            forall|v: Self| !(v is Unknown) ==> all@.contains(v),
    {
        let mut all: Vec<Self> = Vec::new();
        all.push(GameMap::CraftedMap);
        all.push(GameMap::Altai);
        all.push(GameMap::AncientSpires);
        all.push(GameMap::Archipelago);
        all.push(GameMap::BlackForest);
        all.push(GameMap::BoulderBay);
        all.push(GameMap::Confluence);
        all.push(GameMap::DanubeRiver);
        all.push(GameMap::DryArabia);
        all.push(GameMap::FrenchPass);
        all.push(GameMap::HighView);
        all.push(GameMap::HillAndDale);
        all.push(GameMap::KingOfTheHill);
        all.push(GameMap::Lipany);
        all.push(GameMap::MongolianHeights);
        all.push(GameMap::MountainPass);
        all.push(GameMap::Nagari);
        all.push(GameMap::WarringIslands);
        all.push(GameMap::MegaRandom);
        all.push(GameMap::ThePit);
        all.push(GameMap::Oasis);
        all.push(GameMap::Baltic);
        all.push(GameMap::ForestPonds);
        all.push(GameMap::Wetlands);
        all.push(GameMap::Prairie);
        all.push(GameMap::WateringHoles);
        all.push(GameMap::Hideout);
        all.push(GameMap::MountainClearing);
        all.push(GameMap::Continental);
        all.push(GameMap::Marshland);
        all.push(GameMap::FourLakes);
        all.push(GameMap::Migration);
        all.push(GameMap::VolcanicIsland);
        all.push(GameMap::GoldenHeights);
        all.push(GameMap::AfricanWaters);
        all.push(GameMap::Thickets);
        all.push(GameMap::GoldenPit);
        all.push(GameMap::Cliffside);
        all.push(GameMap::Gorge);
        all.push(GameMap::Canal);
        all.push(GameMap::Glade);
        all.push(GameMap::Haywire);
        all.push(GameMap::TurtleRidge);
        all.push(GameMap::RockyRiver);
        all.push(GameMap::Himeyama);
        all.push(GameMap::Forts);
        all.push(GameMap::HiddenValley);
        assert forall|v: Self| !(v is Unknown) implies all@.contains(v) by {
            match v {
                GameMap::CraftedMap => assert(all@[0] == v),
                GameMap::Altai => assert(all@[1] == v),
                GameMap::AncientSpires => assert(all@[2] == v),
                GameMap::Archipelago => assert(all@[3] == v),
                GameMap::BlackForest => assert(all@[4] == v),
                GameMap::BoulderBay => assert(all@[5] == v),
                GameMap::Confluence => assert(all@[6] == v),
                GameMap::DanubeRiver => assert(all@[7] == v),
                GameMap::DryArabia => assert(all@[8] == v),
                GameMap::FrenchPass => assert(all@[9] == v),
                GameMap::HighView => assert(all@[10] == v),
                GameMap::HillAndDale => assert(all@[11] == v),
                GameMap::KingOfTheHill => assert(all@[12] == v),
                GameMap::Lipany => assert(all@[13] == v),
                GameMap::MongolianHeights => assert(all@[14] == v),
                GameMap::MountainPass => assert(all@[15] == v),
                GameMap::Nagari => assert(all@[16] == v),
                GameMap::WarringIslands => assert(all@[17] == v),
                GameMap::MegaRandom => assert(all@[18] == v),
                GameMap::ThePit => assert(all@[19] == v),
                GameMap::Oasis => assert(all@[20] == v),
                GameMap::Baltic => assert(all@[21] == v),
                GameMap::ForestPonds => assert(all@[22] == v),
                GameMap::Wetlands => assert(all@[23] == v),
                GameMap::Prairie => assert(all@[24] == v),
                GameMap::WateringHoles => assert(all@[25] == v),
                GameMap::Hideout => assert(all@[26] == v),
                GameMap::MountainClearing => assert(all@[27] == v),
                GameMap::Continental => assert(all@[28] == v),
                GameMap::Marshland => assert(all@[29] == v),
                GameMap::FourLakes => assert(all@[30] == v),
                GameMap::Migration => assert(all@[31] == v),
                GameMap::VolcanicIsland => assert(all@[32] == v),
                GameMap::GoldenHeights => assert(all@[33] == v),
                GameMap::AfricanWaters => assert(all@[34] == v),
                GameMap::Thickets => assert(all@[35] == v),
                GameMap::GoldenPit => assert(all@[36] == v),
                GameMap::Cliffside => assert(all@[37] == v),
                GameMap::Gorge => assert(all@[38] == v),
                GameMap::Canal => assert(all@[39] == v),
                GameMap::Glade => assert(all@[40] == v),
                GameMap::Haywire => assert(all@[41] == v),
                GameMap::TurtleRidge => assert(all@[42] == v),
                GameMap::RockyRiver => assert(all@[43] == v),
                GameMap::Himeyama => assert(all@[44] == v),
                GameMap::Forts => assert(all@[45] == v),
                GameMap::HiddenValley => assert(all@[46] == v),
                GameMap::Unknown(_) => {},
            }
        }
        all
    }

    /// The names tell the listed values apart: two listed values with the same
    /// name are the same value.
    pub proof fn lemma_names_differ(a: Self, b: Self)
        requires
            !(a is Unknown),
            !(b is Unknown),
            a.name_text() == b.name_text(),
        ensures
            a == b,
    {
        reveal_strlit("Crafted Map");
        reveal_strlit("Altai");
        reveal_strlit("Ancient Spires");
        reveal_strlit("Archipelago");
        reveal_strlit("Black Forest");
        reveal_strlit("Boulder Bay");
        reveal_strlit("Confluence");
        reveal_strlit("Danube River");
        reveal_strlit("Dry Arabia");
        reveal_strlit("French Pass");
        reveal_strlit("High View");
        reveal_strlit("Hill and Dale");
        reveal_strlit("King of the Hill");
        reveal_strlit("Lipany");
        reveal_strlit("Mongolian Heights");
        reveal_strlit("Mountain Pass");
        reveal_strlit("Nagari");
        reveal_strlit("Warring Islands");
        reveal_strlit("MegaRandom");
        reveal_strlit("The Pit");
        reveal_strlit("Oasis");
        reveal_strlit("Baltic");
        reveal_strlit("Forest Ponds");
        reveal_strlit("Wetlands");
        reveal_strlit("Prairie");
        reveal_strlit("Watering Holes");
        reveal_strlit("Hideout");
        reveal_strlit("Mountain Clearing");
        reveal_strlit("Continental");
        reveal_strlit("Marshland");
        reveal_strlit("Four Lakes");
        reveal_strlit("Migration");
        reveal_strlit("Volcanic Island");
        reveal_strlit("Golden Heights");
        reveal_strlit("African Waters");
        reveal_strlit("Thickets");
        reveal_strlit("Golden Pit");
        reveal_strlit("Cliffside");
        reveal_strlit("Gorge");
        reveal_strlit("Canal");
        reveal_strlit("Glade");
        reveal_strlit("Haywire");
        reveal_strlit("Turtle Ridge");
        reveal_strlit("Rocky River");
        reveal_strlit("Himeyama");
        reveal_strlit("Forts");
        reveal_strlit("Hidden Valley");
        assert("Crafted Map"@.len() == 11);
        assert("Crafted Map"@[3] == 'f');
        assert("Altai"@.len() == 5);
        assert("Altai"@[0] == 'A');
        assert("Altai"@[1] == 'l');
        assert("Ancient Spires"@.len() == 14);
        assert("Ancient Spires"@[1] == 'n');
        assert("Archipelago"@.len() == 11);
        assert("Archipelago"@[3] == 'h');
        assert("Black Forest"@.len() == 12);
        assert("Black Forest"@[0] == 'B');
        assert("Boulder Bay"@.len() == 11);
        assert("Boulder Bay"@[3] == 'l');
        assert("Confluence"@.len() == 10);
        assert("Confluence"@[0] == 'C');
        assert("Danube River"@.len() == 12);
        assert("Danube River"@[0] == 'D');
        assert("Dry Arabia"@.len() == 10);
        assert("Dry Arabia"@[0] == 'D');
        assert("French Pass"@.len() == 11);
        assert("French Pass"@[3] == 'n');
        assert("High View"@.len() == 9);
        assert("High View"@[3] == 'h');
        assert("Hill and Dale"@.len() == 13);
        assert("Hill and Dale"@[2] == 'l');
        assert("King of the Hill"@.len() == 16);
        assert("Lipany"@.len() == 6);
        assert("Lipany"@[0] == 'L');
        assert("Mongolian Heights"@.len() == 17);
        assert("Mongolian Heights"@[2] == 'n');
        assert("Mountain Pass"@.len() == 13);
        assert("Mountain Pass"@[2] == 'u');
        assert("Nagari"@.len() == 6);
        assert("Nagari"@[0] == 'N');
        assert("Warring Islands"@.len() == 15);
        assert("Warring Islands"@[0] == 'W');
        assert("MegaRandom"@.len() == 10);
        assert("MegaRandom"@[0] == 'M');
        assert("The Pit"@.len() == 7);
        assert("The Pit"@[1] == 'h');
        assert("Oasis"@.len() == 5);
        assert("Oasis"@[0] == 'O');
        assert("Oasis"@[1] == 'a');
        assert("Baltic"@.len() == 6);
        assert("Baltic"@[0] == 'B');
        assert("Forest Ponds"@.len() == 12);
        assert("Forest Ponds"@[0] == 'F');
        assert("Wetlands"@.len() == 8);
        assert("Wetlands"@[0] == 'W');
        assert("Prairie"@.len() == 7);
        assert("Prairie"@[1] == 'r');
        assert("Watering Holes"@.len() == 14);
        assert("Watering Holes"@[1] == 'a');
        assert("Hideout"@.len() == 7);
        assert("Hideout"@[1] == 'i');
        assert("Mountain Clearing"@.len() == 17);
        assert("Mountain Clearing"@[2] == 'u');
        assert("Continental"@.len() == 11);
        assert("Continental"@[3] == 't');
        assert("Marshland"@.len() == 9);
        assert("Marshland"@[3] == 's');
        assert("Four Lakes"@.len() == 10);
        assert("Four Lakes"@[0] == 'F');
        assert("Migration"@.len() == 9);
        assert("Migration"@[3] == 'r');
        assert("Volcanic Island"@.len() == 15);
        assert("Volcanic Island"@[0] == 'V');
        assert("Golden Heights"@.len() == 14);
        assert("Golden Heights"@[1] == 'o');
        assert("African Waters"@.len() == 14);
        assert("African Waters"@[1] == 'f');
        assert("Thickets"@.len() == 8);
        assert("Thickets"@[0] == 'T');
        assert("Golden Pit"@.len() == 10);
        assert("Golden Pit"@[0] == 'G');
        assert("Cliffside"@.len() == 9);
        assert("Cliffside"@[3] == 'f');
        assert("Gorge"@.len() == 5);
        assert("Gorge"@[0] == 'G');
        assert("Gorge"@[1] == 'o');
        assert("Canal"@.len() == 5);
        assert("Canal"@[0] == 'C');
        assert("Canal"@[1] == 'a');
        assert("Glade"@.len() == 5);
        assert("Glade"@[0] == 'G');
        assert("Glade"@[1] == 'l');
        assert("Haywire"@.len() == 7);
        assert("Haywire"@[1] == 'a');
        assert("Turtle Ridge"@.len() == 12);
        assert("Turtle Ridge"@[0] == 'T');
        assert("Rocky River"@.len() == 11);
        assert("Rocky River"@[3] == 'k');
        assert("Himeyama"@.len() == 8);
        assert("Himeyama"@[0] == 'H');
        assert("Forts"@.len() == 5);
        assert("Forts"@[0] == 'F');
        assert("Forts"@[1] == 'o');
        assert("Hidden Valley"@.len() == 13);
        assert("Hidden Valley"@[2] == 'd');
    }

    /// Reading gives back what was written: whatever [`GameMap::from_name`]
    /// promises to return for the name of a listed value is that value.
    pub proof fn law_name_round_trip(value: Self, read: Self)
        requires
            !(value is Unknown),
            read.name_text() == value.name_text(),
            read is Unknown <==> !Self::is_name(value.name_text()),
        ensures
            read == value,
    {
        Self::lemma_names_differ(value, read);
    }

    /// Alias for [`GameMap::Baltic`].
    #[allow(non_upper_case_globals)]
    pub const Mediterranean: Self = Self::Baltic;

    /// Orders the values by their names, as texts.
    pub fn cmp(&self, other: &Self) -> (order: Ordering)
        ensures
            order == text_order(self.name_text(), other.name_text()),
    {
        compare_text(self.name(), other.name())
    }

    /// The kind of terrain this map is played on.
    pub open spec fn kind(self) -> MapType {
        match self {
            GameMap::CraftedMap => MapType::Unknown,
            GameMap::Altai => MapType::Land,
            GameMap::AncientSpires => MapType::Hybrid,
            GameMap::Archipelago => MapType::Water,
            GameMap::BlackForest => MapType::Hybrid,
            GameMap::BoulderBay => MapType::Hybrid,
            GameMap::Confluence => MapType::Hybrid,
            GameMap::DanubeRiver => MapType::Hybrid,
            GameMap::DryArabia => MapType::Land,
            GameMap::FrenchPass => MapType::Land,
            GameMap::HighView => MapType::Land,
            GameMap::HillAndDale => MapType::Land,
            GameMap::KingOfTheHill => MapType::Land,
            GameMap::Lipany => MapType::Land,
            GameMap::MongolianHeights => MapType::Hybrid,
            GameMap::MountainPass => MapType::Land,
            GameMap::Nagari => MapType::Hybrid,
            GameMap::WarringIslands => MapType::Water,
            GameMap::MegaRandom => MapType::Hybrid,
            GameMap::ThePit => MapType::Land,
            GameMap::Oasis => MapType::Hybrid,
            GameMap::Baltic => MapType::Hybrid,
            GameMap::ForestPonds => MapType::Hybrid,
            GameMap::Wetlands => MapType::Hybrid,
            GameMap::Prairie => MapType::Land,
            GameMap::WateringHoles => MapType::Hybrid,
            GameMap::Hideout => MapType::Land,
            GameMap::MountainClearing => MapType::Land,
            GameMap::Continental => MapType::Hybrid,
            GameMap::Marshland => MapType::Land,
            GameMap::FourLakes => MapType::Hybrid,
            GameMap::Migration => MapType::Water,
            GameMap::VolcanicIsland => MapType::Hybrid,
            GameMap::GoldenHeights => MapType::Hybrid,
            GameMap::AfricanWaters => MapType::Hybrid,
            GameMap::Thickets => MapType::Hybrid,
            GameMap::GoldenPit => MapType::Land,
            GameMap::Cliffside => MapType::Land,
            GameMap::Gorge => MapType::Land,
            GameMap::Canal => MapType::Hybrid,
            GameMap::Glade => MapType::Land,
            GameMap::Haywire => MapType::Land,
            GameMap::TurtleRidge => MapType::Land,
            GameMap::RockyRiver => MapType::Hybrid,
            GameMap::Himeyama => MapType::Land,
            GameMap::Forts => MapType::Hybrid,
            GameMap::HiddenValley => MapType::Land,
            GameMap::Unknown(_) => MapType::Unknown,
        }
    }

    /// The kind of terrain this map is played on. A crafted map and a map that
    /// is not listed by name have no canonical kind.
    pub fn map_type(&self) -> (kind: MapType)
        ensures
            kind == self.kind(),
    {
        match self {
            GameMap::CraftedMap => MapType::Unknown,
            GameMap::Altai => MapType::Land,
            GameMap::AncientSpires => MapType::Hybrid,
            GameMap::Archipelago => MapType::Water,
            GameMap::BlackForest => MapType::Hybrid,
            GameMap::BoulderBay => MapType::Hybrid,
            GameMap::Confluence => MapType::Hybrid,
            GameMap::DanubeRiver => MapType::Hybrid,
            GameMap::DryArabia => MapType::Land,
            GameMap::FrenchPass => MapType::Land,
            GameMap::HighView => MapType::Land,
            GameMap::HillAndDale => MapType::Land,
            GameMap::KingOfTheHill => MapType::Land,
            GameMap::Lipany => MapType::Land,
            GameMap::MongolianHeights => MapType::Hybrid,
            GameMap::MountainPass => MapType::Land,
            GameMap::Nagari => MapType::Hybrid,
            GameMap::WarringIslands => MapType::Water,
            GameMap::MegaRandom => MapType::Hybrid,
            GameMap::ThePit => MapType::Land,
            GameMap::Oasis => MapType::Hybrid,
            GameMap::Baltic => MapType::Hybrid,
            GameMap::ForestPonds => MapType::Hybrid,
            GameMap::Wetlands => MapType::Hybrid,
            GameMap::Prairie => MapType::Land,
            GameMap::WateringHoles => MapType::Hybrid,
            GameMap::Hideout => MapType::Land,
            GameMap::MountainClearing => MapType::Land,
            GameMap::Continental => MapType::Hybrid,
            GameMap::Marshland => MapType::Land,
            GameMap::FourLakes => MapType::Hybrid,
            GameMap::Migration => MapType::Water,
            GameMap::VolcanicIsland => MapType::Hybrid,
            GameMap::GoldenHeights => MapType::Hybrid,
            GameMap::AfricanWaters => MapType::Hybrid,
            GameMap::Thickets => MapType::Hybrid,
            GameMap::GoldenPit => MapType::Land,
            GameMap::Cliffside => MapType::Land,
            GameMap::Gorge => MapType::Land,
            GameMap::Canal => MapType::Hybrid,
            GameMap::Glade => MapType::Land,
            GameMap::Haywire => MapType::Land,
            GameMap::TurtleRidge => MapType::Land,
            GameMap::RockyRiver => MapType::Hybrid,
            GameMap::Himeyama => MapType::Land,
            GameMap::Forts => MapType::Hybrid,
            GameMap::HiddenValley => MapType::Land,
            GameMap::Unknown(_) => MapType::Unknown,
        }
    }

    /// The text that stands for this map in a JSON document: its name.
    pub open spec fn wire_value(text: Seq<char>) -> Seq<char> {
        if text == "Mediterranean"@ {
            "Baltic"@
        } else {
            text
        }
    }

    /// Reads a map from a JSON document, where `Mediterranean` is an older
    /// name of [`GameMap::Baltic`].
    pub fn from_wire(text: &str) -> (value: Self)
        ensures
            value.name_text() == Self::wire_value(text@),
            value is Unknown <==> !Self::is_name(Self::wire_value(text@)),
    {
        if same_text(text, "Mediterranean") {
            proof {
                reveal_strlit("Baltic");
            }
            Self::from_name("Baltic")
        } else {
            Self::from_name(text)
        }
    }
}

impl std::str::FromStr for GameMap {
    type Err = UnknownName;

    /// Reads a value from its name, as [`GameMap::from_name`] does: every text
    /// is read, and one that is not listed is kept as [`GameMap::Unknown`].
    fn from_str(text: &str) -> (value: Result<Self, UnknownName>)
        ensures
            value matches Ok(v) && v.name_text() == text@ && (v is Unknown <==> !Self::is_name(
                text@,
            )),
    {
        Ok(Self::from_name(text))
    }
}

impl PartialOrd for GameMap {
    /// Orders the values by their names, as texts.
    fn partial_cmp(&self, other: &Self) -> (order: Option<Ordering>) {
        Some(compare_text(self.name(), other.name()))
    }
}

impl vstd::std_specs::cmp::PartialOrdSpecImpl for GameMap {
    open spec fn obeys_partial_cmp_spec() -> bool {
        true
    }

    open spec fn partial_cmp_spec(&self, other: &Self) -> Option<Ordering> {
        Some(text_order(self.name_text(), other.name_text()))
    }
}

/// A type of map in AoE4.
#[derive(Debug, Clone, Copy, PartialEq, Eq, Structural, PartialOrd, Ord)]
pub enum MapType {
    /// Custom or unknown maps don't have a canonical map type.
    Unknown,
    /// A land map.
    Land,
    /// A hybrid map.
    Hybrid,
    /// A water map.
    Water,
}

impl MapType {
    /// The text by which the API names this value.
    pub open spec fn name_text(self) -> Seq<char> {
        match self {
            MapType::Unknown => "unknown"@,
            MapType::Land => "land"@,
            MapType::Hybrid => "hybrid"@,
            MapType::Water => "water"@,
        }
    }

    /// Whether `text` is the name of one of the values listed by name.
    pub open spec fn is_name(text: Seq<char>) -> bool {
        ||| text == "unknown"@
        ||| text == "land"@
        ||| text == "hybrid"@
        ||| text == "water"@
    }

    /// The text by which the API names this value.
    pub fn name(&self) -> (text: &'static str)
        ensures
            text@ == self.name_text(),
    {
        match self {
            MapType::Unknown => "unknown",
            MapType::Land => "land",
            MapType::Hybrid => "hybrid",
            MapType::Water => "water",
        }
    }

    /// The name as an owned string.
    pub fn to_string(&self) -> (text: String)
        ensures
            text@ == self.name_text(),
    {
        String::from_str(self.name())
    }

    /// Reads a value from its name; `None` for a text that names no value.
    pub fn from_name(text: &str) -> (value: Option<Self>)
        ensures
            match value {
                Some(v) => v.name_text() == text@,
                None => !Self::is_name(text@),
            },
    {
        if same_text(text, "unknown") {
            Some(MapType::Unknown)
        } else if same_text(text, "land") {
            Some(MapType::Land)
        } else if same_text(text, "hybrid") {
            Some(MapType::Hybrid)
        } else if same_text(text, "water") {
            Some(MapType::Water)
        } else {
            None
        }
    }

    /// Every value that is listed by name, in declaration order.
    pub fn variants() -> (all: Vec<Self>)
        ensures
            all@.len() == 4,
            forall|v: Self| all@.contains(v),
    {
        let mut all: Vec<Self> = Vec::new();
        all.push(MapType::Unknown);
        all.push(MapType::Land);
        all.push(MapType::Hybrid);
        all.push(MapType::Water);
        assert forall|v: Self| all@.contains(v) by {
            match v {
                MapType::Unknown => assert(all@[0] == v),
                MapType::Land => assert(all@[1] == v),
                MapType::Hybrid => assert(all@[2] == v),
                MapType::Water => assert(all@[3] == v),
            }
        }
        all
    }

    /// The names tell the values apart: two values with the same name are the
    /// same value.
    pub proof fn lemma_names_differ(a: Self, b: Self)
        requires
            a.name_text() == b.name_text(),
        ensures
            a == b,
    {
        reveal_strlit("unknown");
        reveal_strlit("land");
        reveal_strlit("hybrid");
        reveal_strlit("water");
        assert("unknown"@.len() == 7);
        assert("land"@.len() == 4);
        assert("hybrid"@.len() == 6);
        assert("water"@.len() == 5);
    }

    /// Reading gives back what was written: whatever [`MapType::from_name`]
    /// promises to return for the name of a value is that value.
    pub proof fn law_name_round_trip(value: Self, read: Option<Self>)
        requires
            match read {
                Some(v) => v.name_text() == value.name_text(),
                None => !Self::is_name(value.name_text()),
            },
        ensures
            read == Some(value),
    {
        if let Some(v) = read {
            Self::lemma_names_differ(value, v);
        }
    }
}

impl std::str::FromStr for MapType {
    type Err = UnknownName;

    /// Reads a value from its name, as [`MapType::from_name`] does; a text that
    /// names no value is refused with [`UnknownName`].
    fn from_str(text: &str) -> (value: Result<Self, UnknownName>)
        ensures
            match value {
                Ok(v) => v.name_text() == text@,
                Err(_) => !Self::is_name(text@),
            },
    {
        match Self::from_name(text) {
            Some(value) => Ok(value),
            None => Err(UnknownName),
        }
    }
}

} // verus!
