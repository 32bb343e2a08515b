use std::cmp::Ordering;

use prelate_rs::error::UnknownName;
use prelate_rs::types::civilization::Civilization;
use prelate_rs::types::games::{GameKind, GameResult, GamesOrder, InputType, Player, PlayerWrapper};
use prelate_rs::types::leaderboards::Leaderboard;
use prelate_rs::types::maps::{GameMap, MapType};
use prelate_rs::types::profile::ProfileId;
use prelate_rs::types::rank::League;

#[test]
fn test_foo() {}

#[test]
fn test_known_civilization_deserialization() {
    // Verify known civilizations deserialize correctly
    let json = r#""english""#;
    let name: String = serde_json::from_str(json).unwrap();
    let civ = Civilization::from_name(&name);
    assert_eq!(civ, Civilization::English);

    let json = r#""golden_horde""#;
    let name: String = serde_json::from_str(json).unwrap();
    let civ = Civilization::from_name(&name);
    assert_eq!(civ, Civilization::GoldenHorde);
}

#[test]
fn unknown_civilization_keeps_its_text() {
    let civ = Civilization::from_name("martians");
    assert_eq!(civ, Civilization::Unknown("martians".to_string()));
    assert_eq!(civ.to_string(), "martians");
    assert_eq!(civ.name(), "martians");
}

#[test]
fn civilization_names() {
    assert_eq!(Civilization::HolyRomanEmpire.to_string(), "holy_roman_empire");
    assert_eq!(Civilization::JeanneDarc.to_string(), "jeanne_darc");
    assert_eq!(Civilization::ZhuXisLegacy.to_string(), "zhu_xis_legacy");
    assert_eq!(Civilization::OrderOfTheDragon.to_string(), "order_of_the_dragon");
    assert_eq!(Civilization::TughlaqDynasty.to_string(), "tughlaq_dynasty");
    assert_eq!(Civilization::variants().len(), 22);
}

#[test]
fn civilization_names_round_trip() {
    for civ in Civilization::variants() {
        assert_eq!(Civilization::from_name(civ.name()), civ);
        assert_eq!(Civilization::from_name(&civ.to_string()).to_string(), civ.to_string());
    }
}

#[test]
fn map_names_round_trip() {
    let all = GameMap::variants();
    assert_eq!(all.len(), 47);
    for (i, map) in all.iter().enumerate() {
        assert_eq!(&GameMap::from_name(map.name()), map);
        for other in all.iter().skip(i + 1) {
            assert_ne!(map.name(), other.name());
        }
    }
}

#[test]
fn map_names() {
    assert_eq!(GameMap::CraftedMap.to_string(), "Crafted Map");
    assert_eq!(GameMap::KingOfTheHill.to_string(), "King of the Hill");
    assert_eq!(GameMap::HillAndDale.name(), "Hill and Dale");
    assert_eq!(GameMap::MegaRandom.name(), "MegaRandom");
    assert_eq!(GameMap::from_name("Dry Arabia"), GameMap::DryArabia);
    assert_eq!(GameMap::from_name("dry arabia"), GameMap::Unknown("dry arabia".to_string()));
    assert_eq!(GameMap::from_name(""), GameMap::Unknown(String::new()));
}

#[test]
fn mediterranean_is_an_older_name_of_baltic() {
    assert_eq!(GameMap::Mediterranean, GameMap::Baltic);
    assert_eq!(GameMap::Mediterranean.name(), "Baltic");
    assert_eq!(GameMap::Mediterranean.map_type(), MapType::Hybrid);
    assert_eq!(GameMap::from_wire("Mediterranean"), GameMap::Baltic);
    assert_eq!(GameMap::from_wire("Baltic"), GameMap::Baltic);
    assert_eq!(GameMap::from_wire("Altai"), GameMap::Altai);
    assert_eq!(
        GameMap::from_name("Mediterranean"),
        GameMap::Unknown("Mediterranean".to_string())
    );
    assert_eq!(GameMap::from_wire("Atlantis"), GameMap::Unknown("Atlantis".to_string()));
}

#[test]
fn map_types() {
    assert_eq!(GameMap::CraftedMap.map_type(), MapType::Unknown);
    assert_eq!(GameMap::Altai.map_type(), MapType::Land);
    assert_eq!(GameMap::AncientSpires.map_type(), MapType::Hybrid);
    assert_eq!(GameMap::Archipelago.map_type(), MapType::Water);
    assert_eq!(GameMap::WarringIslands.map_type(), MapType::Water);
    assert_eq!(GameMap::Migration.map_type(), MapType::Water);
    assert_eq!(GameMap::Baltic.map_type(), MapType::Hybrid);
    assert_eq!(GameMap::HiddenValley.map_type(), MapType::Land);
    assert_eq!(GameMap::Forts.map_type(), MapType::Hybrid);
    assert_eq!(GameMap::Unknown("Atlantis".to_string()).map_type(), MapType::Unknown);
    let mut land = 0;
    let mut hybrid = 0;
    let mut water = 0;
    let mut unknown = 0;
    for map in GameMap::variants() {
        match map.map_type() {
            MapType::Land => land += 1,
            MapType::Hybrid => hybrid += 1,
            MapType::Water => water += 1,
            MapType::Unknown => unknown += 1,
        }
    }
    assert_eq!((land, hybrid, water, unknown), (21, 22, 3, 1));
}

#[test]
fn map_type_names() {
    assert_eq!(MapType::Unknown.name(), "unknown");
    assert_eq!(MapType::Land.name(), "land");
    assert_eq!(MapType::Hybrid.name(), "hybrid");
    assert_eq!(MapType::Water.name(), "water");
    assert_eq!(MapType::from_name("water"), Some(MapType::Water));
    assert_eq!(MapType::from_name("swamp"), None);
    assert_eq!(MapType::variants(), vec![MapType::Unknown, MapType::Land, MapType::Hybrid, MapType::Water]);
    assert!(MapType::Land < MapType::Water);
}

#[test]
fn league_names_round_trip() {
    let all = League::variants();
    assert_eq!(all.len(), 20);
    for league in all {
        assert_eq!(League::from_name(league.name()), league);
    }
    assert_eq!(League::Conqueror4.to_string(), "conqueror_4");
    assert_eq!(League::Unranked.to_string(), "unranked");
    assert_eq!(League::from_name("wood_1"), League::Unknown("wood_1".to_string()));
}

#[test]
fn league_predicates() {
    assert!(League::Unranked.is_unranked());
    assert!(!League::Bronze1.is_unranked());
    assert!(League::Bronze1.is_bronze() && League::Bronze2.is_bronze() && League::Bronze3.is_bronze());
    assert!(!League::Silver1.is_bronze());
    assert!(League::Silver1.is_silver() && League::Silver2.is_silver() && League::Silver3.is_silver());
    assert!(League::Gold1.is_gold() && League::Gold2.is_gold() && League::Gold3.is_gold());
    assert!(League::Platinum1.is_platinum() && League::Platinum3.is_platinum());
    assert!(League::Diamond1.is_diamond() && League::Diamond2.is_diamond() && League::Diamond3.is_diamond());
    assert!(League::Conqueror1.is_conqueror() && League::Conqueror4.is_conqueror());
    assert!(!League::Diamond3.is_conqueror());
    assert!(!League::Unknown("conqueror_5".to_string()).is_conqueror());
}

#[test]
fn metal_leagues_are_bronze_to_platinum() {
    for league in League::variants() {
        let metal = league.is_bronze() || league.is_silver() || league.is_gold() || league.is_platinum();
        assert_eq!(league.is_metal(), metal, "{league:?}");
        let kinds = [
            league.is_unranked(),
            league.is_bronze(),
            league.is_silver(),
            league.is_gold(),
            league.is_platinum(),
            league.is_diamond(),
            league.is_conqueror(),
        ];
        assert_eq!(kinds.iter().filter(|k| **k).count(), 1, "{league:?}");
    }
    assert!(!League::Diamond1.is_metal());
    assert!(!League::Conqueror3.is_metal());
    assert!(!League::Unranked.is_metal());
    assert!(!League::Unknown("iron_1".to_string()).is_metal());
}

#[test]
fn leagues_are_ordered_by_rank() {
    assert!(League::Unranked < League::Bronze1);
    assert!(League::Gold3 < League::Platinum1);
    assert!(League::Conqueror3 < League::Conqueror4);
}

#[test]
fn game_kind_names_round_trip() {
    let all = GameKind::variants();
    assert_eq!(all.len(), 39);
    for kind in all {
        assert_eq!(GameKind::from_name(kind.name()), Some(kind));
        assert_eq!(kind.to_string(), kind.name());
    }
    assert_eq!(GameKind::Rm1v1.name(), "rm_1v1");
    assert_eq!(GameKind::Qm4v4NomadConsole.name(), "qm_4v4_nomad_console");
    assert_eq!(GameKind::QmFfaEw.name(), "qm_ffa_ew");
    assert_eq!(GameKind::Custom.name(), "custom");
    assert_eq!(GameKind::from_name("rm_solo"), None);
}

#[test]
fn leaderboard_names_round_trip() {
    let all = Leaderboard::variants();
    assert_eq!(all.len(), 19);
    for board in all {
        assert_eq!(Leaderboard::from_name(board.name()), Some(board));
        assert_eq!(Leaderboard::from_wire(board.name()), Some(board));
    }
    assert_eq!(Leaderboard::RmSolo.to_string(), "rm_solo");
    assert_eq!(Leaderboard::Qm1v1EwConsole.to_string(), "qm_1v1_ew_console");
    assert_eq!(Leaderboard::from_name("rm_team_console"), None);
}

#[test]
fn leaderboard_older_names() {
    assert_eq!(Leaderboard::Rm1v1, Leaderboard::RmSolo);
    assert_eq!(Leaderboard::from_wire("rm_1v1"), Some(Leaderboard::RmSolo));
    assert_eq!(Leaderboard::from_wire("rm_1v1_console"), Some(Leaderboard::RmSoloConsole));
    assert_eq!(Leaderboard::from_name("rm_1v1"), None);
    assert_eq!(Leaderboard::from_wire("rm_2v2"), None);
}

#[test]
fn small_enums() {
    assert_eq!(GamesOrder::StartedAt.name(), "started_at");
    assert_eq!(GamesOrder::UpdatedAt.name(), "updated_at");
    assert_eq!(GamesOrder::from_name("updated_at"), Some(GamesOrder::UpdatedAt));
    assert_eq!(GamesOrder::from_name("created_at"), None);
    assert_eq!(GameResult::Unknown.name(), "unknown");
    assert_eq!(GameResult::NoResult.name(), "noresult");
    assert_eq!(GameResult::Loss.name(), "loss");
    assert_eq!(GameResult::Win.name(), "win");
    assert_eq!(GameResult::from_name("no_result"), None);
    assert_eq!(GameResult::from_name("win"), Some(GameResult::Win));
    assert!(GameResult::Loss < GameResult::Win);
    assert_eq!(InputType::Keyboard.name(), "keyboard");
    assert_eq!(InputType::Controller.name(), "controller");
    assert_eq!(InputType::from_name("controller"), Some(InputType::Controller));
    assert_eq!(InputType::from_name("mouse"), None);
    assert_eq!(GamesOrder::variants().len(), 2);
    assert_eq!(GameResult::variants().len(), 4);
    assert_eq!(InputType::variants().len(), 2);
}

#[test]
fn profile_id_conversions() {
    let id = ProfileId::from(3176u64);
    assert_eq!(id, ProfileId(3176));
    assert_eq!(u64::from(id), 3176);
    assert_eq!(*id.as_ref(), 3176);
    assert_eq!(id.to_string(), "3176");
    assert_eq!(ProfileId(0).to_string(), "0");
    assert_eq!(ProfileId(u64::MAX).to_string(), "18446744073709551615");
    assert_eq!(id.profile().profile_id, Some(id));
    let games = id.games();
    assert_eq!(games.profile_id, Some(id));
    assert!(games.game_kind.is_none() && games.leaderboard.is_none() && games.since.is_none());
}

#[test]
fn player_profile_query() {
    let player = Player {
        name: "TestPlayer".to_string(),
        profile_id: ProfileId(54321),
        result: Some(GameResult::Win),
        civilization: Some(Civilization::from_name("english")),
        civilization_randomized: Some(false),
        rating: Some(1500),
        rating_diff: Some(25),
        mmr: Some(1600),
        mmr_diff: Some(30),
        input_type: InputType::from_name("keyboard"),
    };
    assert!(matches!(player.civilization, Some(Civilization::English)));
    assert_eq!(player.profile().profile_id, Some(ProfileId(54321)));
    assert_eq!(player.profile().url().unwrap(), "https://aoe4world.com/api/v0/players/54321");
    let wrapper = PlayerWrapper { player: player.clone() };
    assert_eq!(wrapper.deref(), &player);
    assert_eq!(Player::from(wrapper), player);
}

#[test]
fn civilizations_are_ordered_by_name() {
    assert!(Civilization::English < Civilization::French);
    // by name, not by place in the list
    assert!(Civilization::AbbasidDynasty < Civilization::English);
    assert!(Civilization::Rus > Civilization::Japanese);
    assert!(Civilization::ZhuXisLegacy > Civilization::TughlaqDynasty);
    assert_eq!(Civilization::Rus.cmp(&Civilization::Rus), Ordering::Equal);
    assert_eq!(Civilization::Rus.partial_cmp(&Civilization::Rus), Some(Ordering::Equal));
    assert_eq!(Civilization::Chinese.cmp(&Civilization::Byzantines), Ordering::Greater);
    assert_eq!(Civilization::Byzantines.cmp(&Civilization::Chinese), Ordering::Less);
    // a text comes before every text that it begins
    assert!(Civilization::Unknown("rus".to_string()) <= Civilization::Rus);
    assert!(Civilization::Unknown("ru".to_string()) < Civilization::Rus);
    assert!(Civilization::Unknown("russ".to_string()) > Civilization::Rus);
    assert!(Civilization::Unknown(String::new()) < Civilization::AbbasidDynasty);
    let mut all = Civilization::variants();
    all.sort_by(|a, b| a.cmp(b));
    let names: Vec<String> = all.iter().map(|c| c.to_string()).collect();
    let mut sorted = names.clone();
    sorted.sort();
    assert_eq!(names, sorted);
    assert_eq!(names[0], "abbasid_dynasty");
    assert_eq!(names[21], "zhu_xis_legacy");
}

#[test]
fn maps_are_ordered_by_name() {
    assert!(GameMap::Altai < GameMap::CraftedMap);
    assert!(GameMap::HiddenValley < GameMap::HighView);
    assert!(GameMap::HighView < GameMap::HillAndDale);
    // capitals come before small letters
    assert!(GameMap::MegaRandom < GameMap::Migration);
    assert!(GameMap::Unknown("Zebra".to_string()) < GameMap::Unknown("apple".to_string()));
    // code points decide, also beyond ASCII
    assert!(GameMap::Unknown("z".to_string()) < GameMap::Unknown("\u{00E9}".to_string()));
    assert!(GameMap::Unknown("\u{00E9}".to_string()) < GameMap::Unknown("\u{4E2D}".to_string()));
    assert!(GameMap::Unknown("\u{FFFD}".to_string()) < GameMap::Unknown("\u{1F42A}".to_string()));
    assert_eq!(GameMap::ThePit.cmp(&GameMap::ThePit), Ordering::Equal);
    let mut all = GameMap::variants();
    all.sort_by(|a, b| a.partial_cmp(b).unwrap());
    let names: Vec<String> = all.iter().map(|m| m.to_string()).collect();
    let mut sorted = names.clone();
    sorted.sort();
    assert_eq!(names, sorted);
}

#[test]
fn values_parse_from_their_names() {
    assert_eq!("english".parse::<Civilization>(), Ok(Civilization::English));
    assert_eq!("martians".parse::<Civilization>(), Ok(Civilization::Unknown("martians".to_string())));
    assert_eq!("Dry Arabia".parse::<GameMap>(), Ok(GameMap::DryArabia));
    assert_eq!("gold_2".parse::<League>(), Ok(League::Gold2));
    assert_eq!("rm_team".parse::<Leaderboard>(), Ok(Leaderboard::RmTeam));
    assert_eq!("rm_1v1".parse::<Leaderboard>(), Err(UnknownName));
    assert_eq!("rm_1v1".parse::<GameKind>(), Ok(GameKind::Rm1v1));
    assert_eq!("".parse::<GameKind>(), Err(UnknownName));
    assert_eq!("land".parse::<MapType>(), Ok(MapType::Land));
    assert_eq!("Land".parse::<MapType>(), Err(UnknownName));
    assert_eq!("win".parse::<GameResult>(), Ok(GameResult::Win));
    assert_eq!("keyboard".parse::<InputType>(), Ok(InputType::Keyboard));
    assert_eq!("started_at".parse::<GamesOrder>(), Ok(GamesOrder::StartedAt));
    assert_eq!(UnknownName.to_string(), "Matching variant not found");
}
