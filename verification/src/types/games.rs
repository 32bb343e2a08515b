//! Games played.

use vstd::prelude::*;
use vstd::string::StringExecFns;

use crate::error::UnknownName;
use crate::text::same_text;
use crate::query::ProfileQuery;
use crate::types::civilization::Civilization;
use crate::types::profile::ProfileId;

verus! {

/// Orders in which the API can list games.
#[derive(Debug, Clone, Copy, PartialEq, Eq, Structural)]
pub enum GamesOrder {
    StartedAt,
    UpdatedAt,
}

impl GamesOrder {
    /// The text by which the API names this value.
    pub open spec fn name_text(self) -> Seq<char> {
        match self {
            GamesOrder::StartedAt => "started_at"@,
            GamesOrder::UpdatedAt => "updated_at"@,
        }
    }

    /// Whether `text` is the name of one of the values listed by name.
    pub open spec fn is_name(text: Seq<char>) -> bool {
        ||| text == "started_at"@
        ||| text == "updated_at"@
    }

    /// The text by which the API names this value.
    pub fn name(&self) -> (text: &'static str)
        ensures
            text@ == self.name_text(),
    {
        match self {
            GamesOrder::StartedAt => "started_at",
            GamesOrder::UpdatedAt => "updated_at",
        }
    }

    /// The name as an owned string.
    pub fn to_string(&self) -> (text: String)
        ensures
            text@ == self.name_text(),
    {
        String::from_str(self.name())
    }

    /// Reads a value from its name; `None` for a text that names no value.
    pub fn from_name(text: &str) -> (value: Option<Self>)
        ensures
            match value {
                Some(v) => v.name_text() == text@,
                None => !Self::is_name(text@),
            },
    {
        if same_text(text, "started_at") {
            Some(GamesOrder::StartedAt)
        } else if same_text(text, "updated_at") {
            Some(GamesOrder::UpdatedAt)
        } else {
            None
        }
    }

    /// Every value that is listed by name, in declaration order.
    pub fn variants() -> (all: Vec<Self>)
        ensures
            all@.len() == 2,
            forall|v: Self| all@.contains(v),
    {
        let mut all: Vec<Self> = Vec::new();
        all.push(GamesOrder::StartedAt);
        all.push(GamesOrder::UpdatedAt);
        assert forall|v: Self| all@.contains(v) by {
            match v {
                GamesOrder::StartedAt => assert(all@[0] == v),
                GamesOrder::UpdatedAt => assert(all@[1] == v),
            }
        }
        all
    }

    /// The names tell the values apart: two values with the same name are the
    /// same value.
    pub proof fn lemma_names_differ(a: Self, b: Self)
        requires
            a.name_text() == b.name_text(),
        ensures
            a == b,
    {
        reveal_strlit("started_at");
        reveal_strlit("updated_at");
        assert("started_at"@.len() == 10);
        assert("started_at"@[0] == 's');
        assert("updated_at"@.len() == 10);
        assert("updated_at"@[0] == 'u');
    }

    /// Reading gives back what was written: whatever [`GamesOrder::from_name`]
    /// promises to return for the name of a value is that value.
    pub proof fn law_name_round_trip(value: Self, read: Option<Self>)
        requires
            match read {
                Some(v) => v.name_text() == value.name_text(),
                None => !Self::is_name(value.name_text()),
            },
        ensures
            read == Some(value),
    {
        if let Some(v) = read {
            Self::lemma_names_differ(value, v);
        }
    }
}

impl std::str::FromStr for GamesOrder {
    type Err = UnknownName;

    /// Reads a value from its name, as [`GamesOrder::from_name`] does; a text that
    /// names no value is refused with [`UnknownName`].
    fn from_str(text: &str) -> (value: Result<Self, UnknownName>)
        ensures
            match value {
                Ok(v) => v.name_text() == text@,
                Err(_) => !Self::is_name(text@),
            },
    {
        match Self::from_name(text) {
            Some(value) => Ok(value),
            None => Err(UnknownName),
        }
    }
}

/// Type of game being played. Equivalent to [`Leaderboard`] but without `RmSolo` and
/// `RmTeam`.
#[derive(Debug, Clone, Copy, PartialEq, Eq, Structural, PartialOrd, Ord)]
pub enum GameKind {
    /// 1v1 ranked.
    Rm1v1,
    /// 2v2 ranked.
    Rm2v2,
    /// 3v3 ranked.
    Rm3v3,
    /// 4v4 ranked.
    Rm4v4,
    /// 1v1 quick match.
    Qm1v1,
    /// 2v2 quick match.
    Qm2v2,
    /// 3v3 quick match.
    Qm3v3,
    /// 4v4 quick match.
    Qm4v4,
    /// 1v1 nomad quick match.
    Qm1v1Nomad,
    /// 2v2 nomad quick match.
    Qm2v2Nomad,
    /// 3v3 nomad quick match.
    Qm3v3Nomad,
    /// 4v4 nomad quick match.
    Qm4v4Nomad,
    /// 1v1 empire wars quick match.
    Qm1v1Ew,
    /// 2v2 empire wars quick match.
    Qm2v2Ew,
    /// 3v3 empire wars quick match.
    Qm3v3Ew,
    /// 4v4 empire wars quick match.
    Qm4v4Ew,
    /// Console 1v1 ranked.
    Rm1v1Console,
    /// Console 2v2 ranked.
    Rm2v2Console,
    /// Console 3v3 ranked.
    Rm3v3Console,
    /// Console 4v4 ranked.
    Rm4v4Console,
    /// Console 1v1 quick match.
    Qm1v1Console,
    /// Console 2v2 quick match.
    Qm2v2Console,
    /// Console 3v3 quick match.
    Qm3v3Console,
    /// Console 4v4 quick match.
    Qm4v4Console,
    /// Console 1v1 nomad quick match.
    Qm1v1NomadConsole,
    /// Console 2v2 nomad quick match.
    Qm2v2NomadConsole,
    /// Console 3v3 nomad quick match.
    Qm3v3NomadConsole,
    /// Console 4v4 nomad quick match.
    Qm4v4NomadConsole,
    /// Console 1v1 empire wars quick match.
    Qm1v1EwConsole,
    /// Console 2v2 empire wars quick match.
    Qm2v2EwConsole,
    /// Console 3v3 empire wars quick match.
    Qm3v3EwConsole,
    /// Console 4v4 empire wars quick match.
    Qm4v4EwConsole,
    /// FFA quick match.
    QmFfa,
    /// Empires Wars FFA quick match.
    QmFfaEw,
    /// Nomad FFA quick match.
    QmFfaNomad,
    /// Console FFA quick match.
    QmFfaConsole,
    /// Console Empires Wars FFA quick match.
    QmFfaEwConsole,
    /// Console Nomad FFA quick match.
    QmFfaNomadConsole,
    /// Console A custom game.
    Custom,
}

impl GameKind {
    /// The text by which the API names this value.
    pub open spec fn name_text(self) -> Seq<char> {
        match self {
            GameKind::Rm1v1 => "rm_1v1"@,
            GameKind::Rm2v2 => "rm_2v2"@,
            GameKind::Rm3v3 => "rm_3v3"@,
            GameKind::Rm4v4 => "rm_4v4"@,
            GameKind::Qm1v1 => "qm_1v1"@,
            GameKind::Qm2v2 => "qm_2v2"@,
            GameKind::Qm3v3 => "qm_3v3"@,
            GameKind::Qm4v4 => "qm_4v4"@,
            GameKind::Qm1v1Nomad => "qm_1v1_nomad"@,
            GameKind::Qm2v2Nomad => "qm_2v2_nomad"@,
            GameKind::Qm3v3Nomad => "qm_3v3_nomad"@,
            GameKind::Qm4v4Nomad => "qm_4v4_nomad"@,
            GameKind::Qm1v1Ew => "qm_1v1_ew"@,
            GameKind::Qm2v2Ew => "qm_2v2_ew"@,
            GameKind::Qm3v3Ew => "qm_3v3_ew"@,
            GameKind::Qm4v4Ew => "qm_4v4_ew"@,
            GameKind::Rm1v1Console => "rm_1v1_console"@,
            GameKind::Rm2v2Console => "rm_2v2_console"@,
            GameKind::Rm3v3Console => "rm_3v3_console"@,
            GameKind::Rm4v4Console => "rm_4v4_console"@,
            GameKind::Qm1v1Console => "qm_1v1_console"@,
            GameKind::Qm2v2Console => "qm_2v2_console"@,
            GameKind::Qm3v3Console => "qm_3v3_console"@,
            GameKind::Qm4v4Console => "qm_4v4_console"@,
            GameKind::Qm1v1NomadConsole => "qm_1v1_nomad_console"@,
            GameKind::Qm2v2NomadConsole => "qm_2v2_nomad_console"@,
            GameKind::Qm3v3NomadConsole => "qm_3v3_nomad_console"@,
            GameKind::Qm4v4NomadConsole => "qm_4v4_nomad_console"@,
            GameKind::Qm1v1EwConsole => "qm_1v1_ew_console"@,
            GameKind::Qm2v2EwConsole => "qm_2v2_ew_console"@,
            GameKind::Qm3v3EwConsole => "qm_3v3_ew_console"@,
            GameKind::Qm4v4EwConsole => "qm_4v4_ew_console"@,
            GameKind::QmFfa => "qm_ffa"@,
            GameKind::QmFfaEw => "qm_ffa_ew"@,
            GameKind::QmFfaNomad => "qm_ffa_nomad"@,
            GameKind::QmFfaConsole => "qm_ffa_console"@,
            GameKind::QmFfaEwConsole => "qm_ffa_ew_console"@,
            GameKind::QmFfaNomadConsole => "qm_ffa_nomad_console"@,
            GameKind::Custom => "custom"@,
        }
    }

    /// Whether `text` is the name of one of the values listed by name.
    pub open spec fn is_name(text: Seq<char>) -> bool {
        ||| text == "rm_1v1"@
        ||| text == "rm_2v2"@
        ||| text == "rm_3v3"@
        ||| text == "rm_4v4"@
        ||| text == "qm_1v1"@
        ||| text == "qm_2v2"@
        ||| text == "qm_3v3"@
        ||| text == "qm_4v4"@
        ||| text == "qm_1v1_nomad"@
        ||| text == "qm_2v2_nomad"@
        ||| text == "qm_3v3_nomad"@
        ||| text == "qm_4v4_nomad"@
        ||| text == "qm_1v1_ew"@
        ||| text == "qm_2v2_ew"@
        ||| text == "qm_3v3_ew"@
        ||| text == "qm_4v4_ew"@
        ||| text == "rm_1v1_console"@
        ||| text == "rm_2v2_console"@
        ||| text == "rm_3v3_console"@
        ||| text == "rm_4v4_console"@
        ||| text == "qm_1v1_console"@
        ||| text == "qm_2v2_console"@
        ||| text == "qm_3v3_console"@
        ||| text == "qm_4v4_console"@
        ||| text == "qm_1v1_nomad_console"@
        ||| text == "qm_2v2_nomad_console"@
        ||| text == "qm_3v3_nomad_console"@
        ||| text == "qm_4v4_nomad_console"@
        ||| text == "qm_1v1_ew_console"@
        ||| text == "qm_2v2_ew_console"@
        ||| text == "qm_3v3_ew_console"@
        ||| text == "qm_4v4_ew_console"@
        ||| text == "qm_ffa"@
        ||| text == "qm_ffa_ew"@
        ||| text == "qm_ffa_nomad"@
        ||| text == "qm_ffa_console"@
        ||| text == "qm_ffa_ew_console"@
        ||| text == "qm_ffa_nomad_console"@
        ||| text == "custom"@
    }

    /// The text by which the API names this value.
    pub fn name(&self) -> (text: &'static str)
        ensures
            text@ == self.name_text(),
    {
        match self {
            GameKind::Rm1v1 => "rm_1v1",
            GameKind::Rm2v2 => "rm_2v2",
            GameKind::Rm3v3 => "rm_3v3",
            GameKind::Rm4v4 => "rm_4v4",
            GameKind::Qm1v1 => "qm_1v1",
            GameKind::Qm2v2 => "qm_2v2",
            GameKind::Qm3v3 => "qm_3v3",
            GameKind::Qm4v4 => "qm_4v4",
            GameKind::Qm1v1Nomad => "qm_1v1_nomad",
            GameKind::Qm2v2Nomad => "qm_2v2_nomad",
            GameKind::Qm3v3Nomad => "qm_3v3_nomad",
            GameKind::Qm4v4Nomad => "qm_4v4_nomad",
            GameKind::Qm1v1Ew => "qm_1v1_ew",
            GameKind::Qm2v2Ew => "qm_2v2_ew",
            GameKind::Qm3v3Ew => "qm_3v3_ew",
            GameKind::Qm4v4Ew => "qm_4v4_ew",
            GameKind::Rm1v1Console => "rm_1v1_console",
            GameKind::Rm2v2Console => "rm_2v2_console",
            GameKind::Rm3v3Console => "rm_3v3_console",
            GameKind::Rm4v4Console => "rm_4v4_console",
            GameKind::Qm1v1Console => "qm_1v1_console",
            GameKind::Qm2v2Console => "qm_2v2_console",
            GameKind::Qm3v3Console => "qm_3v3_console",
            GameKind::Qm4v4Console => "qm_4v4_console",
            GameKind::Qm1v1NomadConsole => "qm_1v1_nomad_console",
            GameKind::Qm2v2NomadConsole => "qm_2v2_nomad_console",
            GameKind::Qm3v3NomadConsole => "qm_3v3_nomad_console",
            GameKind::Qm4v4NomadConsole => "qm_4v4_nomad_console",
            GameKind::Qm1v1EwConsole => "qm_1v1_ew_console",
            GameKind::Qm2v2EwConsole => "qm_2v2_ew_console",
            GameKind::Qm3v3EwConsole => "qm_3v3_ew_console",
            GameKind::Qm4v4EwConsole => "qm_4v4_ew_console",
            GameKind::QmFfa => "qm_ffa",
            GameKind::QmFfaEw => "qm_ffa_ew",
            GameKind::QmFfaNomad => "qm_ffa_nomad",
            GameKind::QmFfaConsole => "qm_ffa_console",
            GameKind::QmFfaEwConsole => "qm_ffa_ew_console",
            GameKind::QmFfaNomadConsole => "qm_ffa_nomad_console",
            GameKind::Custom => "custom",
        }
    }

    /// The name as an owned string.
    pub fn to_string(&self) -> (text: String)
        ensures
            text@ == self.name_text(),
    {
        String::from_str(self.name())
    }

    /// Reads a value from its name; `None` for a text that names no value.
    pub fn from_name(text: &str) -> (value: Option<Self>)
        ensures
            match value {
                Some(v) => v.name_text() == text@,
                None => !Self::is_name(text@),
            },
    {
        if same_text(text, "rm_1v1") {
            Some(GameKind::Rm1v1)
        } else if same_text(text, "rm_2v2") {
            Some(GameKind::Rm2v2)
        } else if same_text(text, "rm_3v3") {
            Some(GameKind::Rm3v3)
        } else if same_text(text, "rm_4v4") {
            Some(GameKind::Rm4v4)
        } else if same_text(text, "qm_1v1") {
            Some(GameKind::Qm1v1)
        } else if same_text(text, "qm_2v2") {
            Some(GameKind::Qm2v2)
        } else if same_text(text, "qm_3v3") {
            Some(GameKind::Qm3v3)
        } else if same_text(text, "qm_4v4") {
            Some(GameKind::Qm4v4)
        } else if same_text(text, "qm_1v1_nomad") {
            Some(GameKind::Qm1v1Nomad)
        } else if same_text(text, "qm_2v2_nomad") {
            Some(GameKind::Qm2v2Nomad)
        } else if same_text(text, "qm_3v3_nomad") {
            Some(GameKind::Qm3v3Nomad)
        } else if same_text(text, "qm_4v4_nomad") {
            Some(GameKind::Qm4v4Nomad)
        } else if same_text(text, "qm_1v1_ew") {
            Some(GameKind::Qm1v1Ew)
        } else if same_text(text, "qm_2v2_ew") {
            Some(GameKind::Qm2v2Ew)
        } else if same_text(text, "qm_3v3_ew") {
            Some(GameKind::Qm3v3Ew)
        } else if same_text(text, "qm_4v4_ew") {
            Some(GameKind::Qm4v4Ew)
        } else if same_text(text, "rm_1v1_console") {
            Some(GameKind::Rm1v1Console)
        } else if same_text(text, "rm_2v2_console") {
            Some(GameKind::Rm2v2Console)
        } else if same_text(text, "rm_3v3_console") {
            Some(GameKind::Rm3v3Console)
        } else if same_text(text, "rm_4v4_console") {
            Some(GameKind::Rm4v4Console)
        } else if same_text(text, "qm_1v1_console") {
            Some(GameKind::Qm1v1Console)
        } else if same_text(text, "qm_2v2_console") {
            Some(GameKind::Qm2v2Console)
        } else if same_text(text, "qm_3v3_console") {
            Some(GameKind::Qm3v3Console)
        } else if same_text(text, "qm_4v4_console") {
            Some(GameKind::Qm4v4Console)
        } else if same_text(text, "qm_1v1_nomad_console") {
            Some(GameKind::Qm1v1NomadConsole)
        } else if same_text(text, "qm_2v2_nomad_console") {
            Some(GameKind::Qm2v2NomadConsole)
        } else if same_text(text, "qm_3v3_nomad_console") {
            Some(GameKind::Qm3v3NomadConsole)
        } else if same_text(text, "qm_4v4_nomad_console") {
            Some(GameKind::Qm4v4NomadConsole)
        } else if same_text(text, "qm_1v1_ew_console") {
            Some(GameKind::Qm1v1EwConsole)
        } else if same_text(text, "qm_2v2_ew_console") {
            Some(GameKind::Qm2v2EwConsole)
        } else if same_text(text, "qm_3v3_ew_console") {
            Some(GameKind::Qm3v3EwConsole)
        } else if same_text(text, "qm_4v4_ew_console") {
            Some(GameKind::Qm4v4EwConsole)
        } else if same_text(text, "qm_ffa") {
            Some(GameKind::QmFfa)
        } else if same_text(text, "qm_ffa_ew") {
            Some(GameKind::QmFfaEw)
        } else if same_text(text, "qm_ffa_nomad") {
            Some(GameKind::QmFfaNomad)
        } else if same_text(text, "qm_ffa_console") {
            Some(GameKind::QmFfaConsole)
        } else if same_text(text, "qm_ffa_ew_console") {
            Some(GameKind::QmFfaEwConsole)
        } else if same_text(text, "qm_ffa_nomad_console") {
            Some(GameKind::QmFfaNomadConsole)
        } else if same_text(text, "custom") {
            Some(GameKind::Custom)
        } else {
            None
        }
    }

    /// Every value that is listed by name, in declaration order.
    pub fn variants() -> (all: Vec<Self>)
        ensures
            all@.len() == 39,
            forall|v: Self| all@.contains(v),
    {
        let mut all: Vec<Self> = Vec::new();
        all.push(GameKind::Rm1v1);
        all.push(GameKind::Rm2v2);
        all.push(GameKind::Rm3v3);
        all.push(GameKind::Rm4v4);
        all.push(GameKind::Qm1v1);
        all.push(GameKind::Qm2v2);
        all.push(GameKind::Qm3v3);
        all.push(GameKind::Qm4v4);
        all.push(GameKind::Qm1v1Nomad);
        all.push(GameKind::Qm2v2Nomad);
        all.push(GameKind::Qm3v3Nomad);
        all.push(GameKind::Qm4v4Nomad);
        all.push(GameKind::Qm1v1Ew);
        all.push(GameKind::Qm2v2Ew);
        all.push(GameKind::Qm3v3Ew);
        all.push(GameKind::Qm4v4Ew);
        all.push(GameKind::Rm1v1Console);
        all.push(GameKind::Rm2v2Console);
        all.push(GameKind::Rm3v3Console);
        all.push(GameKind::Rm4v4Console);
        all.push(GameKind::Qm1v1Console);
        all.push(GameKind::Qm2v2Console);
        all.push(GameKind::Qm3v3Console);
        all.push(GameKind::Qm4v4Console);
        all.push(GameKind::Qm1v1NomadConsole);
        all.push(GameKind::Qm2v2NomadConsole);
        all.push(GameKind::Qm3v3NomadConsole);
        all.push(GameKind::Qm4v4NomadConsole);
        all.push(GameKind::Qm1v1EwConsole);
        all.push(GameKind::Qm2v2EwConsole);
        all.push(GameKind::Qm3v3EwConsole);
        all.push(GameKind::Qm4v4EwConsole);
        all.push(GameKind::QmFfa);
        all.push(GameKind::QmFfaEw);
        all.push(GameKind::QmFfaNomad);
        all.push(GameKind::QmFfaConsole);
        all.push(GameKind::QmFfaEwConsole);
        all.push(GameKind::QmFfaNomadConsole);
        all.push(GameKind::Custom);
        assert forall|v: Self| all@.contains(v) by {
            match v {
                GameKind::Rm1v1 => assert(all@[0] == v),
                GameKind::Rm2v2 => assert(all@[1] == v),
                GameKind::Rm3v3 => assert(all@[2] == v),
                GameKind::Rm4v4 => assert(all@[3] == v),
                GameKind::Qm1v1 => assert(all@[4] == v),
                GameKind::Qm2v2 => assert(all@[5] == v),
                GameKind::Qm3v3 => assert(all@[6] == v),
                GameKind::Qm4v4 => assert(all@[7] == v),
                GameKind::Qm1v1Nomad => assert(all@[8] == v),
                GameKind::Qm2v2Nomad => assert(all@[9] == v),
                GameKind::Qm3v3Nomad => assert(all@[10] == v),
                GameKind::Qm4v4Nomad => assert(all@[11] == v),
                GameKind::Qm1v1Ew => assert(all@[12] == v),
                GameKind::Qm2v2Ew => assert(all@[13] == v),
                GameKind::Qm3v3Ew => assert(all@[14] == v),
                GameKind::Qm4v4Ew => assert(all@[15] == v),
                GameKind::Rm1v1Console => assert(all@[16] == v),
                GameKind::Rm2v2Console => assert(all@[17] == v),
                GameKind::Rm3v3Console => assert(all@[18] == v),
                GameKind::Rm4v4Console => assert(all@[19] == v),
                GameKind::Qm1v1Console => assert(all@[20] == v),
                GameKind::Qm2v2Console => assert(all@[21] == v),
                GameKind::Qm3v3Console => assert(all@[22] == v),
                GameKind::Qm4v4Console => assert(all@[23] == v),
                GameKind::Qm1v1NomadConsole => assert(all@[24] == v),
                GameKind::Qm2v2NomadConsole => assert(all@[25] == v),
                GameKind::Qm3v3NomadConsole => assert(all@[26] == v),
                GameKind::Qm4v4NomadConsole => assert(all@[27] == v),
                GameKind::Qm1v1EwConsole => assert(all@[28] == v),
                GameKind::Qm2v2EwConsole => assert(all@[29] == v),
                GameKind::Qm3v3EwConsole => assert(all@[30] == v),
                GameKind::Qm4v4EwConsole => assert(all@[31] == v),
                GameKind::QmFfa => assert(all@[32] == v),
                GameKind::QmFfaEw => assert(all@[33] == v),
                GameKind::QmFfaNomad => assert(all@[34] == v),
                GameKind::QmFfaConsole => assert(all@[35] == v),
                GameKind::QmFfaEwConsole => assert(all@[36] == v),
                GameKind::QmFfaNomadConsole => assert(all@[37] == v),
                GameKind::Custom => assert(all@[38] == v),
            }
        }
        all
    }

    /// The names tell the values apart: two values with the same name are the
    /// same value.
    pub proof fn lemma_names_differ(a: Self, b: Self)
        requires
            a.name_text() == b.name_text(),
        ensures
            a == b,
    {
        reveal_strlit("rm_1v1");
        reveal_strlit("rm_2v2");
        reveal_strlit("rm_3v3");
        reveal_strlit("rm_4v4");
        reveal_strlit("qm_1v1");
        reveal_strlit("qm_2v2");
        reveal_strlit("qm_3v3");
        reveal_strlit("qm_4v4");
        reveal_strlit("qm_1v1_nomad");
        reveal_strlit("qm_2v2_nomad");
        reveal_strlit("qm_3v3_nomad");
        reveal_strlit("qm_4v4_nomad");
        reveal_strlit("qm_1v1_ew");
        reveal_strlit("qm_2v2_ew");
        reveal_strlit("qm_3v3_ew");
        reveal_strlit("qm_4v4_ew");
        reveal_strlit("rm_1v1_console");
        reveal_strlit("rm_2v2_console");
        reveal_strlit("rm_3v3_console");
        reveal_strlit("rm_4v4_console");
        reveal_strlit("qm_1v1_console");
        reveal_strlit("qm_2v2_console");
        reveal_strlit("qm_3v3_console");
        reveal_strlit("qm_4v4_console");
        reveal_strlit("qm_1v1_nomad_console");
        reveal_strlit("qm_2v2_nomad_console");
        reveal_strlit("qm_3v3_nomad_console");
        reveal_strlit("qm_4v4_nomad_console");
        reveal_strlit("qm_1v1_ew_console");
        reveal_strlit("qm_2v2_ew_console");
        reveal_strlit("qm_3v3_ew_console");
        reveal_strlit("qm_4v4_ew_console");
        reveal_strlit("qm_ffa");
        reveal_strlit("qm_ffa_ew");
        reveal_strlit("qm_ffa_nomad");
        reveal_strlit("qm_ffa_console");
        reveal_strlit("qm_ffa_ew_console");
        reveal_strlit("qm_ffa_nomad_console");
        reveal_strlit("custom");
        assert("rm_1v1"@.len() == 6);
        assert("rm_1v1"@[0] == 'r');
        assert("rm_1v1"@[3] == '1');
        assert("rm_2v2"@.len() == 6);
        assert("rm_2v2"@[0] == 'r');
        assert("rm_2v2"@[3] == '2');
        assert("rm_3v3"@.len() == 6);
        assert("rm_3v3"@[0] == 'r');
        assert("rm_3v3"@[3] == '3');
        assert("rm_4v4"@.len() == 6);
        assert("rm_4v4"@[0] == 'r');
        assert("rm_4v4"@[3] == '4');
        assert("qm_1v1"@.len() == 6);
        assert("qm_1v1"@[0] == 'q');
        assert("qm_1v1"@[3] == '1');
        assert("qm_2v2"@.len() == 6);
        assert("qm_2v2"@[0] == 'q');
        assert("qm_2v2"@[3] == '2');
        assert("qm_3v3"@.len() == 6);
        assert("qm_3v3"@[0] == 'q');
        assert("qm_3v3"@[3] == '3');
        assert("qm_4v4"@.len() == 6);
        assert("qm_4v4"@[0] == 'q');
        assert("qm_4v4"@[3] == '4');
        assert("qm_1v1_nomad"@.len() == 12);
        assert("qm_1v1_nomad"@[3] == '1');
        assert("qm_2v2_nomad"@.len() == 12);
        assert("qm_2v2_nomad"@[3] == '2');
        assert("qm_3v3_nomad"@.len() == 12);
        assert("qm_3v3_nomad"@[3] == '3');
        assert("qm_4v4_nomad"@.len() == 12);
        assert("qm_4v4_nomad"@[3] == '4');
        assert("qm_1v1_ew"@.len() == 9);
        assert("qm_1v1_ew"@[3] == '1');
        assert("qm_2v2_ew"@.len() == 9);
        assert("qm_2v2_ew"@[3] == '2');
        assert("qm_3v3_ew"@.len() == 9);
        assert("qm_3v3_ew"@[3] == '3');
        assert("qm_4v4_ew"@.len() == 9);
        assert("qm_4v4_ew"@[3] == '4');
        assert("rm_1v1_console"@.len() == 14);
        assert("rm_1v1_console"@[0] == 'r');
        assert("rm_1v1_console"@[3] == '1');
        assert("rm_2v2_console"@.len() == 14);
        assert("rm_2v2_console"@[0] == 'r');
        assert("rm_2v2_console"@[3] == '2');
        assert("rm_3v3_console"@.len() == 14);
        assert("rm_3v3_console"@[0] == 'r');
        assert("rm_3v3_console"@[3] == '3');
        assert("rm_4v4_console"@.len() == 14);
        assert("rm_4v4_console"@[0] == 'r');
        assert("rm_4v4_console"@[3] == '4');
        assert("qm_1v1_console"@.len() == 14);
        assert("qm_1v1_console"@[0] == 'q');
        assert("qm_1v1_console"@[3] == '1');
        assert("qm_2v2_console"@.len() == 14);
        assert("qm_2v2_console"@[0] == 'q');
        assert("qm_2v2_console"@[3] == '2');
        assert("qm_3v3_console"@.len() == 14);
        assert("qm_3v3_console"@[0] == 'q');
        assert("qm_3v3_console"@[3] == '3');
        assert("qm_4v4_console"@.len() == 14);
        assert("qm_4v4_console"@[0] == 'q');
        assert("qm_4v4_console"@[3] == '4');
        assert("qm_1v1_nomad_console"@.len() == 20);
        assert("qm_1v1_nomad_console"@[3] == '1');
        assert("qm_2v2_nomad_console"@.len() == 20);
        assert("qm_2v2_nomad_console"@[3] == '2');
        assert("qm_3v3_nomad_console"@.len() == 20);
        assert("qm_3v3_nomad_console"@[3] == '3');
        assert("qm_4v4_nomad_console"@.len() == 20);
        assert("qm_4v4_nomad_console"@[3] == '4');
        assert("qm_1v1_ew_console"@.len() == 17);
        assert("qm_1v1_ew_console"@[3] == '1');
        assert("qm_2v2_ew_console"@.len() == 17);
        assert("qm_2v2_ew_console"@[3] == '2');
        assert("qm_3v3_ew_console"@.len() == 17);
        assert("qm_3v3_ew_console"@[3] == '3');
        assert("qm_4v4_ew_console"@.len() == 17);
        assert("qm_4v4_ew_console"@[3] == '4');
        assert("qm_ffa"@.len() == 6);
        assert("qm_ffa"@[0] == 'q');
        assert("qm_ffa"@[3] == 'f');
        assert("qm_ffa_ew"@.len() == 9);
        assert("qm_ffa_ew"@[3] == 'f');
        assert("qm_ffa_nomad"@.len() == 12);
        assert("qm_ffa_nomad"@[3] == 'f');
        assert("qm_ffa_console"@.len() == 14);
        assert("qm_ffa_console"@[0] == 'q');
        assert("qm_ffa_console"@[3] == 'f');
        assert("qm_ffa_ew_console"@.len() == 17);
        assert("qm_ffa_ew_console"@[3] == 'f');
        assert("qm_ffa_nomad_console"@.len() == 20);
        assert("qm_ffa_nomad_console"@[3] == 'f');
        assert("custom"@.len() == 6);
        assert("custom"@[0] == 'c');
        assert("custom"@[3] == 't');
    }

    /// Reading gives back what was written: whatever [`GameKind::from_name`]
    /// promises to return for the name of a value is that value.
    pub proof fn law_name_round_trip(value: Self, read: Option<Self>)
        requires
            match read {
                Some(v) => v.name_text() == value.name_text(),
                None => !Self::is_name(value.name_text()),
            },
        ensures
            read == Some(value),
    {
        if let Some(v) = read {
            Self::lemma_names_differ(value, v);
        }
    }
}

impl std::str::FromStr for GameKind {
    type Err = UnknownName;

    /// Reads a value from its name, as [`GameKind::from_name`] does; a text that
    /// names no value is refused with [`UnknownName`].
    fn from_str(text: &str) -> (value: Result<Self, UnknownName>)
        ensures
            match value {
                Ok(v) => v.name_text() == text@,
                Err(_) => !Self::is_name(text@),
            },
    {
        match Self::from_name(text) {
            Some(value) => Ok(value),
            None => Err(UnknownName),
        }
    }
}

/// The result of a match. Either a win or a loss.
///
/// No-Result outcomes are not currently supported by the aoe4world API, but this may
/// change in the future.
#[derive(Debug, Clone, Copy, PartialEq, Eq, Structural, PartialOrd, Ord)]
pub enum GameResult {
    Unknown,
    NoResult,
    Loss,
    Win,
}

impl GameResult {
    /// The text by which the API names this value.
    pub open spec fn name_text(self) -> Seq<char> {
        match self {
            GameResult::Unknown => "unknown"@,
            GameResult::NoResult => "noresult"@,
            GameResult::Loss => "loss"@,
            GameResult::Win => "win"@,
        }
    }

    /// Whether `text` is the name of one of the values listed by name.
    pub open spec fn is_name(text: Seq<char>) -> bool {
        ||| text == "unknown"@
        ||| text == "noresult"@
        ||| text == "loss"@
        ||| text == "win"@
    }

    /// The text by which the API names this value.
    pub fn name(&self) -> (text: &'static str)
        ensures
            text@ == self.name_text(),
    {
        match self {
            GameResult::Unknown => "unknown",
            GameResult::NoResult => "noresult",
            GameResult::Loss => "loss",
            GameResult::Win => "win",
        }
    }

    /// The name as an owned string.
    pub fn to_string(&self) -> (text: String)
        ensures
            text@ == self.name_text(),
    {
        String::from_str(self.name())
    }

    /// Reads a value from its name; `None` for a text that names no value.
    pub fn from_name(text: &str) -> (value: Option<Self>)
        ensures
            match value {
                Some(v) => v.name_text() == text@,
                None => !Self::is_name(text@),
            },
    {
        if same_text(text, "unknown") {
            Some(GameResult::Unknown)
        } else if same_text(text, "noresult") {
            Some(GameResult::NoResult)
        } else if same_text(text, "loss") {
            Some(GameResult::Loss)
        } else if same_text(text, "win") {
            Some(GameResult::Win)
        } else {
            None
        }
    }

    /// Every value that is listed by name, in declaration order.
    pub fn variants() -> (all: Vec<Self>)
        ensures
            all@.len() == 4,
            forall|v: Self| all@.contains(v),
    {
        let mut all: Vec<Self> = Vec::new();
        all.push(GameResult::Unknown);
        all.push(GameResult::NoResult);
        all.push(GameResult::Loss);
        all.push(GameResult::Win);
        assert forall|v: Self| all@.contains(v) by {
            match v {
                GameResult::Unknown => assert(all@[0] == v),
                GameResult::NoResult => assert(all@[1] == v),
                GameResult::Loss => assert(all@[2] == v),
                GameResult::Win => assert(all@[3] == v),
            }
        }
        all
    }

    /// The names tell the values apart: two values with the same name are the
    /// same value.
    pub proof fn lemma_names_differ(a: Self, b: Self)
        requires
            a.name_text() == b.name_text(),
        ensures
            a == b,
    {
        reveal_strlit("unknown");
        reveal_strlit("noresult");
        reveal_strlit("loss");
        reveal_strlit("win");
        assert("unknown"@.len() == 7);
        assert("noresult"@.len() == 8);
        assert("loss"@.len() == 4);
        assert("win"@.len() == 3);
    }

    /// Reading gives back what was written: whatever [`GameResult::from_name`]
    /// promises to return for the name of a value is that value.
    pub proof fn law_name_round_trip(value: Self, read: Option<Self>)
        requires
            match read {
                Some(v) => v.name_text() == value.name_text(),
                None => !Self::is_name(value.name_text()),
            },
        ensures
            read == Some(value),
    {
        if let Some(v) = read {
            Self::lemma_names_differ(value, v);
        }
    }
}

impl std::str::FromStr for GameResult {
    type Err = UnknownName;

    /// Reads a value from its name, as [`GameResult::from_name`] does; a text that
    /// names no value is refused with [`UnknownName`].
    fn from_str(text: &str) -> (value: Result<Self, UnknownName>)
        ensures
            match value {
                Ok(v) => v.name_text() == text@,
                Err(_) => !Self::is_name(text@),
            },
    {
        match Self::from_name(text) {
            Some(value) => Ok(value),
            None => Err(UnknownName),
        }
    }
}

/// Input type for a player.
#[derive(Debug, Clone, Copy, PartialEq, Eq, Structural)]
pub enum InputType {
    Keyboard,
    Controller,
}

impl InputType {
    /// The text by which the API names this value.
    pub open spec fn name_text(self) -> Seq<char> {
        match self {
            InputType::Keyboard => "keyboard"@,
            InputType::Controller => "controller"@,
        }
    }

    /// Whether `text` is the name of one of the values listed by name.
    pub open spec fn is_name(text: Seq<char>) -> bool {
        ||| text == "keyboard"@
        ||| text == "controller"@
    }

    /// The text by which the API names this value.
    pub fn name(&self) -> (text: &'static str)
        ensures
            text@ == self.name_text(),
    {
        match self {
            InputType::Keyboard => "keyboard",
            InputType::Controller => "controller",
        }
    }

    /// The name as an owned string.
    pub fn to_string(&self) -> (text: String)
        ensures
            text@ == self.name_text(),
    {
        String::from_str(self.name())
    }

    /// Reads a value from its name; `None` for a text that names no value.
    pub fn from_name(text: &str) -> (value: Option<Self>)
        ensures
            match value {
                Some(v) => v.name_text() == text@,
                None => !Self::is_name(text@),
            },
    {
        if same_text(text, "keyboard") {
            Some(InputType::Keyboard)
        } else if same_text(text, "controller") {
            Some(InputType::Controller)
        } else {
            None
        }
    }

    /// Every value that is listed by name, in declaration order.
    pub fn variants() -> (all: Vec<Self>)
        ensures
            all@.len() == 2,
            forall|v: Self| all@.contains(v),
    {
        let mut all: Vec<Self> = Vec::new();
        all.push(InputType::Keyboard);
        all.push(InputType::Controller);
        assert forall|v: Self| all@.contains(v) by {
            match v {
                InputType::Keyboard => assert(all@[0] == v),
                InputType::Controller => assert(all@[1] == v),
            }
        }
        all
    }

    /// The names tell the values apart: two values with the same name are the
    /// same value.
    pub proof fn lemma_names_differ(a: Self, b: Self)
        requires
            a.name_text() == b.name_text(),
        ensures
            a == b,
    {
        reveal_strlit("keyboard");
        reveal_strlit("controller");
        assert("keyboard"@.len() == 8);
        assert("controller"@.len() == 10);
    }

    /// Reading gives back what was written: whatever [`InputType::from_name`]
    /// promises to return for the name of a value is that value.
    pub proof fn law_name_round_trip(value: Self, read: Option<Self>)
        requires
            match read {
                Some(v) => v.name_text() == value.name_text(),
                None => !Self::is_name(value.name_text()),
            },
        ensures
            read == Some(value),
    {
        if let Some(v) = read {
            Self::lemma_names_differ(value, v);
        }
    }
}

impl std::str::FromStr for InputType {
    type Err = UnknownName;

    /// Reads a value from its name, as [`InputType::from_name`] does; a text that
    /// names no value is refused with [`UnknownName`].
    fn from_str(text: &str) -> (value: Result<Self, UnknownName>)
        ensures
            match value {
                Ok(v) => v.name_text() == text@,
                Err(_) => !Self::is_name(text@),
            },
    {
        match Self::from_name(text) {
            Some(value) => Ok(value),
            None => Err(UnknownName),
        }
    }
}

/// Wrapper around a Player. This is unfortunately needed due to the schema of the
/// aoe4world API.
#[derive(Debug, Clone, PartialEq, Eq)]
pub struct PlayerWrapper {
    pub player: Player,
}

impl PlayerWrapper {
    /// The player inside the wrapper.
    pub fn deref(&self) -> (player: &Player)
        ensures
            *player == self.player,
    {
        &self.player
    }
}

impl From<PlayerWrapper> for Player {
    fn from(value: PlayerWrapper) -> (player: Self) {
        value.player
    }
}

impl vstd::std_specs::convert::FromSpecImpl<PlayerWrapper> for Player {
    open spec fn obeys_from_spec() -> bool {
        true
    }

    open spec fn from_spec(value: PlayerWrapper) -> Self {
        value.player
    }
}

/// A player in the game.
#[derive(Debug, Clone, PartialEq, Eq)]
pub struct Player {
    /// Name of the player.
    pub name: String,
    /// Profile ID of the player on aoe4world.
    pub profile_id: ProfileId,
    /// Result of the game.
    pub result: Option<GameResult>,
    /// Civilization played in the game.
    pub civilization: Option<Civilization>,
    /// Did the player select "random civ".
    pub civilization_randomized: Option<bool>,
    /// Rating points.
    pub rating: Option<u32>,
    /// Rating points gained or lost.
    pub rating_diff: Option<i64>,
    /// ELO.
    pub mmr: Option<i64>,
    /// ELO gained or lost.
    pub mmr_diff: Option<i64>,
    /// Input type (keyboard or controller).
    pub input_type: Option<InputType>,
}

impl Player {
    /// Returns a [`ProfileQuery`]. Used to get profile for this [`Player`].
    pub fn profile(&self) -> (query: ProfileQuery)
        ensures
            query.profile_id == Some(self.profile_id),
    {
        self.profile_id.profile()
    }
}

} // verus!
