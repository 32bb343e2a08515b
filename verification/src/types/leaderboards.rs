//! Leaderboards.

use vstd::prelude::*;
use vstd::string::StringExecFns;

use crate::error::UnknownName;
use crate::text::same_text;

verus! {

/// Which leaderboard a game was played on. Similar to [`crate::types::games::GameKind`]
/// but with the addition of `RmSolo` and `RmTeam`.
#[derive(Debug, Clone, Copy, PartialEq, Eq, Structural)]
pub enum Leaderboard {
    /// Solo ranked.
    RmSolo,
    /// Team ranked.
    RmTeam,
    /// 1v1 quick match.
    Qm1v1,
    /// 2v2 quick match.
    Qm2v2,
    /// 3v3 quick match.
    Qm3v3,
    /// 4v4 quick match.
    Qm4v4,
    /// 1v1 empire wars quick match.
    Qm1v1Ew,
    /// 2v2 empire wars quick match.
    Qm2v2Ew,
    /// 3v3 empire wars quick match.
    Qm3v3Ew,
    /// 4v4 empire wars quick match.
    Qm4v4Ew,
    /// Console solo ranked.
    RmSoloConsole,
    /// Console 1v1 quick match.
    Qm1v1Console,
    /// Console 2v2 quick match.
    Qm2v2Console,
    /// Console 3v3 quick match.
    Qm3v3Console,
    /// Console 4v4 quick match.
    Qm4v4Console,
    /// Console 1v1 empire wars quick match.
    Qm1v1EwConsole,
    /// Console 2v2 empire wars quick match.
    Qm2v2EwConsole,
    /// Console 3v3 empire wars quick match.
    Qm3v3EwConsole,
    /// Console 4v4 empire wars quick match.
    Qm4v4EwConsole,
}

impl Leaderboard {
    /// The text by which the API names this value.
    pub open spec fn name_text(self) -> Seq<char> {
        match self {
            Leaderboard::RmSolo => "rm_solo"@,
            Leaderboard::RmTeam => "rm_team"@,
            Leaderboard::Qm1v1 => "qm_1v1"@,
            Leaderboard::Qm2v2 => "qm_2v2"@,
            Leaderboard::Qm3v3 => "qm_3v3"@,
            Leaderboard::Qm4v4 => "qm_4v4"@,
            Leaderboard::Qm1v1Ew => "qm_1v1_ew"@,
            Leaderboard::Qm2v2Ew => "qm_2v2_ew"@,
            Leaderboard::Qm3v3Ew => "qm_3v3_ew"@,
            Leaderboard::Qm4v4Ew => "qm_4v4_ew"@,
            Leaderboard::RmSoloConsole => "rm_solo_console"@,
            Leaderboard::Qm1v1Console => "qm_1v1_console"@,
            Leaderboard::Qm2v2Console => "qm_2v2_console"@,
            Leaderboard::Qm3v3Console => "qm_3v3_console"@,
            Leaderboard::Qm4v4Console => "qm_4v4_console"@,
            Leaderboard::Qm1v1EwConsole => "qm_1v1_ew_console"@,
            Leaderboard::Qm2v2EwConsole => "qm_2v2_ew_console"@,
            Leaderboard::Qm3v3EwConsole => "qm_3v3_ew_console"@,
            Leaderboard::Qm4v4EwConsole => "qm_4v4_ew_console"@,
        }
    }

    /// Whether `text` is the name of one of the values listed by name.
    pub open spec fn is_name(text: Seq<char>) -> bool {
        ||| text == "rm_solo"@
        ||| text == "rm_team"@
        ||| text == "qm_1v1"@
        ||| text == "qm_2v2"@
        ||| text == "qm_3v3"@
        ||| text == "qm_4v4"@
        ||| text == "qm_1v1_ew"@
        ||| text == "qm_2v2_ew"@
        ||| text == "qm_3v3_ew"@
        ||| text == "qm_4v4_ew"@
        ||| text == "rm_solo_console"@
        ||| text == "qm_1v1_console"@
        ||| text == "qm_2v2_console"@
        ||| text == "qm_3v3_console"@
        ||| text == "qm_4v4_console"@
        ||| text == "qm_1v1_ew_console"@
        ||| text == "qm_2v2_ew_console"@
        ||| text == "qm_3v3_ew_console"@
        ||| text == "qm_4v4_ew_console"@
    }

    /// The text by which the API names this value.
    pub fn name(&self) -> (text: &'static str)
        ensures
            text@ == self.name_text(),
    {
        match self {
            Leaderboard::RmSolo => "rm_solo",
            Leaderboard::RmTeam => "rm_team",
            Leaderboard::Qm1v1 => "qm_1v1",
            Leaderboard::Qm2v2 => "qm_2v2",
            Leaderboard::Qm3v3 => "qm_3v3",
            Leaderboard::Qm4v4 => "qm_4v4",
            Leaderboard::Qm1v1Ew => "qm_1v1_ew",
            Leaderboard::Qm2v2Ew => "qm_2v2_ew",
            Leaderboard::Qm3v3Ew => "qm_3v3_ew",
            Leaderboard::Qm4v4Ew => "qm_4v4_ew",
            Leaderboard::RmSoloConsole => "rm_solo_console",
            Leaderboard::Qm1v1Console => "qm_1v1_console",
            Leaderboard::Qm2v2Console => "qm_2v2_console",
            Leaderboard::Qm3v3Console => "qm_3v3_console",
            Leaderboard::Qm4v4Console => "qm_4v4_console",
            Leaderboard::Qm1v1EwConsole => "qm_1v1_ew_console",
            Leaderboard::Qm2v2EwConsole => "qm_2v2_ew_console",
            Leaderboard::Qm3v3EwConsole => "qm_3v3_ew_console",
            Leaderboard::Qm4v4EwConsole => "qm_4v4_ew_console",
        }
    }

    /// The name as an owned string.
    pub fn to_string(&self) -> (text: String)
        ensures
            text@ == self.name_text(),
    {
        String::from_str(self.name())
    }

    /// Reads a value from its name; `None` for a text that names no value.
    pub fn from_name(text: &str) -> (value: Option<Self>)
        ensures
            match value {
                Some(v) => v.name_text() == text@,
                None => !Self::is_name(text@),
            },
    {
        if same_text(text, "rm_solo") {
            Some(Leaderboard::RmSolo)
        } else if same_text(text, "rm_team") {
            Some(Leaderboard::RmTeam)
        } else if same_text(text, "qm_1v1") {
            Some(Leaderboard::Qm1v1)
        } else if same_text(text, "qm_2v2") {
            Some(Leaderboard::Qm2v2)
        } else if same_text(text, "qm_3v3") {
            Some(Leaderboard::Qm3v3)
        } else if same_text(text, "qm_4v4") {
            Some(Leaderboard::Qm4v4)
        } else if same_text(text, "qm_1v1_ew") {
            Some(Leaderboard::Qm1v1Ew)
        } else if same_text(text, "qm_2v2_ew") {
            Some(Leaderboard::Qm2v2Ew)
        } else if same_text(text, "qm_3v3_ew") {
            Some(Leaderboard::Qm3v3Ew)
        } else if same_text(text, "qm_4v4_ew") {
            Some(Leaderboard::Qm4v4Ew)
        } else if same_text(text, "rm_solo_console") {
            Some(Leaderboard::RmSoloConsole)
        } else if same_text(text, "qm_1v1_console") {
            Some(Leaderboard::Qm1v1Console)
        } else if same_text(text, "qm_2v2_console") {
            Some(Leaderboard::Qm2v2Console)
        } else if same_text(text, "qm_3v3_console") {
            Some(Leaderboard::Qm3v3Console)
        } else if same_text(text, "qm_4v4_console") {
            Some(Leaderboard::Qm4v4Console)
        } else if same_text(text, "qm_1v1_ew_console") {
            Some(Leaderboard::Qm1v1EwConsole)
        } else if same_text(text, "qm_2v2_ew_console") {
            Some(Leaderboard::Qm2v2EwConsole)
        } else if same_text(text, "qm_3v3_ew_console") {
            Some(Leaderboard::Qm3v3EwConsole)
        } else if same_text(text, "qm_4v4_ew_console") {
            Some(Leaderboard::Qm4v4EwConsole)
        } else {
            None
        }
    }

    /// Every value that is listed by name, in declaration order.
    pub fn variants() -> (all: Vec<Self>)
        ensures
            all@.len() == 19,
            forall|v: Self| all@.contains(v),
    {
        let mut all: Vec<Self> = Vec::new();
        all.push(Leaderboard::RmSolo);
        all.push(Leaderboard::RmTeam);
        all.push(Leaderboard::Qm1v1);
        all.push(Leaderboard::Qm2v2);
        all.push(Leaderboard::Qm3v3);
        all.push(Leaderboard::Qm4v4);
        all.push(Leaderboard::Qm1v1Ew);
        all.push(Leaderboard::Qm2v2Ew);
        all.push(Leaderboard::Qm3v3Ew);
        all.push(Leaderboard::Qm4v4Ew);
        all.push(Leaderboard::RmSoloConsole);
        all.push(Leaderboard::Qm1v1Console);
        all.push(Leaderboard::Qm2v2Console);
        all.push(Leaderboard::Qm3v3Console);
        all.push(Leaderboard::Qm4v4Console);
        all.push(Leaderboard::Qm1v1EwConsole);
        all.push(Leaderboard::Qm2v2EwConsole);
        all.push(Leaderboard::Qm3v3EwConsole);
        all.push(Leaderboard::Qm4v4EwConsole);
        assert forall|v: Self| all@.contains(v) by {
            match v {
                Leaderboard::RmSolo => assert(all@[0] == v),
                Leaderboard::RmTeam => assert(all@[1] == v),
                Leaderboard::Qm1v1 => assert(all@[2] == v),
                Leaderboard::Qm2v2 => assert(all@[3] == v),
                Leaderboard::Qm3v3 => assert(all@[4] == v),
                Leaderboard::Qm4v4 => assert(all@[5] == v),
                Leaderboard::Qm1v1Ew => assert(all@[6] == v),
                Leaderboard::Qm2v2Ew => assert(all@[7] == v),
                Leaderboard::Qm3v3Ew => assert(all@[8] == v),
                Leaderboard::Qm4v4Ew => assert(all@[9] == v),
                Leaderboard::RmSoloConsole => assert(all@[10] == v),
                Leaderboard::Qm1v1Console => assert(all@[11] == v),
                Leaderboard::Qm2v2Console => assert(all@[12] == v),
                Leaderboard::Qm3v3Console => assert(all@[13] == v),
                Leaderboard::Qm4v4Console => assert(all@[14] == v),
                Leaderboard::Qm1v1EwConsole => assert(all@[15] == v),
                Leaderboard::Qm2v2EwConsole => assert(all@[16] == v),
                Leaderboard::Qm3v3EwConsole => assert(all@[17] == v),
                Leaderboard::Qm4v4EwConsole => assert(all@[18] == v),
            }
        }
        all
    }

    /// The names tell the values apart: two values with the same name are the
    /// same value.
    pub proof fn lemma_names_differ(a: Self, b: Self)
        requires
            a.name_text() == b.name_text(),
        ensures
            a == b,
    {
        reveal_strlit("rm_solo");
        reveal_strlit("rm_team");
        reveal_strlit("qm_1v1");
        reveal_strlit("qm_2v2");
        reveal_strlit("qm_3v3");
        reveal_strlit("qm_4v4");
        reveal_strlit("qm_1v1_ew");
        reveal_strlit("qm_2v2_ew");
        reveal_strlit("qm_3v3_ew");
        reveal_strlit("qm_4v4_ew");
        reveal_strlit("rm_solo_console");
        reveal_strlit("qm_1v1_console");
        reveal_strlit("qm_2v2_console");
        reveal_strlit("qm_3v3_console");
        reveal_strlit("qm_4v4_console");
        reveal_strlit("qm_1v1_ew_console");
        reveal_strlit("qm_2v2_ew_console");
        reveal_strlit("qm_3v3_ew_console");
        reveal_strlit("qm_4v4_ew_console");
        assert("rm_solo"@.len() == 7);
        assert("rm_solo"@[3] == 's');
        assert("rm_team"@.len() == 7);
        assert("rm_team"@[3] == 't');
        assert("qm_1v1"@.len() == 6);
        assert("qm_1v1"@[3] == '1');
        assert("qm_2v2"@.len() == 6);
        assert("qm_2v2"@[3] == '2');
        assert("qm_3v3"@.len() == 6);
        assert("qm_3v3"@[3] == '3');
        assert("qm_4v4"@.len() == 6);
        assert("qm_4v4"@[3] == '4');
        assert("qm_1v1_ew"@.len() == 9);
        assert("qm_1v1_ew"@[3] == '1');
        assert("qm_2v2_ew"@.len() == 9);
        assert("qm_2v2_ew"@[3] == '2');
        assert("qm_3v3_ew"@.len() == 9);
        assert("qm_3v3_ew"@[3] == '3');
        assert("qm_4v4_ew"@.len() == 9);
        assert("qm_4v4_ew"@[3] == '4');
        assert("rm_solo_console"@.len() == 15);
        assert("qm_1v1_console"@.len() == 14);
        assert("qm_1v1_console"@[3] == '1');
        assert("qm_2v2_console"@.len() == 14);
        assert("qm_2v2_console"@[3] == '2');
        assert("qm_3v3_console"@.len() == 14);
        assert("qm_3v3_console"@[3] == '3');
        assert("qm_4v4_console"@.len() == 14);
        assert("qm_4v4_console"@[3] == '4');
        assert("qm_1v1_ew_console"@.len() == 17);
        assert("qm_1v1_ew_console"@[3] == '1');
        assert("qm_2v2_ew_console"@.len() == 17);
        assert("qm_2v2_ew_console"@[3] == '2');
        assert("qm_3v3_ew_console"@.len() == 17);
        assert("qm_3v3_ew_console"@[3] == '3');
        assert("qm_4v4_ew_console"@.len() == 17);
        assert("qm_4v4_ew_console"@[3] == '4');
    }

    /// Reading gives back what was written: whatever [`Leaderboard::from_name`]
    /// promises to return for the name of a value is that value.
    pub proof fn law_name_round_trip(value: Self, read: Option<Self>)
        requires
            match read {
                Some(v) => v.name_text() == value.name_text(),
                None => !Self::is_name(value.name_text()),
            },
        ensures
            read == Some(value),
    {
        if let Some(v) = read {
            Self::lemma_names_differ(value, v);
        }
    }

    /// Alias for [`Leaderboard::RmSolo`].
    #[allow(non_upper_case_globals)]
    pub const Rm1v1: Leaderboard = Leaderboard::RmSolo;

    /// The name that a JSON document's text stands for: `rm_1v1` and
    /// `rm_1v1_console` are older names of the two solo ranked leaderboards.
    pub open spec fn wire_value(text: Seq<char>) -> Seq<char> {
        if text == "rm_1v1"@ {
            "rm_solo"@
        } else if text == "rm_1v1_console"@ {
            "rm_solo_console"@
        } else {
            text
        }
    }

    /// Reads a leaderboard from a JSON document, older names included.
    pub fn from_wire(text: &str) -> (value: Option<Self>)
        ensures
            match value {
                Some(v) => v.name_text() == Self::wire_value(text@),
                None => !Self::is_name(Self::wire_value(text@)),
            },
    {
        if same_text(text, "rm_1v1") {
            Self::from_name("rm_solo")
        } else if same_text(text, "rm_1v1_console") {
            Self::from_name("rm_solo_console")
        } else {
            Self::from_name(text)
        }
    }
}

impl std::str::FromStr for Leaderboard {
    type Err = UnknownName;

    /// Reads a value from its name, as [`Leaderboard::from_name`] does; a text that
    /// names no value is refused with [`UnknownName`].
    fn from_str(text: &str) -> (value: Result<Self, UnknownName>)
        ensures
            match value {
                Ok(v) => v.name_text() == text@,
                Err(_) => !Self::is_name(text@),
            },
    {
        match Self::from_name(text) {
            Some(value) => Ok(value),
            None => Err(UnknownName),
        }
    }
}

} // verus!
