//! Player profiles: the profile ID and the smaller records of a profile.

use vstd::prelude::*;

use crate::query::ProfileGamesQuery;
use crate::query::ProfileQuery;
use crate::text::decimal;
use crate::text::decimal_text;

verus! {

/// Player profile ID on aoe4world.
#[derive(Debug, Clone, Copy, PartialEq, Eq, Structural)]
pub struct ProfileId(pub u64);

impl From<u64> for ProfileId {
    fn from(value: u64) -> (id: Self) {
        ProfileId(value)
    }
}

impl vstd::std_specs::convert::FromSpecImpl<u64> for ProfileId {
    open spec fn obeys_from_spec() -> bool {
        true
    }

    open spec fn from_spec(value: u64) -> Self {
        ProfileId(value)
    }
}

impl From<ProfileId> for u64 {
    fn from(value: ProfileId) -> (id: Self) {
        value.0
    }
}

impl vstd::std_specs::convert::FromSpecImpl<ProfileId> for u64 {
    open spec fn obeys_from_spec() -> bool {
        true
    }

    open spec fn from_spec(value: ProfileId) -> Self {
        value.0
    }
}

impl ProfileId {
    /// The ID in decimal notation, as it stands in URLs.
    pub open spec fn text(self) -> Seq<char> {
        decimal_text(self.0 as nat)
    }

    /// The ID in decimal notation.
    pub fn to_string(&self) -> (text: String)
        ensures
            text@ == self.text(),
    {
        decimal(self.0)
    }

    /// The number of the ID.
    pub fn as_ref(&self) -> (id: &u64)
        ensures
            *id == self.0,
    {
        &self.0
    }

    /// Returns a [`ProfileQuery`]. Used to get profile for a player.
    pub fn profile(&self) -> (query: ProfileQuery)
        ensures
            query.profile_id == Some(*self),
    {
        crate::profile(self.0)
    }

    /// Constructs a query for the `/players/{profile_id}/games` endpoint for this [`ProfileId`].
    pub fn games(&self) -> (query: ProfileGamesQuery)
        ensures
            query == (ProfileGamesQuery { profile_id: Some(*self), ..ProfileGamesQuery::empty() }),
    {
        crate::profile_games(self.0)
    }
}

/// Links to avatars used by the player.
#[derive(Debug, Clone, PartialEq, Eq)]
pub struct Avatars {
    /// Small size.
    pub small: Option<String>,
    /// Medium size.
    pub medium: Option<String>,
    /// Full size.
    pub full: Option<String>,
}

/// Social information.
#[derive(Debug, Clone, PartialEq, Eq)]
pub struct Social {
    /// URL to the player's Twitch.
    pub twitch: Option<String>,
    /// URL to the player's YouTube.
    pub youtube: Option<String>,
    /// URL to the player's Liquipedia page.
    pub liquipedia: Option<String>,
    /// URL to the player's Twitter.
    pub twitter: Option<String>,
    /// URL to the player's Reddit.
    pub reddit: Option<String>,
    /// URL to the player's Instagram.
    pub instagram: Option<String>,
}

/// An entry in the player's rating history.
#[derive(Debug, Clone, PartialEq, Eq)]
pub struct RatingHistoryEntry {
    /// Rating points or ELO.
    pub rating: Option<u32>,
    /// How many games have been won or lost in a row.
    pub streak: Option<i64>,
    /// How many games have been played.
    pub games_count: Option<u32>,
    /// How many games have been won.
    pub wins_count: Option<u32>,
    /// How many games have been dropped.
    pub drops_count: Option<u32>,
    /// How many games have been disputed.
    pub disputes_count: Option<u32>,
    /// This field is populated when the player has decayed between this match
    /// and the previous one. It contains the rating after the decay but before
    /// the match was played.
    pub orig_rating: Option<u32>,
}

} // verus!
