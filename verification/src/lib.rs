//! Typed, verified building blocks for a client of the [aoe4world] API.
//!
//! The library builds the requests for player profiles, match histories,
//! leaderboards and player searches, and turns a paginated list endpoint
//! into one ordered stream of items: it plans how many pages to read,
//! decides which pages to request next while others are still in flight,
//! and hands the items out in page order whatever the order in which the
//! pages arrive. It sends nothing itself: a caller performs the requests
//! that the library names and hands the answers back.
//!
//! [aoe4world]: https://aoe4world.com/api

use vstd::prelude::*;

use crate::query::GlobalGamesQuery;
use crate::query::LeaderboardQuery;
use crate::query::ProfileGamesQuery;
use crate::query::ProfileQuery;
use crate::query::SearchQuery;
use crate::types::leaderboards::Leaderboard;
use crate::types::profile::ProfileId;
use vstd::std_specs::convert::IntoSpec;

pub mod error;
pub mod laws;
pub mod order;
pub mod pagination;
pub mod query;
pub mod stream;
pub mod text;
pub mod time;
pub mod types;
pub mod urls;

verus! {

/// Returns a [`ProfileQuery`]. Used to get profile for a player.
///
/// # Params
/// - `profile_id` is aoe4world the ID of the player.
pub fn profile<I: Into<ProfileId>>(profile_id: I) -> (query: ProfileQuery)
    ensures
        I::obeys_into_spec() ==> query.profile_id == Some(profile_id.into_spec()),
{
    ProfileQuery::default().with_profile_id(Some(profile_id.into()))
}

/// Returns a [`ProfileGamesQuery`]. Used to query the `/profile/{profile_id}/games` endpoint.
///
/// # Params
/// - `profile_id` is aoe4world the ID of the player whose games should be searched.
pub fn profile_games<I: Into<ProfileId>>(profile_id: I) -> (query: ProfileGamesQuery)
    ensures
        I::obeys_into_spec() ==> query == (ProfileGamesQuery {
            profile_id: Some(profile_id.into_spec()),
            ..ProfileGamesQuery::empty()
        }),
{
    ProfileGamesQuery::default().with_profile_id(Some(profile_id.into()))
}

/// Returns a [`GlobalGamesQuery`]. Used to query the `/games` endpoint.
pub fn games() -> (query: GlobalGamesQuery)
    ensures
        query == GlobalGamesQuery::empty(),
{
    GlobalGamesQuery::default()
}

/// Returns a [`SearchQuery`]. Used to query the `/players/search` endpoint.
///
/// Note: the query must contain at least 3 characters.
///
/// # Params
/// - `query` is a search query (e.g. a player's username or part of a username).
pub fn search(query: &str) -> (search: SearchQuery)
    ensures
        search.query matches Some(text) && text@ == query@,
        search.exact is None,
{
    SearchQuery::default().with_query(Some(query.to_owned()))
}

/// Returns a [`LeaderboardQuery`]. Used to query the `/leaderboards/{leaderboard}` endpoint.
///
/// # Params
/// - `leaderboard` is the leaderboard to fetch.
pub fn leaderboard(board: Leaderboard) -> (query: LeaderboardQuery)
    ensures
        query.leaderboard == Some(board),
        query.profile_id is None,
        query.query is None,
{
    LeaderboardQuery::default().with_leaderboard(Some(board))
}

} // verus!
