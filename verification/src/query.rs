//! Query builders for the endpoints of the aoe4world API.
//!
//! A query collects the caller's filters. From a query the library makes the
//! name/value pairs of the query string and the request for the first page;
//! it refuses a query that lacks what its endpoint needs before anything is
//! sent. Using the builders directly is possible, but it may be more
//! ergonomic to use the functions at the top level of the library.

use vstd::prelude::*;
use vstd::string::StringExecFns;

use crate::error::QueryError;
use crate::pagination::PaginatedRequest;
use crate::pagination::DEFAULT_COUNT_PER_PAGE;
use crate::text::decimal;
use crate::text::join;
use crate::text::joined;
use crate::text::pair_views;
use crate::text::text_views;
use crate::time::Timestamp;
use crate::types::games::GameKind;
use crate::types::games::GamesOrder;
use crate::types::leaderboards::Leaderboard;
use crate::types::profile::ProfileId;
use crate::urls::build_url;
use crate::urls::byte_len;
use crate::urls::url_outcome;

verus! {

/// A sequence of name/value pairs, each as text.
pub type Pairs = Seq<(Seq<char>, Seq<char>)>;

/// The pair of `name` and `value` where there is a value, else no pair.
pub open spec fn one_pair(name: Seq<char>, value: Option<Seq<char>>) -> Pairs {
    match value {
        Some(v) => seq![(name, v)],
        None => Seq::empty(),
    }
}

/// The elements of an optional list; none where there is no list.
pub open spec fn listed<A>(list: Option<Vec<A>>) -> Seq<A> {
    match list {
        Some(v) => v@,
        None => Seq::empty(),
    }
}

/// The profile IDs in decimal notation.
pub open spec fn id_texts(ids: Seq<ProfileId>) -> Seq<Seq<char>> {
    ids.map_values(|id: ProfileId| id.text())
}

/// The names of the leaderboards.
pub open spec fn leaderboard_names(boards: Seq<Leaderboard>) -> Seq<Seq<char>> {
    boards.map_values(|b: Leaderboard| b.name_text())
}

/// The names of the game kinds.
pub open spec fn kind_names(kinds: Seq<GameKind>) -> Seq<Seq<char>> {
    kinds.map_values(|k: GameKind| k.name_text())
}

/// The profile ID in decimal notation, where there is one.
pub open spec fn id_value(id: Option<ProfileId>) -> Option<Seq<char>> {
    match id {
        Some(id) => Some(id.text()),
        None => None,
    }
}

/// The profile IDs in decimal notation with commas between them, where
/// there is a list. An empty list gives the empty text.
pub open spec fn ids_value(ids: Option<Vec<ProfileId>>) -> Option<Seq<char>> {
    match ids {
        Some(ids) => Some(joined(id_texts(ids@), ","@)),
        None => None,
    }
}

/// The RFC 3339 text of the point in time, where there is one that the
/// calendar can express.
pub open spec fn since_value(since: Option<Timestamp>) -> Option<Seq<char>> {
    match since {
        Some(time) => time.text(),
        None => None,
    }
}

/// Whether the filter holds a point in time that the calendar cannot express.
pub open spec fn since_invalid(since: Option<Timestamp>) -> bool {
    since matches Some(time) && time.text() is None
}

/// The text of a boolean: `true` or `false`.
pub open spec fn bool_text(value: bool) -> Seq<char> {
    if value {
        "true"@
    } else {
        "false"@
    }
}

/// The pairs of a result, each as text.
pub open spec fn pairs_result(result: Result<Vec<(String, String)>, QueryError>) -> Result<
    Pairs,
    QueryError,
> {
    match result {
        Ok(pairs) => Ok(pair_views(pairs@)),
        Err(e) => Err(e),
    }
}

/// What the first request of a query comes to, given the URL of its
/// endpoint and its pairs: the text of the request's URL, or the error that
/// refuses the query.
pub open spec fn request_outcome(base: Seq<char>, pairs: Result<Pairs, QueryError>) -> Result<
    Seq<char>,
    QueryError,
> {
    match pairs {
        Err(e) => Err(e),
        Ok(pairs) => match url_outcome(base, pairs) {
            Ok(text) => Ok(text),
            Err(e) => Err(QueryError::Url(e)),
        },
    }
}

/// The URL text of a request that was made, or the error in its place.
pub open spec fn request_text(result: Result<PaginatedRequest, QueryError>) -> Result<
    Seq<char>,
    QueryError,
> {
    match result {
        Ok(request) => Ok(request.url@),
        Err(e) => Err(e),
    }
}

/// Appends the pair of `name` and `value`.
fn push_pair(pairs: &mut Vec<(String, String)>, name: &str, value: String)
    ensures
        pair_views(final(pairs)@) == pair_views(old(pairs)@).push((name@, value@)),
{
    pairs.push((name.to_owned(), value));
    assert(pair_views(pairs@) =~= pair_views(old(pairs)@).push((name@, value@)));
}

/// Appends the names of the leaderboards.
fn push_leaderboard_names(names: &mut Vec<String>, boards: &Vec<Leaderboard>)
    ensures
        text_views(final(names)@) == text_views(old(names)@) + leaderboard_names(boards@),
{
    let mut i: usize = 0;
    while i < boards.len()
        invariant
            0 <= i <= boards.len(),
            text_views(names@) =~= text_views(old(names)@) + leaderboard_names(
                boards@.take(i as int),
            ),
        decreases boards.len() - i,
    {
        let ghost before = names@;
        names.push(boards[i].to_string());
        proof {
            assert(boards@.take(i + 1) =~= boards@.take(i as int).push(boards@[i as int]));
            assert(leaderboard_names(boards@.take(i + 1)) =~= leaderboard_names(
                boards@.take(i as int),
            ).push(boards@[i as int].name_text()));
            assert(text_views(names@) =~= text_views(before).push(boards@[i as int].name_text()));
        }
        i = i + 1;
    }
    assert(boards@.take(i as int) =~= boards@);
}

/// Appends the names of the game kinds.
fn push_kind_names(names: &mut Vec<String>, kinds: &Vec<GameKind>)
    ensures
        text_views(final(names)@) == text_views(old(names)@) + kind_names(kinds@),
{
    let mut i: usize = 0;
    while i < kinds.len()
        invariant
            0 <= i <= kinds.len(),
            text_views(names@) =~= text_views(old(names)@) + kind_names(kinds@.take(i as int)),
        decreases kinds.len() - i,
    {
        let ghost before = names@;
        names.push(kinds[i].to_string());
        proof {
            assert(kinds@.take(i + 1) =~= kinds@.take(i as int).push(kinds@[i as int]));
            assert(kind_names(kinds@.take(i + 1)) =~= kind_names(kinds@.take(i as int)).push(
                kinds@[i as int].name_text(),
            ));
            assert(text_views(names@) =~= text_views(before).push(kinds@[i as int].name_text()));
        }
        i = i + 1;
    }
    assert(kinds@.take(i as int) =~= kinds@);
}

/// The profile IDs in decimal notation with commas between them.
fn join_ids(ids: &Vec<ProfileId>) -> (text: String)
    ensures
        text@ == joined(id_texts(ids@), ","@),
{
    let mut texts: Vec<String> = Vec::new();
    let mut i: usize = 0;
    while i < ids.len()
        invariant
            0 <= i <= ids.len(),
            text_views(texts@) =~= id_texts(ids@.take(i as int)),
        decreases ids.len() - i,
    {
        let ghost before = texts@;
        texts.push(ids[i].to_string());
        proof {
            assert(ids@.take(i + 1) =~= ids@.take(i as int).push(ids@[i as int]));
            assert(id_texts(ids@.take(i + 1)) =~= id_texts(ids@.take(i as int)).push(
                ids@[i as int].text(),
            ));
            assert(text_views(texts@) =~= text_views(before).push(ids@[i as int].text()));
        }
        i = i + 1;
    }
    assert(ids@.take(i as int) =~= ids@);
    join(&texts, ",")
}

/// Appends the `since` pair; fails where the filter holds a point in time
/// that the calendar cannot express.
fn push_since(pairs: &mut Vec<(String, String)>, since: &Option<Timestamp>) -> (done: Result<
    (),
    QueryError,
>)
    ensures
        done is Err <==> since_invalid(*since),
        done is Err ==> done == Err::<(), QueryError>(QueryError::InvalidTimestamp),
        done is Ok ==> pair_views(final(pairs)@) == pair_views(old(pairs)@) + one_pair(
            "since"@,
            since_value(*since),
        ),
{
    match since {
        Some(time) => match time.to_rfc3339() {
            Some(text) => {
                push_pair(pairs, "since", text);
                Ok(())
            },
            None => Err(QueryError::InvalidTimestamp),
        },
        None => {
            assert(pair_views(pairs@) =~= pair_views(pairs@) + Seq::empty());
            Ok(())
        },
    }
}

/// The request for the first page of the query at `base` with `pairs`, or
/// the error that refuses the query.
fn first_request(base: &str, pairs: Result<Vec<(String, String)>, QueryError>) -> (request: Result<
    PaginatedRequest,
    QueryError,
>)
    ensures
        request_text(request) == request_outcome(base@, pairs_result(pairs)),
        request matches Ok(r) ==> r.page == 1 && r.per_page == DEFAULT_COUNT_PER_PAGE,
{
    match pairs {
        Err(e) => Err(e),
        Ok(pairs) => match build_url(base, &pairs) {
            Ok(url) => Ok(PaginatedRequest::new(url)),
            Err(e) => Err(QueryError::Url(e)),
        },
    }
}

/// Constructs a query for the `/players/{profile_id}/games` endpoint.
pub struct ProfileGamesQuery {
    /// [`ProfileId`] to query.
    pub profile_id: Option<ProfileId>,
    /// Filter by [`GameKind`].
    pub game_kind: Option<Vec<GameKind>>,
    /// Filter by [`Leaderboard`]. Same as [`GameKind`] but supports
    /// [`Leaderboard::RmSolo`] and [`Leaderboard::RmTeam`].
    pub leaderboard: Option<Vec<Leaderboard>>,
    /// Filter over an opponent's profile ID.
    pub opponent_profile_id: Option<ProfileId>,
    /// Filter over a list of opponent profile IDs.
    pub opponent_profile_ids: Option<Vec<ProfileId>>,
    /// Filter by time played since a specific date.
    pub since: Option<Timestamp>,
}

impl Default for ProfileGamesQuery {
    fn default() -> (query: Self)
        ensures
            query == Self::empty(),
    {
        ProfileGamesQuery {
            profile_id: None,
            game_kind: None,
            leaderboard: None,
            opponent_profile_id: None,
            opponent_profile_ids: None,
            since: None,
        }
    }
}

impl ProfileGamesQuery {
    /// The query without any filter.
    pub open spec fn empty() -> Self {
        ProfileGamesQuery {
            profile_id: None,
            game_kind: None,
            leaderboard: None,
            opponent_profile_id: None,
            opponent_profile_ids: None,
            since: None,
        }
    }

    /// Sets the profile whose games are listed.
    pub fn with_profile_id(self, value: Option<ProfileId>) -> (query: Self)
        ensures
            query == (ProfileGamesQuery { profile_id: value, ..self }),
    {
        ProfileGamesQuery { profile_id: value, ..self }
    }

    /// Sets the filter by game kind.
    pub fn with_game_kind(self, value: Option<Vec<GameKind>>) -> (query: Self)
        ensures
            query == (ProfileGamesQuery { game_kind: value, ..self }),
    {
        ProfileGamesQuery { game_kind: value, ..self }
    }

    /// Sets the filter by leaderboard.
    pub fn with_leaderboard(self, value: Option<Vec<Leaderboard>>) -> (query: Self)
        ensures
            query == (ProfileGamesQuery { leaderboard: value, ..self }),
    {
        ProfileGamesQuery { leaderboard: value, ..self }
    }

    /// Sets the filter by one opponent.
    pub fn with_opponent_profile_id(self, value: Option<ProfileId>) -> (query: Self)
        ensures
            query == (ProfileGamesQuery { opponent_profile_id: value, ..self }),
    {
        ProfileGamesQuery { opponent_profile_id: value, ..self }
    }

    /// Sets the filter by a list of opponents.
    pub fn with_opponent_profile_ids(self, value: Option<Vec<ProfileId>>) -> (query: Self)
        ensures
            query == (ProfileGamesQuery { opponent_profile_ids: value, ..self }),
    {
        ProfileGamesQuery { opponent_profile_ids: value, ..self }
    }

    /// Sets the filter by time played.
    pub fn with_since(self, value: Option<Timestamp>) -> (query: Self)
        ensures
            query == (ProfileGamesQuery { since: value, ..self }),
    {
        ProfileGamesQuery { since: value, ..self }
    }

    /// The names that the `leaderboard` pair lists: those of the
    /// leaderboards, then those of the game kinds.
    pub open spec fn board_names(self) -> Seq<Seq<char>> {
        leaderboard_names(listed(self.leaderboard)) + kind_names(listed(self.game_kind))
    }

    /// The value of the `leaderboard` pair: the names with commas between
    /// them; no pair where no name is listed.
    pub open spec fn board_value(self) -> Option<Seq<char>> {
        if self.board_names().len() > 0 {
            Some(joined(self.board_names(), ","@))
        } else {
            None
        }
    }

    /// The pairs of the query string, in the order in which they are
    /// written, or the error that refuses the filters.
    pub open spec fn params(self) -> Result<Pairs, QueryError> {
        if since_invalid(self.since) {
            Err(QueryError::InvalidTimestamp)
        } else {
            Ok(
                one_pair("leaderboard"@, self.board_value()) + one_pair(
                    "opponent_profile_id"@,
                    id_value(self.opponent_profile_id),
                ) + one_pair("opponent_profile_ids"@, ids_value(self.opponent_profile_ids))
                    + one_pair("since"@, since_value(self.since)),
            )
        }
    }

    /// The pairs that the filters add to the query string.
    pub fn query_params(&self) -> (pairs: Result<Vec<(String, String)>, QueryError>)
        ensures
            pairs_result(pairs) == self.params(),
    {
        let mut pairs: Vec<(String, String)> = Vec::new();
        let mut names: Vec<String> = Vec::new();
        if let Some(boards) = &self.leaderboard {
            push_leaderboard_names(&mut names, boards);
        }
        let ghost after_boards = text_views(names@);
        assert(after_boards =~= leaderboard_names(listed(self.leaderboard)));
        if let Some(kinds) = &self.game_kind {
            push_kind_names(&mut names, kinds);
        }
        assert(text_views(names@) =~= self.board_names());
        if names.len() > 0 {
            push_pair(&mut pairs, "leaderboard", join(&names, ","));
        }
        let ghost board_pairs = pair_views(pairs@);
        assert(board_pairs =~= one_pair("leaderboard"@, self.board_value()));
        if let Some(id) = &self.opponent_profile_id {
            push_pair(&mut pairs, "opponent_profile_id", id.to_string());
        }
        let ghost opponent_pairs = pair_views(pairs@);
        assert(opponent_pairs =~= board_pairs + one_pair(
            "opponent_profile_id"@,
            id_value(self.opponent_profile_id),
        ));
        if let Some(ids) = &self.opponent_profile_ids {
            push_pair(&mut pairs, "opponent_profile_ids", join_ids(ids));
        }
        let ghost ids_pairs = pair_views(pairs@);
        assert(ids_pairs =~= opponent_pairs + one_pair(
            "opponent_profile_ids"@,
            ids_value(self.opponent_profile_ids),
        ));
        match push_since(&mut pairs, &self.since) {
            Ok(()) => Ok(pairs),
            Err(e) => Err(e),
        }
    }

    /// The URL of the endpoint for the profile `id`.
    pub open spec fn endpoint(id: ProfileId) -> Seq<char> {
        "https://aoe4world.com/api/v0/players/"@ + id.text() + "/games"@
    }

    /// What [`ProfileGamesQuery::request`] comes to: the text of the first
    /// request's URL, or the error that refuses the query.
    pub open spec fn outcome(self) -> Result<Seq<char>, QueryError> {
        match self.profile_id {
            None => Err(QueryError::MissingProfileId),
            Some(id) => request_outcome(Self::endpoint(id), self.params()),
        }
    }

    /// The request for the first page of this profile's games. A query
    /// without a profile ID is refused with [`QueryError::MissingProfileId`].
    pub fn request(&self) -> (request: Result<PaginatedRequest, QueryError>)
        ensures
            request_text(request) == self.outcome(),
            request matches Ok(r) ==> r.page == 1 && r.per_page == DEFAULT_COUNT_PER_PAGE,
    {
        match &self.profile_id {
            None => Err(QueryError::MissingProfileId),
            Some(id) => {
                let mut base = String::from_str("https://aoe4world.com/api/v0/players/");
                let digits = id.to_string();
                base.append(digits.as_str());
                base.append("/games");
                first_request(base.as_str(), self.query_params())
            },
        }
    }
}

/// Constructs a query for the `/games` endpoint.
pub struct GlobalGamesQuery {
    /// Filter by game kind category.
    ///
    /// NOTE: this is named `leaderboard` but uses the [`GameKind`] enum.
    pub leaderboard: Option<Vec<GameKind>>,
    /// Filter over an opponent's profile ID.
    pub opponent_profile_id: Option<ProfileId>,
    /// Filter over a list of profile IDs.
    pub profile_ids: Option<Vec<ProfileId>>,
    /// Filter by time played since a specific date.
    pub since: Option<Timestamp>,
    /// Order in which the games are listed.
    pub order: Option<GamesOrder>,
}

impl Default for GlobalGamesQuery {
    fn default() -> (query: Self)
        ensures
            query == Self::empty(),
    {
        GlobalGamesQuery {
            leaderboard: None,
            opponent_profile_id: None,
            profile_ids: None,
            since: None,
            order: None,
        }
    }
}

/// The names of the game kinds with commas between them, where there is a
/// list. An empty list gives the empty text.
pub open spec fn kinds_value(kinds: Option<Vec<GameKind>>) -> Option<Seq<char>> {
    match kinds {
        Some(kinds) => Some(joined(kind_names(kinds@), ","@)),
        None => None,
    }
}

/// The name of the order, where there is one.
pub open spec fn order_value(order: Option<GamesOrder>) -> Option<Seq<char>> {
    match order {
        Some(order) => Some(order.name_text()),
        None => None,
    }
}

impl GlobalGamesQuery {
    /// The query without any filter.
    pub open spec fn empty() -> Self {
        GlobalGamesQuery {
            leaderboard: None,
            opponent_profile_id: None,
            profile_ids: None,
            since: None,
            order: None,
        }
    }

    /// Sets the filter by game kind.
    pub fn with_leaderboard(self, value: Option<Vec<GameKind>>) -> (query: Self)
        ensures
            query == (GlobalGamesQuery { leaderboard: value, ..self }),
    {
        GlobalGamesQuery { leaderboard: value, ..self }
    }

    /// Sets the filter by one opponent.
    pub fn with_opponent_profile_id(self, value: Option<ProfileId>) -> (query: Self)
        ensures
            query == (GlobalGamesQuery { opponent_profile_id: value, ..self }),
    {
        GlobalGamesQuery { opponent_profile_id: value, ..self }
    }

    /// Sets the filter by a list of profiles.
    pub fn with_profile_ids(self, value: Option<Vec<ProfileId>>) -> (query: Self)
        ensures
            query == (GlobalGamesQuery { profile_ids: value, ..self }),
    {
        GlobalGamesQuery { profile_ids: value, ..self }
    }

    /// Sets the filter by time played.
    pub fn with_since(self, value: Option<Timestamp>) -> (query: Self)
        ensures
            query == (GlobalGamesQuery { since: value, ..self }),
    {
        GlobalGamesQuery { since: value, ..self }
    }

    /// Sets the order in which the games are listed.
    pub fn with_order(self, value: Option<GamesOrder>) -> (query: Self)
        ensures
            query == (GlobalGamesQuery { order: value, ..self }),
    {
        GlobalGamesQuery { order: value, ..self }
    }

    /// The pairs of the query string, in the order in which they are
    /// written, or the error that refuses the filters.
    pub open spec fn params(self) -> Result<Pairs, QueryError> {
        if since_invalid(self.since) {
            Err(QueryError::InvalidTimestamp)
        } else {
            Ok(
                one_pair("leaderboard"@, kinds_value(self.leaderboard)) + one_pair(
                    "opponent_profile_id"@,
                    id_value(self.opponent_profile_id),
                ) + one_pair("profile_ids"@, ids_value(self.profile_ids)) + one_pair(
                    "since"@,
                    since_value(self.since),
                ) + one_pair("order"@, order_value(self.order)),
            )
        }
    }

    /// The pairs that the filters add to the query string.
    pub fn query_params(&self) -> (pairs: Result<Vec<(String, String)>, QueryError>)
        ensures
            pairs_result(pairs) == self.params(),
    {
        let mut pairs: Vec<(String, String)> = Vec::new();
        if let Some(kinds) = &self.leaderboard {
            let mut names: Vec<String> = Vec::new();
            push_kind_names(&mut names, kinds);
            assert(text_views(names@) =~= kind_names(kinds@));
            push_pair(&mut pairs, "leaderboard", join(&names, ","));
        }
        let ghost board_pairs = pair_views(pairs@);
        assert(board_pairs =~= one_pair("leaderboard"@, kinds_value(self.leaderboard)));
        if let Some(id) = &self.opponent_profile_id {
            push_pair(&mut pairs, "opponent_profile_id", id.to_string());
        }
        let ghost opponent_pairs = pair_views(pairs@);
        assert(opponent_pairs =~= board_pairs + one_pair(
            "opponent_profile_id"@,
            id_value(self.opponent_profile_id),
        ));
        if let Some(ids) = &self.profile_ids {
            push_pair(&mut pairs, "profile_ids", join_ids(ids));
        }
        let ghost ids_pairs = pair_views(pairs@);
        assert(ids_pairs =~= opponent_pairs + one_pair(
            "profile_ids"@,
            ids_value(self.profile_ids),
        ));
        match push_since(&mut pairs, &self.since) {
            Err(e) => Err(e),
            Ok(()) => {
                let ghost since_pairs = pair_views(pairs@);
                if let Some(order) = &self.order {
                    push_pair(&mut pairs, "order", order.to_string());
                }
                assert(pair_views(pairs@) =~= since_pairs + one_pair(
                    "order"@,
                    order_value(self.order),
                ));
                Ok(pairs)
            },
        }
    }

    /// What [`GlobalGamesQuery::request`] comes to: the text of the first
    /// request's URL, or the error that refuses the query.
    pub open spec fn outcome(self) -> Result<Seq<char>, QueryError> {
        request_outcome("https://aoe4world.com/api/v0/games"@, self.params())
    }

    /// The request for the first page of the games.
    pub fn request(&self) -> (request: Result<PaginatedRequest, QueryError>)
        ensures
            request_text(request) == self.outcome(),
            request matches Ok(r) ==> r.page == 1 && r.per_page == DEFAULT_COUNT_PER_PAGE,
    {
        first_request("https://aoe4world.com/api/v0/games", self.query_params())
    }
}

/// Constructs a query for the `/players/{profile_id}` endpoint.
pub struct ProfileQuery {
    /// [`ProfileId`] to query.
    pub profile_id: Option<ProfileId>,
}

impl Default for ProfileQuery {
    fn default() -> (query: Self)
        ensures
            query.profile_id is None,
    {
        ProfileQuery { profile_id: None }
    }
}

impl ProfileQuery {
    /// Sets the profile to read.
    pub fn with_profile_id(self, value: Option<ProfileId>) -> (query: Self)
        ensures
            query.profile_id == value,
    {
        ProfileQuery { profile_id: value }
    }

    /// The URL of the profile `id`.
    pub open spec fn endpoint(id: ProfileId) -> Seq<char> {
        "https://aoe4world.com/api/v0/players/"@ + id.text()
    }

    /// The URL to read for this profile. A query without a profile ID is
    /// refused with [`QueryError::MissingProfileId`].
    pub fn url(&self) -> (url: Result<String, QueryError>)
        ensures
            match self.profile_id {
                Some(id) => url matches Ok(text) && text@ == Self::endpoint(id),
                None => url == Err::<String, QueryError>(QueryError::MissingProfileId),
            },
    {
        match &self.profile_id {
            None => Err(QueryError::MissingProfileId),
            Some(id) => {
                let mut url = String::from_str("https://aoe4world.com/api/v0/players/");
                let digits = id.to_string();
                url.append(digits.as_str());
                Ok(url)
            },
        }
    }
}

/// Least number of bytes that a search text must have.
pub const MIN_SEARCH_BYTES: usize = 3;

/// Constructs a query for the `/players/search` endpoint.
pub struct SearchQuery {
    /// Search query.
    pub query: Option<String>,
    /// Should the results exactly match the query.
    pub exact: Option<bool>,
}

impl Default for SearchQuery {
    fn default() -> (query: Self)
        ensures
            query.query is None,
            query.exact is None,
    {
        SearchQuery { query: None, exact: None }
    }
}

/// The text, where there is one.
pub open spec fn text_value(text: Option<String>) -> Option<Seq<char>> {
    match text {
        Some(text) => Some(text@),
        None => None,
    }
}

/// The text of the boolean, where there is one.
pub open spec fn bool_value(value: Option<bool>) -> Option<Seq<char>> {
    match value {
        Some(value) => Some(bool_text(value)),
        None => None,
    }
}

impl SearchQuery {
    /// Sets the text to search for.
    pub fn with_query(self, value: Option<String>) -> (query: Self)
        ensures
            query.query == value,
            query.exact == self.exact,
    {
        SearchQuery { query: value, exact: self.exact }
    }

    /// Sets whether the results must match the text exactly.
    pub fn with_exact(self, value: Option<bool>) -> (query: Self)
        ensures
            query.query == self.query,
            query.exact == value,
    {
        SearchQuery { query: self.query, exact: value }
    }

    /// The pairs of the query string, in the order in which they are written.
    pub open spec fn params(self) -> Pairs {
        one_pair("query"@, text_value(self.query)) + one_pair("exact"@, bool_value(self.exact))
    }

    /// The pairs that the filters add to the query string.
    pub fn query_params(&self) -> (pairs: Vec<(String, String)>)
        ensures
            pair_views(pairs@) == self.params(),
    {
        let mut pairs: Vec<(String, String)> = Vec::new();
        if let Some(query) = &self.query {
            push_pair(&mut pairs, "query", query.clone());
        }
        let ghost query_pairs = pair_views(pairs@);
        assert(query_pairs =~= one_pair("query"@, text_value(self.query)));
        if let Some(exact) = &self.exact {
            let text = if *exact {
                "true"
            } else {
                "false"
            };
            push_pair(&mut pairs, "exact", text.to_owned());
        }
        assert(pair_views(pairs@) =~= query_pairs + one_pair("exact"@, bool_value(self.exact)));
        pairs
    }

    /// What [`SearchQuery::request`] comes to: the text of the first
    /// request's URL, or the error that refuses the query.
    pub open spec fn outcome(self) -> Result<Seq<char>, QueryError> {
        match self.query {
            None => Err(QueryError::MissingQuery),
            Some(text) => if byte_len(text@) < MIN_SEARCH_BYTES {
                Err(QueryError::QueryTooShort(byte_len(text@) as usize))
            } else {
                request_outcome("https://aoe4world.com/api/v0/players/search"@, Ok(self.params()))
            },
        }
    }

    /// The request for the first page of the search results. A query
    /// without a text is refused with [`QueryError::MissingQuery`], one whose
    /// text has fewer than [`MIN_SEARCH_BYTES`] bytes with
    /// [`QueryError::QueryTooShort`] and the length it has.
    pub fn request(&self) -> (request: Result<PaginatedRequest, QueryError>)
        ensures
            request_text(request) == self.outcome(),
            request matches Ok(r) ==> r.page == 1 && r.per_page == DEFAULT_COUNT_PER_PAGE,
    {
        match &self.query {
            None => Err(QueryError::MissingQuery),
            Some(text) => {
                let len = text.as_str().as_bytes().len();
                if len < MIN_SEARCH_BYTES {
                    Err(QueryError::QueryTooShort(len))
                } else {
                    first_request(
                        "https://aoe4world.com/api/v0/players/search",
                        Ok(self.query_params()),
                    )
                }
            },
        }
    }
}

/// Constructs a query for the `/leaderboards/leaderboard` endpoint.
pub struct LeaderboardQuery {
    /// [`Leaderboard`] to query.
    pub leaderboard: Option<Leaderboard>,
    /// [`ProfileId`] to look for.
    pub profile_id: Option<ProfileId>,
    /// Search query.
    pub query: Option<String>,
}

impl Default for LeaderboardQuery {
    fn default() -> (query: Self)
        ensures
            query.leaderboard is None,
            query.profile_id is None,
            query.query is None,
    {
        LeaderboardQuery { leaderboard: None, profile_id: None, query: None }
    }
}

impl LeaderboardQuery {
    /// Sets the leaderboard to read.
    pub fn with_leaderboard(self, value: Option<Leaderboard>) -> (query: Self)
        ensures
            query == (LeaderboardQuery { leaderboard: value, ..self }),
    {
        LeaderboardQuery { leaderboard: value, ..self }
    }

    /// Sets the profile to look for.
    pub fn with_profile_id(self, value: Option<ProfileId>) -> (query: Self)
        ensures
            query == (LeaderboardQuery { profile_id: value, ..self }),
    {
        LeaderboardQuery { profile_id: value, ..self }
    }

    /// Sets the text to search for.
    pub fn with_query(self, value: Option<String>) -> (query: Self)
        ensures
            query == (LeaderboardQuery { query: value, ..self }),
    {
        LeaderboardQuery { query: value, ..self }
    }

    /// The pairs of the query string, in the order in which they are written.
    pub open spec fn params(self) -> Pairs {
        one_pair("query"@, text_value(self.query)) + one_pair(
            "profile_id"@,
            id_value(self.profile_id),
        )
    }

    /// The pairs that the filters add to the query string.
    pub fn query_params(&self) -> (pairs: Vec<(String, String)>)
        ensures
            pair_views(pairs@) == self.params(),
    {
        let mut pairs: Vec<(String, String)> = Vec::new();
        if let Some(query) = &self.query {
            push_pair(&mut pairs, "query", query.clone());
        }
        let ghost query_pairs = pair_views(pairs@);
        assert(query_pairs =~= one_pair("query"@, text_value(self.query)));
        if let Some(id) = &self.profile_id {
            push_pair(&mut pairs, "profile_id", id.to_string());
        }
        assert(pair_views(pairs@) =~= query_pairs + one_pair(
            "profile_id"@,
            id_value(self.profile_id),
        ));
        pairs
    }

    /// The URL of the endpoint for `board`.
    pub open spec fn endpoint(board: Leaderboard) -> Seq<char> {
        "https://aoe4world.com/api/v0/leaderboards/"@ + board.name_text()
    }

    /// What [`LeaderboardQuery::request`] comes to: the text of the first
    /// request's URL, or the error that refuses the query.
    pub open spec fn outcome(self) -> Result<Seq<char>, QueryError> {
        match self.leaderboard {
            None => Err(QueryError::MissingLeaderboard),
            Some(board) => request_outcome(Self::endpoint(board), Ok(self.params())),
        }
    }

    /// The request for the first page of the leaderboard. A query without a
    /// leaderboard is refused with [`QueryError::MissingLeaderboard`].
    pub fn request(&self) -> (request: Result<PaginatedRequest, QueryError>)
        ensures
            request_text(request) == self.outcome(),
            request matches Ok(r) ==> r.page == 1 && r.per_page == DEFAULT_COUNT_PER_PAGE,
    {
        match &self.leaderboard {
            None => Err(QueryError::MissingLeaderboard),
            Some(board) => {
                let mut base = String::from_str("https://aoe4world.com/api/v0/leaderboards/");
                base.append(board.name());
                first_request(base.as_str(), Ok(self.query_params()))
            },
        }
    }
}

} // verus!
