//! Routes of the service, the parameter bag of each route, and the request
//! descriptor that a route is turned into.

use vstd::prelude::*;
use vstd::string::StringExecFns;
use crate::model::{DifficultyEnum, ScoreSort, SortCategory, SortOrder};
use crate::query::{
    bool_slot, compact, compact_keeps_present_in_order, compact_push, encode_pairs, form_text,
    number_slot, origins, pairs_of, push_bool, push_number, push_required, push_text,
    required_slot, target_text, text_slot, with_query, Slot,
};
use crate::text::{decimal, escape_segment, escaped_text, render_u32};

verus! {

/// A parameter bag: the typed query parameters of one route.
pub trait Query: Sized {
    /// The declared fields of the bag, in their fixed order, each absent or
    /// with its key and value.
    spec fn slots(&self) -> Seq<Slot>;

    /// The key/value pairs of the bag: one for each present field, in the
    /// order of declaration, and none for an absent field.
    fn parse(self) -> (r: Vec<(&'static str, String)>)
        ensures
            pairs_of(r@) == compact(self.slots()),
    ;
}

/// The path parameter and the parameter bag of a route.
pub struct RouteParams<P, Q: Query> {
    pub path: P,
    pub query: Q,
}

impl<P, Q: Query> RouteParams<P, Q> {
    /// Puts a path parameter and a bag together.
    pub fn new(path: P, query: Q) -> (r: Self)
        ensures
            r.path == path,
            r.query == query,
    {
        Self { path, query }
    }
}

/// The bag of a route that takes no query parameters.
#[derive(Copy, Clone, Default)]
pub struct NoQuery {}

impl Query for NoQuery {
    open spec fn slots(&self) -> Seq<Slot> {
        Seq::empty()
    }

    fn parse(self) -> (r: Vec<(&'static str, String)>) {
        let r: Vec<(&'static str, String)> = Vec::new();
        assert(pairs_of(r@) =~= compact(self.slots()));
        r
    }
}

/// The filters of the list of leaderboards.
#[derive(Debug, Clone)]
pub struct GetLeaderboardsQuery {
    pub search: Option<String>,
    pub verified: Option<bool>,
    pub ranked: Option<bool>,
    pub qualified: Option<bool>,
    pub loved: Option<bool>,
    pub min_star: Option<u32>,
    pub max_star: Option<u32>,
    pub category: Option<SortCategory>,
    pub sort: Option<SortOrder>,
    pub unique: Option<bool>,
    pub page: Option<u32>,
    pub with_metadata: Option<bool>,
}

impl GetLeaderboardsQuery {
    /// The bag with every field absent.
    pub open spec fn empty() -> Self {
        GetLeaderboardsQuery {
            search: None,
            verified: None,
            ranked: None,
            qualified: None,
            loved: None,
            min_star: None,
            max_star: None,
            category: None,
            sort: None,
            unique: None,
            page: None,
            with_metadata: None,
        }
    }
}

impl Default for GetLeaderboardsQuery {
    fn default() -> (r: Self)
        ensures
            r == Self::empty(),
    {
        GetLeaderboardsQuery {
            search: None,
            verified: None,
            ranked: None,
            qualified: None,
            loved: None,
            min_star: None,
            max_star: None,
            category: None,
            sort: None,
            unique: None,
            page: None,
            with_metadata: None,
        }
    }
}

/// The slot of a sort category: its query token when present.
pub open spec fn category_slot(key: Seq<char>, value: Option<SortCategory>) -> Slot {
    match value {
        Some(c) => Some((key, c.query_token())),
        None => None,
    }
}

/// The slot of a sort order: its query token when present.
pub open spec fn order_slot(key: Seq<char>, value: Option<SortOrder>) -> Slot {
    match value {
        Some(o) => Some((key, o.query_token())),
        None => None,
    }
}

/// The slot of a score ordering: its query token when present.
pub open spec fn score_sort_slot(key: Seq<char>, value: Option<ScoreSort>) -> Slot {
    match value {
        Some(s) => Some((key, s.query_token())),
        None => None,
    }
}

fn category_token(value: Option<SortCategory>) -> (r: Option<String>)
    ensures
        text_slot("category"@, r) == category_slot("category"@, value),
{
    match value {
        Some(c) => Some(c.to_string()),
        None => None,
    }
}

fn order_token(value: Option<SortOrder>) -> (r: Option<String>)
    ensures
        text_slot("sort"@, r) == order_slot("sort"@, value),
{
    match value {
        Some(o) => Some(o.to_string()),
        None => None,
    }
}

fn score_sort_token(value: Option<ScoreSort>) -> (r: Option<String>)
    ensures
        text_slot("sort"@, r) == score_sort_slot("sort"@, value),
{
    match value {
        Some(s) => Some(s.to_string()),
        None => None,
    }
}

impl Query for GetLeaderboardsQuery {
    open spec fn slots(&self) -> Seq<Slot> {
        seq![
            text_slot("search"@, self.search),
            bool_slot("verified"@, self.verified),
            bool_slot("ranked"@, self.ranked),
            bool_slot("qualified"@, self.qualified),
            bool_slot("loved"@, self.loved),
            number_slot("minStar"@, self.min_star),
            number_slot("maxStar"@, self.max_star),
            category_slot("category"@, self.category),
            order_slot("sort"@, self.sort),
            bool_slot("unique"@, self.unique),
            number_slot("page"@, self.page),
            bool_slot("withMetadata"@, self.with_metadata),
        ]
    }

    fn parse(self) -> (r: Vec<(&'static str, String)>) {
        let mut parse: Vec<(&'static str, String)> = Vec::new();
        let ghost s0 = Seq::<Slot>::empty();
        assert(pairs_of(parse@) =~= compact(s0));
        push_text(&mut parse, "search", self.search);
        let ghost s1 = s0.push(text_slot("search"@, self.search));
        proof { compact_push(s0, text_slot("search"@, self.search)); }
        push_bool(&mut parse, "verified", self.verified);
        let ghost s2 = s1.push(bool_slot("verified"@, self.verified));
        proof { compact_push(s1, bool_slot("verified"@, self.verified)); }
        push_bool(&mut parse, "ranked", self.ranked);
        let ghost s3 = s2.push(bool_slot("ranked"@, self.ranked));
        proof { compact_push(s2, bool_slot("ranked"@, self.ranked)); }
        push_bool(&mut parse, "qualified", self.qualified);
        let ghost s4 = s3.push(bool_slot("qualified"@, self.qualified));
        proof { compact_push(s3, bool_slot("qualified"@, self.qualified)); }
        push_bool(&mut parse, "loved", self.loved);
        let ghost s5 = s4.push(bool_slot("loved"@, self.loved));
        proof { compact_push(s4, bool_slot("loved"@, self.loved)); }
        push_number(&mut parse, "minStar", self.min_star);
        let ghost s6 = s5.push(number_slot("minStar"@, self.min_star));
        proof { compact_push(s5, number_slot("minStar"@, self.min_star)); }
        push_number(&mut parse, "maxStar", self.max_star);
        let ghost s7 = s6.push(number_slot("maxStar"@, self.max_star));
        proof { compact_push(s6, number_slot("maxStar"@, self.max_star)); }
        push_text(&mut parse, "category", category_token(self.category));
        let ghost s8 = s7.push(category_slot("category"@, self.category));
        proof { compact_push(s7, category_slot("category"@, self.category)); }
        push_text(&mut parse, "sort", order_token(self.sort));
        let ghost s9 = s8.push(order_slot("sort"@, self.sort));
        proof { compact_push(s8, order_slot("sort"@, self.sort)); }
        push_bool(&mut parse, "unique", self.unique);
        let ghost s10 = s9.push(bool_slot("unique"@, self.unique));
        proof { compact_push(s9, bool_slot("unique"@, self.unique)); }
        push_number(&mut parse, "page", self.page);
        let ghost s11 = s10.push(number_slot("page"@, self.page));
        proof { compact_push(s10, number_slot("page"@, self.page)); }
        push_bool(&mut parse, "withMetadata", self.with_metadata);
        let ghost s12 = s11.push(bool_slot("withMetadata"@, self.with_metadata));
        proof { compact_push(s11, bool_slot("withMetadata"@, self.with_metadata)); }
        assert(s12 =~= self.slots());
        parse
    }
}

/// Which leaderboard of a song is meant: the difficulty, always, and the
/// game mode.
#[derive(Debug, Clone)]
pub struct GetLeaderboardInfoByHashQuery {
    pub difficulty: DifficultyEnum,
    pub game_mode: Option<String>,
}

impl Query for GetLeaderboardInfoByHashQuery {
    open spec fn slots(&self) -> Seq<Slot> {
        seq![
            required_slot("difficulty"@, self.difficulty.query_token()),
            text_slot("gameMode"@, self.game_mode),
        ]
    }

    fn parse(self) -> (r: Vec<(&'static str, String)>) {
        let mut parse: Vec<(&'static str, String)> = Vec::new();
        let ghost s0 = Seq::<Slot>::empty();
        assert(pairs_of(parse@) =~= compact(s0));
        push_required(&mut parse, "difficulty", self.difficulty.to_string());
        let ghost s1 = s0.push(required_slot("difficulty"@, self.difficulty.query_token()));
        proof { compact_push(s0, required_slot("difficulty"@, self.difficulty.query_token())); }
        push_text(&mut parse, "gameMode", self.game_mode);
        let ghost s2 = s1.push(text_slot("gameMode"@, self.game_mode));
        proof { compact_push(s1, text_slot("gameMode"@, self.game_mode)); }
        assert(s2 =~= self.slots());
        parse
    }
}

/// The filters of the scores of a leaderboard.
#[derive(Debug, Clone)]
pub struct GetLeaderboardScoresByIdQuery {
    pub countries: Option<String>,
    pub search: Option<String>,
    pub page: Option<u32>,
    pub with_metadata: Option<bool>,
}

impl GetLeaderboardScoresByIdQuery {
    /// The bag with every field absent.
    pub open spec fn empty() -> Self {
        GetLeaderboardScoresByIdQuery {
            countries: None,
            search: None,
            page: None,
            with_metadata: None,
        }
    }
}

impl Default for GetLeaderboardScoresByIdQuery {
    fn default() -> (r: Self)
        ensures
            r == Self::empty(),
    {
        GetLeaderboardScoresByIdQuery {
            countries: None,
            search: None,
            page: None,
            with_metadata: None,
        }
    }
}

impl Query for GetLeaderboardScoresByIdQuery {
    open spec fn slots(&self) -> Seq<Slot> {
        seq![
            text_slot("countries"@, self.countries),
            text_slot("search"@, self.search),
            number_slot("page"@, self.page),
            bool_slot("withMetadata"@, self.with_metadata),
        ]
    }

    fn parse(self) -> (r: Vec<(&'static str, String)>) {
        let mut parse: Vec<(&'static str, String)> = Vec::new();
        let ghost s0 = Seq::<Slot>::empty();
        assert(pairs_of(parse@) =~= compact(s0));
        push_text(&mut parse, "countries", self.countries);
        let ghost s1 = s0.push(text_slot("countries"@, self.countries));
        proof { compact_push(s0, text_slot("countries"@, self.countries)); }
        push_text(&mut parse, "search", self.search);
        let ghost s2 = s1.push(text_slot("search"@, self.search));
        proof { compact_push(s1, text_slot("search"@, self.search)); }
        push_number(&mut parse, "page", self.page);
        let ghost s3 = s2.push(number_slot("page"@, self.page));
        proof { compact_push(s2, number_slot("page"@, self.page)); }
        push_bool(&mut parse, "withMetadata", self.with_metadata);
        let ghost s4 = s3.push(bool_slot("withMetadata"@, self.with_metadata));
        proof { compact_push(s3, bool_slot("withMetadata"@, self.with_metadata)); }
        assert(s4 =~= self.slots());
        parse
    }
}

/// Which leaderboard of a song is meant, and the filters of its scores.
#[derive(Debug, Clone)]
pub struct GetLeaderboardScoresByHashQuery {
    pub difficulty: DifficultyEnum,
    pub game_mode: Option<String>,
    pub countries: Option<String>,
    pub search: Option<String>,
    pub page: Option<u32>,
    pub with_metadata: Option<bool>,
}

impl Query for GetLeaderboardScoresByHashQuery {
    open spec fn slots(&self) -> Seq<Slot> {
        seq![
            required_slot("difficulty"@, self.difficulty.query_token()),
            text_slot("gameMode"@, self.game_mode),
            text_slot("countries"@, self.countries),
            text_slot("search"@, self.search),
            number_slot("page"@, self.page),
            bool_slot("withMetadata"@, self.with_metadata),
        ]
    }

    fn parse(self) -> (r: Vec<(&'static str, String)>) {
        let mut parse: Vec<(&'static str, String)> = Vec::new();
        let ghost s0 = Seq::<Slot>::empty();
        assert(pairs_of(parse@) =~= compact(s0));
        push_required(&mut parse, "difficulty", self.difficulty.to_string());
        let ghost s1 = s0.push(required_slot("difficulty"@, self.difficulty.query_token()));
        proof { compact_push(s0, required_slot("difficulty"@, self.difficulty.query_token())); }
        push_text(&mut parse, "gameMode", self.game_mode);
        let ghost s2 = s1.push(text_slot("gameMode"@, self.game_mode));
        proof { compact_push(s1, text_slot("gameMode"@, self.game_mode)); }
        push_text(&mut parse, "countries", self.countries);
        let ghost s3 = s2.push(text_slot("countries"@, self.countries));
        proof { compact_push(s2, text_slot("countries"@, self.countries)); }
        push_text(&mut parse, "search", self.search);
        let ghost s4 = s3.push(text_slot("search"@, self.search));
        proof { compact_push(s3, text_slot("search"@, self.search)); }
        push_number(&mut parse, "page", self.page);
        let ghost s5 = s4.push(number_slot("page"@, self.page));
        proof { compact_push(s4, number_slot("page"@, self.page)); }
        push_bool(&mut parse, "withMetadata", self.with_metadata);
        let ghost s6 = s5.push(bool_slot("withMetadata"@, self.with_metadata));
        proof { compact_push(s5, bool_slot("withMetadata"@, self.with_metadata)); }
        assert(s6 =~= self.slots());
        parse
    }
}

/// The filters of the list of players.
#[derive(Debug, Clone)]
pub struct GetPlayersQuery {
    pub search: Option<String>,
    pub page: Option<u32>,
    pub countries: Option<String>,
    pub with_metadata: Option<bool>,
}

impl GetPlayersQuery {
    /// The bag with every field absent.
    pub open spec fn empty() -> Self {
        GetPlayersQuery {
            search: None,
            page: None,
            countries: None,
            with_metadata: None,
        }
    }
}

impl Default for GetPlayersQuery {
    fn default() -> (r: Self)
        ensures
            r == Self::empty(),
    {
        GetPlayersQuery {
            search: None,
            page: None,
            countries: None,
            with_metadata: None,
        }
    }
}

impl Query for GetPlayersQuery {
    open spec fn slots(&self) -> Seq<Slot> {
        seq![
            text_slot("search"@, self.search),
            number_slot("page"@, self.page),
            text_slot("countries"@, self.countries),
            bool_slot("withMetadata"@, self.with_metadata),
        ]
    }

    fn parse(self) -> (r: Vec<(&'static str, String)>) {
        let mut parse: Vec<(&'static str, String)> = Vec::new();
        let ghost s0 = Seq::<Slot>::empty();
        assert(pairs_of(parse@) =~= compact(s0));
        push_text(&mut parse, "search", self.search);
        let ghost s1 = s0.push(text_slot("search"@, self.search));
        proof { compact_push(s0, text_slot("search"@, self.search)); }
        push_number(&mut parse, "page", self.page);
        let ghost s2 = s1.push(number_slot("page"@, self.page));
        proof { compact_push(s1, number_slot("page"@, self.page)); }
        push_text(&mut parse, "countries", self.countries);
        let ghost s3 = s2.push(text_slot("countries"@, self.countries));
        proof { compact_push(s2, text_slot("countries"@, self.countries)); }
        push_bool(&mut parse, "withMetadata", self.with_metadata);
        let ghost s4 = s3.push(bool_slot("withMetadata"@, self.with_metadata));
        proof { compact_push(s3, bool_slot("withMetadata"@, self.with_metadata)); }
        assert(s4 =~= self.slots());
        parse
    }
}

/// The filters of the count of players.
#[derive(Debug, Clone)]
pub struct GetPlayersCountQuery {
    pub search: Option<String>,
    pub countries: Option<String>,
}

impl GetPlayersCountQuery {
    /// The bag with every field absent.
    pub open spec fn empty() -> Self {
        GetPlayersCountQuery {
            search: None,
            countries: None,
        }
    }
}

impl Default for GetPlayersCountQuery {
    fn default() -> (r: Self)
        ensures
            r == Self::empty(),
    {
        GetPlayersCountQuery {
            search: None,
            countries: None,
        }
    }
}

impl Query for GetPlayersCountQuery {
    open spec fn slots(&self) -> Seq<Slot> {
        seq![text_slot("search"@, self.search), text_slot("countries"@, self.countries)]
    }

    fn parse(self) -> (r: Vec<(&'static str, String)>) {
        let mut parse: Vec<(&'static str, String)> = Vec::new();
        let ghost s0 = Seq::<Slot>::empty();
        assert(pairs_of(parse@) =~= compact(s0));
        push_text(&mut parse, "search", self.search);
        let ghost s1 = s0.push(text_slot("search"@, self.search));
        proof { compact_push(s0, text_slot("search"@, self.search)); }
        push_text(&mut parse, "countries", self.countries);
        let ghost s2 = s1.push(text_slot("countries"@, self.countries));
        proof { compact_push(s1, text_slot("countries"@, self.countries)); }
        assert(s2 =~= self.slots());
        parse
    }
}

/// The filters of the scores of a player.
#[derive(Debug, Clone)]
pub struct GetPlayerScoresQuery {
    pub limit: Option<u32>,
    pub sort: Option<ScoreSort>,
    pub page: Option<u32>,
    pub with_metadata: Option<bool>,
}

impl GetPlayerScoresQuery {
    /// The bag with every field absent.
    pub open spec fn empty() -> Self {
        GetPlayerScoresQuery {
            limit: None,
            sort: None,
            page: None,
            with_metadata: None,
        }
    }
}

impl Default for GetPlayerScoresQuery {
    fn default() -> (r: Self)
        ensures
            r == Self::empty(),
    {
        GetPlayerScoresQuery {
            limit: None,
            sort: None,
            page: None,
            with_metadata: None,
        }
    }
}

impl Query for GetPlayerScoresQuery {
    open spec fn slots(&self) -> Seq<Slot> {
        seq![
            number_slot("limit"@, self.limit),
            score_sort_slot("sort"@, self.sort),
            number_slot("page"@, self.page),
            bool_slot("withMetadata"@, self.with_metadata),
        ]
    }

    fn parse(self) -> (r: Vec<(&'static str, String)>) {
        let mut parse: Vec<(&'static str, String)> = Vec::new();
        let ghost s0 = Seq::<Slot>::empty();
        assert(pairs_of(parse@) =~= compact(s0));
        push_number(&mut parse, "limit", self.limit);
        let ghost s1 = s0.push(number_slot("limit"@, self.limit));
        proof { compact_push(s0, number_slot("limit"@, self.limit)); }
        push_text(&mut parse, "sort", score_sort_token(self.sort));
        let ghost s2 = s1.push(score_sort_slot("sort"@, self.sort));
        proof { compact_push(s1, score_sort_slot("sort"@, self.sort)); }
        push_number(&mut parse, "page", self.page);
        let ghost s3 = s2.push(number_slot("page"@, self.page));
        proof { compact_push(s2, number_slot("page"@, self.page)); }
        push_bool(&mut parse, "withMetadata", self.with_metadata);
        let ghost s4 = s3.push(bool_slot("withMetadata"@, self.with_metadata));
        proof { compact_push(s3, bool_slot("withMetadata"@, self.with_metadata)); }
        assert(s4 =~= self.slots());
        parse
    }
}

/// A query on a leaderboard by song hash names its difficulty whatever else
/// it holds: its first pair has the key `difficulty` and the token of the
/// difficulty as its value.
pub proof fn info_by_hash_names_difficulty(q: GetLeaderboardInfoByHashQuery)
    ensures
        compact(q.slots()).len() >= 1,
        compact(q.slots())[0] == ("difficulty"@, q.difficulty.query_token()),
{
    let s0 = Seq::<Slot>::empty();
    let s1 = s0.push(required_slot("difficulty"@, q.difficulty.query_token()));
    compact_push(s0, required_slot("difficulty"@, q.difficulty.query_token()));
    compact_push(s1, text_slot("gameMode"@, q.game_mode));
    assert(s1.push(text_slot("gameMode"@, q.game_mode)) =~= q.slots());
}

/// The same for a query on the scores of a leaderboard by song hash.
pub proof fn scores_by_hash_names_difficulty(q: GetLeaderboardScoresByHashQuery)
    ensures
        compact(q.slots()).len() >= 1,
        compact(q.slots())[0] == ("difficulty"@, q.difficulty.query_token()),
{
    let s0 = Seq::<Slot>::empty();
    let s1 = s0.push(required_slot("difficulty"@, q.difficulty.query_token()));
    compact_push(s0, required_slot("difficulty"@, q.difficulty.query_token()));
    let s2 = s1.push(text_slot("gameMode"@, q.game_mode));
    compact_push(s1, text_slot("gameMode"@, q.game_mode));
    let s3 = s2.push(text_slot("countries"@, q.countries));
    compact_push(s2, text_slot("countries"@, q.countries));
    let s4 = s3.push(text_slot("search"@, q.search));
    compact_push(s3, text_slot("search"@, q.search));
    let s5 = s4.push(number_slot("page"@, q.page));
    compact_push(s4, number_slot("page"@, q.page));
    compact_push(s5, bool_slot("withMetadata"@, q.with_metadata));
    assert(s5.push(bool_slot("withMetadata"@, q.with_metadata)) =~= q.slots());
}

/// The routes of the service. Each carries its path parameter and its bag.
pub enum Route {
    GetLeaderboards(RouteParams<(), GetLeaderboardsQuery>),
    GetLeaderboardInfoById(RouteParams<u32, NoQuery>),
    GetLeaderboardInfoByHash(RouteParams<String, GetLeaderboardInfoByHashQuery>),
    GetLeaderboardScoresById(RouteParams<u32, GetLeaderboardScoresByIdQuery>),
    GetLeaderboardScoresByHash(RouteParams<String, GetLeaderboardScoresByHashQuery>),
    GetLeaderboardDifficulties(RouteParams<String, NoQuery>),
    GetPlayers(RouteParams<(), GetPlayersQuery>),
    GetPlayersCount(RouteParams<(), GetPlayersCountQuery>),
    GetPlayerBasic(RouteParams<String, NoQuery>),
    GetPlayerFull(RouteParams<String, NoQuery>),
    GetPlayerScores(RouteParams<String, GetPlayerScoresQuery>),
}

/// The HTTP method of a request. The service is read with `GET` alone.
#[derive(Debug, Copy, Clone, PartialEq, Eq, Structural)]
pub enum Method {
    Get,
}

/// A request descriptor: method, absolute URL without query, and the query
/// pairs in order. A request has no body.
pub struct Request {
    pub method: Method,
    pub url: String,
    pub query: Vec<(&'static str, String)>,
}

impl Request {
    /// The query string of the request, without a leading `?`.
    pub fn query_string(&self) -> (s: String)
        ensures
            s@ == form_text(pairs_of(self.query@)),
    {
        encode_pairs(&self.query)
    }

    /// The URL of the request with its query string. A request without
    /// pairs has the URL alone as its target, without a `?`.
    pub fn target(&self) -> (s: String)
        ensures
            s@ == target_text(self.url@, form_text(pairs_of(self.query@))),
            self.query@.len() == 0 ==> s@ == self.url@,
    {
        let query = encode_pairs(&self.query);
        with_query(self.url.as_str(), query.as_str())
    }
}

impl Route {
    /// The path of the route, with the path parameter in place: a numeric
    /// id in decimal, a hash or a player id escaped as one segment.
    pub open spec fn path_of(&self) -> Seq<char> {
        match self {
            Route::GetLeaderboards(_) => "/api/leaderboards"@,
            Route::GetLeaderboardInfoById(p) => "/api/leaderboard/by-id/"@ + decimal(
                p.path as nat,
            ) + "/info"@,
            Route::GetLeaderboardInfoByHash(p) => "/api/leaderboard/by-hash/"@ + escaped_text(
                p.path@,
            ) + "/info"@,
            Route::GetLeaderboardScoresById(p) => "/api/leaderboard/by-id/"@ + decimal(
                p.path as nat,
            ) + "/scores"@,
            Route::GetLeaderboardScoresByHash(p) => "/api/leaderboard/by-hash/"@ + escaped_text(
                p.path@,
            ) + "/scores"@,
            Route::GetLeaderboardDifficulties(p) => "/api/leaderboard/get-difficulties/"@
                + escaped_text(p.path@),
            Route::GetPlayers(_) => "/api/players"@,
            Route::GetPlayersCount(_) => "/api/players/count"@,
            Route::GetPlayerBasic(p) => "/api/player/"@ + escaped_text(p.path@) + "/basic"@,
            Route::GetPlayerFull(p) => "/api/player/"@ + escaped_text(p.path@) + "/full"@,
            Route::GetPlayerScores(p) => "/api/player/"@ + escaped_text(p.path@) + "/scores"@,
        }
    }

    /// The declared query fields of the route, in order.
    pub open spec fn slots(&self) -> Seq<Slot> {
        match self {
            Route::GetLeaderboards(p) => p.query.slots(),
            Route::GetLeaderboardInfoById(p) => p.query.slots(),
            Route::GetLeaderboardInfoByHash(p) => p.query.slots(),
            Route::GetLeaderboardScoresById(p) => p.query.slots(),
            Route::GetLeaderboardScoresByHash(p) => p.query.slots(),
            Route::GetLeaderboardDifficulties(p) => p.query.slots(),
            Route::GetPlayers(p) => p.query.slots(),
            Route::GetPlayersCount(p) => p.query.slots(),
            Route::GetPlayerBasic(p) => p.query.slots(),
            Route::GetPlayerFull(p) => p.query.slots(),
            Route::GetPlayerScores(p) => p.query.slots(),
        }
    }

    /// The route that lists players. Without a bag it asks with every field
    /// absent.
    pub fn players(query: Option<GetPlayersQuery>) -> (r: Route)
        ensures
            r == Route::GetPlayers(
                RouteParams {
                    path: (),
                    query: match query {
                        Some(q) => q,
                        None => GetPlayersQuery::empty(),
                    },
                },
            ),
    {
        let query = match query {
            Some(q) => q,
            None => GetPlayersQuery::default(),
        };
        Route::GetPlayers(RouteParams::new((), query))
    }

    /// The route that lists the scores of a player. Without a bag it asks
    /// with every field absent.
    pub fn player_scores(player_id: String, query: Option<GetPlayerScoresQuery>) -> (r: Route)
        ensures
            r == Route::GetPlayerScores(
                RouteParams {
                    path: player_id,
                    query: match query {
                        Some(q) => q,
                        None => GetPlayerScoresQuery::empty(),
                    },
                },
            ),
    {
        let query = match query {
            Some(q) => q,
            None => GetPlayerScoresQuery::default(),
        };
        Route::GetPlayerScores(RouteParams::new(player_id, query))
    }

    /// The URL of the route under a base URL: the base, then the path.
    pub fn build_url(&self, base_url: &str) -> (url: String)
        ensures
            url@ == base_url@ + self.path_of(),
    {
        let mut url = String::from_str(base_url);
        match self {
            Route::GetLeaderboards(_) => url.append("/api/leaderboards"),
            Route::GetLeaderboardInfoById(p) => {
                url.append("/api/leaderboard/by-id/");
                url.append(render_u32(p.path).as_str());
                url.append("/info");
            },
            Route::GetLeaderboardInfoByHash(p) => {
                url.append("/api/leaderboard/by-hash/");
                url.append(escape_segment(p.path.as_str()).as_str());
                url.append("/info");
            },
            Route::GetLeaderboardScoresById(p) => {
                url.append("/api/leaderboard/by-id/");
                url.append(render_u32(p.path).as_str());
                url.append("/scores");
            },
            Route::GetLeaderboardScoresByHash(p) => {
                url.append("/api/leaderboard/by-hash/");
                url.append(escape_segment(p.path.as_str()).as_str());
                url.append("/scores");
            },
            Route::GetLeaderboardDifficulties(p) => {
                url.append("/api/leaderboard/get-difficulties/");
                url.append(escape_segment(p.path.as_str()).as_str());
            },
            Route::GetPlayers(_) => url.append("/api/players"),
            Route::GetPlayersCount(_) => url.append("/api/players/count"),
            Route::GetPlayerBasic(p) => {
                url.append("/api/player/");
                url.append(escape_segment(p.path.as_str()).as_str());
                url.append("/basic");
            },
            Route::GetPlayerFull(p) => {
                url.append("/api/player/");
                url.append(escape_segment(p.path.as_str()).as_str());
                url.append("/full");
            },
            Route::GetPlayerScores(p) => {
                url.append("/api/player/");
                url.append(escape_segment(p.path.as_str()).as_str());
                url.append("/scores");
            },
        }
        assert(url@ =~= base_url@ + self.path_of());
        url
    }

    /// The request of the route under a base URL: a `GET` of the built URL
    /// with the pairs of the route's bag, present fields only, in the order
    /// of declaration.
    pub fn to_request(self, base_url: &str) -> (req: Request)
        ensures
            req.method == Method::Get,
            req.url@ == base_url@ + self.path_of(),
            pairs_of(req.query@) == compact(self.slots()),
    {
        let url = self.build_url(base_url);
        let query = match self {
            Route::GetLeaderboards(params) => params.query.parse(),
            Route::GetLeaderboardInfoById(params) => params.query.parse(),
            Route::GetLeaderboardInfoByHash(params) => params.query.parse(),
            Route::GetLeaderboardScoresById(params) => params.query.parse(),
            Route::GetLeaderboardScoresByHash(params) => params.query.parse(),
            Route::GetLeaderboardDifficulties(params) => params.query.parse(),
            Route::GetPlayers(params) => params.query.parse(),
            Route::GetPlayersCount(params) => params.query.parse(),
            Route::GetPlayerBasic(params) => params.query.parse(),
            Route::GetPlayerFull(params) => params.query.parse(),
            Route::GetPlayerScores(params) => params.query.parse(),
        };
        Request { method: Method::Get, url, query }
    }
}

/// The pairs of a request are the present fields of its route and no
/// others, in the order in which the route declares them.
pub proof fn request_pairs_follow_declaration(route: Route)
    ensures
        origins(route.slots()).len() == compact(route.slots()).len(),
        forall|i: int|
            0 <= i < compact(route.slots()).len() ==> 0 <= #[trigger] origins(route.slots())[i]
                < route.slots().len() && route.slots()[origins(route.slots())[i]] == Some(
                compact(route.slots())[i],
            ),
        forall|i: int, j: int|
            0 <= i < j < compact(route.slots()).len() ==> #[trigger] origins(route.slots())[i]
                < #[trigger] origins(route.slots())[j],
        forall|k: int|
            0 <= k < route.slots().len() && (#[trigger] route.slots()[k]) is None ==> !origins(
                route.slots(),
            ).contains(k),
        forall|k: int|
            0 <= k < route.slots().len() && (#[trigger] route.slots()[k]) is Some ==> origins(
                route.slots(),
            ).contains(k),
{
    compact_keeps_present_in_order(route.slots());
}

} // verus!
