use scoresaber::model::{DifficultyEnum, ScoreSort, SortCategory, SortOrder};
use scoresaber::query::with_query;
use scoresaber::text::{escape_segment, render_bool, render_u32};
use scoresaber::wrapper::{
    GetLeaderboardInfoByHashQuery, GetLeaderboardScoresByHashQuery, GetLeaderboardScoresByIdQuery,
    GetLeaderboardsQuery, GetPlayerScoresQuery, GetPlayersCountQuery, GetPlayersQuery, Method,
    NoQuery, Query, Route, RouteParams,
};

const BASE: &str = "https://scoresaber.com";

fn owned(pairs: &[(&'static str, &str)]) -> Vec<(&'static str, String)> {
    pairs.iter().map(|(k, v)| (*k, v.to_string())).collect()
}

#[test]
fn render_u32_gives_decimal_text() {
    assert_eq!(render_u32(0), "0");
    assert_eq!(render_u32(7), "7");
    assert_eq!(render_u32(10), "10");
    assert_eq!(render_u32(1234567890), "1234567890");
    assert_eq!(render_u32(u32::MAX), "4294967295");
}

#[test]
fn render_bool_gives_literals() {
    assert_eq!(render_bool(true), "true");
    assert_eq!(render_bool(false), "false");
}

#[test]
fn escape_segment_keeps_unreserved_and_escapes_the_rest() {
    assert_eq!(escape_segment(""), "");
    assert_eq!(escape_segment("ABCdef019-._~"), "ABCdef019-._~");
    assert_eq!(escape_segment("a/b?c#d"), "a%2Fb%3Fc%23d");
    assert_eq!(escape_segment("a b%"), "a%20b%25");
    assert_eq!(escape_segment("é"), "%C3%A9");
}

#[test]
fn no_query_has_no_pairs() {
    assert!(NoQuery {}.parse().is_empty());
    assert!(NoQuery::default().parse().is_empty());
}

#[test]
fn empty_bags_have_no_pairs() {
    assert!(GetLeaderboardsQuery::default().parse().is_empty());
    assert!(GetLeaderboardScoresByIdQuery::default().parse().is_empty());
    assert!(GetPlayersQuery::default().parse().is_empty());
    assert!(GetPlayersCountQuery::default().parse().is_empty());
    assert!(GetPlayerScoresQuery::default().parse().is_empty());
}

#[test]
fn leaderboards_query_emits_every_field_in_declared_order() {
    let q = GetLeaderboardsQuery {
        search: Some("abc".to_string()),
        verified: Some(true),
        ranked: Some(false),
        qualified: Some(true),
        loved: Some(false),
        min_star: Some(3),
        max_star: Some(12),
        category: Some(SortCategory::StarDifficulty),
        sort: Some(SortOrder::Ascending),
        unique: Some(true),
        page: Some(4),
        with_metadata: Some(false),
    };
    assert_eq!(
        q.parse(),
        owned(&[
            ("search", "abc"),
            ("verified", "true"),
            ("ranked", "false"),
            ("qualified", "true"),
            ("loved", "false"),
            ("minStar", "3"),
            ("maxStar", "12"),
            ("category", "StarDifficulty"),
            ("sort", "Ascending"),
            ("unique", "true"),
            ("page", "4"),
            ("withMetadata", "false"),
        ])
    );
}

#[test]
fn absent_fields_leave_no_pair() {
    let q = GetLeaderboardsQuery {
        ranked: Some(true),
        max_star: Some(9),
        page: Some(1),
        ..GetLeaderboardsQuery::default()
    };
    assert_eq!(q.parse(), owned(&[("ranked", "true"), ("maxStar", "9"), ("page", "1")]));
    let q = GetLeaderboardsQuery { loved: Some(true), ..GetLeaderboardsQuery::default() };
    assert_eq!(q.parse(), owned(&[("loved", "true")]));
}

#[test]
fn info_by_hash_always_emits_difficulty() {
    let q = GetLeaderboardInfoByHashQuery { difficulty: DifficultyEnum::ExpertPlus, game_mode: None };
    assert_eq!(q.parse(), owned(&[("difficulty", "ExpertPlus")]));
    let q = GetLeaderboardInfoByHashQuery {
        difficulty: DifficultyEnum::Easy,
        game_mode: Some("SoloStandard".to_string()),
    };
    assert_eq!(q.parse(), owned(&[("difficulty", "Easy"), ("gameMode", "SoloStandard")]));
}

#[test]
fn scores_by_hash_query_order() {
    let q = GetLeaderboardScoresByHashQuery {
        difficulty: DifficultyEnum::Hard,
        game_mode: Some("SoloStandard".to_string()),
        countries: Some("DE,FR".to_string()),
        search: Some("x".to_string()),
        page: Some(2),
        with_metadata: Some(true),
    };
    assert_eq!(
        q.parse(),
        owned(&[
            ("difficulty", "Hard"),
            ("gameMode", "SoloStandard"),
            ("countries", "DE,FR"),
            ("search", "x"),
            ("page", "2"),
            ("withMetadata", "true"),
        ])
    );
    let q = GetLeaderboardScoresByHashQuery {
        difficulty: DifficultyEnum::Normal,
        game_mode: None,
        countries: None,
        search: None,
        page: None,
        with_metadata: None,
    };
    assert_eq!(q.parse(), owned(&[("difficulty", "Normal")]));
}

#[test]
fn scores_by_id_query_order() {
    let q = GetLeaderboardScoresByIdQuery {
        countries: Some("US".to_string()),
        search: Some("me".to_string()),
        page: Some(3),
        with_metadata: Some(false),
    };
    assert_eq!(
        q.parse(),
        owned(&[("countries", "US"), ("search", "me"), ("page", "3"), ("withMetadata", "false")])
    );
}

#[test]
fn players_query_order() {
    let q = GetPlayersQuery {
        search: Some("me".to_string()),
        page: Some(3),
        countries: Some("US".to_string()),
        with_metadata: Some(true),
    };
    assert_eq!(
        q.parse(),
        owned(&[("search", "me"), ("page", "3"), ("countries", "US"), ("withMetadata", "true")])
    );
}

#[test]
fn players_count_query_order() {
    let q = GetPlayersCountQuery { search: Some("a".to_string()), countries: Some("b".to_string()) };
    assert_eq!(q.parse(), owned(&[("search", "a"), ("countries", "b")]));
    let q = GetPlayersCountQuery { search: None, countries: Some("b".to_string()) };
    assert_eq!(q.parse(), owned(&[("countries", "b")]));
}

#[test]
fn player_scores_query_order() {
    let q = GetPlayerScoresQuery {
        limit: Some(20),
        sort: Some(ScoreSort::Recent),
        page: Some(1),
        with_metadata: Some(true),
    };
    assert_eq!(
        q.parse(),
        owned(&[("limit", "20"), ("sort", "Recent"), ("page", "1"), ("withMetadata", "true")])
    );
    let q = GetPlayerScoresQuery { sort: Some(ScoreSort::Top), ..GetPlayerScoresQuery::default() };
    assert_eq!(q.parse(), owned(&[("sort", "Top")]));
}

#[test]
fn route_params_new_keeps_both_parts() {
    let p = RouteParams::new(17u32, GetPlayersCountQuery { search: Some("s".to_string()), countries: None });
    assert_eq!(p.path, 17);
    assert_eq!(p.query.search, Some("s".to_string()));
    assert_eq!(p.query.countries, None);
}

#[test]
fn build_url_of_every_route() {
    let hash = || "ABCDEF0123".to_string();
    let id = || "76561198000000000".to_string();
    let by_hash = || GetLeaderboardInfoByHashQuery { difficulty: DifficultyEnum::Expert, game_mode: None };
    let scores_by_hash = || GetLeaderboardScoresByHashQuery {
        difficulty: DifficultyEnum::Expert,
        game_mode: None,
        countries: None,
        search: None,
        page: None,
        with_metadata: None,
    };
    let cases: Vec<(Route, &str)> = vec![
        (Route::GetLeaderboards(RouteParams::new((), GetLeaderboardsQuery::default())), "/api/leaderboards"),
        (Route::GetLeaderboardInfoById(RouteParams::new(42, NoQuery {})), "/api/leaderboard/by-id/42/info"),
        (Route::GetLeaderboardInfoByHash(RouteParams::new(hash(), by_hash())), "/api/leaderboard/by-hash/ABCDEF0123/info"),
        (
            Route::GetLeaderboardScoresById(RouteParams::new(42, GetLeaderboardScoresByIdQuery::default())),
            "/api/leaderboard/by-id/42/scores",
        ),
        (
            Route::GetLeaderboardScoresByHash(RouteParams::new(hash(), scores_by_hash())),
            "/api/leaderboard/by-hash/ABCDEF0123/scores",
        ),
        (
            Route::GetLeaderboardDifficulties(RouteParams::new(hash(), NoQuery {})),
            "/api/leaderboard/get-difficulties/ABCDEF0123",
        ),
        (Route::GetPlayers(RouteParams::new((), GetPlayersQuery::default())), "/api/players"),
        (Route::GetPlayersCount(RouteParams::new((), GetPlayersCountQuery::default())), "/api/players/count"),
        (Route::GetPlayerBasic(RouteParams::new(id(), NoQuery {})), "/api/player/76561198000000000/basic"),
        (Route::GetPlayerFull(RouteParams::new(id(), NoQuery {})), "/api/player/76561198000000000/full"),
        (
            Route::GetPlayerScores(RouteParams::new(id(), GetPlayerScoresQuery::default())),
            "/api/player/76561198000000000/scores",
        ),
    ];
    for (route, path) in cases {
        assert_eq!(route.build_url(BASE), format!("{}{}", BASE, path));
        assert_eq!(route.build_url(""), path);
    }
}

#[test]
fn build_url_escapes_the_path_parameter() {
    let route = Route::GetPlayerBasic(RouteParams::new("a/b?c".to_string(), NoQuery {}));
    assert_eq!(route.build_url(BASE), "https://scoresaber.com/api/player/a%2Fb%3Fc/basic");
}

#[test]
fn scores_by_id_request_end_to_end() {
    let query = GetLeaderboardScoresByIdQuery {
        page: Some(2),
        with_metadata: Some(true),
        ..GetLeaderboardScoresByIdQuery::default()
    };
    let route = Route::GetLeaderboardScoresById(RouteParams::new(1, query));
    assert_eq!(route.build_url(""), "/api/leaderboard/by-id/1/scores");
    let req = route.to_request(BASE);
    assert_eq!(req.method, Method::Get);
    assert_eq!(req.url, "https://scoresaber.com/api/leaderboard/by-id/1/scores");
    assert_eq!(req.query, owned(&[("page", "2"), ("withMetadata", "true")]));
    assert_eq!(req.query_string(), "page=2&withMetadata=true");
    assert_eq!(
        req.target(),
        "https://scoresaber.com/api/leaderboard/by-id/1/scores?page=2&withMetadata=true"
    );
}

#[test]
fn request_without_pairs_has_no_question_mark() {
    let req = Route::GetLeaderboardInfoById(RouteParams::new(9, NoQuery {})).to_request(BASE);
    assert!(req.query.is_empty());
    assert_eq!(req.query_string(), "");
    assert_eq!(req.target(), "https://scoresaber.com/api/leaderboard/by-id/9/info");
}

#[test]
fn query_string_escapes_values() {
    let query = GetPlayersQuery {
        search: Some("a b&c=d/é*".to_string()),
        countries: Some("DE,FR".to_string()),
        ..GetPlayersQuery::default()
    };
    let req = Route::GetPlayers(RouteParams::new((), query)).to_request(BASE);
    assert_eq!(req.query_string(), "search=a+b%26c%3Dd%2F%C3%A9*&countries=DE%2CFR");
}

#[test]
fn info_by_hash_request_names_the_difficulty_token() {
    let query = GetLeaderboardInfoByHashQuery { difficulty: DifficultyEnum::Expert, game_mode: None };
    let req = Route::GetLeaderboardInfoByHash(RouteParams::new("AB12".to_string(), query)).to_request(BASE);
    assert_eq!(req.query_string(), "difficulty=Expert");
    assert_eq!(req.target(), "https://scoresaber.com/api/leaderboard/by-hash/AB12/info?difficulty=Expert");
}

#[test]
fn with_query_joins_with_a_question_mark() {
    assert_eq!(with_query("http://h/p", ""), "http://h/p");
    assert_eq!(with_query("http://h/p", "a=1"), "http://h/p?a=1");
}

#[test]
fn default_bags_have_every_field_absent() {
    let q = GetLeaderboardsQuery::default();
    assert!(q.search.is_none() && q.verified.is_none() && q.ranked.is_none());
    assert!(q.qualified.is_none() && q.loved.is_none() && q.min_star.is_none());
    assert!(q.max_star.is_none() && q.category.is_none() && q.sort.is_none());
    assert!(q.unique.is_none() && q.page.is_none() && q.with_metadata.is_none());
    let q = GetPlayerScoresQuery::default();
    assert!(q.limit.is_none() && q.sort.is_none() && q.page.is_none() && q.with_metadata.is_none());
}

#[test]
fn players_route_without_a_bag_asks_with_no_pairs() {
    let req = Route::players(None).to_request(BASE);
    assert_eq!(req.target(), "https://scoresaber.com/api/players");
    let query = GetPlayersQuery { page: Some(3), ..GetPlayersQuery::default() };
    let req = Route::players(Some(query)).to_request(BASE);
    assert_eq!(req.target(), "https://scoresaber.com/api/players?page=3");
}

#[test]
fn player_scores_route_names_the_player() {
    let req = Route::player_scores("7656".to_string(), None).to_request(BASE);
    assert_eq!(req.target(), "https://scoresaber.com/api/player/7656/scores");
    let query = GetPlayerScoresQuery {
        limit: Some(10),
        sort: Some(ScoreSort::Top),
        ..GetPlayerScoresQuery::default()
    };
    let req = Route::player_scores("7656".to_string(), Some(query)).to_request(BASE);
    assert_eq!(req.target(), "https://scoresaber.com/api/player/7656/scores?limit=10&sort=Top");
}

#[test]
fn leaderboards_request_uses_tokens_for_category_and_sort() {
    let query = GetLeaderboardsQuery {
        category: Some(SortCategory::DateRanked),
        sort: Some(SortOrder::Descending),
        ..GetLeaderboardsQuery::default()
    };
    let req = Route::GetLeaderboards(RouteParams::new((), query)).to_request(BASE);
    assert_eq!(req.query_string(), "category=DateRanked&sort=Descending");
}

#[test]
fn player_scores_query_without_metadata_names_recent() {
    let q = GetPlayerScoresQuery {
        limit: Some(20),
        sort: Some(ScoreSort::Recent),
        page: Some(1),
        with_metadata: None,
    };
    assert_eq!(q.parse(), owned(&[("limit", "20"), ("sort", "Recent"), ("page", "1")]));
}
