use scoresaber::client::{conclude, parse_body, read_document, ApiError, Diagnostic};
use scoresaber::decode::{
    find_absent, read_array, take_bool, take_i32, take_instant, take_opt_text, take_opt_u32, take_real,
    take_text, take_u32, take_u64, Record,
};
use scoresaber::json::{parse_json, Json, JsonNumber};
use scoresaber::model::{
    Badge, Difficulty, DifficultyEnum, HeadsetRepr, LeaderboardInfo, LeaderboardInfoCollection,
    LeaderboardPlayer, Metadata, Player, PlayerCollection, PlayerScoreCollection, Real, Score,
    ScoreCollection, ScoreStats, Timestamp, UnknownEnumValue,
};

const SCORE: &str = r#"{"id":5,"rank":1,"baseScore":900000,"modifiedScore":-50,"pp":250.5,
    "weight":0.965,"modifiers":"DA,FS","multiplier":1.0,"badCuts":2,"missedNotes":3,
    "maxCombo":812,"fullCombo":false,"hmd":64,"hasReplay":true,
    "timeSet":"2021-03-04T05:06:07.500Z","somethingNew":[1,2,3]}"#;

const SCORE_WITHOUT_ID: &str = r#"{"rank":1,"baseScore":900000,"modifiedScore":-50,"pp":250.5,
    "weight":0.965,"modifiers":"DA,FS","multiplier":1.0,"badCuts":2,"missedNotes":3,
    "maxCombo":812,"fullCombo":false,"hmd":64,"hasReplay":true,
    "timeSet":"2021-03-04T05:06:07.500Z"}"#;

const LEADERBOARD: &str = r#"{"id":77,"songHash":"ABCD","songName":"Song","songSubName":"",
    "songAuthorName":"Artist","levelAuthorName":"Mapper",
    "difficulty":{"leaderboardId":77,"difficulty":9,"gameMode":"SoloStandard",
                  "difficultyRaw":"_ExpertPlus_SoloStandard"},
    "maxScore":1000000,"createdDate":"2020-01-01T00:00:00Z","rankedData":null,
    "qualifiedDate":"2020-01-01T00:00:00+00:00","ranked":true,"qualified":false,"loved":false,
    "maxPP":412.25,"maxPp":1,"stars":9.5,"positiveModifiers":false,"players":12,
    "coverImage":"https://cdn/cover.png",
    "difficulties":[{"leaderboardId":75,"difficulty":1,"gameMode":"SoloStandard","difficultyRaw":"_Easy_SoloStandard"},
                    {"leaderboardId":76,"difficulty":7,"gameMode":"SoloStandard","difficultyRaw":"_Expert_SoloStandard"}]}"#;

const PLAYER: &str = r#"{"id":"7656","name":"Ann","profilePicture":"https://cdn/a.png",
    "country":"DE","pp":12345.67,"countryRank":3,"role":null,
    "badges":[{"description":"Winner","image":"w.png"},{"description":"Mapper","image":"m.png"}],
    "histories":"1,2,3",
    "scoreStats":{"totalScore":123456789012,"totalRankedScore":9876543210,
                  "averageRankedAccuracy":93.5,"totalPlayCount":400,"rankedPlayCount":250,
                  "replaysWatched":7},
    "permissions":0,"banned":false,"inactive":true}"#;

fn decimal_of(text: &str) -> Real {
    Real { text: text.to_string() }
}

fn whole(n: u64) -> Json {
    Json::Number(JsonNumber {
        text: n.to_string(),
        unsigned: Some(n),
        signed: i64::try_from(n).ok(),
    })
}

fn string_of(s: &str) -> Json {
    Json::Text(s.to_string())
}

fn object_of(members: Vec<(&str, Json)>) -> Json {
    Json::Object(members.into_iter().map(|(k, v)| (k.to_string(), v)).collect())
}

fn mismatch(body: &str, missing: Option<&str>) -> ApiError {
    ApiError::MalformedResponse {
        body: body.to_string(),
        diagnostic: Diagnostic::SchemaMismatch { missing: missing.map(|key| key.to_string()) },
    }
}

fn unknown_value(body: &str, value: u32) -> ApiError {
    ApiError::MalformedResponse {
        body: body.to_string(),
        diagnostic: Diagnostic::UnknownEnumValue(UnknownEnumValue { value }),
    }
}

fn score_of(body: &str) -> Result<Score, ApiError> {
    parse_body(body)
}

#[test]
fn parse_json_reads_every_kind_of_value() {
    assert_eq!(parse_json("null"), Ok(Json::Null));
    assert_eq!(parse_json("true"), Ok(Json::Bool(true)));
    assert_eq!(parse_json("\"a\\nb\""), Ok(string_of("a\nb")));
    assert_eq!(parse_json("7"), Ok(whole(7)));
    assert_eq!(
        parse_json("-50"),
        Ok(Json::Number(JsonNumber { text: "-50".to_string(), unsigned: None, signed: Some(-50) }))
    );
    assert_eq!(
        parse_json("250.5"),
        Ok(Json::Number(JsonNumber { text: "250.5".to_string(), unsigned: None, signed: None }))
    );
    assert_eq!(
        parse_json("18446744073709551615"),
        Ok(Json::Number(JsonNumber {
            text: "18446744073709551615".to_string(),
            unsigned: Some(u64::MAX),
            signed: None,
        }))
    );
    assert_eq!(parse_json("[1, \"x\", []]"), Ok(Json::Array(vec![whole(1), string_of("x"), Json::Array(vec![])])));
}

#[test]
fn parse_json_orders_members_by_key() {
    assert_eq!(
        parse_json(r#"{"b":1,"a":{"z":null}}"#),
        Ok(object_of(vec![("a", object_of(vec![("z", Json::Null)])), ("b", whole(1))]))
    );
}

#[test]
fn parse_json_rejects_what_is_not_json() {
    assert_eq!(parse_json("<html>"), Err("expected value at line 1 column 1".to_string()));
    for text in ["", "{", "{\"a\":1} x", "[1,]", "nul"] {
        let message = serde_json::from_str::<serde_json::Value>(text).unwrap_err().to_string();
        assert_eq!(parse_json(text), Err(message));
    }
}

#[test]
fn get_finds_members_and_skips_null() {
    let doc = object_of(vec![("a", whole(1)), ("b", Json::Null), ("c", string_of("x"))]);
    assert_eq!(doc.get("a"), Some(&whole(1)));
    assert_eq!(doc.get("b"), None);
    assert_eq!(doc.get("c"), Some(&string_of("x")));
    assert_eq!(doc.get("d"), None);
    assert_eq!(whole(1).get("a"), None);
    assert_eq!(Json::Array(vec![]).get("a"), None);
}

#[test]
fn required_members_are_read_by_type() {
    let doc = parse_json(r#"{"n":4294967295,"big":4294967296,"neg":-2147483648,"low":-2147483649,
        "b":true,"t":"txt","r":0.25,"when":"1969-12-31T23:59:59Z","nil":null}"#)
        .unwrap();
    assert_eq!(take_u32(&doc, "n"), Some(u32::MAX));
    assert_eq!(take_u32(&doc, "big"), None);
    assert_eq!(take_u32(&doc, "neg"), None);
    assert_eq!(take_u32(&doc, "r"), None);
    assert_eq!(take_u32(&doc, "t"), None);
    assert_eq!(take_u32(&doc, "missing"), None);
    assert_eq!(take_u32(&doc, "nil"), None);
    assert_eq!(take_u64(&doc, "big"), Some(4294967296));
    assert_eq!(take_u64(&doc, "neg"), None);
    assert_eq!(take_i32(&doc, "neg"), Some(i32::MIN));
    assert_eq!(take_i32(&doc, "low"), None);
    assert_eq!(take_i32(&doc, "n"), None);
    assert_eq!(take_i32(&doc, "r"), None);
    assert_eq!(take_bool(&doc, "b"), Some(true));
    assert_eq!(take_bool(&doc, "n"), None);
    assert_eq!(take_text(&doc, "t"), Some("txt".to_string()));
    assert_eq!(take_text(&doc, "n"), None);
    assert_eq!(take_real(&doc, "r"), Some(decimal_of("0.25")));
    assert_eq!(take_real(&doc, "neg"), Some(decimal_of("-2147483648")));
    assert_eq!(take_real(&doc, "t"), None);
    assert_eq!(take_instant(&doc, "when"), Some(Timestamp { secs: -1, nanos: 0 }));
    assert_eq!(take_instant(&doc, "t"), None);
    assert_eq!(take_instant(&doc, "n"), None);
}

#[test]
fn optional_members_are_absent_when_missing_or_null() {
    let doc = parse_json(r#"{"n":5,"t":"txt","nil":null}"#).unwrap();
    assert_eq!(take_opt_u32(&doc, "n"), Some(Some(5)));
    assert_eq!(take_opt_u32(&doc, "nil"), Some(None));
    assert_eq!(take_opt_u32(&doc, "missing"), Some(None));
    assert_eq!(take_opt_u32(&doc, "t"), None);
    assert_eq!(take_opt_text(&doc, "t"), Some(Some("txt".to_string())));
    assert_eq!(take_opt_text(&doc, "nil"), Some(None));
    assert_eq!(take_opt_text(&doc, "n"), None);
}

#[test]
fn score_is_read_with_negative_modified_score_and_headset() {
    let score = score_of(SCORE).unwrap();
    assert_eq!(score.hmd, HeadsetRepr::ValveIndex);
    assert_eq!(score.modified_score, -50);
    assert_eq!(
        score,
        Score {
            id: 5,
            leaderboard_player_info: None,
            rank: 1,
            base_score: 900000,
            modified_score: -50,
            pp: decimal_of("250.5"),
            weight: decimal_of("0.965"),
            modifiers: "DA,FS".to_string(),
            multiplier: decimal_of("1.0"),
            bad_cuts: 2,
            missed_notes: 3,
            max_combo: 812,
            full_combo: false,
            hmd: HeadsetRepr::ValveIndex,
            has_replay: true,
            time_set: Timestamp { secs: 1614834367, nanos: 500_000_000 },
        }
    );
}

#[test]
fn score_without_id_is_a_malformed_response() {
    assert_eq!(
        score_of(SCORE_WITHOUT_ID),
        Err(mismatch(SCORE_WITHOUT_ID, Some("id")))
    );
    let doc = parse_json(SCORE_WITHOUT_ID).unwrap();
    assert_eq!(Score::from_json(&doc), None);
}

#[test]
fn score_with_unknown_headset_is_a_malformed_response() {
    let body = SCORE.replace("\"hmd\":64", "\"hmd\":96");
    assert_eq!(score_of(&body), Err(unknown_value(&body, 96)));
}

#[test]
fn score_with_a_mistyped_member_is_a_malformed_response() {
    for (from, to, missing) in [
        ("\"rank\":1", "\"rank\":\"1\"", None),
        ("\"rank\":1", "\"rank\":-1", None),
        ("\"rank\":1", "\"rank\":1.5", None),
        ("\"fullCombo\":false", "\"fullCombo\":0", None),
        ("\"modifiers\":\"DA,FS\"", "\"modifiers\":null", Some("modifiers")),
        ("\"pp\":250.5", "\"pp\":\"250.5\"", None),
        ("\"timeSet\":\"2021-03-04T05:06:07.500Z\"", "\"timeSet\":\"yesterday\"", None),
        ("\"id\":5", "\"id\":5,\"leaderboardPlayerInfo\":{\"id\":\"1\"}", None),
        ("\"badCuts\":2,\"missedNotes\":3,", "", Some("badCuts")),
    ] {
        let body = SCORE.replace(from, to);
        assert_ne!(body, SCORE);
        assert_eq!(score_of(&body), Err(mismatch(&body, missing)));
    }
}

#[test]
fn score_carries_its_player() {
    let body = SCORE.replace(
        "\"id\":5",
        "\"id\":5,\"leaderboardPlayerInfo\":{\"id\":\"7656\",\"name\":\"Ann\",\"profilePicture\":\"p.png\",\"country\":\"DE\",\"permissions\":4,\"role\":\"Supporter\"}",
    );
    let score = score_of(&body).unwrap();
    assert_eq!(
        score.leaderboard_player_info,
        Some(LeaderboardPlayer {
            id: "7656".to_string(),
            name: "Ann".to_string(),
            profile_picture: "p.png".to_string(),
            country: "DE".to_string(),
            permissions: 4,
            role: Some("Supporter".to_string()),
        })
    );
}

#[test]
fn body_that_is_not_json_is_a_malformed_response() {
    assert_eq!(
        score_of("<html>busy</html>"),
        Err(ApiError::MalformedResponse {
            body: "<html>busy</html>".to_string(),
            diagnostic: Diagnostic::NotJson {
                message: "expected value at line 1 column 1".to_string(),
            },
        })
    );
}

#[test]
fn body_that_is_no_object_is_a_malformed_response() {
    for body in ["[]", "5", "null", "\"x\""] {
        assert_eq!(
            parse_body::<Metadata>(body),
            Err(mismatch(body, Some("total")))
        );
    }
}

#[test]
fn metadata_is_read() {
    assert_eq!(
        parse_body::<Metadata>(r#"{"total":101,"page":2,"itemsPerPage":50}"#),
        Ok(Metadata { total: 101, page: 2, items_per_page: 50 })
    );
}

#[test]
fn difficulty_seven_is_read_as_expert() {
    assert_eq!(
        parse_body::<Difficulty>(
            r#"{"leaderboardId":3,"difficulty":7,"gameMode":"SoloStandard","difficultyRaw":"_Expert_SoloStandard"}"#
        ),
        Ok(Difficulty {
            leaderboard_id: 3,
            difficulty: DifficultyEnum::Expert,
            game_mode: "SoloStandard".to_string(),
            difficulty_raw: "_Expert_SoloStandard".to_string(),
        })
    );
    let unknown = r#"{"leaderboardId":3,"difficulty":8,"gameMode":"SoloStandard","difficultyRaw":"x"}"#;
    assert_eq!(
        parse_body::<Difficulty>(unknown),
        Err(unknown_value(unknown, 8))
    );
}

#[test]
fn leaderboard_is_read_with_max_pp_under_its_own_key() {
    let board: LeaderboardInfo = parse_body(LEADERBOARD).unwrap();
    assert_eq!(board.max_pp, decimal_of("412.25"));
    assert_eq!(
        board,
        LeaderboardInfo {
            id: 77,
            song_hash: "ABCD".to_string(),
            song_name: "Song".to_string(),
            song_sub_name: "".to_string(),
            song_author_name: "Artist".to_string(),
            level_author_name: "Mapper".to_string(),
            difficulty: Difficulty {
                leaderboard_id: 77,
                difficulty: DifficultyEnum::ExpertPlus,
                game_mode: "SoloStandard".to_string(),
                difficulty_raw: "_ExpertPlus_SoloStandard".to_string(),
            },
            max_score: 1000000,
            created_date: Some(Timestamp { secs: 1577836800, nanos: 0 }),
            ranked_data: None,
            qualified_date: Some(Timestamp { secs: 1577836800, nanos: 0 }),
            loved_date: None,
            ranked: true,
            qualified: false,
            loved: false,
            max_pp: decimal_of("412.25"),
            stars: decimal_of("9.5"),
            positive_modifiers: false,
            players: Some(12),
            daily_players: None,
            cover_image: "https://cdn/cover.png".to_string(),
            player_score: None,
            difficulties: Some(vec![
                Difficulty {
                    leaderboard_id: 75,
                    difficulty: DifficultyEnum::Easy,
                    game_mode: "SoloStandard".to_string(),
                    difficulty_raw: "_Easy_SoloStandard".to_string(),
                },
                Difficulty {
                    leaderboard_id: 76,
                    difficulty: DifficultyEnum::Expert,
                    game_mode: "SoloStandard".to_string(),
                    difficulty_raw: "_Expert_SoloStandard".to_string(),
                },
            ]),
        }
    );
}

#[test]
fn leaderboard_without_max_pp_key_is_malformed() {
    let body = LEADERBOARD.replace("\"maxPP\":412.25,", "");
    assert_eq!(parse_body::<LeaderboardInfo>(&body), Err(mismatch(&body, Some("maxPP"))));
}

#[test]
fn leaderboard_carries_the_score_of_the_player() {
    let body = LEADERBOARD.replace("\"players\":12", &format!("\"players\":12,\"playerScore\":{}", SCORE));
    let board: LeaderboardInfo = parse_body(&body).unwrap();
    assert_eq!(board.player_score, Some(score_of(SCORE).unwrap()));
}

#[test]
fn player_is_read_with_badges_and_stats() {
    assert_eq!(
        parse_body::<Player>(PLAYER),
        Ok(Player {
            id: "7656".to_string(),
            name: "Ann".to_string(),
            profile_picture: "https://cdn/a.png".to_string(),
            country: "DE".to_string(),
            pp: decimal_of("12345.67"),
            country_rank: 3,
            role: None,
            badges: Some(vec![
                Badge { description: "Winner".to_string(), image: "w.png".to_string() },
                Badge { description: "Mapper".to_string(), image: "m.png".to_string() },
            ]),
            histories: "1,2,3".to_string(),
            score_stats: Some(ScoreStats {
                total_score: 123456789012,
                total_ranked_score: 9876543210,
                average_ranked_accuracy: decimal_of("93.5"),
                total_play_count: 400,
                ranked_play_count: 250,
                replays_watched: 7,
            }),
            permissions: 0,
            banned: false,
            inactive: true,
        })
    );
}

#[test]
fn player_with_a_broken_badge_is_malformed() {
    let body = PLAYER.replace("{\"description\":\"Mapper\",\"image\":\"m.png\"}", "{\"description\":\"Mapper\"}");
    assert_ne!(body, PLAYER);
    assert_eq!(parse_body::<Player>(&body), Err(mismatch(&body, None)));
}

#[test]
fn collections_keep_the_order_of_the_service() {
    let second = PLAYER.replace("\"id\":\"7656\"", "\"id\":\"1111\"");
    let body = format!(
        "{{\"players\":[{},{}],\"metadata\":{{\"total\":2,\"page\":1,\"itemsPerPage\":50}}}}",
        PLAYER, second
    );
    let page: PlayerCollection = parse_body(&body).unwrap();
    assert_eq!(page.metadata, Metadata { total: 2, page: 1, items_per_page: 50 });
    let ids: Vec<&str> = page.players.iter().map(|p| p.id.as_str()).collect();
    assert_eq!(ids, vec!["7656", "1111"]);

    let other = SCORE.replace("\"id\":5", "\"id\":4");
    let body = format!(
        "{{\"scores\":[{},{},{}],\"metadata\":{{\"total\":3,\"page\":1,\"itemsPerPage\":12}}}}",
        SCORE, other, SCORE
    );
    let page: ScoreCollection = parse_body(&body).unwrap();
    let ids: Vec<u64> = page.scores.iter().map(|s| s.id).collect();
    assert_eq!(ids, vec![5, 4, 5]);

    let body = format!(
        "{{\"leaderboards\":[{}],\"metadata\":{{\"total\":1,\"page\":1,\"itemsPerPage\":14}}}}",
        LEADERBOARD
    );
    let page: LeaderboardInfoCollection = parse_body(&body).unwrap();
    assert_eq!(page.leaderboards.len(), 1);
    assert_eq!(page.leaderboards[0].id, 77);

    let body = format!(
        "{{\"playerScores\":[{{\"score\":{},\"leaderboard\":{}}}],\"metadata\":{{\"total\":1,\"page\":1,\"itemsPerPage\":8}}}}",
        SCORE, LEADERBOARD
    );
    let page: PlayerScoreCollection = parse_body(&body).unwrap();
    assert_eq!(page.player_scores.len(), 1);
    assert_eq!(page.player_scores[0].score.id, 5);
    assert_eq!(page.player_scores[0].leaderboard.id, 77);
}

#[test]
fn collection_without_metadata_is_malformed() {
    let body = "{\"players\":[]}";
    assert_eq!(parse_body::<PlayerCollection>(body), Err(mismatch(body, Some("metadata"))));
    let body = "{\"players\":{},\"metadata\":{\"total\":0,\"page\":1,\"itemsPerPage\":50}}";
    assert_eq!(parse_body::<PlayerCollection>(body), Err(mismatch(body, None)));
}

#[test]
fn read_array_reads_every_item_or_none() {
    let good = parse_json(r#"[{"description":"a","image":"b"},{"description":"c","image":"d"}]"#).unwrap();
    assert_eq!(
        read_array::<Badge>(&good),
        Some(vec![
            Badge { description: "a".to_string(), image: "b".to_string() },
            Badge { description: "c".to_string(), image: "d".to_string() },
        ])
    );
    let bad = parse_json(r#"[{"description":"a","image":"b"},{"description":"c"}]"#).unwrap();
    assert_eq!(read_array::<Badge>(&bad), None);
    assert_eq!(read_array::<Badge>(&Json::Array(vec![])), Some(vec![]));
    assert_eq!(read_array::<Badge>(&Json::Null), None);
}

#[test]
fn records_are_read_from_a_tree_written_by_hand() {
    let doc = object_of(vec![("itemsPerPage", whole(10)), ("page", whole(1)), ("total", whole(33))]);
    assert_eq!(Metadata::from_json(&doc), Some(Metadata { total: 33, page: 1, items_per_page: 10 }));
    assert_eq!(
        read_document::<Metadata>("raw", &doc),
        Ok(Metadata { total: 33, page: 1, items_per_page: 10 })
    );
    let doc = object_of(vec![("page", whole(1)), ("total", whole(33))]);
    assert_eq!(Metadata::from_json(&doc), None);
    assert_eq!(read_document::<Metadata>("raw", &doc), Err(mismatch("raw", Some("itemsPerPage"))));
}

#[test]
fn conclude_hands_on_a_transport_failure() {
    assert_eq!(
        conclude::<Metadata>(Err("connection reset".to_string())),
        Err(ApiError::TransportError { cause: "connection reset".to_string() })
    );
}

#[test]
fn conclude_reads_the_body() {
    assert_eq!(
        conclude::<Metadata>(Ok(r#"{"total":1,"page":1,"itemsPerPage":1}"#.to_string())),
        Ok(Metadata { total: 1, page: 1, items_per_page: 1 })
    );
    assert_eq!(
        conclude::<Metadata>(Ok("oops".to_string())),
        Err(ApiError::MalformedResponse {
            body: "oops".to_string(),
            diagnostic: Diagnostic::NotJson {
                message: "expected value at line 1 column 1".to_string(),
            },
        })
    );
}

#[test]
fn find_absent_names_the_first_missing_key() {
    let doc = parse_json(r#"{"a":1,"b":null,"d":4}"#).unwrap();
    assert_eq!(find_absent(&doc, &vec!["a", "d"]), None);
    assert_eq!(find_absent(&doc, &vec!["a", "b", "c"]), Some("b".to_string()));
    assert_eq!(find_absent(&doc, &vec!["a", "c", "b"]), Some("c".to_string()));
    assert_eq!(find_absent(&doc, &vec![]), None);
    assert_eq!(find_absent(&Json::Null, &vec!["a"]), Some("a".to_string()));
}

#[test]
fn required_keys_follow_the_fields() {
    assert_eq!(Metadata::required_keys(), vec!["total", "page", "itemsPerPage"]);
    assert_eq!(Badge::required_keys(), vec!["description", "image"]);
    assert_eq!(
        Score::required_keys(),
        vec![
            "id", "rank", "baseScore", "modifiedScore", "pp", "weight", "modifiers", "multiplier",
            "badCuts", "missedNotes", "maxCombo", "fullCombo", "hmd", "hasReplay", "timeSet",
        ]
    );
    assert_eq!(PlayerCollection::required_keys(), vec!["players", "metadata"]);
}

#[test]
fn bare_difficulty_is_concluded_from_its_integer() {
    assert_eq!(conclude::<DifficultyEnum>(Ok("7".to_string())), Ok(DifficultyEnum::Expert));
    assert_eq!(conclude::<DifficultyEnum>(Ok("1".to_string())), Ok(DifficultyEnum::Easy));
    assert_eq!(conclude::<DifficultyEnum>(Ok("8".to_string())), Err(unknown_value("8", 8)));
    assert_eq!(conclude::<DifficultyEnum>(Ok("\"Expert\"".to_string())), Err(mismatch("\"Expert\"", None)));
    assert_eq!(conclude::<DifficultyEnum>(Ok("-7".to_string())), Err(mismatch("-7", None)));
}

#[test]
fn bare_headset_is_concluded_from_its_integer() {
    assert_eq!(conclude::<HeadsetRepr>(Ok("64".to_string())), Ok(HeadsetRepr::ValveIndex));
    assert_eq!(conclude::<HeadsetRepr>(Ok("0".to_string())), Ok(HeadsetRepr::Unknown));
    assert_eq!(conclude::<HeadsetRepr>(Ok("3".to_string())), Err(unknown_value("3", 3)));
    assert_eq!(conclude::<HeadsetRepr>(Ok("64.5".to_string())), Err(mismatch("64.5", None)));
}

#[test]
fn bare_integers_are_concluded() {
    assert_eq!(conclude::<u32>(Ok("1234".to_string())), Ok(1234));
    assert_eq!(conclude::<u32>(Ok("4294967296".to_string())), Err(mismatch("4294967296", None)));
    assert_eq!(conclude::<u64>(Ok("4294967296".to_string())), Ok(4294967296));
    assert_eq!(conclude::<u64>(Ok("-1".to_string())), Err(mismatch("-1", None)));
    assert_eq!(conclude::<u32>(Ok("{}".to_string())), Err(mismatch("{}", None)));
}

#[test]
fn list_of_difficulties_is_concluded_in_order() {
    let body = r#"[{"leaderboardId":75,"difficulty":1,"gameMode":"SoloStandard","difficultyRaw":"a"},
        {"leaderboardId":76,"difficulty":9,"gameMode":"SoloStandard","difficultyRaw":"b"}]"#;
    assert_eq!(
        conclude::<Vec<Difficulty>>(Ok(body.to_string())),
        Ok(vec![
            Difficulty {
                leaderboard_id: 75,
                difficulty: DifficultyEnum::Easy,
                game_mode: "SoloStandard".to_string(),
                difficulty_raw: "a".to_string(),
            },
            Difficulty {
                leaderboard_id: 76,
                difficulty: DifficultyEnum::ExpertPlus,
                game_mode: "SoloStandard".to_string(),
                difficulty_raw: "b".to_string(),
            },
        ])
    );
    assert_eq!(conclude::<Vec<Difficulty>>(Ok("[]".to_string())), Ok(vec![]));
    assert_eq!(conclude::<Vec<Difficulty>>(Ok("{}".to_string())), Err(mismatch("{}", None)));
    let broken = body.replace("\"difficulty\":9", "\"difficulty\":4");
    assert_eq!(conclude::<Vec<Difficulty>>(Ok(broken.clone())), Err(unknown_value(&broken, 4)));
    let both = body.replace("\"difficulty\":9", "\"difficulty\":4").replace("\"difficulty\":1", "\"difficulty\":2");
    assert_eq!(conclude::<Vec<Difficulty>>(Ok(both.clone())), Err(unknown_value(&both, 2)));
}

#[test]
fn unknown_value_inside_a_collection_is_named() {
    let other = SCORE.replace("\"hmd\":64", "\"hmd\":5");
    let body = format!(
        "{{\"scores\":[{},{}],\"metadata\":{{\"total\":2,\"page\":1,\"itemsPerPage\":12}}}}",
        SCORE, other
    );
    assert_eq!(parse_body::<ScoreCollection>(&body), Err(unknown_value(&body, 5)));
    let body = LEADERBOARD.replace("\"difficulty\":7", "\"difficulty\":6");
    assert_ne!(body, LEADERBOARD);
    assert_eq!(parse_body::<LeaderboardInfo>(&body), Err(unknown_value(&body, 6)));
    let body = LEADERBOARD.replace("\"players\":12", &format!("\"players\":12,\"playerScore\":{}", other));
    assert_eq!(parse_body::<LeaderboardInfo>(&body), Err(unknown_value(&body, 5)));
}

#[test]
fn missing_member_is_named_before_an_unknown_value() {
    let body = SCORE_WITHOUT_ID.replace("\"hmd\":64", "\"hmd\":96");
    assert_eq!(score_of(&body), Err(mismatch(&body, Some("id"))));
}

#[test]
fn find_unknown_gives_the_first_unknown_integer() {
    let good = parse_json(SCORE).unwrap();
    assert_eq!(Score::find_unknown(&good), None);
    let bad = parse_json(&SCORE.replace("\"hmd\":64", "\"hmd\":129")).unwrap();
    assert_eq!(Score::find_unknown(&bad), Some(UnknownEnumValue { value: 129 }));
    let mistyped = parse_json(&SCORE.replace("\"hmd\":64", "\"hmd\":\"64\"")).unwrap();
    assert_eq!(Score::find_unknown(&mistyped), None);
    assert_eq!(Metadata::find_unknown(&bad), None);
    assert_eq!(u32::find_unknown(&bad), None);
    let list = parse_json("[1, 7, 10, 12]").unwrap();
    assert_eq!(Vec::<DifficultyEnum>::find_unknown(&list), Some(UnknownEnumValue { value: 10 }));
    assert_eq!(Vec::<DifficultyEnum>::from_json(&list), None);
    let list = parse_json("[1, 7, 9]").unwrap();
    assert_eq!(Vec::<DifficultyEnum>::find_unknown(&list), None);
    assert_eq!(
        Vec::<DifficultyEnum>::from_json(&list),
        Some(vec![DifficultyEnum::Easy, DifficultyEnum::Expert, DifficultyEnum::ExpertPlus])
    );
    assert!(Vec::<DifficultyEnum>::required_keys().is_empty());
}
