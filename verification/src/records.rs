//! The JSON form of each record of the service. A field's key is its name
//! in camel case; the one exception is the greatest performance points of
//! a leaderboard, which stand under `maxPP`.

use vstd::prelude::*;
use crate::decode::{
    find_unknown_in_member, first_of, keys_of, opt_instant, opt_list, opt_record, opt_text, opt_u32, real_view, req_bool, req_difficulty,
    req_headset, req_i32, req_instant, req_list, req_real, req_record, req_text, req_u32, req_u64,
    take_bool, take_difficulty, take_headset, take_i32, take_instant, take_list, take_opt_instant,
    take_opt_list, take_opt_record, take_opt_text, take_opt_u32, take_real, take_record,
    take_text, take_u32, take_u64, text_view, unknown_in_member, unknown_member_is_no_optional,
    unknown_member_is_no_required, Record,
};
use crate::json::Json;
use crate::model::{
    Difficulty, DifficultyEnum, HeadsetRepr, LeaderboardInfo, LeaderboardInfoCollection, LeaderboardPlayer, Player,
    PlayerCollection, PlayerScore, PlayerScoreCollection, Score, ScoreCollection, ScoreStats,
    UnknownEnumValue,
};

verus! {

impl Record for ScoreStats {
    open spec fn describes(j: Json, v: ScoreStats) -> bool {
        &&& req_u64(j, "totalScore"@) == Some(v.total_score)
        &&& req_u64(j, "totalRankedScore"@) == Some(v.total_ranked_score)
        &&& req_real(j, "averageRankedAccuracy"@) == Some(v.average_ranked_accuracy.text@)
        &&& req_u32(j, "totalPlayCount"@) == Some(v.total_play_count)
        &&& req_u32(j, "rankedPlayCount"@) == Some(v.ranked_play_count)
        &&& req_u32(j, "replaysWatched"@) == Some(v.replays_watched)
    }

    fn from_json(j: &Json) -> (r: Option<ScoreStats>) {
        let total_score = take_u64(j, "totalScore")?;
        let total_ranked_score = take_u64(j, "totalRankedScore")?;
        let average_ranked_accuracy = take_real(j, "averageRankedAccuracy")?;
        let total_play_count = take_u32(j, "totalPlayCount")?;
        let ranked_play_count = take_u32(j, "rankedPlayCount")?;
        let replays_watched = take_u32(j, "replaysWatched")?;
        Some(
            ScoreStats {
                total_score,
                total_ranked_score,
                average_ranked_accuracy,
                total_play_count,
                ranked_play_count,
                replays_watched,
            },
        )
    }

    open spec fn required() -> Seq<Seq<char>> {
        seq!["totalScore"@, "totalRankedScore"@, "averageRankedAccuracy"@, "totalPlayCount"@, "rankedPlayCount"@, "replaysWatched"@]
    }

    fn required_keys() -> (keys: Vec<&'static str>) {
        let keys: Vec<&'static str> = vec!["totalScore", "totalRankedScore", "averageRankedAccuracy", "totalPlayCount", "rankedPlayCount", "replaysWatched"];
        assert(keys_of(keys@) =~= Self::required());
        keys
    }

    proof fn required_are_needed(j: Json, v: Self, i: int) {
    }

    open spec fn unknown(j: Json) -> Option<UnknownEnumValue> {
        None
    }

    fn find_unknown(j: &Json) -> (r: Option<UnknownEnumValue>) {
        None
    }

    proof fn unknown_is_no_record(j: Json, v: Self) {
    }
}

impl Record for LeaderboardPlayer {
    open spec fn describes(j: Json, v: LeaderboardPlayer) -> bool {
        &&& req_text(j, "id"@) == Some(v.id@)
        &&& req_text(j, "name"@) == Some(v.name@)
        &&& req_text(j, "profilePicture"@) == Some(v.profile_picture@)
        &&& req_text(j, "country"@) == Some(v.country@)
        &&& req_u64(j, "permissions"@) == Some(v.permissions)
        &&& opt_text(j, "role"@) == Some(text_view(v.role))
    }

    fn from_json(j: &Json) -> (r: Option<LeaderboardPlayer>) {
        let id = take_text(j, "id")?;
        let name = take_text(j, "name")?;
        let profile_picture = take_text(j, "profilePicture")?;
        let country = take_text(j, "country")?;
        let permissions = take_u64(j, "permissions")?;
        let role = take_opt_text(j, "role")?;
        Some(LeaderboardPlayer { id, name, profile_picture, country, permissions, role })
    }

    open spec fn required() -> Seq<Seq<char>> {
        seq!["id"@, "name"@, "profilePicture"@, "country"@, "permissions"@]
    }

    fn required_keys() -> (keys: Vec<&'static str>) {
        let keys: Vec<&'static str> = vec!["id", "name", "profilePicture", "country", "permissions"];
        assert(keys_of(keys@) =~= Self::required());
        keys
    }

    proof fn required_are_needed(j: Json, v: Self, i: int) {
    }

    open spec fn unknown(j: Json) -> Option<UnknownEnumValue> {
        None
    }

    fn find_unknown(j: &Json) -> (r: Option<UnknownEnumValue>) {
        None
    }

    proof fn unknown_is_no_record(j: Json, v: Self) {
    }
}

impl Record for Player {
    open spec fn describes(j: Json, v: Player) -> bool {
        &&& req_text(j, "id"@) == Some(v.id@)
        &&& req_text(j, "name"@) == Some(v.name@)
        &&& req_text(j, "profilePicture"@) == Some(v.profile_picture@)
        &&& req_text(j, "country"@) == Some(v.country@)
        &&& req_real(j, "pp"@) == Some(v.pp.text@)
        &&& req_u32(j, "countryRank"@) == Some(v.country_rank)
        &&& opt_text(j, "role"@) == Some(text_view(v.role))
        &&& opt_list(j, "badges"@, v.badges)
        &&& req_text(j, "histories"@) == Some(v.histories@)
        &&& opt_record(j, "scoreStats"@, v.score_stats)
        &&& req_u64(j, "permissions"@) == Some(v.permissions)
        &&& req_bool(j, "banned"@) == Some(v.banned)
        &&& req_bool(j, "inactive"@) == Some(v.inactive)
    }

    fn from_json(j: &Json) -> (r: Option<Player>) {
        let id = take_text(j, "id")?;
        let name = take_text(j, "name")?;
        let profile_picture = take_text(j, "profilePicture")?;
        let country = take_text(j, "country")?;
        let pp = take_real(j, "pp")?;
        let country_rank = take_u32(j, "countryRank")?;
        let role = take_opt_text(j, "role")?;
        let badges = take_opt_list(j, "badges")?;
        let histories = take_text(j, "histories")?;
        let score_stats = take_opt_record(j, "scoreStats")?;
        let permissions = take_u64(j, "permissions")?;
        let banned = take_bool(j, "banned")?;
        let inactive = take_bool(j, "inactive")?;
        Some(
            Player {
                id,
                name,
                profile_picture,
                country,
                pp,
                country_rank,
                role,
                badges,
                histories,
                score_stats,
                permissions,
                banned,
                inactive,
            },
        )
    }

    open spec fn required() -> Seq<Seq<char>> {
        seq!["id"@, "name"@, "profilePicture"@, "country"@, "pp"@, "countryRank"@, "histories"@, "permissions"@, "banned"@, "inactive"@]
    }

    fn required_keys() -> (keys: Vec<&'static str>) {
        let keys: Vec<&'static str> = vec!["id", "name", "profilePicture", "country", "pp", "countryRank", "histories", "permissions", "banned", "inactive"];
        assert(keys_of(keys@) =~= Self::required());
        keys
    }

    proof fn required_are_needed(j: Json, v: Self, i: int) {
    }

    open spec fn unknown(j: Json) -> Option<UnknownEnumValue> {
        None
    }

    fn find_unknown(j: &Json) -> (r: Option<UnknownEnumValue>) {
        None
    }

    proof fn unknown_is_no_record(j: Json, v: Self) {
    }
}

impl Record for Score {
    open spec fn describes(j: Json, v: Score) -> bool {
        &&& req_u64(j, "id"@) == Some(v.id)
        &&& opt_record(j, "leaderboardPlayerInfo"@, v.leaderboard_player_info)
        &&& req_u32(j, "rank"@) == Some(v.rank)
        &&& req_u32(j, "baseScore"@) == Some(v.base_score)
        &&& req_i32(j, "modifiedScore"@) == Some(v.modified_score)
        &&& req_real(j, "pp"@) == Some(v.pp.text@)
        &&& req_real(j, "weight"@) == Some(v.weight.text@)
        &&& req_text(j, "modifiers"@) == Some(v.modifiers@)
        &&& req_real(j, "multiplier"@) == Some(v.multiplier.text@)
        &&& req_u32(j, "badCuts"@) == Some(v.bad_cuts)
        &&& req_u32(j, "missedNotes"@) == Some(v.missed_notes)
        &&& req_u32(j, "maxCombo"@) == Some(v.max_combo)
        &&& req_bool(j, "fullCombo"@) == Some(v.full_combo)
        &&& req_headset(j, "hmd"@) == Some(v.hmd)
        &&& req_bool(j, "hasReplay"@) == Some(v.has_replay)
        &&& req_instant(j, "timeSet"@) == Some(v.time_set)
    }

    fn from_json(j: &Json) -> (r: Option<Score>) {
        let id = take_u64(j, "id")?;
        let leaderboard_player_info = take_opt_record(j, "leaderboardPlayerInfo")?;
        let rank = take_u32(j, "rank")?;
        let base_score = take_u32(j, "baseScore")?;
        let modified_score = take_i32(j, "modifiedScore")?;
        let pp = take_real(j, "pp")?;
        let weight = take_real(j, "weight")?;
        let modifiers = take_text(j, "modifiers")?;
        let multiplier = take_real(j, "multiplier")?;
        let bad_cuts = take_u32(j, "badCuts")?;
        let missed_notes = take_u32(j, "missedNotes")?;
        let max_combo = take_u32(j, "maxCombo")?;
        let full_combo = take_bool(j, "fullCombo")?;
        let hmd = take_headset(j, "hmd")?;
        let has_replay = take_bool(j, "hasReplay")?;
        let time_set = take_instant(j, "timeSet")?;
        Some(
            Score {
                id,
                leaderboard_player_info,
                rank,
                base_score,
                modified_score,
                pp,
                weight,
                modifiers,
                multiplier,
                bad_cuts,
                missed_notes,
                max_combo,
                full_combo,
                hmd,
                has_replay,
                time_set,
            },
        )
    }

    open spec fn required() -> Seq<Seq<char>> {
        seq!["id"@, "rank"@, "baseScore"@, "modifiedScore"@, "pp"@, "weight"@, "modifiers"@, "multiplier"@, "badCuts"@, "missedNotes"@, "maxCombo"@, "fullCombo"@, "hmd"@, "hasReplay"@, "timeSet"@]
    }

    fn required_keys() -> (keys: Vec<&'static str>) {
        let keys: Vec<&'static str> = vec!["id", "rank", "baseScore", "modifiedScore", "pp", "weight", "modifiers", "multiplier", "badCuts", "missedNotes", "maxCombo", "fullCombo", "hmd", "hasReplay", "timeSet"];
        assert(keys_of(keys@) =~= Self::required());
        keys
    }

    proof fn required_are_needed(j: Json, v: Self, i: int) {
    }

    open spec fn unknown(j: Json) -> Option<UnknownEnumValue> {
        unknown_in_member::<HeadsetRepr>(j, "hmd"@)
    }

    fn find_unknown(j: &Json) -> (r: Option<UnknownEnumValue>) {
        find_unknown_in_member::<HeadsetRepr>(j, "hmd")
    }

    proof fn unknown_is_no_record(j: Json, v: Self) {
        if unknown_in_member::<HeadsetRepr>(j, "hmd"@) is Some {
            unknown_member_is_no_required::<HeadsetRepr>(j, "hmd"@, v.hmd);
        }
    }
}

impl Record for Difficulty {
    open spec fn describes(j: Json, v: Difficulty) -> bool {
        &&& req_u32(j, "leaderboardId"@) == Some(v.leaderboard_id)
        &&& req_difficulty(j, "difficulty"@) == Some(v.difficulty)
        &&& req_text(j, "gameMode"@) == Some(v.game_mode@)
        &&& req_text(j, "difficultyRaw"@) == Some(v.difficulty_raw@)
    }

    fn from_json(j: &Json) -> (r: Option<Difficulty>) {
        let leaderboard_id = take_u32(j, "leaderboardId")?;
        let difficulty = take_difficulty(j, "difficulty")?;
        let game_mode = take_text(j, "gameMode")?;
        let difficulty_raw = take_text(j, "difficultyRaw")?;
        Some(Difficulty { leaderboard_id, difficulty, game_mode, difficulty_raw })
    }

    open spec fn required() -> Seq<Seq<char>> {
        seq!["leaderboardId"@, "difficulty"@, "gameMode"@, "difficultyRaw"@]
    }

    fn required_keys() -> (keys: Vec<&'static str>) {
        let keys: Vec<&'static str> = vec!["leaderboardId", "difficulty", "gameMode", "difficultyRaw"];
        assert(keys_of(keys@) =~= Self::required());
        keys
    }

    proof fn required_are_needed(j: Json, v: Self, i: int) {
    }

    open spec fn unknown(j: Json) -> Option<UnknownEnumValue> {
        unknown_in_member::<DifficultyEnum>(j, "difficulty"@)
    }

    fn find_unknown(j: &Json) -> (r: Option<UnknownEnumValue>) {
        find_unknown_in_member::<DifficultyEnum>(j, "difficulty")
    }

    proof fn unknown_is_no_record(j: Json, v: Self) {
        if unknown_in_member::<DifficultyEnum>(j, "difficulty"@) is Some {
            unknown_member_is_no_required::<DifficultyEnum>(j, "difficulty"@, v.difficulty);
        }
    }
}

impl Record for LeaderboardInfo {
    open spec fn describes(j: Json, v: LeaderboardInfo) -> bool {
        &&& req_u32(j, "id"@) == Some(v.id)
        &&& req_text(j, "songHash"@) == Some(v.song_hash@)
        &&& req_text(j, "songName"@) == Some(v.song_name@)
        &&& req_text(j, "songSubName"@) == Some(v.song_sub_name@)
        &&& req_text(j, "songAuthorName"@) == Some(v.song_author_name@)
        &&& req_text(j, "levelAuthorName"@) == Some(v.level_author_name@)
        &&& req_record(j, "difficulty"@, v.difficulty)
        &&& req_u32(j, "maxScore"@) == Some(v.max_score)
        &&& opt_instant(j, "createdDate"@) == Some(v.created_date)
        &&& opt_instant(j, "rankedData"@) == Some(v.ranked_data)
        &&& opt_instant(j, "qualifiedDate"@) == Some(v.qualified_date)
        &&& opt_instant(j, "lovedDate"@) == Some(v.loved_date)
        &&& req_bool(j, "ranked"@) == Some(v.ranked)
        &&& req_bool(j, "qualified"@) == Some(v.qualified)
        &&& req_bool(j, "loved"@) == Some(v.loved)
        &&& req_real(j, "maxPP"@) == Some(v.max_pp.text@)
        &&& req_real(j, "stars"@) == Some(v.stars.text@)
        &&& req_bool(j, "positiveModifiers"@) == Some(v.positive_modifiers)
        &&& opt_u32(j, "players"@) == Some(v.players)
        &&& opt_u32(j, "dailyPlayers"@) == Some(v.daily_players)
        &&& req_text(j, "coverImage"@) == Some(v.cover_image@)
        &&& opt_record(j, "playerScore"@, v.player_score)
        &&& opt_list(j, "difficulties"@, v.difficulties)
    }

    fn from_json(j: &Json) -> (r: Option<LeaderboardInfo>) {
        let id = take_u32(j, "id")?;
        let song_hash = take_text(j, "songHash")?;
        let song_name = take_text(j, "songName")?;
        let song_sub_name = take_text(j, "songSubName")?;
        let song_author_name = take_text(j, "songAuthorName")?;
        let level_author_name = take_text(j, "levelAuthorName")?;
        let difficulty = take_record(j, "difficulty")?;
        let max_score = take_u32(j, "maxScore")?;
        let created_date = take_opt_instant(j, "createdDate")?;
        let ranked_data = take_opt_instant(j, "rankedData")?;
        let qualified_date = take_opt_instant(j, "qualifiedDate")?;
        let loved_date = take_opt_instant(j, "lovedDate")?;
        let ranked = take_bool(j, "ranked")?;
        let qualified = take_bool(j, "qualified")?;
        let loved = take_bool(j, "loved")?;
        let max_pp = take_real(j, "maxPP")?;
        let stars = take_real(j, "stars")?;
        let positive_modifiers = take_bool(j, "positiveModifiers")?;
        let players = take_opt_u32(j, "players")?;
        let daily_players = take_opt_u32(j, "dailyPlayers")?;
        let cover_image = take_text(j, "coverImage")?;
        let player_score = take_opt_record(j, "playerScore")?;
        let difficulties = take_opt_list(j, "difficulties")?;
        Some(
            LeaderboardInfo {
                id,
                song_hash,
                song_name,
                song_sub_name,
                song_author_name,
                level_author_name,
                difficulty,
                max_score,
                created_date,
                ranked_data,
                qualified_date,
                loved_date,
                ranked,
                qualified,
                loved,
                max_pp,
                stars,
                positive_modifiers,
                players,
                daily_players,
                cover_image,
                player_score,
                difficulties,
            },
        )
    }

    open spec fn required() -> Seq<Seq<char>> {
        seq!["id"@, "songHash"@, "songName"@, "songSubName"@, "songAuthorName"@, "levelAuthorName"@, "difficulty"@, "maxScore"@, "ranked"@, "qualified"@, "loved"@, "maxPP"@, "stars"@, "positiveModifiers"@, "coverImage"@]
    }

    fn required_keys() -> (keys: Vec<&'static str>) {
        let keys: Vec<&'static str> = vec!["id", "songHash", "songName", "songSubName", "songAuthorName", "levelAuthorName", "difficulty", "maxScore", "ranked", "qualified", "loved", "maxPP", "stars", "positiveModifiers", "coverImage"];
        assert(keys_of(keys@) =~= Self::required());
        keys
    }

    proof fn required_are_needed(j: Json, v: Self, i: int) {
    }

    open spec fn unknown(j: Json) -> Option<UnknownEnumValue> {
        first_of(
            unknown_in_member::<Difficulty>(j, "difficulty"@),
            first_of(
                unknown_in_member::<Score>(j, "playerScore"@),
                unknown_in_member::<Vec<Difficulty>>(j, "difficulties"@),
            ),
        )
    }

    fn find_unknown(j: &Json) -> (r: Option<UnknownEnumValue>) {
        match find_unknown_in_member::<Difficulty>(j, "difficulty") {
            Some(e) => Some(e),
            None => match find_unknown_in_member::<Score>(j, "playerScore") {
                Some(e) => Some(e),
                None => find_unknown_in_member::<Vec<Difficulty>>(j, "difficulties"),
            },
        }
    }

    proof fn unknown_is_no_record(j: Json, v: Self) {
        if unknown_in_member::<Difficulty>(j, "difficulty"@) is Some {
            unknown_member_is_no_required::<Difficulty>(j, "difficulty"@, v.difficulty);
        } else if unknown_in_member::<Score>(j, "playerScore"@) is Some {
            unknown_member_is_no_optional::<Score>(j, "playerScore"@, v.player_score);
        } else if unknown_in_member::<Vec<Difficulty>>(j, "difficulties"@) is Some {
            unknown_member_is_no_optional::<Vec<Difficulty>>(j, "difficulties"@, v.difficulties);
        }
    }
}

impl Record for PlayerScore {
    open spec fn describes(j: Json, v: PlayerScore) -> bool {
        &&& req_record(j, "score"@, v.score)
        &&& req_record(j, "leaderboard"@, v.leaderboard)
    }

    fn from_json(j: &Json) -> (r: Option<PlayerScore>) {
        let score = take_record(j, "score")?;
        let leaderboard = take_record(j, "leaderboard")?;
        Some(PlayerScore { score, leaderboard })
    }

    open spec fn required() -> Seq<Seq<char>> {
        seq!["score"@, "leaderboard"@]
    }

    fn required_keys() -> (keys: Vec<&'static str>) {
        let keys: Vec<&'static str> = vec!["score", "leaderboard"];
        assert(keys_of(keys@) =~= Self::required());
        keys
    }

    proof fn required_are_needed(j: Json, v: Self, i: int) {
    }

    open spec fn unknown(j: Json) -> Option<UnknownEnumValue> {
        first_of(
            unknown_in_member::<Score>(j, "score"@),
            unknown_in_member::<LeaderboardInfo>(j, "leaderboard"@),
        )
    }

    fn find_unknown(j: &Json) -> (r: Option<UnknownEnumValue>) {
        match find_unknown_in_member::<Score>(j, "score") {
            Some(e) => Some(e),
            None => find_unknown_in_member::<LeaderboardInfo>(j, "leaderboard"),
        }
    }

    proof fn unknown_is_no_record(j: Json, v: Self) {
        if unknown_in_member::<Score>(j, "score"@) is Some {
            unknown_member_is_no_required::<Score>(j, "score"@, v.score);
        } else if unknown_in_member::<LeaderboardInfo>(j, "leaderboard"@) is Some {
            unknown_member_is_no_required::<LeaderboardInfo>(j, "leaderboard"@, v.leaderboard);
        }
    }
}

impl Record for PlayerCollection {
    open spec fn describes(j: Json, v: PlayerCollection) -> bool {
        &&& req_list(j, "players"@, v.players)
        &&& req_record(j, "metadata"@, v.metadata)
    }

    fn from_json(j: &Json) -> (r: Option<PlayerCollection>) {
        let players = take_list(j, "players")?;
        let metadata = take_record(j, "metadata")?;
        Some(PlayerCollection { players, metadata })
    }

    open spec fn required() -> Seq<Seq<char>> {
        seq!["players"@, "metadata"@]
    }

    fn required_keys() -> (keys: Vec<&'static str>) {
        let keys: Vec<&'static str> = vec!["players", "metadata"];
        assert(keys_of(keys@) =~= Self::required());
        keys
    }

    proof fn required_are_needed(j: Json, v: Self, i: int) {
    }

    open spec fn unknown(j: Json) -> Option<UnknownEnumValue> {
        unknown_in_member::<Vec<Player>>(j, "players"@)
    }

    fn find_unknown(j: &Json) -> (r: Option<UnknownEnumValue>) {
        find_unknown_in_member::<Vec<Player>>(j, "players")
    }

    proof fn unknown_is_no_record(j: Json, v: Self) {
        if unknown_in_member::<Vec<Player>>(j, "players"@) is Some {
            unknown_member_is_no_required::<Vec<Player>>(j, "players"@, v.players);
        }
    }
}

impl Record for PlayerScoreCollection {
    open spec fn describes(j: Json, v: PlayerScoreCollection) -> bool {
        &&& req_list(j, "playerScores"@, v.player_scores)
        &&& req_record(j, "metadata"@, v.metadata)
    }

    fn from_json(j: &Json) -> (r: Option<PlayerScoreCollection>) {
        let player_scores = take_list(j, "playerScores")?;
        let metadata = take_record(j, "metadata")?;
        Some(PlayerScoreCollection { player_scores, metadata })
    }

    open spec fn required() -> Seq<Seq<char>> {
        seq!["playerScores"@, "metadata"@]
    }

    fn required_keys() -> (keys: Vec<&'static str>) {
        let keys: Vec<&'static str> = vec!["playerScores", "metadata"];
        assert(keys_of(keys@) =~= Self::required());
        keys
    }

    proof fn required_are_needed(j: Json, v: Self, i: int) {
    }

    open spec fn unknown(j: Json) -> Option<UnknownEnumValue> {
        unknown_in_member::<Vec<PlayerScore>>(j, "playerScores"@)
    }

    fn find_unknown(j: &Json) -> (r: Option<UnknownEnumValue>) {
        find_unknown_in_member::<Vec<PlayerScore>>(j, "playerScores")
    }

    proof fn unknown_is_no_record(j: Json, v: Self) {
        if unknown_in_member::<Vec<PlayerScore>>(j, "playerScores"@) is Some {
            unknown_member_is_no_required::<Vec<PlayerScore>>(j, "playerScores"@, v.player_scores);
        }
    }
}

impl Record for ScoreCollection {
    open spec fn describes(j: Json, v: ScoreCollection) -> bool {
        &&& req_list(j, "scores"@, v.scores)
        &&& req_record(j, "metadata"@, v.metadata)
    }

    fn from_json(j: &Json) -> (r: Option<ScoreCollection>) {
        let scores = take_list(j, "scores")?;
        let metadata = take_record(j, "metadata")?;
        Some(ScoreCollection { scores, metadata })
    }

    open spec fn required() -> Seq<Seq<char>> {
        seq!["scores"@, "metadata"@]
    }

    fn required_keys() -> (keys: Vec<&'static str>) {
        let keys: Vec<&'static str> = vec!["scores", "metadata"];
        assert(keys_of(keys@) =~= Self::required());
        keys
    }

    proof fn required_are_needed(j: Json, v: Self, i: int) {
    }

    open spec fn unknown(j: Json) -> Option<UnknownEnumValue> {
        unknown_in_member::<Vec<Score>>(j, "scores"@)
    }

    fn find_unknown(j: &Json) -> (r: Option<UnknownEnumValue>) {
        find_unknown_in_member::<Vec<Score>>(j, "scores")
    }

    proof fn unknown_is_no_record(j: Json, v: Self) {
        if unknown_in_member::<Vec<Score>>(j, "scores"@) is Some {
            unknown_member_is_no_required::<Vec<Score>>(j, "scores"@, v.scores);
        }
    }
}

impl Record for LeaderboardInfoCollection {
    open spec fn describes(j: Json, v: LeaderboardInfoCollection) -> bool {
        &&& req_list(j, "leaderboards"@, v.leaderboards)
        &&& req_record(j, "metadata"@, v.metadata)
    }

    fn from_json(j: &Json) -> (r: Option<LeaderboardInfoCollection>) {
        let leaderboards = take_list(j, "leaderboards")?;
        let metadata = take_record(j, "metadata")?;
        Some(LeaderboardInfoCollection { leaderboards, metadata })
    }

    open spec fn required() -> Seq<Seq<char>> {
        seq!["leaderboards"@, "metadata"@]
    }

    fn required_keys() -> (keys: Vec<&'static str>) {
        let keys: Vec<&'static str> = vec!["leaderboards", "metadata"];
        assert(keys_of(keys@) =~= Self::required());
        keys
    }

    proof fn required_are_needed(j: Json, v: Self, i: int) {
    }

    open spec fn unknown(j: Json) -> Option<UnknownEnumValue> {
        unknown_in_member::<Vec<LeaderboardInfo>>(j, "leaderboards"@)
    }

    fn find_unknown(j: &Json) -> (r: Option<UnknownEnumValue>) {
        find_unknown_in_member::<Vec<LeaderboardInfo>>(j, "leaderboards")
    }

    proof fn unknown_is_no_record(j: Json, v: Self) {
        if unknown_in_member::<Vec<LeaderboardInfo>>(j, "leaderboards"@) is Some {
            unknown_member_is_no_required::<Vec<LeaderboardInfo>>(j, "leaderboards"@, v.leaderboards);
        }
    }
}

} // verus!
