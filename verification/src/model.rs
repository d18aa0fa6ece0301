//! Domain records and the enumerations of the leaderboard service, with the
//! two encodings of each enumeration: the integer carried in response bodies
//! and the token used in query strings.

use vstd::prelude::*;
use vstd::std_specs::convert::FromSpecImpl;
use vstd::string::StringExecFns;

verus! {

/// An enumeration integer that matches no declared constant.
#[derive(Debug, Copy, Clone, PartialEq, Eq, Structural, Hash)]
pub struct UnknownEnumValue {
    pub value: u32,
}

/// Headset model as carried in a score. The integers are powers of two.
#[derive(Debug, Copy, Clone, PartialEq, Eq, Structural, Hash)]
pub enum HeadsetRepr {
    Unknown,
    OculusRiftCV1,
    HtcVive,
    HtcVivePro,
    WindowsMixedReality,
    OculusRiftS,
    OculusQuest,
    ValveIndex,
    HtcViveCosmos,
}

/// Headset model by name, without an integer encoding.
#[derive(Debug, Copy, Clone, PartialEq, Eq, Structural, Hash)]
pub enum Headset {
    Unknown,
    OculusRiftCV1,
    HtcVive,
    HtcVivePro,
    WindowsMixedReality,
    OculusRiftS,
    OculusQuest,
    ValveIndex,
    HtcViveCosmos,
}

/// Manufacturer family that a headset model belongs to.
#[derive(Debug, Copy, Clone, PartialEq, Eq, Structural, Hash)]
pub enum HeadsetFamily {
    Unknown,
    Oculus,
    HTC,
    Microsoft,
    Valve,
}

impl HeadsetRepr {
    /// The integer that stands for this headset in a response body.
    pub open spec fn wire_value(self) -> u32 {
        match self {
            HeadsetRepr::Unknown => 0,
            HeadsetRepr::OculusRiftCV1 => 1,
            HeadsetRepr::HtcVive => 2,
            HeadsetRepr::HtcVivePro => 4,
            HeadsetRepr::WindowsMixedReality => 8,
            HeadsetRepr::OculusRiftS => 16,
            HeadsetRepr::OculusQuest => 32,
            HeadsetRepr::ValveIndex => 64,
            HeadsetRepr::HtcViveCosmos => 128,
        }
    }

    /// The headset that an integer stands for, if it is a declared constant.
    pub open spec fn of_wire(n: u32) -> Option<HeadsetRepr> {
        if n == 0 {
            Some(HeadsetRepr::Unknown)
        } else if n == 1 {
            Some(HeadsetRepr::OculusRiftCV1)
        } else if n == 2 {
            Some(HeadsetRepr::HtcVive)
        } else if n == 4 {
            Some(HeadsetRepr::HtcVivePro)
        } else if n == 8 {
            Some(HeadsetRepr::WindowsMixedReality)
        } else if n == 16 {
            Some(HeadsetRepr::OculusRiftS)
        } else if n == 32 {
            Some(HeadsetRepr::OculusQuest)
        } else if n == 64 {
            Some(HeadsetRepr::ValveIndex)
        } else if n == 128 {
            Some(HeadsetRepr::HtcViveCosmos)
        } else {
            None
        }
    }

    /// The family of each model; `Unknown` has the family `Unknown`.
    pub open spec fn family_of(self) -> HeadsetFamily {
        match self {
            HeadsetRepr::OculusRiftCV1 | HeadsetRepr::OculusRiftS | HeadsetRepr::OculusQuest =>
                HeadsetFamily::Oculus,
            HeadsetRepr::HtcVive | HeadsetRepr::HtcVivePro | HeadsetRepr::HtcViveCosmos =>
                HeadsetFamily::HTC,
            HeadsetRepr::WindowsMixedReality => HeadsetFamily::Microsoft,
            HeadsetRepr::ValveIndex => HeadsetFamily::Valve,
            HeadsetRepr::Unknown => HeadsetFamily::Unknown,
        }
    }

    /// The same model by name.
    pub open spec fn named(self) -> Headset {
        match self {
            HeadsetRepr::Unknown => Headset::Unknown,
            HeadsetRepr::OculusRiftCV1 => Headset::OculusRiftCV1,
            HeadsetRepr::HtcVive => Headset::HtcVive,
            HeadsetRepr::HtcVivePro => Headset::HtcVivePro,
            HeadsetRepr::WindowsMixedReality => Headset::WindowsMixedReality,
            HeadsetRepr::OculusRiftS => Headset::OculusRiftS,
            HeadsetRepr::OculusQuest => Headset::OculusQuest,
            HeadsetRepr::ValveIndex => Headset::ValveIndex,
            HeadsetRepr::HtcViveCosmos => Headset::HtcViveCosmos,
        }
    }

    /// Encodes the headset as its integer.
    pub fn to_wire(self) -> (n: u32)
        ensures
            n == self.wire_value(),
            HeadsetRepr::of_wire(n) == Some(self),
    {
        match self {
            HeadsetRepr::Unknown => 0,
            HeadsetRepr::OculusRiftCV1 => 1,
            HeadsetRepr::HtcVive => 2,
            HeadsetRepr::HtcVivePro => 4,
            HeadsetRepr::WindowsMixedReality => 8,
            HeadsetRepr::OculusRiftS => 16,
            HeadsetRepr::OculusQuest => 32,
            HeadsetRepr::ValveIndex => 64,
            HeadsetRepr::HtcViveCosmos => 128,
        }
    }

    /// Decodes an integer. A combination of bits, or any other integer that
    /// is not one of the nine constants, is an error that carries it.
    pub fn from_wire(n: u32) -> (r: Result<HeadsetRepr, UnknownEnumValue>)
        ensures
            match r {
                Ok(h) => HeadsetRepr::of_wire(n) == Some(h) && h.wire_value() == n,
                Err(e) => HeadsetRepr::of_wire(n) is None && e.value == n,
            },
    {
        match n {
            0 => Ok(HeadsetRepr::Unknown),
            1 => Ok(HeadsetRepr::OculusRiftCV1),
            2 => Ok(HeadsetRepr::HtcVive),
            4 => Ok(HeadsetRepr::HtcVivePro),
            8 => Ok(HeadsetRepr::WindowsMixedReality),
            16 => Ok(HeadsetRepr::OculusRiftS),
            32 => Ok(HeadsetRepr::OculusQuest),
            64 => Ok(HeadsetRepr::ValveIndex),
            128 => Ok(HeadsetRepr::HtcViveCosmos),
            _ => Err(UnknownEnumValue { value: n }),
        }
    }

    /// The manufacturer family of this headset.
    pub fn family(&self) -> (f: HeadsetFamily)
        ensures
            f == self.family_of(),
    {
        match self {
            HeadsetRepr::Unknown => HeadsetFamily::Unknown,
            HeadsetRepr::OculusRiftCV1 => HeadsetFamily::Oculus,
            HeadsetRepr::HtcVive => HeadsetFamily::HTC,
            HeadsetRepr::HtcVivePro => HeadsetFamily::HTC,
            HeadsetRepr::WindowsMixedReality => HeadsetFamily::Microsoft,
            HeadsetRepr::OculusRiftS => HeadsetFamily::Oculus,
            HeadsetRepr::OculusQuest => HeadsetFamily::Oculus,
            HeadsetRepr::ValveIndex => HeadsetFamily::Valve,
            HeadsetRepr::HtcViveCosmos => HeadsetFamily::HTC,
        }
    }
}

impl Headset {
    /// The same model with its integer encoding.
    pub open spec fn encoded(self) -> HeadsetRepr {
        match self {
            Headset::Unknown => HeadsetRepr::Unknown,
            Headset::OculusRiftCV1 => HeadsetRepr::OculusRiftCV1,
            Headset::HtcVive => HeadsetRepr::HtcVive,
            Headset::HtcVivePro => HeadsetRepr::HtcVivePro,
            Headset::WindowsMixedReality => HeadsetRepr::WindowsMixedReality,
            Headset::OculusRiftS => HeadsetRepr::OculusRiftS,
            Headset::OculusQuest => HeadsetRepr::OculusQuest,
            Headset::ValveIndex => HeadsetRepr::ValveIndex,
            Headset::HtcViveCosmos => HeadsetRepr::HtcViveCosmos,
        }
    }
}

impl From<HeadsetRepr> for Headset {
    fn from(repr: HeadsetRepr) -> (h: Headset) {
        match repr {
            HeadsetRepr::Unknown => Headset::Unknown,
            HeadsetRepr::OculusRiftCV1 => Headset::OculusRiftCV1,
            HeadsetRepr::HtcVive => Headset::HtcVive,
            HeadsetRepr::HtcVivePro => Headset::HtcVivePro,
            HeadsetRepr::WindowsMixedReality => Headset::WindowsMixedReality,
            HeadsetRepr::OculusRiftS => Headset::OculusRiftS,
            HeadsetRepr::OculusQuest => Headset::OculusQuest,
            HeadsetRepr::ValveIndex => Headset::ValveIndex,
            HeadsetRepr::HtcViveCosmos => Headset::HtcViveCosmos,
        }
    }
}

impl FromSpecImpl<HeadsetRepr> for Headset {
    open spec fn obeys_from_spec() -> bool {
        true
    }

    open spec fn from_spec(repr: HeadsetRepr) -> Headset {
        repr.named()
    }
}

impl From<Headset> for HeadsetRepr {
    fn from(headset: Headset) -> (r: HeadsetRepr) {
        match headset {
            Headset::Unknown => HeadsetRepr::Unknown,
            Headset::OculusRiftCV1 => HeadsetRepr::OculusRiftCV1,
            Headset::HtcVive => HeadsetRepr::HtcVive,
            Headset::HtcVivePro => HeadsetRepr::HtcVivePro,
            Headset::WindowsMixedReality => HeadsetRepr::WindowsMixedReality,
            Headset::OculusRiftS => HeadsetRepr::OculusRiftS,
            Headset::OculusQuest => HeadsetRepr::OculusQuest,
            Headset::ValveIndex => HeadsetRepr::ValveIndex,
            Headset::HtcViveCosmos => HeadsetRepr::HtcViveCosmos,
        }
    }
}

impl FromSpecImpl<Headset> for HeadsetRepr {
    open spec fn obeys_from_spec() -> bool {
        true
    }

    open spec fn from_spec(headset: Headset) -> HeadsetRepr {
        headset.encoded()
    }
}

/// Every headset is decoded from the integer that encodes it.
pub proof fn headset_wire_round_trip(h: HeadsetRepr)
    ensures
        HeadsetRepr::of_wire(h.wire_value()) == Some(h),
{
}

/// An integer that decodes to a headset is the integer that encodes it, so
/// no two headsets share an integer.
pub proof fn headset_wire_unique(n: u32, h: HeadsetRepr)
    requires
        HeadsetRepr::of_wire(n) == Some(h),
    ensures
        h.wire_value() == n,
{
}

/// Naming a headset and encoding the name again gives the headset back, and
/// the other way round.
pub proof fn headset_name_round_trip(r: HeadsetRepr, h: Headset)
    ensures
        r.named().encoded() == r,
        h.encoded().named() == h,
{
}

/// Difficulty tier of a map. The integers are odd so that tiers can be added
/// between two of them; a harder tier has the greater integer.
#[derive(Debug, Copy, Clone, PartialEq, Eq, Structural, PartialOrd, Ord, Hash)]
pub enum DifficultyEnum {
    Easy,
    Normal,
    Hard,
    Expert,
    ExpertPlus,
}

impl DifficultyEnum {
    /// The integer that stands for this tier in a response body.
    pub open spec fn wire_value(self) -> u32 {
        match self {
            DifficultyEnum::Easy => 1,
            DifficultyEnum::Normal => 3,
            DifficultyEnum::Hard => 5,
            DifficultyEnum::Expert => 7,
            DifficultyEnum::ExpertPlus => 9,
        }
    }

    /// The tier that an integer stands for, if it is a declared constant.
    pub open spec fn of_wire(n: u32) -> Option<DifficultyEnum> {
        if n == 1 {
            Some(DifficultyEnum::Easy)
        } else if n == 3 {
            Some(DifficultyEnum::Normal)
        } else if n == 5 {
            Some(DifficultyEnum::Hard)
        } else if n == 7 {
            Some(DifficultyEnum::Expert)
        } else if n == 9 {
            Some(DifficultyEnum::ExpertPlus)
        } else {
            None
        }
    }

    /// Position of the tier in the order of declaration, from 0.
    pub open spec fn tier(self) -> nat {
        match self {
            DifficultyEnum::Easy => 0,
            DifficultyEnum::Normal => 1,
            DifficultyEnum::Hard => 2,
            DifficultyEnum::Expert => 3,
            DifficultyEnum::ExpertPlus => 4,
        }
    }

    /// The token that names this tier in a query string.
    pub open spec fn query_token(self) -> Seq<char> {
        match self {
            DifficultyEnum::Easy => "Easy"@,
            DifficultyEnum::Normal => "Normal"@,
            DifficultyEnum::Hard => "Hard"@,
            DifficultyEnum::Expert => "Expert"@,
            DifficultyEnum::ExpertPlus => "ExpertPlus"@,
        }
    }

    /// Encodes the tier as its integer.
    pub fn to_wire(self) -> (n: u32)
        ensures
            n == self.wire_value(),
            DifficultyEnum::of_wire(n) == Some(self),
    {
        match self {
            DifficultyEnum::Easy => 1,
            DifficultyEnum::Normal => 3,
            DifficultyEnum::Hard => 5,
            DifficultyEnum::Expert => 7,
            DifficultyEnum::ExpertPlus => 9,
        }
    }

    /// Decodes an integer; one that is not a declared constant is an error
    /// that carries it.
    pub fn from_wire(n: u32) -> (r: Result<DifficultyEnum, UnknownEnumValue>)
        ensures
            match r {
                Ok(d) => DifficultyEnum::of_wire(n) == Some(d) && d.wire_value() == n,
                Err(e) => DifficultyEnum::of_wire(n) is None && e.value == n,
            },
    {
        match n {
            1 => Ok(DifficultyEnum::Easy),
            3 => Ok(DifficultyEnum::Normal),
            5 => Ok(DifficultyEnum::Hard),
            7 => Ok(DifficultyEnum::Expert),
            9 => Ok(DifficultyEnum::ExpertPlus),
            _ => Err(UnknownEnumValue { value: n }),
        }
    }

    /// Whether this tier is easier than the other.
    pub fn easier_than(self, other: DifficultyEnum) -> (b: bool)
        ensures
            b == (self.tier() < other.tier()),
            b == (self.wire_value() < other.wire_value()),
    {
        self.to_wire() < other.to_wire()
    }

    /// The query token of the tier: its name, never its integer.
    pub fn to_string(&self) -> (s: String)
        ensures
            s@ == self.query_token(),
    {
        match self {
            DifficultyEnum::Easy => String::from_str("Easy"),
            DifficultyEnum::Normal => String::from_str("Normal"),
            DifficultyEnum::Hard => String::from_str("Hard"),
            DifficultyEnum::Expert => String::from_str("Expert"),
            DifficultyEnum::ExpertPlus => String::from_str("ExpertPlus"),
        }
    }
}

/// Every difficulty is decoded from the integer that encodes it.
pub proof fn difficulty_wire_round_trip(d: DifficultyEnum)
    ensures
        DifficultyEnum::of_wire(d.wire_value()) == Some(d),
{
}

/// An integer that decodes to a difficulty is the integer that encodes it.
pub proof fn difficulty_wire_unique(n: u32, d: DifficultyEnum)
    requires
        DifficultyEnum::of_wire(n) == Some(d),
    ensures
        d.wire_value() == n,
{
}

/// The integers keep the order of the tiers.
pub proof fn difficulty_wire_keeps_order(a: DifficultyEnum, b: DifficultyEnum)
    ensures
        a.tier() < b.tier() <==> a.wire_value() < b.wire_value(),
        a.tier() == b.tier() <==> a == b,
{
}

/// What a list of leaderboards is ordered by.
#[derive(Debug, Copy, Clone, PartialEq, Eq, Structural, Hash)]
pub enum SortCategory {
    Trending,
    DateRanked,
    ScoresSet,
    StarDifficulty,
    Author,
}

impl SortCategory {
    /// The integer that stands for this category.
    pub open spec fn wire_value(self) -> u8 {
        match self {
            SortCategory::Trending => 0,
            SortCategory::DateRanked => 1,
            SortCategory::ScoresSet => 2,
            SortCategory::StarDifficulty => 3,
            SortCategory::Author => 4,
        }
    }

    /// The category that an integer stands for, if it is a declared constant.
    pub open spec fn of_wire(n: u8) -> Option<SortCategory> {
        if n == 0 {
            Some(SortCategory::Trending)
        } else if n == 1 {
            Some(SortCategory::DateRanked)
        } else if n == 2 {
            Some(SortCategory::ScoresSet)
        } else if n == 3 {
            Some(SortCategory::StarDifficulty)
        } else if n == 4 {
            Some(SortCategory::Author)
        } else {
            None
        }
    }

    /// The token that names this category in a query string.
    pub open spec fn query_token(self) -> Seq<char> {
        match self {
            SortCategory::Trending => "Trending"@,
            SortCategory::DateRanked => "DateRanked"@,
            SortCategory::ScoresSet => "ScoresSet"@,
            SortCategory::StarDifficulty => "StarDifficulty"@,
            SortCategory::Author => "Author"@,
        }
    }

    /// Encodes the category as its integer.
    pub fn to_wire(self) -> (n: u8)
        ensures
            n == self.wire_value(),
            SortCategory::of_wire(n) == Some(self),
    {
        match self {
            SortCategory::Trending => 0,
            SortCategory::DateRanked => 1,
            SortCategory::ScoresSet => 2,
            SortCategory::StarDifficulty => 3,
            SortCategory::Author => 4,
        }
    }

    /// Decodes an integer; one that is not a declared constant is an error
    /// that carries it.
    pub fn from_wire(n: u8) -> (r: Result<SortCategory, UnknownEnumValue>)
        ensures
            match r {
                Ok(c) => SortCategory::of_wire(n) == Some(c) && c.wire_value() == n,
                Err(e) => SortCategory::of_wire(n) is None && e.value == n,
            },
    {
        match n {
            0 => Ok(SortCategory::Trending),
            1 => Ok(SortCategory::DateRanked),
            2 => Ok(SortCategory::ScoresSet),
            3 => Ok(SortCategory::StarDifficulty),
            4 => Ok(SortCategory::Author),
            _ => Err(UnknownEnumValue { value: n as u32 }),
        }
    }

    /// The query token of the category: its name, never its integer.
    pub fn to_string(&self) -> (s: String)
        ensures
            s@ == self.query_token(),
    {
        match self {
            SortCategory::Trending => String::from_str("Trending"),
            SortCategory::DateRanked => String::from_str("DateRanked"),
            SortCategory::ScoresSet => String::from_str("ScoresSet"),
            SortCategory::StarDifficulty => String::from_str("StarDifficulty"),
            SortCategory::Author => String::from_str("Author"),
        }
    }
}

/// Every sort category is decoded from the integer that encodes it.
pub proof fn sort_category_wire_round_trip(c: SortCategory)
    ensures
        SortCategory::of_wire(c.wire_value()) == Some(c),
{
}

/// Direction of an ordering.
#[derive(Debug, Copy, Clone, PartialEq, Eq, Structural, Hash)]
pub enum SortOrder {
    Descending,
    Ascending,
}

impl SortOrder {
    /// The integer that stands for this direction.
    pub open spec fn wire_value(self) -> u8 {
        match self {
            SortOrder::Descending => 0,
            SortOrder::Ascending => 1,
        }
    }

    /// The direction that an integer stands for, if it is a declared constant.
    pub open spec fn of_wire(n: u8) -> Option<SortOrder> {
        if n == 0 {
            Some(SortOrder::Descending)
        } else if n == 1 {
            Some(SortOrder::Ascending)
        } else {
            None
        }
    }

    /// The token that names this direction in a query string.
    pub open spec fn query_token(self) -> Seq<char> {
        match self {
            SortOrder::Descending => "Descending"@,
            SortOrder::Ascending => "Ascending"@,
        }
    }

    /// Encodes the direction as its integer.
    pub fn to_wire(self) -> (n: u8)
        ensures
            n == self.wire_value(),
            SortOrder::of_wire(n) == Some(self),
    {
        match self {
            SortOrder::Descending => 0,
            SortOrder::Ascending => 1,
        }
    }

    /// Decodes an integer; one that is not a declared constant is an error
    /// that carries it.
    pub fn from_wire(n: u8) -> (r: Result<SortOrder, UnknownEnumValue>)
        ensures
            match r {
                Ok(o) => SortOrder::of_wire(n) == Some(o) && o.wire_value() == n,
                Err(e) => SortOrder::of_wire(n) is None && e.value == n,
            },
    {
        match n {
            0 => Ok(SortOrder::Descending),
            1 => Ok(SortOrder::Ascending),
            _ => Err(UnknownEnumValue { value: n as u32 }),
        }
    }

    /// The query token of the direction: its name, never its integer.
    pub fn to_string(&self) -> (s: String)
        ensures
            s@ == self.query_token(),
    {
        match self {
            SortOrder::Descending => String::from_str("Descending"),
            SortOrder::Ascending => String::from_str("Ascending"),
        }
    }
}

/// Every sort order is decoded from the integer that encodes it.
pub proof fn sort_order_wire_round_trip(o: SortOrder)
    ensures
        SortOrder::of_wire(o.wire_value()) == Some(o),
{
}

/// Which of a player's scores come first.
#[derive(Debug, Copy, Clone, PartialEq, Eq, Structural, Hash)]
pub enum ScoreSort {
    Top,
    Recent,
}

impl ScoreSort {
    /// The token that names this choice in a query string: its name as it
    /// is declared.
    pub open spec fn query_token(self) -> Seq<char> {
        match self {
            ScoreSort::Top => "Top"@,
            ScoreSort::Recent => "Recent"@,
        }
    }

    /// The query token of the choice.
    pub fn to_string(&self) -> (s: String)
        ensures
            s@ == self.query_token(),
    {
        match self {
            ScoreSort::Top => String::from_str("Top"),
            ScoreSort::Recent => String::from_str("Recent"),
        }
    }
}

/// A decimal number of a response, kept as the JSON parser writes it in
/// decimal notation, so that no precision is lost on the way.
#[derive(Debug, Clone, PartialEq, Eq)]
pub struct Real {
    pub text: String,
}

/// An instant in UTC: whole seconds since 1970-01-01T00:00:00Z, and the
/// nanoseconds within the second (past 999,999,999 in a leap second).
#[derive(Debug, Copy, Clone, PartialEq, Eq, Structural)]
pub struct Timestamp {
    pub secs: i64,
    pub nanos: u32,
}

/// A player with their ranking.
#[derive(Debug, Clone, PartialEq, Eq)]
pub struct Player {
    pub id: String,
    pub name: String,
    pub profile_picture: String,
    pub country: String,
    pub pp: Real,
    pub country_rank: u32,
    pub role: Option<String>,
    pub badges: Option<Vec<Badge>>,
    pub histories: String,
    pub score_stats: Option<ScoreStats>,
    pub permissions: u64,
    pub banned: bool,
    pub inactive: bool,
}

/// The counters of a player over all their scores.
#[derive(Debug, Clone, PartialEq, Eq)]
pub struct ScoreStats {
    pub total_score: u64,
    pub total_ranked_score: u64,
    pub average_ranked_accuracy: Real,
    pub total_play_count: u32,
    pub ranked_play_count: u32,
    pub replays_watched: u32,
}

/// A badge that a player wears.
#[derive(Debug, Clone, PartialEq, Eq)]
pub struct Badge {
    pub description: String,
    pub image: String,
}

/// A score of a player together with the leaderboard it stands on.
#[derive(Debug, Clone, PartialEq, Eq)]
pub struct PlayerScore {
    pub score: Score,
    pub leaderboard: LeaderboardInfo,
}

/// One score on a leaderboard.
#[derive(Debug, Clone, PartialEq, Eq)]
pub struct Score {
    pub id: u64,
    pub leaderboard_player_info: Option<LeaderboardPlayer>,
    pub rank: u32,
    pub base_score: u32,
    /// Penalties can take the modified score below zero.
    pub modified_score: i32,
    pub pp: Real,
    pub weight: Real,
    pub modifiers: String,
    pub multiplier: Real,
    pub bad_cuts: u32,
    pub missed_notes: u32,
    pub max_combo: u32,
    pub full_combo: bool,
    pub hmd: HeadsetRepr,
    pub has_replay: bool,
    pub time_set: Timestamp,
}

/// The player of a score, as the score showed them when it was read.
#[derive(Debug, Clone, PartialEq, Eq)]
pub struct LeaderboardPlayer {
    pub id: String,
    pub name: String,
    pub profile_picture: String,
    pub country: String,
    pub permissions: u64,
    pub role: Option<String>,
}

/// A leaderboard. The flags `ranked`, `qualified` and `loved` and the dates
/// of the same names are read independently of each other.
#[derive(Debug, Clone, PartialEq, Eq)]
pub struct LeaderboardInfo {
    pub id: u32,
    pub song_hash: String,
    pub song_name: String,
    pub song_sub_name: String,
    pub song_author_name: String,
    pub level_author_name: String,
    pub difficulty: Difficulty,
    pub max_score: u32,
    pub created_date: Option<Timestamp>,
    pub ranked_data: Option<Timestamp>,
    pub qualified_date: Option<Timestamp>,
    pub loved_date: Option<Timestamp>,
    pub ranked: bool,
    pub qualified: bool,
    pub loved: bool,
    pub max_pp: Real,
    pub stars: Real,
    pub positive_modifiers: bool,
    pub players: Option<u32>,
    pub daily_players: Option<u32>,
    pub cover_image: String,
    pub player_score: Option<Score>,
    pub difficulties: Option<Vec<Difficulty>>,
}

/// A difficulty of a song, which has a leaderboard of its own.
#[derive(Debug, Clone, PartialEq, Eq)]
pub struct Difficulty {
    pub leaderboard_id: u32,
    pub difficulty: DifficultyEnum,
    pub game_mode: String,
    /// The difficulty as the service wrote it, which can say more than the
    /// tier does.
    pub difficulty_raw: String,
}

/// Where a page stands in a list: the number of items in all, the page
/// (from 1) and the number of items on a page.
#[derive(Debug, Copy, Clone, PartialEq, Eq, Structural)]
pub struct Metadata {
    pub total: u32,
    pub page: u32,
    pub items_per_page: u32,
}

/// A page of players, in the order in which the service gave them.
#[derive(Debug, Clone, PartialEq, Eq)]
pub struct PlayerCollection {
    pub players: Vec<Player>,
    pub metadata: Metadata,
}

/// A page of a player's scores, in the order in which the service gave them.
#[derive(Debug, Clone, PartialEq, Eq)]
pub struct PlayerScoreCollection {
    pub player_scores: Vec<PlayerScore>,
    pub metadata: Metadata,
}

/// A page of scores, in the order in which the service gave them.
#[derive(Debug, Clone, PartialEq, Eq)]
pub struct ScoreCollection {
    pub scores: Vec<Score>,
    pub metadata: Metadata,
}

/// A page of leaderboards, in the order in which the service gave them.
#[derive(Debug, Clone, PartialEq, Eq)]
pub struct LeaderboardInfoCollection {
    pub leaderboards: Vec<LeaderboardInfo>,
    pub metadata: Metadata,
}

} // verus!
