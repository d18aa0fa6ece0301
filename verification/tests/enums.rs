use scoresaber::model::{
    DifficultyEnum, Headset, HeadsetFamily, HeadsetRepr, ScoreSort, SortCategory, SortOrder,
    UnknownEnumValue,
};

const HEADSETS: [(HeadsetRepr, u32, Headset, HeadsetFamily); 9] = [
    (HeadsetRepr::Unknown, 0, Headset::Unknown, HeadsetFamily::Unknown),
    (HeadsetRepr::OculusRiftCV1, 1, Headset::OculusRiftCV1, HeadsetFamily::Oculus),
    (HeadsetRepr::HtcVive, 2, Headset::HtcVive, HeadsetFamily::HTC),
    (HeadsetRepr::HtcVivePro, 4, Headset::HtcVivePro, HeadsetFamily::HTC),
    (HeadsetRepr::WindowsMixedReality, 8, Headset::WindowsMixedReality, HeadsetFamily::Microsoft),
    (HeadsetRepr::OculusRiftS, 16, Headset::OculusRiftS, HeadsetFamily::Oculus),
    (HeadsetRepr::OculusQuest, 32, Headset::OculusQuest, HeadsetFamily::Oculus),
    (HeadsetRepr::ValveIndex, 64, Headset::ValveIndex, HeadsetFamily::Valve),
    (HeadsetRepr::HtcViveCosmos, 128, Headset::HtcViveCosmos, HeadsetFamily::HTC),
];

#[test]
fn headset_integers_are_the_declared_powers_of_two() {
    for (repr, wire, _, _) in HEADSETS {
        assert_eq!(repr.to_wire(), wire);
        assert_eq!(HeadsetRepr::from_wire(wire), Ok(repr));
    }
}

#[test]
fn headset_round_trips_through_its_integer() {
    for (repr, _, _, _) in HEADSETS {
        assert_eq!(HeadsetRepr::from_wire(repr.to_wire()), Ok(repr));
    }
}

#[test]
fn headset_rejects_bit_combinations_and_unknown_integers() {
    assert_eq!(HeadsetRepr::from_wire(3), Err(UnknownEnumValue { value: 3 }));
    assert_eq!(HeadsetRepr::from_wire(96), Err(UnknownEnumValue { value: 96 }));
    assert_eq!(HeadsetRepr::from_wire(256), Err(UnknownEnumValue { value: 256 }));
    assert_eq!(HeadsetRepr::from_wire(u32::MAX), Err(UnknownEnumValue { value: u32::MAX }));
}

#[test]
fn headset_converts_to_its_name_and_back() {
    for (repr, _, name, _) in HEADSETS {
        let named: Headset = repr.into();
        assert_eq!(named, name);
        assert_eq!(Headset::from(repr), name);
        assert_eq!(HeadsetRepr::from(name), repr);
    }
}

#[test]
fn family_of_every_headset() {
    for (repr, _, _, family) in HEADSETS {
        assert_eq!(repr.family(), family);
    }
}

#[test]
fn family_of_vive_pro_is_htc_and_of_unknown_is_unknown() {
    assert_eq!(HeadsetRepr::HtcVivePro.family(), HeadsetFamily::HTC);
    assert_eq!(HeadsetRepr::Unknown.family(), HeadsetFamily::Unknown);
}

#[test]
fn difficulty_integers_are_odd_and_round_trip() {
    let all = [
        (DifficultyEnum::Easy, 1),
        (DifficultyEnum::Normal, 3),
        (DifficultyEnum::Hard, 5),
        (DifficultyEnum::Expert, 7),
        (DifficultyEnum::ExpertPlus, 9),
    ];
    for (d, wire) in all {
        assert_eq!(d.to_wire(), wire);
        assert_eq!(DifficultyEnum::from_wire(wire), Ok(d));
        assert_eq!(DifficultyEnum::from_wire(d.to_wire()), Ok(d));
    }
}

#[test]
fn difficulty_seven_is_expert_and_its_token_is_its_name() {
    assert_eq!(DifficultyEnum::from_wire(7), Ok(DifficultyEnum::Expert));
    assert_eq!(DifficultyEnum::Expert.to_string(), "Expert");
    assert_ne!(DifficultyEnum::Expert.to_string(), "7");
}

#[test]
fn difficulty_rejects_even_and_large_integers() {
    for n in [0u32, 2, 4, 6, 8, 10, 11, 1000] {
        assert_eq!(DifficultyEnum::from_wire(n), Err(UnknownEnumValue { value: n }));
    }
}

#[test]
fn difficulty_order_follows_the_tiers() {
    assert!(DifficultyEnum::Easy < DifficultyEnum::Normal);
    assert!(DifficultyEnum::Normal < DifficultyEnum::Hard);
    assert!(DifficultyEnum::Hard < DifficultyEnum::Expert);
    assert!(DifficultyEnum::Expert < DifficultyEnum::ExpertPlus);
    assert!(DifficultyEnum::Easy.easier_than(DifficultyEnum::ExpertPlus));
    assert!(!DifficultyEnum::Expert.easier_than(DifficultyEnum::Expert));
    assert!(!DifficultyEnum::ExpertPlus.easier_than(DifficultyEnum::Hard));
}

#[test]
fn difficulty_tokens() {
    assert_eq!(DifficultyEnum::Easy.to_string(), "Easy");
    assert_eq!(DifficultyEnum::Normal.to_string(), "Normal");
    assert_eq!(DifficultyEnum::Hard.to_string(), "Hard");
    assert_eq!(DifficultyEnum::ExpertPlus.to_string(), "ExpertPlus");
}

#[test]
fn sort_category_integers_tokens_and_round_trip() {
    let all = [
        (SortCategory::Trending, 0u8, "Trending"),
        (SortCategory::DateRanked, 1, "DateRanked"),
        (SortCategory::ScoresSet, 2, "ScoresSet"),
        (SortCategory::StarDifficulty, 3, "StarDifficulty"),
        (SortCategory::Author, 4, "Author"),
    ];
    for (c, wire, token) in all {
        assert_eq!(c.to_wire(), wire);
        assert_eq!(SortCategory::from_wire(wire), Ok(c));
        assert_eq!(c.to_string(), token);
    }
    assert_eq!(SortCategory::from_wire(5), Err(UnknownEnumValue { value: 5 }));
}

#[test]
fn sort_order_integers_tokens_and_round_trip() {
    assert_eq!(SortOrder::Descending.to_wire(), 0);
    assert_eq!(SortOrder::Ascending.to_wire(), 1);
    assert_eq!(SortOrder::from_wire(0), Ok(SortOrder::Descending));
    assert_eq!(SortOrder::from_wire(1), Ok(SortOrder::Ascending));
    assert_eq!(SortOrder::from_wire(2), Err(UnknownEnumValue { value: 2 }));
    assert_eq!(SortOrder::Descending.to_string(), "Descending");
    assert_eq!(SortOrder::Ascending.to_string(), "Ascending");
}

#[test]
fn score_sort_tokens() {
    assert_eq!(ScoreSort::Top.to_string(), "Top");
    assert_eq!(ScoreSort::Recent.to_string(), "Recent");
}
