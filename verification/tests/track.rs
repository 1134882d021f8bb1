use marust::error::SubmitError;
use marust::track::FormCategory;
use marust::track::FormType;
use marust::track::ScoringMode;

const TRACKS: [(FormType, &str, FormCategory, ScoringMode, i64); 13] = [
    (FormType::Regular, "Regular", FormCategory::Regular, ScoringMode::RegularFormula, 1000),
    (FormType::MeisterTalent, "MeisterTalent", FormCategory::MeisterTalent, ScoringMode::SpecialFormula, 2000),
    (
        FormType::NationalBasicLiving,
        "NationalBasicLiving",
        FormCategory::SocialIntegration,
        ScoringMode::SpecialFormula,
        3000,
    ),
    (FormType::NearPoverty, "NearPoverty", FormCategory::SocialIntegration, ScoringMode::SpecialFormula, 3000),
    (FormType::NationalVeterans, "NationalVeterans", FormCategory::SocialIntegration, ScoringMode::SpecialFormula, 3000),
    (FormType::OneParent, "OneParent", FormCategory::SocialIntegration, ScoringMode::SpecialFormula, 3000),
    (FormType::FromNorthKorea, "FromNorthKorea", FormCategory::SocialIntegration, ScoringMode::SpecialFormula, 3000),
    (FormType::Multicultural, "Multicultural", FormCategory::SocialIntegration, ScoringMode::SpecialFormula, 3000),
    (FormType::TeenHouseholder, "TeenHouseholder", FormCategory::SocialIntegration, ScoringMode::SpecialFormula, 3000),
    (FormType::MultiChildren, "MultiChildren", FormCategory::SocialIntegration, ScoringMode::SpecialFormula, 3000),
    (FormType::FarmingAndFishing, "FarmingAndFishing", FormCategory::SocialIntegration, ScoringMode::SpecialFormula, 3000),
    (
        FormType::NationalVeteransEducation,
        "NationalVeteransEducation",
        FormCategory::Supernumerary,
        ScoringMode::RegularFormula,
        4000,
    ),
    (FormType::SpecialAdmission, "SpecialAdmission", FormCategory::Supernumerary, ScoringMode::RegularFormula, 4000),
];

#[test]
fn regular_track_resolves_to_the_regular_band() {
    let resolution = FormType::Regular.resolve();
    assert_eq!(resolution.category, FormCategory::Regular);
    assert_eq!(resolution.scoring_mode, ScoringMode::RegularFormula);
    assert_eq!(resolution.band_start, 1000);
}

#[test]
fn every_track_resolves() {
    for (track, _, category, mode, start) in TRACKS {
        assert_eq!(track.category(), category);
        assert_eq!(track.scoring_mode(), mode);
        let resolution = track.resolve();
        assert_eq!(resolution.category, category);
        assert_eq!(resolution.scoring_mode, mode);
        assert_eq!(resolution.band_start, start);
        // The lookup gives the same answer each time.
        assert_eq!(track.resolve(), resolution);
    }
}

#[test]
fn exactly_one_track_predicate_holds() {
    for (track, _, category, mode, _) in TRACKS {
        let holds = [track.is_regular(), track.is_special(), track.is_supernumerary()];
        assert_eq!(holds.iter().filter(|h| **h).count(), 1);
        assert_eq!(track.is_regular(), category == FormCategory::Regular);
        assert_eq!(track.is_supernumerary(), category == FormCategory::Supernumerary);
        assert_eq!(track.is_special(), mode == ScoringMode::SpecialFormula);
    }
}

#[test]
fn band_starts_and_modes_of_the_categories() {
    assert_eq!(FormCategory::Regular.band_start(), 1000);
    assert_eq!(FormCategory::MeisterTalent.band_start(), 2000);
    assert_eq!(FormCategory::SocialIntegration.band_start(), 3000);
    assert_eq!(FormCategory::Supernumerary.band_start(), 4000);
    assert_eq!(FormCategory::Regular.scoring_mode(), ScoringMode::RegularFormula);
    assert_eq!(FormCategory::MeisterTalent.scoring_mode(), ScoringMode::SpecialFormula);
    assert_eq!(FormCategory::SocialIntegration.scoring_mode(), ScoringMode::SpecialFormula);
    assert_eq!(FormCategory::Supernumerary.scoring_mode(), ScoringMode::RegularFormula);
}

#[test]
fn track_names_round_trip() {
    for (track, name, _, _, _) in TRACKS {
        assert_eq!(track.name(), name);
        assert_eq!(FormType::from_name(name), Ok(track));
    }
}

#[test]
fn an_unknown_track_name_is_an_error() {
    assert_eq!(FormType::from_name("Unknown"), Err(SubmitError::InvalidTrack));
    assert_eq!(FormType::from_name(""), Err(SubmitError::InvalidTrack));
    assert_eq!(FormType::from_name("regular"), Err(SubmitError::InvalidTrack));
    assert_eq!(FormType::from_name("REGULAR"), Err(SubmitError::InvalidTrack));
    assert_eq!(FormType::from_name("Regular "), Err(SubmitError::InvalidTrack));
}
