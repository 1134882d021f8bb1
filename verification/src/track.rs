//! Admission tracks and what each one resolves to: a category, a scoring
//! mode, and the band of examination numbers that the category owns.
use vstd::prelude::*;
use crate::error::SubmitError;

verus! {

/// The admission track that an applicant declares.
#[derive(Debug, Clone, Copy, PartialEq, Eq, Structural)]
pub enum FormType {
    Regular,
    MeisterTalent,
    NationalBasicLiving,
    NearPoverty,
    NationalVeterans,
    OneParent,
    FromNorthKorea,
    Multicultural,
    TeenHouseholder,
    MultiChildren,
    FarmingAndFishing,
    NationalVeteransEducation,
    SpecialAdmission,
}

/// The coarse group of a track. Each category owns one band of examination
/// numbers.
#[derive(Debug, Clone, Copy, PartialEq, Eq, Structural)]
pub enum FormCategory {
    Regular,
    MeisterTalent,
    SocialIntegration,
    Supernumerary,
}

/// Which constants the subject-grade formula uses.
#[derive(Debug, Clone, Copy, PartialEq, Eq, Structural)]
pub enum ScoringMode {
    RegularFormula,
    SpecialFormula,
}

/// Number of examination numbers in a band.
pub const BAND_WIDTH: i64 = 1000;

/// Everything a track resolves to.
#[derive(Debug, Clone, Copy, PartialEq, Eq, Structural)]
pub struct TrackResolution {
    pub category: FormCategory,
    pub scoring_mode: ScoringMode,
    pub band_start: i64,
}

impl FormCategory {
    /// The number just below the band: the band is
    /// `band_start + 1 ..= band_start + BAND_WIDTH`.
    pub open spec fn spec_band_start(&self) -> int {
        match self {
            FormCategory::Regular => 1000,
            FormCategory::MeisterTalent => 2000,
            FormCategory::SocialIntegration => 3000,
            FormCategory::Supernumerary => 4000,
        }
    }

    /// Whether `number` lies in this category's band.
    pub open spec fn band_contains(&self, number: int) -> bool {
        self.spec_band_start() < number <= self.spec_band_start() + BAND_WIDTH
    }

    pub open spec fn spec_scoring_mode(&self) -> ScoringMode {
        match self {
            FormCategory::Regular | FormCategory::Supernumerary => ScoringMode::RegularFormula,
            FormCategory::MeisterTalent | FormCategory::SocialIntegration => ScoringMode::SpecialFormula,
        }
    }

    pub fn band_start(&self) -> (start: i64)
        ensures
            start == self.spec_band_start(),
    {
        match self {
            FormCategory::Regular => 1000,
            FormCategory::MeisterTalent => 2000,
            FormCategory::SocialIntegration => 3000,
            FormCategory::Supernumerary => 4000,
        }
    }

    #[verifier::when_used_as_spec(spec_scoring_mode)]
    pub fn scoring_mode(&self) -> (mode: ScoringMode)
        ensures
            mode == self.spec_scoring_mode(),
    {
        match self {
            FormCategory::Regular | FormCategory::Supernumerary => ScoringMode::RegularFormula,
            FormCategory::MeisterTalent | FormCategory::SocialIntegration => ScoringMode::SpecialFormula,
        }
    }
}

impl FormType {
    pub open spec fn spec_category(&self) -> FormCategory {
        match self {
            FormType::Regular => FormCategory::Regular,
            FormType::MeisterTalent => FormCategory::MeisterTalent,
            FormType::NationalBasicLiving
            | FormType::NearPoverty
            | FormType::NationalVeterans
            | FormType::OneParent
            | FormType::FromNorthKorea
            | FormType::Multicultural
            | FormType::TeenHouseholder
            | FormType::MultiChildren
            | FormType::FarmingAndFishing => FormCategory::SocialIntegration,
            FormType::NationalVeteransEducation | FormType::SpecialAdmission => FormCategory::Supernumerary,
        }
    }

    pub open spec fn spec_is_regular(&self) -> bool {
        self is Regular
    }

    pub open spec fn spec_is_supernumerary(&self) -> bool {
        self is NationalVeteransEducation || self is SpecialAdmission
    }

    pub open spec fn spec_is_special(&self) -> bool {
        !self.spec_is_regular() && !self.spec_is_supernumerary()
    }

    pub open spec fn spec_scoring_mode(&self) -> ScoringMode {
        self.spec_category().spec_scoring_mode()
    }

    pub open spec fn spec_resolve(&self) -> TrackResolution {
        TrackResolution {
            category: self.spec_category(),
            scoring_mode: self.spec_scoring_mode(),
            band_start: self.spec_category().spec_band_start() as i64,
        }
    }

    #[verifier::when_used_as_spec(spec_category)]
    pub fn category(&self) -> (category: FormCategory)
        ensures
            category == self.spec_category(),
    {
        match self {
            FormType::Regular => FormCategory::Regular,
            FormType::MeisterTalent => FormCategory::MeisterTalent,
            FormType::NationalBasicLiving
            | FormType::NearPoverty
            | FormType::NationalVeterans
            | FormType::OneParent
            | FormType::FromNorthKorea
            | FormType::Multicultural
            | FormType::TeenHouseholder
            | FormType::MultiChildren
            | FormType::FarmingAndFishing => FormCategory::SocialIntegration,
            FormType::NationalVeteransEducation | FormType::SpecialAdmission => FormCategory::Supernumerary,
        }
    }

    #[verifier::when_used_as_spec(spec_is_regular)]
    pub fn is_regular(&self) -> (yes: bool)
        ensures
            yes == self.spec_is_regular(),
    {
        matches!(self, FormType::Regular)
    }

    #[verifier::when_used_as_spec(spec_is_special)]
    pub fn is_special(&self) -> (yes: bool)
        ensures
            yes == self.spec_is_special(),
    {
        !self.is_regular() && !self.is_supernumerary()
    }

    #[verifier::when_used_as_spec(spec_is_supernumerary)]
    pub fn is_supernumerary(&self) -> (yes: bool)
        ensures
            yes == self.spec_is_supernumerary(),
    {
        matches!(self, FormType::NationalVeteransEducation | FormType::SpecialAdmission)
    }

    /// The scoring mode of the track: the regular formula for the regular
    /// and supernumerary tracks, the special formula for all others.
    #[verifier::when_used_as_spec(spec_scoring_mode)]
    pub fn scoring_mode(&self) -> (mode: ScoringMode)
        ensures
            mode == self.spec_scoring_mode(),
    {
        self.category().scoring_mode()
    }

    /// The variant's name, as it is stored.
    pub open spec fn spec_name(&self) -> Seq<char> {
        match self {
            FormType::Regular => "Regular"@,
            FormType::MeisterTalent => "MeisterTalent"@,
            FormType::NationalBasicLiving => "NationalBasicLiving"@,
            FormType::NearPoverty => "NearPoverty"@,
            FormType::NationalVeterans => "NationalVeterans"@,
            FormType::OneParent => "OneParent"@,
            FormType::FromNorthKorea => "FromNorthKorea"@,
            FormType::Multicultural => "Multicultural"@,
            FormType::TeenHouseholder => "TeenHouseholder"@,
            FormType::MultiChildren => "MultiChildren"@,
            FormType::FarmingAndFishing => "FarmingAndFishing"@,
            FormType::NationalVeteransEducation => "NationalVeteransEducation"@,
            FormType::SpecialAdmission => "SpecialAdmission"@,
        }
    }

    pub fn name(&self) -> (name: String)
        ensures
            name@ == self.spec_name(),
    {
        match self {
            FormType::Regular => "Regular".to_owned(),
            FormType::MeisterTalent => "MeisterTalent".to_owned(),
            FormType::NationalBasicLiving => "NationalBasicLiving".to_owned(),
            FormType::NearPoverty => "NearPoverty".to_owned(),
            FormType::NationalVeterans => "NationalVeterans".to_owned(),
            FormType::OneParent => "OneParent".to_owned(),
            FormType::FromNorthKorea => "FromNorthKorea".to_owned(),
            FormType::Multicultural => "Multicultural".to_owned(),
            FormType::TeenHouseholder => "TeenHouseholder".to_owned(),
            FormType::MultiChildren => "MultiChildren".to_owned(),
            FormType::FarmingAndFishing => "FarmingAndFishing".to_owned(),
            FormType::NationalVeteransEducation => "NationalVeteransEducation".to_owned(),
            FormType::SpecialAdmission => "SpecialAdmission".to_owned(),
        }
    }

    /// The track that a stored name stands for. A name of no track is an
    /// error: no track is guessed.
    pub open spec fn spec_from_name(name: Seq<char>) -> Result<FormType, SubmitError> {
        if name == "Regular"@ {
            Ok(FormType::Regular)
        } else if name == "MeisterTalent"@ {
            Ok(FormType::MeisterTalent)
        } else if name == "NationalBasicLiving"@ {
            Ok(FormType::NationalBasicLiving)
        } else if name == "NearPoverty"@ {
            Ok(FormType::NearPoverty)
        } else if name == "NationalVeterans"@ {
            Ok(FormType::NationalVeterans)
        } else if name == "OneParent"@ {
            Ok(FormType::OneParent)
        } else if name == "FromNorthKorea"@ {
            Ok(FormType::FromNorthKorea)
        } else if name == "Multicultural"@ {
            Ok(FormType::Multicultural)
        } else if name == "TeenHouseholder"@ {
            Ok(FormType::TeenHouseholder)
        } else if name == "MultiChildren"@ {
            Ok(FormType::MultiChildren)
        } else if name == "FarmingAndFishing"@ {
            Ok(FormType::FarmingAndFishing)
        } else if name == "NationalVeteransEducation"@ {
            Ok(FormType::NationalVeteransEducation)
        } else if name == "SpecialAdmission"@ {
            Ok(FormType::SpecialAdmission)
        } else {
            Err(SubmitError::InvalidTrack)
        }
    }

    pub fn from_name(name: &str) -> (track: Result<FormType, SubmitError>)
        ensures
            track == FormType::spec_from_name(name@),
    {
        let text: String = name.to_owned();
        if text == "Regular".to_owned() {
            Ok(FormType::Regular)
        } else if text == "MeisterTalent".to_owned() {
            Ok(FormType::MeisterTalent)
        } else if text == "NationalBasicLiving".to_owned() {
            Ok(FormType::NationalBasicLiving)
        } else if text == "NearPoverty".to_owned() {
            Ok(FormType::NearPoverty)
        } else if text == "NationalVeterans".to_owned() {
            Ok(FormType::NationalVeterans)
        } else if text == "OneParent".to_owned() {
            Ok(FormType::OneParent)
        } else if text == "FromNorthKorea".to_owned() {
            Ok(FormType::FromNorthKorea)
        } else if text == "Multicultural".to_owned() {
            Ok(FormType::Multicultural)
        } else if text == "TeenHouseholder".to_owned() {
            Ok(FormType::TeenHouseholder)
        } else if text == "MultiChildren".to_owned() {
            Ok(FormType::MultiChildren)
        } else if text == "FarmingAndFishing".to_owned() {
            Ok(FormType::FarmingAndFishing)
        } else if text == "NationalVeteransEducation".to_owned() {
            Ok(FormType::NationalVeteransEducation)
        } else if text == "SpecialAdmission".to_owned() {
            Ok(FormType::SpecialAdmission)
        } else {
            Err(SubmitError::InvalidTrack)
        }
    }

    /// Looks the track up: its category, its scoring mode, and where its
    /// band of examination numbers starts.
    #[verifier::when_used_as_spec(spec_resolve)]
    pub fn resolve(&self) -> (resolution: TrackResolution)
        ensures
            resolution == self.spec_resolve(),
    {
        let category = self.category();
        TrackResolution {
            category,
            scoring_mode: category.scoring_mode(),
            band_start: category.band_start(),
        }
    }
}

/// Every track resolves to a category and a scoring mode that agree with the
/// three track predicates: exactly one predicate holds of a track, the
/// regular formula belongs to the regular and supernumerary tracks, and the
/// special formula to the rest.
pub proof fn lemma_track_resolution_is_total(track: FormType)
    ensures
        track.spec_is_regular() <==> track.spec_category() == FormCategory::Regular,
        track.spec_is_supernumerary() <==> track.spec_category() == FormCategory::Supernumerary,
        track.spec_is_special() <==> (track.spec_category() == FormCategory::MeisterTalent
            || track.spec_category() == FormCategory::SocialIntegration),
        track.spec_scoring_mode() == ScoringMode::RegularFormula <==> (track.spec_is_regular()
            || track.spec_is_supernumerary()),
        track.spec_scoring_mode() == ScoringMode::SpecialFormula <==> track.spec_is_special(),
        track.spec_resolve().category == track.spec_category(),
        track.spec_resolve().band_start == track.spec_category().spec_band_start(),
{
}

/// The bands of two different categories share no number.
pub proof fn lemma_bands_are_disjoint(a: FormCategory, b: FormCategory, number: int)
    requires
        a != b,
    ensures
        !(a.band_contains(number) && b.band_contains(number)),
{
}

/// The name of a track is read back as that track, so no two tracks share
/// a name.
pub proof fn lemma_track_name_round_trip(track: FormType)
    ensures
        FormType::spec_from_name(track.spec_name()) == Ok::<FormType, SubmitError>(track),
{
    reveal_strlit("Regular");
    reveal_strlit("MeisterTalent");
    reveal_strlit("NationalBasicLiving");
    reveal_strlit("NearPoverty");
    reveal_strlit("NationalVeterans");
    reveal_strlit("OneParent");
    reveal_strlit("FromNorthKorea");
    reveal_strlit("Multicultural");
    reveal_strlit("TeenHouseholder");
    reveal_strlit("MultiChildren");
    reveal_strlit("FarmingAndFishing");
    reveal_strlit("NationalVeteransEducation");
    reveal_strlit("SpecialAdmission");
    assert("Regular"@.len() == 7);
    assert("MeisterTalent"@.len() == 13);
    assert("NationalBasicLiving"@.len() == 19);
    assert("NearPoverty"@.len() == 11);
    assert("NationalVeterans"@.len() == 16);
    assert("OneParent"@.len() == 9);
    assert("FromNorthKorea"@.len() == 14);
    assert("Multicultural"@.len() == 13);
    assert("TeenHouseholder"@.len() == 15);
    assert("MultiChildren"@.len() == 13);
    assert("FarmingAndFishing"@.len() == 17);
    assert("NationalVeteransEducation"@.len() == 25);
    assert("SpecialAdmission"@.len() == 16);
    // The names of one length differ in a letter.
    assert("MeisterTalent"@[1] == 'e' && "Multicultural"@[1] == 'u' && "MultiChildren"@[1] == 'u');
    assert("Multicultural"@[5] == 'c' && "MultiChildren"@[5] == 'C');
    assert("NationalVeterans"@[0] == 'N' && "SpecialAdmission"@[0] == 'S');
}

} // verus!
