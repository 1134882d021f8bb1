//! The parts of a submitted application, as the submission logic receives
//! them.
use vstd::prelude::*;
use crate::track::FormType;
use crate::track::FormCategory;

verus! {

/// `chrono::NaiveDate` is carried through as an opaque value: nothing here
/// looks inside a date.
#[verifier::external_type_specification]
#[verifier::external_body]
pub struct ExNaiveDate(chrono::NaiveDate);

#[derive(Debug, Clone, Copy, PartialEq, Eq, Structural)]
pub enum Gender {
    Male,
    Female,
}

#[derive(Debug, Clone, Copy, PartialEq, Eq, Structural)]
pub enum GraduationType {
    Expected,
    Graduated,
    QualificationExamination,
}

/// Achievement level of one subject in one term, best first.
#[derive(Debug, Clone, Copy, PartialEq, Eq, Structural)]
pub enum AchievementLevel {
    A,
    B,
    C,
    D,
    E,
}

#[derive(Debug, Clone, Copy, PartialEq, Eq, Structural)]
pub enum Certificate {
    CraftsmanInformationProcessing,
    CraftsmanInformationEquipmentOperation,
    CraftsmanComputer,
    ComputerSpecialistLevel1,
    ComputerSpecialistLevel2,
    ComputerSpecialistLevel3,
}

/// Where an application stands on its way through admission. A new
/// application starts as `Submitted`.
#[derive(Debug, Clone, Copy, PartialEq, Eq, Structural)]
pub enum FormStatus {
    Submitted,
    FinalSubmitted,
    Approved,
    Rejected,
    Received,
    FirstPassed,
    FirstFailed,
    Passed,
    Failed,
    NoShow,
    Entered,
}

#[derive(Debug, Clone, Copy, PartialEq, Eq, Structural)]
pub enum FormSort {
    TotalScoreAsc,
    TotalScoreDesc,
    FormId,
}

impl Gender {
    /// The variant's name, as it is stored.
    pub open spec fn spec_name(&self) -> Seq<char> {
        match self {
            Gender::Male => "Male"@,
            Gender::Female => "Female"@,
        }
    }

    pub fn name(&self) -> (name: String)
        ensures
            name@ == self.spec_name(),
    {
        match self {
            Gender::Male => "Male".to_owned(),
            Gender::Female => "Female".to_owned(),
        }
    }
}

impl GraduationType {
    /// The variant's name, as it is stored.
    pub open spec fn spec_name(&self) -> Seq<char> {
        match self {
            GraduationType::Expected => "Expected"@,
            GraduationType::Graduated => "Graduated"@,
            GraduationType::QualificationExamination => "QualificationExamination"@,
        }
    }

    pub fn name(&self) -> (name: String)
        ensures
            name@ == self.spec_name(),
    {
        match self {
            GraduationType::Expected => "Expected".to_owned(),
            GraduationType::Graduated => "Graduated".to_owned(),
            GraduationType::QualificationExamination => "QualificationExamination".to_owned(),
        }
    }

    pub open spec fn spec_is_qualification_examination(&self) -> bool {
        self is QualificationExamination
    }

    /// Graduates by qualification examination have no school terms: their
    /// attendance and volunteer scores are fixed and their subject grades
    /// are averaged over all subjects.
    #[verifier::when_used_as_spec(spec_is_qualification_examination)]
    pub fn is_qualification_examination(&self) -> (yes: bool)
        ensures
            yes == self.spec_is_qualification_examination(),
    {
        matches!(self, GraduationType::QualificationExamination)
    }
}

impl AchievementLevel {
    /// The weight of a level: A is 5, E is 1.
    pub open spec fn spec_weight(&self) -> int {
        match self {
            AchievementLevel::A => 5,
            AchievementLevel::B => 4,
            AchievementLevel::C => 3,
            AchievementLevel::D => 2,
            AchievementLevel::E => 1,
        }
    }

    pub fn weight(&self) -> (weight: i32)
        ensures
            weight == self.spec_weight(),
    {
        match self {
            AchievementLevel::A => 5,
            AchievementLevel::B => 4,
            AchievementLevel::C => 3,
            AchievementLevel::D => 2,
            AchievementLevel::E => 1,
        }
    }

    /// The variant's name, as it is stored.
    pub open spec fn spec_name(&self) -> Seq<char> {
        match self {
            AchievementLevel::A => "A"@,
            AchievementLevel::B => "B"@,
            AchievementLevel::C => "C"@,
            AchievementLevel::D => "D"@,
            AchievementLevel::E => "E"@,
        }
    }

    pub fn name(&self) -> (name: String)
        ensures
            name@ == self.spec_name(),
    {
        match self {
            AchievementLevel::A => "A".to_owned(),
            AchievementLevel::B => "B".to_owned(),
            AchievementLevel::C => "C".to_owned(),
            AchievementLevel::D => "D".to_owned(),
            AchievementLevel::E => "E".to_owned(),
        }
    }
}

impl Certificate {
    /// Bonus points of one certificate.
    pub open spec fn spec_score(&self) -> int {
        match self {
            Certificate::CraftsmanInformationProcessing => 4,
            Certificate::CraftsmanInformationEquipmentOperation => 4,
            Certificate::CraftsmanComputer => 4,
            Certificate::ComputerSpecialistLevel1 => 3,
            Certificate::ComputerSpecialistLevel2 => 2,
            Certificate::ComputerSpecialistLevel3 => 1,
        }
    }

    pub fn score(&self) -> (points: i32)
        ensures
            points == self.spec_score(),
    {
        match self {
            Certificate::CraftsmanInformationProcessing => 4,
            Certificate::CraftsmanInformationEquipmentOperation => 4,
            Certificate::CraftsmanComputer => 4,
            Certificate::ComputerSpecialistLevel1 => 3,
            Certificate::ComputerSpecialistLevel2 => 2,
            Certificate::ComputerSpecialistLevel3 => 1,
        }
    }
}

/// The largest grade table that can be scored: a third of the largest
/// subject list, as a row gives at most three subject records.
pub const MAX_SUBJECT_ROWS: usize = 0x5555_5555;

impl AttendanceRequest {
    /// Whether the tallies are counts: none is negative.
    pub open spec fn spec_is_valid(&self) -> bool {
        &&& self.absence_count >= 0
        &&& self.lateness_count >= 0
        &&& self.early_leave_count >= 0
        &&& self.class_absence_count >= 0
    }

    #[verifier::when_used_as_spec(spec_is_valid)]
    pub fn is_valid(&self) -> (valid: bool)
        ensures
            valid == self.spec_is_valid(),
    {
        self.absence_count >= 0 && self.lateness_count >= 0 && self.early_leave_count >= 0
            && self.class_absence_count >= 0
    }
}

impl GradeRequest {
    /// Whether the attendance tallies of every term that is present are
    /// counts.
    pub open spec fn spec_has_valid_attendance(&self) -> bool {
        &&& self.attendance1 matches Some(a) ==> a.spec_is_valid()
        &&& self.attendance2 matches Some(a) ==> a.spec_is_valid()
        &&& self.attendance3 matches Some(a) ==> a.spec_is_valid()
    }

    #[verifier::when_used_as_spec(spec_has_valid_attendance)]
    pub fn has_valid_attendance(&self) -> (valid: bool)
        ensures
            valid == self.spec_has_valid_attendance(),
    {
        let first: bool = match &self.attendance1 {
            Some(a) => a.is_valid(),
            None => true,
        };
        let second: bool = match &self.attendance2 {
            Some(a) => a.is_valid(),
            None => true,
        };
        let third: bool = match &self.attendance3 {
            Some(a) => a.is_valid(),
            None => true,
        };
        first && second && third
    }
}

#[derive(Debug)]
pub struct ApplicantRequest {
    pub name: String,
    pub phone_number: String,
    pub birthday: chrono::NaiveDate,
    pub gender: Gender,
}

impl Clone for ApplicantRequest {
    fn clone(&self) -> (copy: Self)
        ensures
            copy == *self,
    {
        ApplicantRequest {
            name: self.name.clone(),
            phone_number: self.phone_number.clone(),
            birthday: self.birthday,
            gender: self.gender,
        }
    }
}

#[derive(Debug, Clone)]
pub struct ParentRequest {
    pub name: String,
    pub phone_number: String,
    pub relation: String,
    pub zone_code: String,
    pub address: String,
    pub detail_address: String,
}

#[derive(Debug, Clone)]
pub struct EducationRequest {
    pub graduation_type: GraduationType,
    pub graduation_year: String,
    pub school_name: Option<String>,
    pub school_location: Option<String>,
    pub school_address: Option<String>,
    pub school_code: Option<String>,
    pub teacher_name: Option<String>,
    pub teacher_phone_number: Option<String>,
    pub teacher_mobile_phone_number: Option<String>,
}

/// One row of the grade table: either a raw score out of 100, or up to
/// three achievement levels, one per term.
#[derive(Debug, Clone)]
pub struct SubjectRequest {
    pub subject_name: String,
    pub achievement_level21: Option<AchievementLevel>,
    pub achievement_level22: Option<AchievementLevel>,
    pub achievement_level31: Option<AchievementLevel>,
    pub score: Option<i32>,
}

/// Attendance tallies of one term.
#[derive(Debug, Clone, Copy, PartialEq, Eq, Structural)]
pub struct AttendanceRequest {
    pub absence_count: i32,
    pub lateness_count: i32,
    pub early_leave_count: i32,
    pub class_absence_count: i32,
}

#[derive(Debug, Clone)]
pub struct GradeRequest {
    pub subject_list: Vec<SubjectRequest>,
    pub attendance1: Option<AttendanceRequest>,
    pub attendance2: Option<AttendanceRequest>,
    pub attendance3: Option<AttendanceRequest>,
    pub volunteer_time1: Option<i32>,
    pub volunteer_time2: Option<i32>,
    pub volunteer_time3: Option<i32>,
    pub certificate_list: Option<Vec<Certificate>>,
}

#[derive(Debug, Clone)]
pub struct DocumentRequest {
    pub cover_letter: String,
    pub statement_of_purpose: String,
}

#[derive(Debug, Clone)]
pub struct SubmitFormRequest {
    pub applicant: ApplicantRequest,
    pub parent: ParentRequest,
    pub education: EducationRequest,
    pub grade: GradeRequest,
    pub document: DocumentRequest,
    pub form_type: FormType,
}

#[derive(Debug, Clone, Copy)]
pub struct FormListQuery {
    pub status: Option<FormStatus>,
    pub category: Option<FormCategory>,
    pub sort: Option<FormSort>,
}

impl SubmitFormRequest {
    /// Whether the request can be scored: its attendance tallies are
    /// counts, and its grade table has at most `MAX_SUBJECT_ROWS` rows.
    pub open spec fn spec_is_well_formed(&self) -> bool {
        &&& self.grade.spec_has_valid_attendance()
        &&& self.grade.subject_list@.len() <= MAX_SUBJECT_ROWS
    }

    #[verifier::when_used_as_spec(spec_is_well_formed)]
    pub fn is_well_formed(&self) -> (valid: bool)
        ensures
            valid == self.spec_is_well_formed(),
    {
        self.grade.has_valid_attendance() && self.grade.subject_list.len() <= MAX_SUBJECT_ROWS
    }
}

} // verus!
