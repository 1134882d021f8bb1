//! The stored form of an application: one flat record with the request's
//! fields, the scores and the examination number.
use vstd::prelude::*;
use crate::form_dto::AttendanceRequest;
use crate::form_dto::FormStatus;
use crate::form_dto::SubmitFormRequest;
use crate::score::Score;

verus! {

/// One stored application. The scores with decimals are in thousandths of a
/// point; the scores of the later rounds are empty until they are entered.
#[derive(Debug, Clone)]
pub struct FormEntity {
    pub birthday: String,
    pub gender: String,
    pub name: String,
    pub phone_number: String,
    pub changed_to_regular: bool,
    pub cover_letter: String,
    pub statement_of_purpose: String,
    pub graduation_type: String,
    pub graduation_year: String,
    pub school_address: Option<String>,
    pub school_code: Option<String>,
    pub school_location: Option<String>,
    pub school_name: Option<String>,
    pub teacher_mobile_phone_number: Option<String>,
    pub teacher_name: Option<String>,
    pub teacher_phone_number: Option<String>,
    pub examination_number: i64,
    pub attendance1_absence_count: Option<i32>,
    pub attendance1_class_absence_count: Option<i32>,
    pub attendance1_early_leave_count: Option<i32>,
    pub attendance1_lateness_count: Option<i32>,
    pub attendance2_absence_count: Option<i32>,
    pub attendance2_class_absence_count: Option<i32>,
    pub attendance2_early_leave_count: Option<i32>,
    pub attendance2_lateness_count: Option<i32>,
    pub attendance3_absence_count: Option<i32>,
    pub attendance3_class_absence_count: Option<i32>,
    pub attendance3_early_leave_count: Option<i32>,
    pub attendance3_lateness_count: Option<i32>,
    pub volunteer_time1: Option<i32>,
    pub volunteer_time2: Option<i32>,
    pub volunteer_time3: Option<i32>,
    pub original_type: Option<String>,
    pub address: String,
    pub detail_address: String,
    pub zone_code: String,
    pub parent_name: String,
    pub parent_phone_number: String,
    pub parent_relation: String,
    pub attendance_score: i32,
    pub bonus_score: i32,
    pub coding_test_score: Option<u32>,
    pub depth_interview_score: Option<u32>,
    pub first_round_score: u32,
    pub ncs_score: Option<u32>,
    pub subject_grade_score: u32,
    pub third_grade_first_semester_subject_grade_score: Option<u32>,
    pub total_score: Option<u32>,
    pub volunteer_score: i32,
    pub status: FormStatus,
    pub form_type: String,
    pub user_id: i64,
}

/// The text that chrono writes for a date (`NaiveDate`'s `Display`, which
/// `to_string` goes through): year, month and day with hyphens between.
pub uninterp spec fn date_text(date: chrono::NaiveDate) -> Seq<char>;

/// Calls `NaiveDate::to_string`. The text depends on the date alone.
#[verifier::external_body]
fn date_to_text(date: &chrono::NaiveDate) -> (text: String)
    ensures
        text@ == date_text(*date),
{
    date.to_string()
}

/// One tally of a term's attendance, where the term is present.
pub open spec fn tally(
    attendance: Option<AttendanceRequest>,
    pick: spec_fn(AttendanceRequest) -> i32,
) -> Option<i32> {
    match attendance {
        Some(a) => Some(pick(a)),
        None => None,
    }
}

fn clone_text(text: &Option<String>) -> (copy: Option<String>)
    ensures
        copy == *text,
{
    match text {
        Some(t) => Some(t.clone()),
        None => None,
    }
}

impl FormEntity {
    /// Whether the record is what is stored for the request `req` of the
    /// user `user_id`, with the scores `score` and the examination number
    /// `examination_number`: a new application, with no later round scored.
    pub open spec fn is_record_of(
        &self,
        req: SubmitFormRequest,
        score: Score,
        examination_number: i64,
        user_id: i64,
    ) -> bool {
        &&& self.birthday@ == date_text(req.applicant.birthday)
        &&& self.gender@ == req.applicant.gender.spec_name()
        &&& self.name == req.applicant.name
        &&& self.phone_number == req.applicant.phone_number
        &&& !self.changed_to_regular
        &&& self.cover_letter == req.document.cover_letter
        &&& self.statement_of_purpose == req.document.statement_of_purpose
        &&& self.graduation_type@ == req.education.graduation_type.spec_name()
        &&& self.graduation_year == req.education.graduation_year
        &&& self.school_address == req.education.school_address
        &&& self.school_code == req.education.school_code
        &&& self.school_location == req.education.school_location
        &&& self.school_name == req.education.school_name
        &&& self.teacher_mobile_phone_number == req.education.teacher_mobile_phone_number
        &&& self.teacher_name == req.education.teacher_name
        &&& self.teacher_phone_number == req.education.teacher_phone_number
        &&& self.examination_number == examination_number
        &&& self.attendance1_absence_count == tally(req.grade.attendance1, |a: AttendanceRequest| a.absence_count)
        &&& self.attendance1_class_absence_count == tally(req.grade.attendance1, |a: AttendanceRequest| a.class_absence_count)
        &&& self.attendance1_early_leave_count == tally(req.grade.attendance1, |a: AttendanceRequest| a.early_leave_count)
        &&& self.attendance1_lateness_count == tally(req.grade.attendance1, |a: AttendanceRequest| a.lateness_count)
        &&& self.attendance2_absence_count == tally(req.grade.attendance2, |a: AttendanceRequest| a.absence_count)
        &&& self.attendance2_class_absence_count == tally(req.grade.attendance2, |a: AttendanceRequest| a.class_absence_count)
        &&& self.attendance2_early_leave_count == tally(req.grade.attendance2, |a: AttendanceRequest| a.early_leave_count)
        &&& self.attendance2_lateness_count == tally(req.grade.attendance2, |a: AttendanceRequest| a.lateness_count)
        &&& self.attendance3_absence_count == tally(req.grade.attendance3, |a: AttendanceRequest| a.absence_count)
        &&& self.attendance3_class_absence_count == tally(req.grade.attendance3, |a: AttendanceRequest| a.class_absence_count)
        &&& self.attendance3_early_leave_count == tally(req.grade.attendance3, |a: AttendanceRequest| a.early_leave_count)
        &&& self.attendance3_lateness_count == tally(req.grade.attendance3, |a: AttendanceRequest| a.lateness_count)
        &&& self.volunteer_time1 == req.grade.volunteer_time1
        &&& self.volunteer_time2 == req.grade.volunteer_time2
        &&& self.volunteer_time3 == req.grade.volunteer_time3
        &&& self.original_type matches Some(text) && text@ == req.form_type.spec_name()
        &&& self.address == req.parent.address
        &&& self.detail_address == req.parent.detail_address
        &&& self.zone_code == req.parent.zone_code
        &&& self.parent_name == req.parent.name
        &&& self.parent_phone_number == req.parent.phone_number
        &&& self.parent_relation == req.parent.relation
        &&& self.attendance_score == score.attendance_score
        &&& self.bonus_score == score.bonus_score
        &&& self.coding_test_score is None
        &&& self.depth_interview_score is None
        &&& self.first_round_score == score.first_round_score
        &&& self.ncs_score is None
        &&& self.subject_grade_score == score.subject_grade_score
        &&& self.third_grade_first_semester_subject_grade_score == score.third_grade_first_semester_subject_grade_score
        &&& self.total_score is None
        &&& self.volunteer_score == score.volunteer_score
        &&& self.status == FormStatus::Submitted
        &&& self.form_type@ == req.form_type.spec_name()
        &&& self.user_id == user_id
    }

    /// The scores that the record holds.
    pub open spec fn spec_score(&self) -> Score {
        Score {
            subject_grade_score: self.subject_grade_score,
            third_grade_first_semester_subject_grade_score: self.third_grade_first_semester_subject_grade_score,
            attendance_score: self.attendance_score,
            volunteer_score: self.volunteer_score,
            bonus_score: self.bonus_score,
            first_round_score: self.first_round_score,
        }
    }

    /// Builds the record of a new application.
    pub fn from_request(
        req: &SubmitFormRequest,
        score: &Score,
        examination_number: i64,
        user_id: i64,
    ) -> (entity: FormEntity)
        ensures
            entity.is_record_of(*req, *score, examination_number, user_id),
    {
        FormEntity {
            birthday: date_to_text(&req.applicant.birthday),
            gender: req.applicant.gender.name(),
            name: req.applicant.name.clone(),
            phone_number: req.applicant.phone_number.clone(),
            changed_to_regular: false,
            cover_letter: req.document.cover_letter.clone(),
            statement_of_purpose: req.document.statement_of_purpose.clone(),
            graduation_type: req.education.graduation_type.name(),
            graduation_year: req.education.graduation_year.clone(),
            school_address: clone_text(&req.education.school_address),
            school_code: clone_text(&req.education.school_code),
            school_location: clone_text(&req.education.school_location),
            school_name: clone_text(&req.education.school_name),
            teacher_mobile_phone_number: clone_text(&req.education.teacher_mobile_phone_number),
            teacher_name: clone_text(&req.education.teacher_name),
            teacher_phone_number: clone_text(&req.education.teacher_phone_number),
            examination_number: examination_number,
            attendance1_absence_count: match &req.grade.attendance1 {
                Some(a) => Some(a.absence_count),
                None => None,
            },
            attendance1_class_absence_count: match &req.grade.attendance1 {
                Some(a) => Some(a.class_absence_count),
                None => None,
            },
            attendance1_early_leave_count: match &req.grade.attendance1 {
                Some(a) => Some(a.early_leave_count),
                None => None,
            },
            attendance1_lateness_count: match &req.grade.attendance1 {
                Some(a) => Some(a.lateness_count),
                None => None,
            },
            attendance2_absence_count: match &req.grade.attendance2 {
                Some(a) => Some(a.absence_count),
                None => None,
            },
            attendance2_class_absence_count: match &req.grade.attendance2 {
                Some(a) => Some(a.class_absence_count),
                None => None,
            },
            attendance2_early_leave_count: match &req.grade.attendance2 {
                Some(a) => Some(a.early_leave_count),
                None => None,
            },
            attendance2_lateness_count: match &req.grade.attendance2 {
                Some(a) => Some(a.lateness_count),
                None => None,
            },
            attendance3_absence_count: match &req.grade.attendance3 {
                Some(a) => Some(a.absence_count),
                None => None,
            },
            attendance3_class_absence_count: match &req.grade.attendance3 {
                Some(a) => Some(a.class_absence_count),
                None => None,
            },
            attendance3_early_leave_count: match &req.grade.attendance3 {
                Some(a) => Some(a.early_leave_count),
                None => None,
            },
            attendance3_lateness_count: match &req.grade.attendance3 {
                Some(a) => Some(a.lateness_count),
                None => None,
            },
            volunteer_time1: req.grade.volunteer_time1,
            volunteer_time2: req.grade.volunteer_time2,
            volunteer_time3: req.grade.volunteer_time3,
            original_type: Some(req.form_type.name()),
            address: req.parent.address.clone(),
            detail_address: req.parent.detail_address.clone(),
            zone_code: req.parent.zone_code.clone(),
            parent_name: req.parent.name.clone(),
            parent_phone_number: req.parent.phone_number.clone(),
            parent_relation: req.parent.relation.clone(),
            attendance_score: score.attendance_score,
            bonus_score: score.bonus_score,
            coding_test_score: None,
            depth_interview_score: None,
            first_round_score: score.first_round_score,
            ncs_score: None,
            subject_grade_score: score.subject_grade_score,
            third_grade_first_semester_subject_grade_score: score.third_grade_first_semester_subject_grade_score,
            total_score: None,
            volunteer_score: score.volunteer_score,
            status: FormStatus::Submitted,
            form_type: req.form_type.name(),
            user_id: user_id,
        }
    }
}

} // verus!
