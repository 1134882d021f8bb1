use chrono::NaiveDate;
use marust::error::SubmitError;
use marust::form_dto::AchievementLevel;
use marust::form_dto::ApplicantRequest;
use marust::form_dto::AttendanceRequest;
use marust::form_dto::Certificate;
use marust::form_dto::DocumentRequest;
use marust::form_dto::EducationRequest;
use marust::form_dto::FormStatus;
use marust::form_dto::Gender;
use marust::form_dto::GradeRequest;
use marust::form_dto::GraduationType;
use marust::form_dto::ParentRequest;
use marust::form_dto::SubjectRequest;
use marust::form_dto::SubmitFormRequest;
use marust::form_dto::MAX_SUBJECT_ROWS;
use marust::form_entity::FormEntity;
use marust::score::Score;
use marust::submission::build_submission;
use marust::submission::conclude_submission;
use marust::submission::plan_submission;
use marust::submission::FormRegistry;
use marust::submission::SubmissionState;
use marust::track::FormType;

fn levels(name: &str, l21: AchievementLevel, l22: AchievementLevel, l31: AchievementLevel) -> SubjectRequest {
    SubjectRequest {
        subject_name: name.to_string(),
        achievement_level21: Some(l21),
        achievement_level22: Some(l22),
        achievement_level31: Some(l31),
        score: None,
    }
}

fn tallies(absence: i32) -> AttendanceRequest {
    AttendanceRequest { absence_count: absence, lateness_count: 1, early_leave_count: 1, class_absence_count: 1 }
}

fn application(form_type: FormType) -> SubmitFormRequest {
    SubmitFormRequest {
        applicant: ApplicantRequest {
            name: "Lee".to_string(),
            phone_number: "01012345678".to_string(),
            birthday: NaiveDate::from_ymd_opt(2008, 3, 5).unwrap(),
            gender: Gender::Male,
        },
        parent: ParentRequest {
            name: "Lee Senior".to_string(),
            phone_number: "01087654321".to_string(),
            relation: "father".to_string(),
            zone_code: "48000".to_string(),
            address: "Busan".to_string(),
            detail_address: "Room 3".to_string(),
        },
        education: EducationRequest {
            graduation_type: GraduationType::Expected,
            graduation_year: "2024".to_string(),
            school_name: Some("Middle".to_string()),
            school_location: Some("Busan".to_string()),
            school_address: Some("Street 1".to_string()),
            school_code: Some("7001".to_string()),
            teacher_name: Some("Park".to_string()),
            teacher_phone_number: None,
            teacher_mobile_phone_number: Some("01055555555".to_string()),
        },
        grade: GradeRequest {
            subject_list: vec![
                levels("국어", AchievementLevel::A, AchievementLevel::B, AchievementLevel::A),
                levels("수학", AchievementLevel::B, AchievementLevel::C, AchievementLevel::A),
                levels("영어", AchievementLevel::C, AchievementLevel::A, AchievementLevel::B),
            ],
            attendance1: Some(tallies(4)),
            attendance2: Some(tallies(3)),
            attendance3: Some(tallies(3)),
            volunteer_time1: Some(7),
            volunteer_time2: Some(7),
            volunteer_time3: Some(8),
            certificate_list: Some(vec![Certificate::ComputerSpecialistLevel2]),
        },
        document: DocumentRequest {
            cover_letter: "cover".to_string(),
            statement_of_purpose: "purpose".to_string(),
        },
        form_type,
    }
}

#[test]
fn a_submission_is_scored_numbered_and_built() {
    let req = application(FormType::Regular);
    let submission = plan_submission(SubmissionState::NotSubmitted, 42, &req, None).unwrap();
    let form = &submission.form;
    assert_eq!(form.user_id, 42);
    assert_eq!(form.examination_number, 1001);
    assert_eq!(form.subject_grade_score, 185_600);
    assert_eq!(form.third_grade_first_semester_subject_grade_score, Some(4_750));
    assert_eq!(form.attendance_score, 5);
    assert_eq!(form.volunteer_score, 14);
    assert_eq!(form.bonus_score, 2);
    assert_eq!(form.first_round_score, 206_600);
    assert_eq!(form.status, FormStatus::Submitted);
    assert_eq!(submission.subjects.len(), 9);
    assert_eq!(submission.subjects[3].subject_name, "수학");
    assert_eq!(submission.subjects[3].achievement_level, "B");
    assert_eq!((submission.subjects[3].grade, submission.subjects[3].semester), (2, 1));
}

#[test]
fn a_submission_takes_the_next_number_of_its_band() {
    let regular = application(FormType::Regular);
    let special = application(FormType::OneParent);
    let extra = application(FormType::SpecialAdmission);
    assert_eq!(
        plan_submission(SubmissionState::NotSubmitted, 1, &regular, Some(1234)).unwrap().form.examination_number,
        1235
    );
    assert_eq!(
        plan_submission(SubmissionState::NotSubmitted, 1, &special, None).unwrap().form.examination_number,
        3001
    );
    assert_eq!(
        plan_submission(SubmissionState::NotSubmitted, 1, &extra, Some(4001)).unwrap().form.examination_number,
        4002
    );
}

#[test]
fn a_second_submission_is_a_duplicate() {
    let req = application(FormType::Regular);
    let plan = plan_submission(SubmissionState::Submitted, 42, &req, None);
    assert_eq!(plan.err(), Some(SubmitError::DuplicateSubmission));
    // The duplicate is reported even where the band is full.
    let plan = plan_submission(SubmissionState::Submitted, 42, &req, Some(2000));
    assert_eq!(plan.err(), Some(SubmitError::DuplicateSubmission));
}

#[test]
fn a_submission_into_a_full_band_fails() {
    let req = application(FormType::MeisterTalent);
    let plan = plan_submission(SubmissionState::NotSubmitted, 42, &req, Some(3000));
    assert_eq!(plan.err(), Some(SubmitError::AllocationExhausted));
}

#[test]
fn a_plan_that_is_not_stored_is_a_persistence_failure() {
    let req = application(FormType::Regular);
    let plan = plan_submission(SubmissionState::NotSubmitted, 42, &req, None);
    assert_eq!(conclude_submission(&plan, true), Ok(()));
    assert_eq!(conclude_submission(&plan, false), Err(SubmitError::PersistenceFailure));
    let refused = plan_submission(SubmissionState::Submitted, 42, &req, None);
    assert_eq!(conclude_submission(&refused, true), Err(SubmitError::DuplicateSubmission));
    assert_eq!(conclude_submission(&refused, false), Err(SubmitError::DuplicateSubmission));
    let full = plan_submission(SubmissionState::NotSubmitted, 42, &req, Some(2000));
    assert_eq!(conclude_submission(&full, false), Err(SubmitError::AllocationExhausted));
}

#[test]
fn the_state_moves_to_submitted_only_on_success() {
    assert_eq!(SubmissionState::NotSubmitted.after(true), SubmissionState::Submitted);
    assert_eq!(SubmissionState::NotSubmitted.after(false), SubmissionState::NotSubmitted);
    assert_eq!(SubmissionState::Submitted.after(false), SubmissionState::Submitted);
    assert_eq!(SubmissionState::Submitted.after(true), SubmissionState::Submitted);
}

#[test]
fn the_record_holds_the_fields_of_the_request() {
    let req = application(FormType::TeenHouseholder);
    let score = Score {
        subject_grade_score: 111_360,
        third_grade_first_semester_subject_grade_score: Some(4_750),
        attendance_score: 5,
        volunteer_score: 14,
        bonus_score: 2,
        first_round_score: 132_360,
    };
    let form = FormEntity::from_request(&req, &score, 3007, 9);
    assert_eq!(form.birthday, "2008-03-05");
    assert_eq!(form.gender, "Male");
    assert_eq!(form.name, "Lee");
    assert_eq!(form.phone_number, "01012345678");
    assert!(!form.changed_to_regular);
    assert_eq!(form.cover_letter, "cover");
    assert_eq!(form.statement_of_purpose, "purpose");
    assert_eq!(form.graduation_type, "Expected");
    assert_eq!(form.graduation_year, "2024");
    assert_eq!(form.school_address.as_deref(), Some("Street 1"));
    assert_eq!(form.school_code.as_deref(), Some("7001"));
    assert_eq!(form.school_location.as_deref(), Some("Busan"));
    assert_eq!(form.school_name.as_deref(), Some("Middle"));
    assert_eq!(form.teacher_mobile_phone_number.as_deref(), Some("01055555555"));
    assert_eq!(form.teacher_name.as_deref(), Some("Park"));
    assert_eq!(form.teacher_phone_number, None);
    assert_eq!(form.examination_number, 3007);
    assert_eq!(form.attendance1_absence_count, Some(4));
    assert_eq!(form.attendance1_class_absence_count, Some(1));
    assert_eq!(form.attendance1_early_leave_count, Some(1));
    assert_eq!(form.attendance1_lateness_count, Some(1));
    assert_eq!(form.attendance2_absence_count, Some(3));
    assert_eq!(form.attendance3_absence_count, Some(3));
    assert_eq!(form.volunteer_time1, Some(7));
    assert_eq!(form.volunteer_time2, Some(7));
    assert_eq!(form.volunteer_time3, Some(8));
    assert_eq!(form.original_type.as_deref(), Some("TeenHouseholder"));
    assert_eq!(form.address, "Busan");
    assert_eq!(form.detail_address, "Room 3");
    assert_eq!(form.zone_code, "48000");
    assert_eq!(form.parent_name, "Lee Senior");
    assert_eq!(form.parent_phone_number, "01087654321");
    assert_eq!(form.parent_relation, "father");
    assert_eq!(form.attendance_score, 5);
    assert_eq!(form.bonus_score, 2);
    assert_eq!(form.coding_test_score, None);
    assert_eq!(form.depth_interview_score, None);
    assert_eq!(form.first_round_score, 132_360);
    assert_eq!(form.ncs_score, None);
    assert_eq!(form.subject_grade_score, 111_360);
    assert_eq!(form.third_grade_first_semester_subject_grade_score, Some(4_750));
    assert_eq!(form.total_score, None);
    assert_eq!(form.volunteer_score, 14);
    assert_eq!(form.status, FormStatus::Submitted);
    assert_eq!(form.form_type, "TeenHouseholder");
    assert_eq!(form.user_id, 9);
}

#[test]
fn the_record_of_a_request_without_attendance() {
    let mut req = application(FormType::Regular);
    req.grade.attendance2 = None;
    req.applicant.birthday = NaiveDate::from_ymd_opt(1999, 12, 31).unwrap();
    req.applicant.gender = Gender::Female;
    let submission = build_submission(&req, 1500, 3);
    assert_eq!(submission.form.birthday, "1999-12-31");
    assert_eq!(submission.form.gender, "Female");
    assert_eq!(submission.form.attendance1_absence_count, Some(4));
    assert_eq!(submission.form.attendance2_absence_count, None);
    assert_eq!(submission.form.attendance2_lateness_count, None);
    assert_eq!(submission.form.attendance_score, 14);
    assert_eq!(submission.form.examination_number, 1500);
}

#[test]
fn well_formed_requests() {
    let mut req = application(FormType::Regular);
    assert!(req.is_well_formed());
    assert!(req.grade.has_valid_attendance());
    req.grade.attendance3 = Some(AttendanceRequest {
        absence_count: 0,
        lateness_count: -1,
        early_leave_count: 0,
        class_absence_count: 0,
    });
    assert!(!req.grade.has_valid_attendance());
    assert!(!req.is_well_formed());
    req.grade.attendance3 = None;
    assert!(req.is_well_formed());
    assert_eq!(MAX_SUBJECT_ROWS, 1_431_655_765);
}

#[test]
fn the_registry_refuses_a_second_submission_of_a_user() {
    let mut registry = FormRegistry::new();
    let first = application(FormType::Regular);
    assert_eq!(registry.state_of(42), SubmissionState::NotSubmitted);
    assert_eq!(registry.submit(42, &first), Ok(()));
    assert_eq!(registry.state_of(42), SubmissionState::Submitted);
    assert!(registry.exists_by_user(42));
    let forms_before = format!("{:?}", registry.forms);
    let subjects_before = format!("{:?}", registry.subjects);
    let issued_before = registry.ledger.issued.clone();

    let mut second = application(FormType::MeisterTalent);
    second.applicant.name = "Someone else".to_string();
    assert_eq!(registry.submit(42, &second), Err(SubmitError::DuplicateSubmission));
    assert_eq!(format!("{:?}", registry.forms), forms_before);
    assert_eq!(format!("{:?}", registry.subjects), subjects_before);
    assert_eq!(registry.ledger.issued, issued_before);
    assert_eq!(registry.forms.len(), 1);
    assert_eq!(registry.forms[0].name, "Lee");
    assert_eq!(registry.forms[0].examination_number, 1001);
}

#[test]
fn the_registry_numbers_each_band_from_its_start() {
    let mut registry = FormRegistry::new();
    let tracks = [
        FormType::Regular,
        FormType::OneParent,
        FormType::Regular,
        FormType::MeisterTalent,
        FormType::SpecialAdmission,
        FormType::NearPoverty,
        FormType::Regular,
    ];
    for (user, track) in tracks.iter().enumerate() {
        assert_eq!(registry.submit(user as i64, &application(*track)), Ok(()));
    }
    let numbers: Vec<i64> = registry.forms.iter().map(|f| f.examination_number).collect();
    assert_eq!(numbers, vec![1001, 3001, 1002, 2001, 4001, 3002, 1003]);
    assert_eq!(registry.ledger.issued, numbers);
    assert_eq!(registry.subjects.len(), 7);
    assert!(registry.subjects.iter().all(|rows| rows.len() == 9));
    assert!(!registry.exists_by_user(7));
}

#[test]
fn the_registry_stays_as_it_was_when_a_band_is_full() {
    let mut registry = FormRegistry::new();
    for user in 0..1000 {
        assert_eq!(registry.submit(user, &application(FormType::MeisterTalent)), Ok(()));
    }
    assert_eq!(registry.forms.last().unwrap().examination_number, 3000);
    assert_eq!(registry.submit(5000, &application(FormType::MeisterTalent)), Err(SubmitError::AllocationExhausted));
    assert_eq!(registry.forms.len(), 1000);
    assert_eq!(registry.subjects.len(), 1000);
    assert_eq!(registry.ledger.issued.len(), 1000);
    assert_eq!(registry.state_of(5000), SubmissionState::NotSubmitted);
    // Another band still has room, also for the user who was turned away.
    assert_eq!(registry.submit(5000, &application(FormType::Regular)), Ok(()));
    assert_eq!(registry.forms.last().unwrap().examination_number, 1001);
}
