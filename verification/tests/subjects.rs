use marust::form_dto::AchievementLevel;
use marust::form_dto::SubjectRequest;
use marust::subject::achievement_level_from_score;
use marust::subject::subject_entity_list_from_requests;
use marust::subject::subject_list_from_requests;
use marust::subject::Subject;

fn row(
    name: &str,
    l21: Option<AchievementLevel>,
    l22: Option<AchievementLevel>,
    l31: Option<AchievementLevel>,
    score: Option<i32>,
) -> SubjectRequest {
    SubjectRequest {
        subject_name: name.to_string(),
        achievement_level21: l21,
        achievement_level22: l22,
        achievement_level31: l31,
        score,
    }
}

fn named(name: &str, level: AchievementLevel) -> Subject {
    Subject { grade: 2, semester: 1, subject_name: name.to_string(), achievement_level: level }
}

#[test]
fn level_thresholds() {
    assert_eq!(achievement_level_from_score(100), AchievementLevel::A);
    assert_eq!(achievement_level_from_score(90), AchievementLevel::A);
    assert_eq!(achievement_level_from_score(89), AchievementLevel::B);
    assert_eq!(achievement_level_from_score(80), AchievementLevel::B);
    assert_eq!(achievement_level_from_score(79), AchievementLevel::C);
    assert_eq!(achievement_level_from_score(70), AchievementLevel::C);
    assert_eq!(achievement_level_from_score(69), AchievementLevel::D);
    assert_eq!(achievement_level_from_score(60), AchievementLevel::D);
    assert_eq!(achievement_level_from_score(59), AchievementLevel::E);
    assert_eq!(achievement_level_from_score(0), AchievementLevel::E);
    assert_eq!(achievement_level_from_score(-5), AchievementLevel::E);
    assert_eq!(achievement_level_from_score(i32::MAX), AchievementLevel::A);
}

#[test]
fn level_weights() {
    assert_eq!(AchievementLevel::A.weight(), 5);
    assert_eq!(AchievementLevel::B.weight(), 4);
    assert_eq!(AchievementLevel::C.weight(), 3);
    assert_eq!(AchievementLevel::D.weight(), 2);
    assert_eq!(AchievementLevel::E.weight(), 1);
}

#[test]
fn the_double_weighted_subject_counts_twice() {
    let math = named("수학", AchievementLevel::B);
    assert_eq!(math.count(), 2);
    assert_eq!(math.score(), 8);
    let other = named("국어", AchievementLevel::B);
    assert_eq!(other.count(), 1);
    assert_eq!(other.score(), 4);
    let near = named("수학 ", AchievementLevel::A);
    assert_eq!(near.count(), 1);
    assert_eq!(near.score(), 5);
}

#[test]
fn a_row_with_a_raw_score_gives_one_record_of_grade_zero() {
    let rows = vec![row("국어", Some(AchievementLevel::E), None, Some(AchievementLevel::E), Some(85))];
    let list = subject_list_from_requests(&rows);
    assert_eq!(list.len(), 1);
    assert_eq!(list[0].grade, 0);
    assert_eq!(list[0].semester, 0);
    assert_eq!(list[0].subject_name, "국어");
    assert_eq!(list[0].achievement_level, AchievementLevel::B);
}

#[test]
fn a_row_with_levels_gives_one_record_for_each_term() {
    let rows = vec![row(
        "수학",
        Some(AchievementLevel::A),
        Some(AchievementLevel::B),
        Some(AchievementLevel::C),
        None,
    )];
    let list = subject_list_from_requests(&rows);
    assert_eq!(list.len(), 3);
    assert_eq!((list[0].grade, list[0].semester, list[0].achievement_level), (2, 1, AchievementLevel::A));
    assert_eq!((list[1].grade, list[1].semester, list[1].achievement_level), (2, 2, AchievementLevel::B));
    assert_eq!((list[2].grade, list[2].semester, list[2].achievement_level), (3, 1, AchievementLevel::C));
    assert!(list.iter().all(|s| s.subject_name == "수학"));
}

#[test]
fn absent_levels_give_no_record() {
    let rows = vec![
        row("국어", None, Some(AchievementLevel::D), None, None),
        row("영어", None, None, None, None),
        row("과학", None, None, Some(AchievementLevel::A), None),
    ];
    let list = subject_list_from_requests(&rows);
    assert_eq!(list.len(), 2);
    assert_eq!(list[0].subject_name, "국어");
    assert_eq!((list[0].grade, list[0].semester), (2, 2));
    assert_eq!(list[1].subject_name, "과학");
    assert_eq!((list[1].grade, list[1].semester), (3, 1));
}

#[test]
fn an_empty_table_gives_no_subjects() {
    assert!(subject_list_from_requests(&[]).is_empty());
    assert!(subject_entity_list_from_requests(&[]).is_empty());
}

#[test]
fn stored_rows_keep_the_raw_score_and_name_the_level() {
    let rows = vec![
        row("국어", None, None, None, Some(59)),
        row("수학", Some(AchievementLevel::A), None, Some(AchievementLevel::C), None),
    ];
    let list = subject_entity_list_from_requests(&rows);
    assert_eq!(list.len(), 3);
    assert_eq!(list[0].grade, 0);
    assert_eq!(list[0].semester, 0);
    assert_eq!(list[0].subject_name, "국어");
    assert_eq!(list[0].achievement_level, "E");
    assert_eq!(list[0].score, Some(59));
    assert_eq!((list[1].grade, list[1].semester), (2, 1));
    assert_eq!(list[1].achievement_level, "A");
    assert_eq!(list[1].score, None);
    assert_eq!((list[2].grade, list[2].semester), (3, 1));
    assert_eq!(list[2].achievement_level, "C");
    assert_eq!(list[2].subject_name, "수학");
}

#[test]
fn stored_rows_match_the_subject_list() {
    let rows = vec![
        row("a", Some(AchievementLevel::B), Some(AchievementLevel::C), None, None),
        row("b", None, None, None, Some(91)),
        row("c", None, None, Some(AchievementLevel::D), None),
    ];
    let subjects = subject_list_from_requests(&rows);
    let entities = subject_entity_list_from_requests(&rows);
    assert_eq!(subjects.len(), entities.len());
    for (s, e) in subjects.iter().zip(entities.iter()) {
        assert_eq!(s.grade, e.grade);
        assert_eq!(s.semester, e.semester);
        assert_eq!(s.subject_name, e.subject_name);
        assert_eq!(s.achievement_level.name(), e.achievement_level);
    }
}
