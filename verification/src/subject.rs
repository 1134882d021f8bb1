//! The canonical subject list: one record per subject and term, built from
//! the rows of the grade table, and the weight that each record carries.
use vstd::prelude::*;
use crate::form_dto::AchievementLevel;
use crate::form_dto::SubjectRequest;

verus! {

/// One subject in one term. A record built from a raw score has grade 0 and
/// semester 0; every other record has grade 2 or 3 and semester 1 or 2.
#[derive(Debug, Clone)]
pub struct Subject {
    pub grade: i32,
    pub semester: i32,
    pub subject_name: String,
    pub achievement_level: AchievementLevel,
}

/// One stored row of the subject table.
#[derive(Debug, Clone)]
pub struct SubjectEntity {
    pub grade: i32,
    pub semester: i32,
    pub subject_name: String,
    pub achievement_level: String,
    pub score: Option<i32>,
}

/// What a stored subject row holds, with its texts as character sequences.
pub struct SubjectEntityView {
    pub grade: i32,
    pub semester: i32,
    pub subject_name: Seq<char>,
    pub achievement_level: Seq<char>,
    pub score: Option<i32>,
}

impl View for SubjectEntity {
    type V = SubjectEntityView;

    open spec fn view(&self) -> SubjectEntityView {
        SubjectEntityView {
            grade: self.grade,
            semester: self.semester,
            subject_name: self.subject_name@,
            achievement_level: self.achievement_level@,
            score: self.score,
        }
    }
}

/// The views of a list of stored subject rows, in order.
pub open spec fn entity_views(entities: Seq<SubjectEntity>) -> Seq<SubjectEntityView> {
    Seq::new(entities.len(), |i: int| entities[i]@)
}

/// The name of the subject that counts twice.
pub open spec fn double_weighted_subject() -> Seq<char> {
    "수학"@
}

/// The level that a raw score out of 100 stands for.
pub open spec fn spec_achievement_level_from_score(score: i32) -> AchievementLevel {
    if score >= 90 {
        AchievementLevel::A
    } else if score >= 80 {
        AchievementLevel::B
    } else if score >= 70 {
        AchievementLevel::C
    } else if score >= 60 {
        AchievementLevel::D
    } else {
        AchievementLevel::E
    }
}

#[verifier::when_used_as_spec(spec_achievement_level_from_score)]
pub fn achievement_level_from_score(score: i32) -> (level: AchievementLevel)
    ensures
        level == spec_achievement_level_from_score(score),
{
    if score >= 90 {
        AchievementLevel::A
    } else if score >= 80 {
        AchievementLevel::B
    } else if score >= 70 {
        AchievementLevel::C
    } else if score >= 60 {
        AchievementLevel::D
    } else {
        AchievementLevel::E
    }
}

impl Subject {
    /// How often the record counts in an average: twice for the
    /// double-weighted subject, once for any other.
    pub open spec fn spec_count(&self) -> int {
        if self.subject_name@ == double_weighted_subject() {
            2
        } else {
            1
        }
    }

    /// The points the record adds to a sum: the weight of its level, times
    /// its count.
    pub open spec fn spec_score(&self) -> int {
        self.achievement_level.spec_weight() * self.spec_count()
    }

    /// Whether the record belongs to the given term.
    pub open spec fn in_term(&self, grade: i32, semester: i32) -> bool {
        self.grade == grade && self.semester == semester
    }

    pub fn is_double_weighted(&self) -> (yes: bool)
        ensures
            yes == (self.subject_name@ == double_weighted_subject()),
    {
        let name: String = "수학".to_owned();
        self.subject_name == name
    }

    pub fn score(&self) -> (points: i32)
        ensures
            points == self.spec_score(),
            1 <= points <= 10,
    {
        let base: i32 = self.achievement_level.weight();
        if self.is_double_weighted() {
            base * 2
        } else {
            base
        }
    }

    pub fn count(&self) -> (count: i32)
        ensures
            count == self.spec_count(),
            1 <= count <= 2,
    {
        if self.is_double_weighted() {
            2
        } else {
            1
        }
    }
}

/// The record of one term of a row, if the row has a level for that term.
pub open spec fn term_subject(
    row: SubjectRequest,
    level: Option<AchievementLevel>,
    grade: i32,
    semester: i32,
) -> Seq<Subject> {
    match level {
        Some(level) => seq![
            Subject { grade, semester, subject_name: row.subject_name, achievement_level: level },
        ],
        None => Seq::empty(),
    }
}

/// The records of one row. A row with a raw score gives one record with
/// grade 0 and semester 0, whatever levels it also holds; any other row
/// gives one record for each term that has a level, in term order.
pub open spec fn row_subjects(row: SubjectRequest) -> Seq<Subject> {
    match row.score {
        Some(score) => seq![
            Subject {
                grade: 0,
                semester: 0,
                subject_name: row.subject_name,
                achievement_level: spec_achievement_level_from_score(score),
            },
        ],
        None => term_subject(row, row.achievement_level21, 2, 1) + term_subject(
            row,
            row.achievement_level22,
            2,
            2,
        ) + term_subject(row, row.achievement_level31, 3, 1),
    }
}

/// The canonical subject list of a grade table: the records of its rows, in
/// row order.
pub open spec fn normalized_subjects(rows: Seq<SubjectRequest>) -> Seq<Subject>
    decreases rows.len(),
{
    if rows.len() == 0 {
        Seq::empty()
    } else {
        normalized_subjects(rows.drop_last()) + row_subjects(rows.last())
    }
}

/// The stored row of one term of a row, if the row has a level for that
/// term.
pub open spec fn term_entity(
    row: SubjectRequest,
    level: Option<AchievementLevel>,
    grade: i32,
    semester: i32,
) -> Seq<SubjectEntityView> {
    match level {
        Some(level) => seq![
            SubjectEntityView {
                grade,
                semester,
                subject_name: row.subject_name@,
                achievement_level: level.spec_name(),
                score: None,
            },
        ],
        None => Seq::empty(),
    }
}

/// The stored rows of one row of the grade table: as `row_subjects`, with
/// the level by its name and the raw score kept where there is one.
pub open spec fn row_entities(row: SubjectRequest) -> Seq<SubjectEntityView> {
    match row.score {
        Some(score) => seq![
            SubjectEntityView {
                grade: 0,
                semester: 0,
                subject_name: row.subject_name@,
                achievement_level: spec_achievement_level_from_score(score).spec_name(),
                score: Some(score),
            },
        ],
        None => term_entity(row, row.achievement_level21, 2, 1) + term_entity(
            row,
            row.achievement_level22,
            2,
            2,
        ) + term_entity(row, row.achievement_level31, 3, 1),
    }
}

/// The stored subject rows of a grade table, in row order.
pub open spec fn subject_entities(rows: Seq<SubjectRequest>) -> Seq<SubjectEntityView>
    decreases rows.len(),
{
    if rows.len() == 0 {
        Seq::empty()
    } else {
        subject_entities(rows.drop_last()) + row_entities(rows.last())
    }
}

/// A raw score and term levels never mix in the records of one row: a row
/// gives either one record of grade 0 and semester 0, or at most three
/// records, each of grade 2 or 3 and semester 1 or 2, in term order.
pub proof fn lemma_row_subjects_shape(row: SubjectRequest)
    ensures
        row.score is Some ==> row_subjects(row).len() == 1 && row_subjects(row)[0].grade == 0
            && row_subjects(row)[0].semester == 0,
        row.score is None ==> row_subjects(row).len() <= 3 && forall|i: int|
            0 <= i < row_subjects(row).len() ==> {
                let subject = #[trigger] row_subjects(row)[i];
                ||| subject.in_term(2, 1)
                ||| subject.in_term(2, 2)
                ||| subject.in_term(3, 1)
            },
        forall|i: int|
            0 <= i < row_subjects(row).len() ==> (#[trigger] row_subjects(row)[i]).subject_name
                == row.subject_name,
{
}

/// The stored rows of one row of the grade table are its records, one for
/// one: the same grade, semester and subject name, and the level by its
/// name.
pub proof fn lemma_row_entities_match_subjects(row: SubjectRequest)
    ensures
        row_entities(row).len() == row_subjects(row).len(),
        forall|i: int|
            0 <= i < row_subjects(row).len() ==> {
                let subject = #[trigger] row_subjects(row)[i];
                let entity = row_entities(row)[i];
                &&& entity.grade == subject.grade
                &&& entity.semester == subject.semester
                &&& entity.subject_name == subject.subject_name@
                &&& entity.achievement_level == subject.achievement_level.spec_name()
                &&& entity.score == row.score
            },
{
}

/// A row gives at most three records, so a table of `n` rows gives at
/// most `3 * n`; and it gives as many stored rows as records.
pub proof fn lemma_normalized_length(rows: Seq<SubjectRequest>)
    ensures
        normalized_subjects(rows).len() <= 3 * rows.len(),
        subject_entities(rows).len() == normalized_subjects(rows).len(),
    decreases rows.len(),
{
    if rows.len() > 0 {
        lemma_normalized_length(rows.drop_last());
    }
}

/// Builds the canonical subject list of a grade table.
pub fn subject_list_from_requests(reqs: &[SubjectRequest]) -> (list: Vec<Subject>)
    ensures
        list@ == normalized_subjects(reqs@),
{
    let mut list: Vec<Subject> = Vec::new();
    let mut i: usize = 0;
    while i < reqs.len()
        invariant
            i <= reqs.len(),
            list@ == normalized_subjects(reqs@.take(i as int)),
        decreases reqs.len() - i,
    {
        let req = &reqs[i];
        let ghost before = list@;
        proof {
            assert(reqs@.take(i + 1).drop_last() == reqs@.take(i as int));
            assert(reqs@.take(i + 1).last() == *req);
        }
        if let Some(score) = req.score {
            let level = achievement_level_from_score(score);
            list.push(
                Subject {
                    grade: 0,
                    semester: 0,
                    subject_name: req.subject_name.clone(),
                    achievement_level: level,
                },
            );
        } else {
            if let Some(l) = req.achievement_level21 {
                list.push(
                    Subject {
                        grade: 2,
                        semester: 1,
                        subject_name: req.subject_name.clone(),
                        achievement_level: l,
                    },
                );
            }
            if let Some(l) = req.achievement_level22 {
                list.push(
                    Subject {
                        grade: 2,
                        semester: 2,
                        subject_name: req.subject_name.clone(),
                        achievement_level: l,
                    },
                );
            }
            if let Some(l) = req.achievement_level31 {
                list.push(
                    Subject {
                        grade: 3,
                        semester: 1,
                        subject_name: req.subject_name.clone(),
                        achievement_level: l,
                    },
                );
            }
        }
        assert(list@ == before + row_subjects(*req));
        i += 1;
    }
    assert(reqs@.take(reqs@.len() as int) == reqs@);
    list
}

/// Builds the stored subject rows of a grade table.
pub fn subject_entity_list_from_requests(reqs: &[SubjectRequest]) -> (list: Vec<SubjectEntity>)
    ensures
        entity_views(list@) == subject_entities(reqs@),
{
    let mut list: Vec<SubjectEntity> = Vec::new();
    let mut i: usize = 0;
    while i < reqs.len()
        invariant
            i <= reqs.len(),
            entity_views(list@) == subject_entities(reqs@.take(i as int)),
        decreases reqs.len() - i,
    {
        let req = &reqs[i];
        let ghost before = list@;
        proof {
            assert(reqs@.take(i + 1).drop_last() == reqs@.take(i as int));
            assert(reqs@.take(i + 1).last() == *req);
        }
        if let Some(score) = req.score {
            let level = achievement_level_from_score(score);
            list.push(
                SubjectEntity {
                    grade: 0,
                    semester: 0,
                    subject_name: req.subject_name.clone(),
                    achievement_level: level.name(),
                    score: Some(score),
                },
            );
        } else {
            if let Some(l) = req.achievement_level21 {
                list.push(
                    SubjectEntity {
                        grade: 2,
                        semester: 1,
                        subject_name: req.subject_name.clone(),
                        achievement_level: l.name(),
                        score: None,
                    },
                );
            }
            if let Some(l) = req.achievement_level22 {
                list.push(
                    SubjectEntity {
                        grade: 2,
                        semester: 2,
                        subject_name: req.subject_name.clone(),
                        achievement_level: l.name(),
                        score: None,
                    },
                );
            }
            if let Some(l) = req.achievement_level31 {
                list.push(
                    SubjectEntity {
                        grade: 3,
                        semester: 1,
                        subject_name: req.subject_name.clone(),
                        achievement_level: l.name(),
                        score: None,
                    },
                );
            }
        }
        assert(entity_views(list@) == entity_views(before) + row_entities(*req));
        i += 1;
    }
    assert(reqs@.take(reqs@.len() as int) == reqs@);
    list
}

} // verus!
