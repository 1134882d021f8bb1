//! The four partial scores of an application and the first-round score.
//!
//! The subject-grade score is an exact fraction until it is rounded to
//! thousandths of a point; the three other scores are whole points.
use vstd::prelude::*;
use crate::form_dto::Certificate;
use crate::form_dto::GradeRequest;
use crate::form_dto::GraduationType;
use crate::form_dto::SubmitFormRequest;
use crate::rational::lemma_plus_within;
use crate::rational::lemma_round3_plus_whole;
use crate::rational::lemma_round3_splits;
use crate::rational::lemma_round3_within;
use crate::rational::lemma_times_within;
use crate::rational::lemma_within_widens;
use crate::rational::round_half_away;
use crate::rational::Fraction;
use crate::rational::Ratio;
use crate::subject::Subject;
use crate::track::FormType;
use crate::track::ScoringMode;

verus! {

pub const MAX_BONUS_SCORE: i32 = 4;

pub const DEFAULT_ATTENDANCE_SCORE: i32 = 14;

pub const MIN_ATTENDANCE_SCORE: i32 = 0;

pub const MAX_ATTENDANCE_SCORE: i32 = 18;

pub const MAX_ABSENCE_COUNT: i64 = 16;

pub const DEFAULT_VOLUNTEER_SCORE: i32 = 14;

pub const MIN_VOLUNTEER_SCORE: i32 = 0;

pub const MAX_VOLUNTEER_SCORE: i32 = 18;

pub const MIN_VOLUNTEER_TIME: i64 = 15;

pub const MAX_VOLUNTEER_TIME: i64 = 30;

/// The largest subject list that can be scored. With it every intermediate
/// of the exact subject-grade fraction fits in 128 bits.
pub const MAX_SUBJECTS: usize = 0xFFFF_FFFF;

/// The scores of one application. The two scores with decimals are in
/// thousandths of a point.
#[derive(Debug, Clone, Copy, PartialEq, Eq, Structural)]
pub struct Score {
    pub subject_grade_score: u32,
    pub third_grade_first_semester_subject_grade_score: Option<u32>,
    pub attendance_score: i32,
    pub volunteer_score: i32,
    pub bonus_score: i32,
    pub first_round_score: u32,
}

/// The attendance tallies of the three terms, added up.
#[derive(Debug, Clone, Copy, PartialEq, Eq, Structural)]
pub struct Attendance {
    pub absence_count: i64,
    pub lateness_count: i64,
    pub early_leave_count: i64,
    pub class_absence_count: i64,
}

impl Score {
    /// Every score is in its range: the subject-grade score at most 200
    /// points, the first-term average of the third grade at most 5,
    /// attendance and volunteer between 0 and 18, bonus between 0 and 4.
    pub open spec fn is_in_range(&self) -> bool {
        &&& self.subject_grade_score <= 200_000
        &&& self.third_grade_first_semester_subject_grade_score matches Some(average) ==> average
            <= 5_000
        &&& 0 <= self.attendance_score <= 18
        &&& 0 <= self.volunteer_score <= 18
        &&& 0 <= self.bonus_score <= 4
        &&& self.first_round_score <= 240_000
    }

    /// The first-round score is the sum of the four partial scores.
    pub open spec fn is_consistent(&self) -> bool {
        self.first_round_score == self.subject_grade_score + 1000 * (self.attendance_score
            + self.volunteer_score + self.bonus_score)
    }
}

// ---------------------------------------------------------------------------
// Averages
// ---------------------------------------------------------------------------
/// Whether an average takes the record in: every record where `only` is
/// `None`, else the records of that (grade, semester).
pub open spec fn selects(subject: Subject, only: Option<(i32, i32)>) -> bool {
    match only {
        Some((grade, semester)) => subject.in_term(grade, semester),
        None => true,
    }
}

/// The points of the selected records, added up.
pub open spec fn weighted_total(subjects: Seq<Subject>, only: Option<(i32, i32)>) -> int
    decreases subjects.len(),
{
    if subjects.len() == 0 {
        0
    } else {
        weighted_total(subjects.drop_last(), only) + if selects(subjects.last(), only) {
            subjects.last().spec_score()
        } else {
            0
        }
    }
}

/// The counts of the selected records, added up.
pub open spec fn weighted_count(subjects: Seq<Subject>, only: Option<(i32, i32)>) -> int
    decreases subjects.len(),
{
    if subjects.len() == 0 {
        0
    } else {
        weighted_count(subjects.drop_last(), only) + if selects(subjects.last(), only) {
            subjects.last().spec_count()
        } else {
            0
        }
    }
}

/// The weighted average of the selected records: their points over their
/// counts, and 0 where no record is selected.
pub open spec fn spec_average(subjects: Seq<Subject>, only: Option<(i32, i32)>) -> Ratio {
    if weighted_count(subjects, only) == 0 {
        Ratio::whole(0)
    } else {
        Ratio::of(weighted_total(subjects, only), weighted_count(subjects, only))
    }
}

/// The average over all records.
pub open spec fn overall_average(subjects: Seq<Subject>) -> Ratio {
    spec_average(subjects, None)
}

/// The average over the records of one term.
pub open spec fn term_average(subjects: Seq<Subject>, grade: i32, semester: i32) -> Ratio {
    spec_average(subjects, Some((grade, semester)))
}

/// The largest denominator of an average over `len` records.
pub open spec fn average_den_limit(len: int) -> int {
    if len == 0 {
        1
    } else {
        2 * len
    }
}

/// A record counts once or twice, and adds between one and five points for
/// each time it counts.
pub proof fn lemma_subject_weight_bounds(subject: Subject)
    ensures
        1 <= subject.spec_count() <= 2,
        subject.spec_count() <= subject.spec_score() <= 5 * subject.spec_count(),
{
}

/// An average over `len` records is 0 or lies between 1 and 5, and its
/// denominator is at most twice `len`.
pub proof fn lemma_average_bounds(subjects: Seq<Subject>, only: Option<(i32, i32)>)
    ensures
        0 <= weighted_count(subjects, only) <= 2 * subjects.len(),
        weighted_count(subjects, only) <= weighted_total(subjects, only) <= 5 * weighted_count(
            subjects,
            only,
        ),
        spec_average(subjects, only).within(average_limit(), average_den_limit(subjects.len() as int)),
    decreases subjects.len(),
{
    if subjects.len() > 0 {
        lemma_average_bounds(subjects.drop_last(), only);
        lemma_subject_weight_bounds(subjects.last());
    }
}

fn weighted_average(subjects: &[Subject], only: Option<(i32, i32)>) -> (average: Fraction)
    ensures
        average@ == spec_average(subjects@, only),
        average@.within(average_limit(), average_den_limit(subjects@.len() as int)),
{
    let mut total: u128 = 0;
    let mut count: u128 = 0;
    let mut i: usize = 0;
    while i < subjects.len()
        invariant
            i <= subjects.len(),
            total == weighted_total(subjects@.take(i as int), only),
            count == weighted_count(subjects@.take(i as int), only),
        decreases subjects.len() - i,
    {
        let subject = &subjects[i];
        proof {
            assert(subjects@.take(i + 1).drop_last() == subjects@.take(i as int));
            assert(subjects@.take(i + 1).last() == *subject);
            lemma_average_bounds(subjects@.take(i as int), only);
            lemma_subject_weight_bounds(*subject);
        }
        let selected: bool = match only {
            Some((grade, semester)) => subject.grade == grade && subject.semester == semester,
            None => true,
        };
        if selected {
            total = total + subject.score() as u128;
            count = count + subject.count() as u128;
        }
        i += 1;
    }
    proof {
        assert(subjects@.take(subjects@.len() as int) == subjects@);
        lemma_average_bounds(subjects@, only);
    }
    if count == 0 {
        Fraction::whole(0)
    } else {
        Fraction::of(total, count)
    }
}

/// The weighted average over all records.
pub fn average_score(subjects: &[Subject]) -> (average: Fraction)
    ensures
        average@ == overall_average(subjects@),
        average@.within(average_limit(), average_den_limit(subjects@.len() as int)),
{
    weighted_average(subjects, None)
}

/// The weighted average over the records of one term.
pub fn subject_map_score(subjects: &[Subject], grade: i32, semester: i32) -> (average: Fraction)
    ensures
        average@ == term_average(subjects@, grade, semester),
        average@.within(average_limit(), average_den_limit(subjects@.len() as int)),
{
    weighted_average(subjects, Some((grade, semester)))
}

// ---------------------------------------------------------------------------
// Subject-grade score
// ---------------------------------------------------------------------------
/// The subject-grade score under the regular formula, in points.
///
/// Graduates by qualification examination: 80 + 24 x the overall average.
/// All others: 80 + 4.8 x (s21 + s22) + 14.4 x s31, where s21, s22 and s31
/// are the averages of the three terms.
pub open spec fn spec_regular_score(subjects: Seq<Subject>, graduation: GraduationType) -> Ratio {
    if graduation is QualificationExamination {
        Ratio::whole(80).plus(Ratio::whole(24).times(overall_average(subjects)))
    } else {
        let s21 = term_average(subjects, 2, 1);
        let s22 = term_average(subjects, 2, 2);
        let s31 = term_average(subjects, 3, 1);
        Ratio::whole(80).plus(Ratio::of(48, 10).times(s21.plus(s22))).plus(
            Ratio::of(144, 10).times(s31),
        )
    }
}

/// The subject-grade score under the special formula, in points.
///
/// Graduates by qualification examination: 48 + 14.4 x the overall average.
/// All others: 48 + 2.88 x (s21 + s22) + 8.64 x s31.
pub open spec fn spec_special_score(subjects: Seq<Subject>, graduation: GraduationType) -> Ratio {
    if graduation is QualificationExamination {
        Ratio::whole(48).plus(Ratio::of(144, 10).times(overall_average(subjects)))
    } else {
        let s21 = term_average(subjects, 2, 1);
        let s22 = term_average(subjects, 2, 2);
        let s31 = term_average(subjects, 3, 1);
        Ratio::whole(48).plus(Ratio::of(288, 100).times(s21.plus(s22))).plus(
            Ratio::of(864, 100).times(s31),
        )
    }
}

/// The subject-grade score of an application, in points, by the formula of
/// its track's scoring mode.
pub open spec fn spec_subject_grade_score(
    form_type: FormType,
    graduation: GraduationType,
    subjects: Seq<Subject>,
) -> Ratio {
    match form_type.spec_scoring_mode() {
        ScoringMode::RegularFormula => spec_regular_score(subjects, graduation),
        ScoringMode::SpecialFormula => spec_special_score(subjects, graduation),
    }
}

/// The largest denominator of a term average that is scored: twice
/// `MAX_SUBJECTS`, rounded up to a power of two.
pub open spec fn term_den_limit() -> int {
    0x2_0000_0000
}

/// The largest denominator of a subject-grade score.
pub open spec fn score_den_limit() -> int {
    10000 * (term_den_limit() * term_den_limit() * term_den_limit())
}

/// The greatest subject-grade score, in hundredths of a point: 200 points,
/// which the regular formula gives for the best level in every subject.
pub open spec fn score_limit() -> int {
    20000
}

/// The greatest subject-grade score under the special formula, in
/// hundredths of a point: 120 points.
pub open spec fn special_score_limit() -> int {
    12000
}

/// The greatest average, in hundredths of a point: 5 points.
pub open spec fn average_limit() -> int {
    500
}

/// The regular formula on the averages `early` (the sum of the two early
/// term averages) and `late`, or on the overall average alone, stays
/// within 200 points; the special formula within 120.
proof fn lemma_formula_bounds(s21: Ratio, s22: Ratio, s31: Ratio, all: Ratio, limit: int)
    requires
        s21.within(average_limit(), limit),
        s22.within(average_limit(), limit),
        s31.within(average_limit(), limit),
        all.within(average_limit(), limit),
    ensures
        s21.plus(s22).within(1000, limit * limit),
        Ratio::of(48, 10).times(s21.plus(s22)).within(4800, 10 * (limit * limit)),
        Ratio::whole(80).plus(Ratio::of(48, 10).times(s21.plus(s22))).within(
            12800,
            1 * (10 * (limit * limit)),
        ),
        Ratio::of(144, 10).times(s31).within(7200, 10 * limit),
        Ratio::whole(80).plus(Ratio::of(48, 10).times(s21.plus(s22))).plus(
            Ratio::of(144, 10).times(s31),
        ).within(score_limit(), (1 * (10 * (limit * limit))) * (10 * limit)),
        Ratio::whole(24).times(all).within(12000, 1 * limit),
        Ratio::whole(80).plus(Ratio::whole(24).times(all)).within(score_limit(), 1 * (1 * limit)),
        Ratio::of(288, 100).times(s21.plus(s22)).within(2880, 100 * (limit * limit)),
        Ratio::whole(48).plus(Ratio::of(288, 100).times(s21.plus(s22))).within(
            7680,
            1 * (100 * (limit * limit)),
        ),
        Ratio::of(864, 100).times(s31).within(4320, 100 * limit),
        Ratio::whole(48).plus(Ratio::of(288, 100).times(s21.plus(s22))).plus(
            Ratio::of(864, 100).times(s31),
        ).within(special_score_limit(), (1 * (100 * (limit * limit))) * (100 * limit)),
        Ratio::of(144, 10).times(all).within(7200, 10 * limit),
        Ratio::whole(48).plus(Ratio::of(144, 10).times(all)).within(
            special_score_limit(),
            1 * (10 * limit),
        ),
{
    let early = s21.plus(s22);
    lemma_plus_within(s21, s22, 500, 500, limit, limit);
    // regular
    lemma_times_within(Ratio::of(48, 10), early, 480, 1000, 4800, 10, limit * limit);
    lemma_plus_within(
        Ratio::whole(80),
        Ratio::of(48, 10).times(early),
        8000,
        4800,
        1,
        10 * (limit * limit),
    );
    lemma_times_within(Ratio::of(144, 10), s31, 1440, 500, 7200, 10, limit);
    lemma_plus_within(
        Ratio::whole(80).plus(Ratio::of(48, 10).times(early)),
        Ratio::of(144, 10).times(s31),
        12800,
        7200,
        1 * (10 * (limit * limit)),
        10 * limit,
    );
    lemma_times_within(Ratio::whole(24), all, 2400, 500, 12000, 1, limit);
    lemma_plus_within(Ratio::whole(80), Ratio::whole(24).times(all), 8000, 12000, 1, 1 * limit);
    // special
    lemma_times_within(Ratio::of(288, 100), early, 288, 1000, 2880, 100, limit * limit);
    lemma_plus_within(
        Ratio::whole(48),
        Ratio::of(288, 100).times(early),
        4800,
        2880,
        1,
        100 * (limit * limit),
    );
    lemma_times_within(Ratio::of(864, 100), s31, 864, 500, 4320, 100, limit);
    lemma_plus_within(
        Ratio::whole(48).plus(Ratio::of(288, 100).times(early)),
        Ratio::of(864, 100).times(s31),
        7680,
        4320,
        1 * (100 * (limit * limit)),
        100 * limit,
    );
    lemma_times_within(Ratio::of(144, 10), all, 1440, 500, 7200, 10, limit);
    lemma_plus_within(Ratio::whole(48), Ratio::of(144, 10).times(all), 4800, 7200, 1, 10 * limit);
}

/// A subject-grade score is not negative and at most 200 points under the
/// regular formula, and at most 120 points under the special formula.
pub proof fn lemma_subject_grade_score_bounds(
    form_type: FormType,
    graduation: GraduationType,
    subjects: Seq<Subject>,
)
    ensures
        spec_subject_grade_score(form_type, graduation, subjects).valid(),
        spec_subject_grade_score(form_type, graduation, subjects).num >= 0,
        0 <= spec_subject_grade_score(form_type, graduation, subjects).round3() <= 200_000,
        form_type.spec_scoring_mode() == ScoringMode::SpecialFormula ==> spec_subject_grade_score(
            form_type,
            graduation,
            subjects,
        ).round3() <= 120_000,
{
    let limit = average_den_limit(subjects.len() as int);
    lemma_average_bounds(subjects, None);
    lemma_average_bounds(subjects, Some((2i32, 1i32)));
    lemma_average_bounds(subjects, Some((2i32, 2i32)));
    lemma_average_bounds(subjects, Some((3i32, 1i32)));
    lemma_formula_bounds(
        term_average(subjects, 2, 1),
        term_average(subjects, 2, 2),
        term_average(subjects, 3, 1),
        overall_average(subjects),
        limit,
    );
    let score = spec_subject_grade_score(form_type, graduation, subjects);
    if form_type.spec_scoring_mode() == ScoringMode::SpecialFormula {
        if graduation is QualificationExamination {
            lemma_round3_within(score, special_score_limit(), 1 * (10 * limit));
        } else {
            lemma_round3_within(
                score,
                special_score_limit(),
                (1 * (100 * (limit * limit))) * (100 * limit),
            );
        }
    } else {
        if graduation is QualificationExamination {
            lemma_round3_within(score, score_limit(), 1 * (1 * limit));
        } else {
            lemma_round3_within(
                score,
                score_limit(),
                (1 * (10 * (limit * limit))) * (10 * limit),
            );
        }
    }
}

/// The three term averages and the overall average of a list that can be
/// scored, with the bounds that keep every product in 128 bits.
proof fn lemma_scorable_averages(subjects: Seq<Subject>)
    requires
        subjects.len() <= MAX_SUBJECTS,
    ensures
        term_average(subjects, 2, 1).within(average_limit(), term_den_limit()),
        term_average(subjects, 2, 2).within(average_limit(), term_den_limit()),
        term_average(subjects, 3, 1).within(average_limit(), term_den_limit()),
        overall_average(subjects).within(average_limit(), term_den_limit()),
{
    let len_limit = average_den_limit(subjects.len() as int);
    lemma_average_bounds(subjects, None);
    lemma_average_bounds(subjects, Some((2i32, 1i32)));
    lemma_average_bounds(subjects, Some((2i32, 2i32)));
    lemma_average_bounds(subjects, Some((3i32, 1i32)));
    lemma_within_widens(term_average(subjects, 2, 1), 500, len_limit, 500, term_den_limit());
    lemma_within_widens(term_average(subjects, 2, 2), 500, len_limit, 500, term_den_limit());
    lemma_within_widens(term_average(subjects, 3, 1), 500, len_limit, 500, term_den_limit());
    lemma_within_widens(overall_average(subjects), 500, len_limit, 500, term_den_limit());
}

pub fn calculate_regular_score(req: &SubmitFormRequest, subjects: &[Subject]) -> (score: Fraction)
    requires
        subjects@.len() <= MAX_SUBJECTS,
    ensures
        score@ == spec_regular_score(subjects@, req.education.graduation_type),
        score@.within(score_limit(), score_den_limit()),
{
    let ghost limit = term_den_limit();
    proof {
        lemma_scorable_averages(subjects@);
        lemma_formula_bounds(
            term_average(subjects@, 2, 1),
            term_average(subjects@, 2, 2),
            term_average(subjects@, 3, 1),
            overall_average(subjects@),
            limit,
        );
    }
    let base = Fraction::whole(80);
    if req.education.graduation_type.is_qualification_examination() {
        let average = average_score(subjects);
        let factor = Fraction::whole(24);
        let weighted = factor.times(&average);
        proof {
            lemma_plus_within(base@, weighted@, 8000, 12000, 1, 1 * limit);
            lemma_within_widens(
                base@.plus(weighted@),
                score_limit(),
                1 * (1 * limit),
                score_limit(),
                score_den_limit(),
            );
        }
        base.plus(&weighted)
    } else {
        let s21 = subject_map_score(subjects, 2, 1);
        let s22 = subject_map_score(subjects, 2, 2);
        let s31 = subject_map_score(subjects, 3, 1);
        let early_factor = Fraction::of(48, 10);
        let late_factor = Fraction::of(144, 10);
        proof {
            lemma_plus_within(s21@, s22@, 500, 500, limit, limit);
        }
        let early = s21.plus(&s22);
        let early_weighted = early_factor.times(&early);
        proof {
            lemma_plus_within(base@, early_weighted@, 8000, 4800, 1, 10 * (limit * limit));
        }
        let with_early = base.plus(&early_weighted);
        let late_weighted = late_factor.times(&s31);
        proof {
            lemma_plus_within(
                with_early@,
                late_weighted@,
                12800,
                7200,
                1 * (10 * (limit * limit)),
                10 * limit,
            );
            lemma_within_widens(
                with_early@.plus(late_weighted@),
                score_limit(),
                (1 * (10 * (limit * limit))) * (10 * limit),
                score_limit(),
                score_den_limit(),
            );
        }
        with_early.plus(&late_weighted)
    }
}

pub fn calculate_special_score(req: &SubmitFormRequest, subjects: &[Subject]) -> (score: Fraction)
    requires
        subjects@.len() <= MAX_SUBJECTS,
    ensures
        score@ == spec_special_score(subjects@, req.education.graduation_type),
        score@.within(special_score_limit(), score_den_limit()),
{
    let ghost limit = term_den_limit();
    proof {
        lemma_scorable_averages(subjects@);
        lemma_formula_bounds(
            term_average(subjects@, 2, 1),
            term_average(subjects@, 2, 2),
            term_average(subjects@, 3, 1),
            overall_average(subjects@),
            limit,
        );
    }
    let base = Fraction::whole(48);
    if req.education.graduation_type.is_qualification_examination() {
        let average = average_score(subjects);
        let factor = Fraction::of(144, 10);
        let weighted = factor.times(&average);
        proof {
            lemma_plus_within(base@, weighted@, 4800, 7200, 1, 10 * limit);
            lemma_within_widens(
                base@.plus(weighted@),
                special_score_limit(),
                1 * (10 * limit),
                special_score_limit(),
                score_den_limit(),
            );
        }
        base.plus(&weighted)
    } else {
        let s21 = subject_map_score(subjects, 2, 1);
        let s22 = subject_map_score(subjects, 2, 2);
        let s31 = subject_map_score(subjects, 3, 1);
        let early_factor = Fraction::of(288, 100);
        let late_factor = Fraction::of(864, 100);
        proof {
            lemma_plus_within(s21@, s22@, 500, 500, limit, limit);
        }
        let early = s21.plus(&s22);
        let early_weighted = early_factor.times(&early);
        proof {
            lemma_plus_within(base@, early_weighted@, 4800, 2880, 1, 100 * (limit * limit));
        }
        let with_early = base.plus(&early_weighted);
        let late_weighted = late_factor.times(&s31);
        proof {
            lemma_plus_within(
                with_early@,
                late_weighted@,
                7680,
                4320,
                1 * (100 * (limit * limit)),
                100 * limit,
            );
            lemma_within_widens(
                with_early@.plus(late_weighted@),
                special_score_limit(),
                (1 * (100 * (limit * limit))) * (100 * limit),
                special_score_limit(),
                score_den_limit(),
            );
        }
        with_early.plus(&late_weighted)
    }
}

/// The subject-grade score of an application, in points and not yet
/// rounded.
pub fn calculate_subject_grade_score(req: &SubmitFormRequest, subjects: &[Subject]) -> (score:
    Fraction)
    requires
        subjects@.len() <= MAX_SUBJECTS,
    ensures
        score@ == spec_subject_grade_score(
            req.form_type,
            req.education.graduation_type,
            subjects@,
        ),
        score@.within(score_limit(), score_den_limit()),
{
    match req.form_type.scoring_mode() {
        ScoringMode::RegularFormula => calculate_regular_score(req, subjects),
        ScoringMode::SpecialFormula => {
            let score = calculate_special_score(req, subjects);
            proof {
                lemma_within_widens(
                    score@,
                    special_score_limit(),
                    score_den_limit(),
                    score_limit(),
                    score_den_limit(),
                );
            }
            score
        },
    }
}

/// A score of at most 200 points in thousandths, rounded to the nearest
/// thousandth.
pub fn round_to(value: &Fraction) -> (thousandths: u32)
    requires
        value@.within(score_limit(), score_den_limit()),
    ensures
        thousandths == value@.round3(),
        thousandths <= 200_000,
{
    proof {
        lemma_round3_splits(value@);
        lemma_round3_within(value@, score_limit(), score_den_limit());
    }
    let thousandths: u128 = value.round3();
    thousandths as u32
}

// ---------------------------------------------------------------------------
// Attendance, volunteer and bonus scores
// ---------------------------------------------------------------------------
/// The tallies of the three terms added up, where all three are present.
pub open spec fn spec_total_attendance(grade: GradeRequest) -> Option<Attendance> {
    match (grade.attendance1, grade.attendance2, grade.attendance3) {
        (Some(a1), Some(a2), Some(a3)) => Some(
            Attendance {
                absence_count: (a1.absence_count + a2.absence_count + a3.absence_count) as i64,
                lateness_count: (a1.lateness_count + a2.lateness_count + a3.lateness_count) as i64,
                early_leave_count: (a1.early_leave_count + a2.early_leave_count
                    + a3.early_leave_count) as i64,
                class_absence_count: (a1.class_absence_count + a2.class_absence_count
                    + a3.class_absence_count) as i64,
            },
        ),
        _ => None,
    }
}

/// Absences, with every three of the lesser incidents counted as one more.
pub open spec fn converted_absences(total: Attendance) -> int {
    total.absence_count + (total.lateness_count + total.early_leave_count
        + total.class_absence_count) / 3
}

/// The attendance score: 14 for a graduate by qualification examination or
/// where a term is missing; else 18 less the converted absences, and 0
/// above 16 of them.
pub open spec fn spec_attendance_score(graduation: GraduationType, grade: GradeRequest) -> int {
    if graduation is QualificationExamination {
        14
    } else {
        match spec_total_attendance(grade) {
            Some(total) => if converted_absences(total) > 16 {
                0
            } else {
                18 - converted_absences(total)
            },
            None => 14,
        }
    }
}

/// The volunteer score: 14 for a graduate by qualification examination or
/// where a term is missing; else 0 below 15 hours, 18 above 30, and in
/// between 18 less half an hour-point for each hour short of 30, rounded
/// to a whole number with a tie going up.
pub open spec fn spec_volunteer_score(graduation: GraduationType, grade: GradeRequest) -> int {
    if graduation is QualificationExamination {
        14
    } else {
        match (grade.volunteer_time1, grade.volunteer_time2, grade.volunteer_time3) {
            (Some(t1), Some(t2), Some(t3)) => {
                let total = t1 + t2 + t3;
                if total < 15 {
                    0
                } else if total > 30 {
                    18
                } else {
                    round_half_away(2 * 18 - (30 - total), 2)
                }
            },
            _ => 14,
        }
    }
}

/// The points of a list of certificates, added up.
pub open spec fn certificate_total(certificates: Seq<Certificate>) -> int
    decreases certificates.len(),
{
    if certificates.len() == 0 {
        0
    } else {
        certificate_total(certificates.drop_last()) + certificates.last().spec_score()
    }
}

/// The bonus score: the points of all listed certificates, a certificate
/// that is listed twice counting twice, and at most 4; 0 without a list.
pub open spec fn spec_bonus_score(grade: GradeRequest) -> int {
    match grade.certificate_list {
        Some(list) => if certificate_total(list@) > 4 {
            4
        } else {
            certificate_total(list@)
        },
        None => 0,
    }
}

/// Where a term's attendance is missing the attendance score is 14,
/// whatever the two other terms hold; and so it is for a graduate by
/// qualification examination.
pub proof fn lemma_attendance_default(graduation: GraduationType, grade: GradeRequest)
    requires
        graduation is QualificationExamination || grade.attendance1 is None
            || grade.attendance2 is None || grade.attendance3 is None,
    ensures
        spec_attendance_score(graduation, grade) == 14,
{
}

/// Where a term's volunteer hours are missing the volunteer score is 14,
/// whatever the two other terms hold; and so it is for a graduate by
/// qualification examination.
pub proof fn lemma_volunteer_default(graduation: GraduationType, grade: GradeRequest)
    requires
        graduation is QualificationExamination || grade.volunteer_time1 is None
            || grade.volunteer_time2 is None || grade.volunteer_time3 is None,
    ensures
        spec_volunteer_score(graduation, grade) == 14,
{
}

/// The points of a list of certificates are at least one and at most four
/// for each certificate.
pub proof fn lemma_certificate_total_bounds(certificates: Seq<Certificate>)
    ensures
        certificates.len() <= certificate_total(certificates) <= 4 * certificates.len(),
    decreases certificates.len(),
{
    if certificates.len() > 0 {
        lemma_certificate_total_bounds(certificates.drop_last());
    }
}

pub fn get_total_attendance(grade: &GradeRequest) -> (total: Option<Attendance>)
    ensures
        total == spec_total_attendance(*grade),
        total is Some <==> (grade.attendance1 is Some && grade.attendance2 is Some
            && grade.attendance3 is Some),
{
    match (&grade.attendance1, &grade.attendance2, &grade.attendance3) {
        (Some(a1), Some(a2), Some(a3)) => Some(
            Attendance {
                absence_count: a1.absence_count as i64 + a2.absence_count as i64
                    + a3.absence_count as i64,
                lateness_count: a1.lateness_count as i64 + a2.lateness_count as i64
                    + a3.lateness_count as i64,
                early_leave_count: a1.early_leave_count as i64 + a2.early_leave_count as i64
                    + a3.early_leave_count as i64,
                class_absence_count: a1.class_absence_count as i64 + a2.class_absence_count as i64
                    + a3.class_absence_count as i64,
            },
        ),
        _ => None,
    }
}

pub fn calculate_attendance_score(req: &SubmitFormRequest) -> (score: i32)
    requires
        req.grade.spec_has_valid_attendance(),
    ensures
        score == spec_attendance_score(req.education.graduation_type, req.grade),
        0 <= score <= 18,
{
    if req.education.graduation_type.is_qualification_examination() {
        return DEFAULT_ATTENDANCE_SCORE;
    }
    if let Some(total) = get_total_attendance(&req.grade) {
        let converted: i64 = total.absence_count + ((total.lateness_count
            + total.early_leave_count + total.class_absence_count) / 3);
        if converted > MAX_ABSENCE_COUNT {
            MIN_ATTENDANCE_SCORE
        } else {
            MAX_ATTENDANCE_SCORE - converted as i32
        }
    } else {
        DEFAULT_ATTENDANCE_SCORE
    }
}

pub fn calculate_volunteer_score(req: &SubmitFormRequest) -> (score: i32)
    ensures
        score == spec_volunteer_score(req.education.graduation_type, req.grade),
        0 <= score <= 18,
{
    if req.education.graduation_type.is_qualification_examination() {
        return DEFAULT_VOLUNTEER_SCORE;
    }
    match (req.grade.volunteer_time1, req.grade.volunteer_time2, req.grade.volunteer_time3) {
        (Some(t1), Some(t2), Some(t3)) => {
            let total: i64 = t1 as i64 + t2 as i64 + t3 as i64;
            if total < MIN_VOLUNTEER_TIME {
                MIN_VOLUNTEER_SCORE
            } else if total > MAX_VOLUNTEER_TIME {
                MAX_VOLUNTEER_SCORE
            } else {
                // 18 - (30 - total) / 2 is (total + 6) / 2; a tie goes up.
                let doubled: i64 = 2 * (MAX_VOLUNTEER_SCORE as i64) - (MAX_VOLUNTEER_TIME - total);
                ((2 * doubled + 2) / 4) as i32
            }
        },
        _ => DEFAULT_VOLUNTEER_SCORE,
    }
}

pub fn calculate_bonus_score(req: &SubmitFormRequest) -> (score: i32)
    ensures
        score == spec_bonus_score(req.grade),
        0 <= score <= 4,
{
    if let Some(list) = &req.grade.certificate_list {
        let mut sum: i32 = 0;
        let mut i: usize = 0;
        while i < list.len()
            invariant
                i <= list.len(),
                0 <= sum <= MAX_BONUS_SCORE,
                sum == if certificate_total(list@.take(i as int)) > 4 {
                    4
                } else {
                    certificate_total(list@.take(i as int))
                },
            decreases list.len() - i,
        {
            proof {
                assert(list@.take(i + 1).drop_last() == list@.take(i as int));
                lemma_certificate_total_bounds(list@.take(i as int));
            }
            let points: i32 = list[i].score();
            sum = if sum + points > MAX_BONUS_SCORE {
                MAX_BONUS_SCORE
            } else {
                sum + points
            };
            i += 1;
        }
        proof {
            assert(list@.take(list@.len() as int) == list@);
        }
        sum
    } else {
        0
    }
}

// ---------------------------------------------------------------------------
// The scores of an application
// ---------------------------------------------------------------------------
/// The average of the first term of the third grade, in thousandths; a
/// graduate by qualification examination has none.
pub open spec fn spec_third_grade_first_semester(
    graduation: GraduationType,
    subjects: Seq<Subject>,
) -> Option<int> {
    if graduation is QualificationExamination {
        None
    } else {
        Some(term_average(subjects, 3, 1).round3())
    }
}

/// The first-round score in thousandths: the subject-grade score and the
/// three whole scores added up, then rounded.
pub open spec fn spec_first_round_score(req: SubmitFormRequest, subjects: Seq<Subject>) -> int {
    spec_subject_grade_score(req.form_type, req.education.graduation_type, subjects).plus(
        Ratio::whole(
            spec_attendance_score(req.education.graduation_type, req.grade) + spec_volunteer_score(
                req.education.graduation_type,
                req.grade,
            ) + spec_bonus_score(req.grade),
        ),
    ).round3()
}

/// Whether `score` holds the scores of the application `req` with the
/// subject list `subjects`.
pub open spec fn is_score_of(score: Score, req: SubmitFormRequest, subjects: Seq<Subject>) -> bool {
    &&& score.subject_grade_score == spec_subject_grade_score(
        req.form_type,
        req.education.graduation_type,
        subjects,
    ).round3()
    &&& match spec_third_grade_first_semester(req.education.graduation_type, subjects) {
        Some(average) => score.third_grade_first_semester_subject_grade_score matches Some(s)
            && s == average,
        None => score.third_grade_first_semester_subject_grade_score is None,
    }
    &&& score.attendance_score == spec_attendance_score(req.education.graduation_type, req.grade)
    &&& score.volunteer_score == spec_volunteer_score(req.education.graduation_type, req.grade)
    &&& score.bonus_score == spec_bonus_score(req.grade)
    &&& score.first_round_score == spec_first_round_score(req, subjects)
}

/// Computes every score of an application.
pub fn calculate_form_score(req: &SubmitFormRequest, subjects: &[Subject]) -> (score: Score)
    requires
        subjects@.len() <= MAX_SUBJECTS,
        req.grade.spec_has_valid_attendance(),
    ensures
        is_score_of(score, *req, subjects@),
        score.is_consistent(),
        score.is_in_range(),
{
    let subject_grade_score = calculate_subject_grade_score(req, subjects);
    let attendance_score = calculate_attendance_score(req);
    let volunteer_score = calculate_volunteer_score(req);
    let bonus_score = calculate_bonus_score(req);
    let third_grade_first = if req.education.graduation_type.is_qualification_examination() {
        None
    } else {
        let average = subject_map_score(subjects, 3, 1);
        proof {
            lemma_scorable_averages(subjects@);
            lemma_within_widens(
                average@,
                average_limit(),
                term_den_limit(),
                score_limit(),
                score_den_limit(),
            );
            lemma_round3_within(average@, average_limit(), term_den_limit());
        }
        Some(round_to(&average))
    };
    let rounded: u32 = round_to(&subject_grade_score);
    proof {
        lemma_round3_plus_whole(
            subject_grade_score@,
            (attendance_score + volunteer_score + bonus_score) as int,
        );
    }
    let first_round_score: u32 = rounded + 1000 * ((attendance_score + volunteer_score
        + bonus_score) as u32);
    Score {
        subject_grade_score: rounded,
        third_grade_first_semester_subject_grade_score: third_grade_first,
        attendance_score,
        volunteer_score,
        bonus_score,
        first_round_score,
    }
}

/// The first-round score is the rounded subject-grade score plus the three
/// whole scores: rounding the sum, or adding to the rounded score, gives the
/// same thousandths.
pub proof fn lemma_first_round_is_sum_of_partials(req: SubmitFormRequest, subjects: Seq<Subject>)
    requires
        req.grade.spec_has_valid_attendance(),
    ensures
        spec_first_round_score(req, subjects) == spec_subject_grade_score(
            req.form_type,
            req.education.graduation_type,
            subjects,
        ).round3() + 1000 * (spec_attendance_score(req.education.graduation_type, req.grade)
            + spec_volunteer_score(req.education.graduation_type, req.grade) + spec_bonus_score(
            req.grade,
        )),
{
    let grade_score = spec_subject_grade_score(
        req.form_type,
        req.education.graduation_type,
        subjects,
    );
    lemma_subject_grade_score_bounds(req.form_type, req.education.graduation_type, subjects);
    lemma_partial_score_ranges(req);
    lemma_round3_plus_whole(
        grade_score,
        spec_attendance_score(req.education.graduation_type, req.grade) + spec_volunteer_score(
            req.education.graduation_type,
            req.grade,
        ) + spec_bonus_score(req.grade),
    );
}

/// The three whole scores stay in their ranges: attendance and volunteer
/// between 0 and 18, bonus between 0 and 4.
pub proof fn lemma_partial_score_ranges(req: SubmitFormRequest)
    ensures
        req.grade.spec_has_valid_attendance() ==> 0 <= spec_attendance_score(
            req.education.graduation_type,
            req.grade,
        ) <= 18,
        0 <= spec_volunteer_score(req.education.graduation_type, req.grade) <= 18,
        0 <= spec_bonus_score(req.grade) <= 4,
{
    if let Some(list) = req.grade.certificate_list {
        lemma_certificate_total_bounds(list@);
    }
}

// ---------------------------------------------------------------------------
// The two formulas side by side
// ---------------------------------------------------------------------------
proof fn lemma_six_tenths(an: int, ad: int, bn: int, bd: int)
    by (nonlinear_arith)
    ensures
        ({
            let regular = Ratio::whole(80).plus(
                Ratio::of(48, 10).times(Ratio::of(an, ad)),
            ).plus(Ratio::of(144, 10).times(Ratio::of(bn, bd)));
            let special = Ratio::whole(48).plus(
                Ratio::of(288, 100).times(Ratio::of(an, ad)),
            ).plus(Ratio::of(864, 100).times(Ratio::of(bn, bd)));
            special.same(
                Ratio::whole(48).plus(Ratio::of(6, 10).times(regular.minus(Ratio::whole(80)))),
            )
        }),
{
}

proof fn lemma_six_tenths_overall(an: int, ad: int)
    by (nonlinear_arith)
    ensures
        ({
            let regular = Ratio::whole(80).plus(Ratio::whole(24).times(Ratio::of(an, ad)));
            let special = Ratio::whole(48).plus(Ratio::of(144, 10).times(Ratio::of(an, ad)));
            special.same(
                Ratio::whole(48).plus(Ratio::of(6, 10).times(regular.minus(Ratio::whole(80)))),
            )
        }),
{
}

/// For one subject list the two formulas differ by a fixed ratio: what the
/// special formula gives above its base of 48 points is exactly six tenths
/// of what the regular formula gives above its base of 80 points.
pub proof fn lemma_special_is_six_tenths_of_regular(
    subjects: Seq<Subject>,
    graduation: GraduationType,
)
    ensures
        spec_special_score(subjects, graduation).same(
            Ratio::whole(48).plus(
                Ratio::of(6, 10).times(
                    spec_regular_score(subjects, graduation).minus(Ratio::whole(80)),
                ),
            ),
        ),
{
    if graduation is QualificationExamination {
        let all = overall_average(subjects);
        lemma_six_tenths_overall(all.num, all.den);
    } else {
        let early = term_average(subjects, 2, 1).plus(term_average(subjects, 2, 2));
        let late = term_average(subjects, 3, 1);
        lemma_six_tenths(early.num, early.den, late.num, late.den);
    }
}

proof fn lemma_rounded_six_tenths(rn: int, rd: int, sn: int, sd: int, r: int, s: int)
    requires
        rd > 0,
        sd > 0,
        5 * ((sn - 48 * sd) * rd) == 3 * ((rn - 80 * rd) * sd),
        -rd <= 2 * (1000 * rn - r * rd) <= rd,
        -sd <= 2 * (1000 * sn - s * sd) <= sd,
    ensures
        -4 <= 5 * (s - 48000) - 3 * (r - 80000) <= 4,
{
    let a = 2 * (1000 * sn - s * sd);
    let b = 2 * (1000 * rn - r * rd);
    let e = 5 * (s - 48000) - 3 * (r - 80000);
    let p = rd * sd;
    let pe = p * e;
    let sb = sd * b;
    let ra = rd * a;
    assert(2 * pe == 3 * sb - 5 * ra) by (nonlinear_arith)
        requires
            5 * ((sn - 48 * sd) * rd) == 3 * ((rn - 80 * rd) * sd),
            a == 2 * (1000 * sn - s * sd),
            b == 2 * (1000 * rn - r * rd),
            e == 5 * (s - 48000) - 3 * (r - 80000),
            p == rd * sd,
            pe == p * e,
            sb == sd * b,
            ra == rd * a,
    ;
    assert(p > 0) by (nonlinear_arith)
        requires
            rd > 0,
            sd > 0,
            p == rd * sd,
    ;
    assert(-p <= sb <= p) by (nonlinear_arith)
        requires
            sd > 0,
            -rd <= b <= rd,
            p == rd * sd,
            sb == sd * b,
    ;
    assert(-p <= ra <= p) by (nonlinear_arith)
        requires
            rd > 0,
            -sd <= a <= sd,
            p == rd * sd,
            ra == rd * a,
    ;
    assert(-4 <= e <= 4) by (nonlinear_arith)
        requires
            p > 0,
            pe == p * e,
            -8 * p <= 2 * pe <= 8 * p,
    ;
}

/// The same ratio holds of the rounded scores up to rounding: in
/// thousandths, five times the special score above 48 points and three
/// times the regular score above 80 points differ by at most 4.
pub proof fn lemma_rounded_special_is_six_tenths_of_regular(
    subjects: Seq<Subject>,
    graduation: GraduationType,
)
    ensures
        ({
            let special = spec_special_score(subjects, graduation).round3();
            let regular = spec_regular_score(subjects, graduation).round3();
            -4 <= 5 * (special - 48000) - 3 * (regular - 80000) <= 4
        }),
{
    let regular = spec_regular_score(subjects, graduation);
    let special = spec_special_score(subjects, graduation);
    lemma_special_is_six_tenths_of_regular(subjects, graduation);
    lemma_subject_grade_score_bounds(FormType::Regular, graduation, subjects);
    lemma_subject_grade_score_bounds(FormType::MeisterTalent, graduation, subjects);
    crate::rational::lemma_round_is_nearest(1000 * regular.num, regular.den);
    crate::rational::lemma_round_is_nearest(1000 * special.num, special.den);
    assert(5 * ((special.num - 48 * special.den) * regular.den) == 3 * ((regular.num - 80
        * regular.den) * special.den)) by (nonlinear_arith)
        requires
            regular.den > 0,
            special.den > 0,
            special.same(
                Ratio::whole(48).plus(Ratio::of(6, 10).times(regular.minus(Ratio::whole(80)))),
            ),
    ;
    lemma_rounded_six_tenths(
        regular.num,
        regular.den,
        special.num,
        special.den,
        regular.round3(),
        special.round3(),
    );
}

} // verus!
