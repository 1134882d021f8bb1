//! Submitting an application. A user submits once: the first submission is
//! scored, given an examination number and stored with its subject rows as
//! one unit; any later one is refused and changes nothing.
use vstd::prelude::*;
use crate::error::SubmitError;
use crate::examination::band_maximum;
use crate::examination::lemma_next_number_is_fresh;
use crate::examination::next_examination_number;
use crate::examination::spec_next_examination_number;
use crate::examination::ExaminationLedger;
use crate::form_dto::SubmitFormRequest;
use crate::form_entity::FormEntity;
use crate::score::calculate_form_score;
use crate::score::is_score_of;
use crate::subject::entity_views;
use crate::subject::lemma_normalized_length;
use crate::subject::normalized_subjects;
use crate::subject::subject_entities;
use crate::subject::subject_entity_list_from_requests;
use crate::subject::subject_list_from_requests;
use crate::subject::SubjectEntity;

verus! {

/// Where a user stands: with no application yet, or with one.
#[derive(Debug, Clone, Copy, PartialEq, Eq, Structural)]
pub enum SubmissionState {
    NotSubmitted,
    Submitted,
}

/// What one submission stores: the form and its subject rows. They are
/// stored together or not at all.
#[derive(Debug)]
pub struct Submission {
    pub form: FormEntity,
    pub subjects: Vec<SubjectEntity>,
}

impl SubmissionState {
    /// The state after a submission: a success leads to `Submitted`, a
    /// failure leaves the state as it was.
    pub open spec fn spec_after(&self, succeeded: bool) -> SubmissionState {
        if succeeded {
            SubmissionState::Submitted
        } else {
            *self
        }
    }

    #[verifier::when_used_as_spec(spec_after)]
    pub fn after(&self, succeeded: bool) -> (next: SubmissionState)
        ensures
            next == self.spec_after(succeeded),
    {
        if succeeded {
            SubmissionState::Submitted
        } else {
            *self
        }
    }
}

/// Whether `submission` is what the request `req` of the user `user_id`
/// stores under the examination number `examination_number`: the form with
/// the scores of the request, and the subject rows of its grade table.
pub open spec fn is_submission_of(
    submission: Submission,
    req: SubmitFormRequest,
    examination_number: i64,
    user_id: i64,
) -> bool {
    &&& submission.form.is_record_of(req, submission.form.spec_score(), examination_number, user_id)
    &&& is_score_of(
        submission.form.spec_score(),
        req,
        normalized_subjects(req.grade.subject_list@),
    )
    &&& submission.form.spec_score().is_consistent()
    &&& submission.form.spec_score().is_in_range()
    &&& entity_views(submission.subjects@) == subject_entities(req.grade.subject_list@)
}

/// What a submission comes to, for a user in `state`, where `current_max`
/// is the greatest examination number assigned in the band of the
/// request's category.
pub open spec fn is_plan_of(
    plan: Result<Submission, SubmitError>,
    state: SubmissionState,
    user_id: i64,
    req: SubmitFormRequest,
    current_max: Option<i64>,
) -> bool {
    match state {
        SubmissionState::Submitted => plan matches Err(e) && e == SubmitError::DuplicateSubmission,
        SubmissionState::NotSubmitted => match spec_next_examination_number(
            req.form_type.spec_category(),
            current_max,
        ) {
            Ok(number) => plan matches Ok(submission) && is_submission_of(
                submission,
                req,
                number,
                user_id,
            ),
            Err(error) => plan matches Err(e) && e == error,
        },
    }
}

/// Scores the request and builds what is stored for it under the given
/// examination number.
pub fn build_submission(req: &SubmitFormRequest, examination_number: i64, user_id: i64) -> (submission:
    Submission)
    requires
        req.spec_is_well_formed(),
    ensures
        is_submission_of(submission, *req, examination_number, user_id),
{
    proof {
        lemma_normalized_length(req.grade.subject_list@);
    }
    let subjects = subject_list_from_requests(req.grade.subject_list.as_slice());
    let score = calculate_form_score(req, subjects.as_slice());
    let form = FormEntity::from_request(req, &score, examination_number, user_id);
    let rows = subject_entity_list_from_requests(req.grade.subject_list.as_slice());
    Submission { form, subjects: rows }
}

/// Decides a submission. A user who has submitted is refused. Any other
/// user gets the next examination number of the category's band, or the
/// submission fails where the band is full.
pub fn plan_submission(
    state: SubmissionState,
    user_id: i64,
    req: &SubmitFormRequest,
    current_max: Option<i64>,
) -> (plan: Result<Submission, SubmitError>)
    requires
        req.spec_is_well_formed(),
    ensures
        is_plan_of(plan, state, user_id, *req, current_max),
{
    match state {
        SubmissionState::Submitted => Err(SubmitError::DuplicateSubmission),
        SubmissionState::NotSubmitted => {
            match next_examination_number(req.form_type.category(), current_max) {
                Ok(number) => Ok(build_submission(req, number, user_id)),
                Err(error) => Err(error),
            }
        },
    }
}

/// How a submission ends once the store has answered. A plan that failed
/// ends with its own error and nothing is stored. A plan that the store did
/// not take ends as a persistence failure. Only a plan that was stored
/// succeeds.
pub open spec fn spec_conclude_submission(
    plan: Result<Submission, SubmitError>,
    stored: bool,
) -> Result<(), SubmitError> {
    match plan {
        Err(error) => Err(error),
        Ok(_) => if stored {
            Ok(())
        } else {
            Err(SubmitError::PersistenceFailure)
        },
    }
}

pub fn conclude_submission(plan: &Result<Submission, SubmitError>, stored: bool) -> (result: Result<
    (),
    SubmitError,
>)
    ensures
        result == spec_conclude_submission(*plan, stored),
{
    match plan {
        Err(error) => Err(*error),
        Ok(_) => if stored {
            Ok(())
        } else {
            Err(SubmitError::PersistenceFailure)
        },
    }
}

/// Every application that has been stored, with its subject rows, and the
/// ledger of examination numbers. `submit` checks, allocates and stores in
/// one step.
#[derive(Debug)]
pub struct FormRegistry {
    pub forms: Vec<FormEntity>,
    pub subjects: Vec<Vec<SubjectEntity>>,
    pub ledger: ExaminationLedger,
}

impl FormRegistry {
    /// Whether the user has a stored application.
    pub open spec fn has_user(&self, user_id: i64) -> bool {
        exists|i: int| 0 <= i < self.forms@.len() && (#[trigger] self.forms@[i]).user_id == user_id
    }

    /// The state of a user.
    pub open spec fn spec_state_of(&self, user_id: i64) -> SubmissionState {
        if self.has_user(user_id) {
            SubmissionState::Submitted
        } else {
            SubmissionState::NotSubmitted
        }
    }

    /// A registry is well formed when every form has its subject rows, no
    /// user has two forms, no examination number stands on two forms, and
    /// the ledger knows every number that stands on a form.
    pub open spec fn well_formed(&self) -> bool {
        &&& self.forms@.len() == self.subjects@.len()
        &&& forall|i: int, j: int|
            0 <= i < j < self.forms@.len() ==> (#[trigger] self.forms@[i]).user_id != (
            #[trigger] self.forms@[j]).user_id
        &&& forall|i: int, j: int|
            0 <= i < j < self.forms@.len() ==> (#[trigger] self.forms@[i]).examination_number != (
            #[trigger] self.forms@[j]).examination_number
        &&& forall|i: int|
            0 <= i < self.forms@.len() ==> self.ledger.issued@.contains(
                (#[trigger] self.forms@[i]).examination_number,
            )
    }

    /// Whether two registries hold the same forms, subject rows and
    /// examination numbers.
    pub open spec fn same_content(&self, other: FormRegistry) -> bool {
        &&& self.forms@ == other.forms@
        &&& self.subjects@ == other.subjects@
        &&& self.ledger.issued@ == other.ledger.issued@
    }

    /// An empty registry.
    pub fn new() -> (registry: FormRegistry)
        ensures
            registry.well_formed(),
            registry.forms@.len() == 0,
            registry.subjects@.len() == 0,
            registry.ledger.issued@.len() == 0,
    {
        FormRegistry { forms: Vec::new(), subjects: Vec::new(), ledger: ExaminationLedger::new() }
    }

    pub fn exists_by_user(&self, user_id: i64) -> (exists: bool)
        ensures
            exists == self.has_user(user_id),
    {
        let mut i: usize = 0;
        while i < self.forms.len()
            invariant
                i <= self.forms.len(),
                forall|k: int| 0 <= k < i ==> (#[trigger] self.forms@[k]).user_id != user_id,
            decreases self.forms.len() - i,
        {
            if self.forms[i].user_id == user_id {
                return true;
            }
            i += 1;
        }
        false
    }

    #[verifier::when_used_as_spec(spec_state_of)]
    pub fn state_of(&self, user_id: i64) -> (state: SubmissionState)
        ensures
            state == self.spec_state_of(user_id),
    {
        if self.exists_by_user(user_id) {
            SubmissionState::Submitted
        } else {
            SubmissionState::NotSubmitted
        }
    }

    /// Submits the request of a user.
    ///
    /// A user who has a form is refused, and so is a request whose band is
    /// full; then the registry stays as it was. Otherwise the form, with
    /// the scores of the request and the next examination number of its
    /// band, and its subject rows are added, and the number is recorded.
    pub fn submit(&mut self, user_id: i64, req: &SubmitFormRequest) -> (result: Result<
        (),
        SubmitError,
    >)
        requires
            old(self).well_formed(),
            req.spec_is_well_formed(),
        ensures
            final(self).well_formed(),
            is_outcome_of(*old(self), user_id, *req, result, *final(self)),
    {
        if self.exists_by_user(user_id) {
            return Err(SubmitError::DuplicateSubmission);
        }
        let ghost before = *self;
        let category = req.form_type.category();
        proof {
            lemma_next_number_is_fresh(self.ledger.issued@, category);
        }
        match self.ledger.allocate(category) {
            Ok(number) => {
                let submission = build_submission(req, number, user_id);
                let ghost stored = submission;
                self.forms.push(submission.form);
                self.subjects.push(submission.subjects);
                proof {
                    let last = before.forms@.len() as int;
                    assert(self.forms@.drop_last() == before.forms@);
                    assert(self.subjects@.drop_last() == before.subjects@);
                    assert(self.forms@.last() == stored.form);
                    assert(self.subjects@.last() == stored.subjects);
                    assert(Submission { form: self.forms@.last(), subjects: self.subjects@.last() }
                        == stored);
                    assert(self.forms@[last].user_id == user_id);
                    assert(self.forms@[last].examination_number == number);
                    assert forall|i: int| 0 <= i < last implies (#[trigger] self.forms@[i]).user_id
                        != user_id && self.forms@[i].examination_number != number by {
                        assert(before.forms@[i] == self.forms@[i]);
                        assert(before.ledger.issued@.contains(before.forms@[i].examination_number));
                    }
                    assert forall|i: int| 0 <= i < self.forms@.len() implies self.ledger.issued@.contains(
                        (#[trigger] self.forms@[i]).examination_number,
                    ) by {
                        if i < last {
                            assert(before.forms@[i] == self.forms@[i]);
                            let k = choose|k: int|
                                0 <= k < before.ledger.issued@.len() && before.ledger.issued@[k]
                                    == before.forms@[i].examination_number;
                            assert(self.ledger.issued@[k] == before.forms@[i].examination_number);
                        } else {
                            assert(self.ledger.issued@[before.ledger.issued@.len() as int]
                                == number);
                        }
                    }
                }
                Ok(())
            },
            Err(error) => Err(error),
        }
    }
}

/// What `submit` comes to: `result` and the registry `after`, for the
/// registry `before`.
pub open spec fn is_outcome_of(
    before: FormRegistry,
    user_id: i64,
    req: SubmitFormRequest,
    result: Result<(), SubmitError>,
    after: FormRegistry,
) -> bool {
    let category = req.form_type.spec_category();
    if before.has_user(user_id) {
        &&& result == Err::<(), SubmitError>(SubmitError::DuplicateSubmission)
        &&& after.same_content(before)
    } else {
        match spec_next_examination_number(category, band_maximum(before.ledger.issued@, category)) {
            Ok(number) => {
                &&& result is Ok
                &&& after.forms@.len() == before.forms@.len() + 1
                &&& after.forms@.drop_last() == before.forms@
                &&& after.subjects@.len() == before.subjects@.len() + 1
                &&& after.subjects@.drop_last() == before.subjects@
                &&& after.ledger.issued@ == before.ledger.issued@.push(number)
                &&& is_submission_of(
                    Submission { form: after.forms@.last(), subjects: after.subjects@.last() },
                    req,
                    number,
                    user_id,
                )
            },
            Err(error) => {
                &&& result == Err::<(), SubmitError>(error)
                &&& after.same_content(before)
            },
        }
    }
}

/// Two submissions of one user: where the first succeeds, the second is
/// refused as a duplicate, and it leaves the forms, the subject rows and
/// the examination numbers as the first left them.
pub proof fn lemma_second_submission_is_refused(
    start: FormRegistry,
    user_id: i64,
    first: SubmitFormRequest,
    first_result: Result<(), SubmitError>,
    between: FormRegistry,
    second: SubmitFormRequest,
    second_result: Result<(), SubmitError>,
    end: FormRegistry,
)
    requires
        is_outcome_of(start, user_id, first, first_result, between),
        first_result is Ok,
        is_outcome_of(between, user_id, second, second_result, end),
    ensures
        second_result == Err::<(), SubmitError>(SubmitError::DuplicateSubmission),
        end.same_content(between),
{
    assert(between.forms@[between.forms@.len() - 1].user_id == user_id);
}

/// A submission that fails leaves the registry as it was, and a user's
/// state moves only from not submitted to submitted, and only by a
/// submission of that user that succeeds.
pub proof fn lemma_state_follows_outcome(
    before: FormRegistry,
    user_id: i64,
    req: SubmitFormRequest,
    result: Result<(), SubmitError>,
    after: FormRegistry,
    other_user: i64,
)
    requires
        is_outcome_of(before, user_id, req, result, after),
    ensures
        result is Err ==> after.same_content(before),
        after.spec_state_of(user_id) == before.spec_state_of(user_id).spec_after(result is Ok),
        other_user != user_id ==> after.spec_state_of(other_user) == before.spec_state_of(
            other_user,
        ),
{
    if result is Ok {
        let last = after.forms@.len() - 1;
        assert(after.forms@[last].user_id == user_id);
        assert forall|i: int| 0 <= i < before.forms@.len() implies before.forms@[i]
            == after.forms@[i] by {
            assert(after.forms@.drop_last()[i] == after.forms@[i]);
        }
        if before.has_user(other_user) {
            let i = choose|i: int|
                0 <= i < before.forms@.len() && (#[trigger] before.forms@[i]).user_id == other_user;
            assert(after.forms@[i].user_id == other_user);
        }
        if after.has_user(other_user) && other_user != user_id {
            let i = choose|i: int|
                0 <= i < after.forms@.len() && (#[trigger] after.forms@[i]).user_id == other_user;
            assert(before.forms@[i].user_id == other_user);
        }
    }
}

} // verus!
