//! The categories of the frequently asked questions.
use vstd::prelude::*;

verus! {

#[derive(Debug, Clone, Copy, PartialEq, Eq, Structural)]
pub enum QuestionCategory {
    TopQuestion,
    AdmissionProcess,
    SchoolLife,
    SubmitDocument,
}

impl QuestionCategory {
    /// The name that stands for the category in the store.
    pub open spec fn spec_name(&self) -> Seq<char> {
        match self {
            QuestionCategory::TopQuestion => "TOP_QUESTION"@,
            QuestionCategory::AdmissionProcess => "ADMISSION_PROCESS"@,
            QuestionCategory::SchoolLife => "SCHOOL_LIFE"@,
            QuestionCategory::SubmitDocument => "SUBMIT_DOCUMENT"@,
        }
    }

    /// The category that a name stands for, if it is the name of one.
    pub open spec fn spec_from_name(name: Seq<char>) -> Option<QuestionCategory> {
        if name == "TOP_QUESTION"@ {
            Some(QuestionCategory::TopQuestion)
        } else if name == "ADMISSION_PROCESS"@ {
            Some(QuestionCategory::AdmissionProcess)
        } else if name == "SCHOOL_LIFE"@ {
            Some(QuestionCategory::SchoolLife)
        } else if name == "SUBMIT_DOCUMENT"@ {
            Some(QuestionCategory::SubmitDocument)
        } else {
            None
        }
    }

    pub fn name(&self) -> (name: String)
        ensures
            name@ == self.spec_name(),
    {
        match self {
            QuestionCategory::TopQuestion => "TOP_QUESTION".to_owned(),
            QuestionCategory::AdmissionProcess => "ADMISSION_PROCESS".to_owned(),
            QuestionCategory::SchoolLife => "SCHOOL_LIFE".to_owned(),
            QuestionCategory::SubmitDocument => "SUBMIT_DOCUMENT".to_owned(),
        }
    }

    pub fn from_name(name: &str) -> (category: Option<QuestionCategory>)
        ensures
            category == QuestionCategory::spec_from_name(name@),
    {
        let text: String = name.to_owned();
        if text == "TOP_QUESTION".to_owned() {
            Some(QuestionCategory::TopQuestion)
        } else if text == "ADMISSION_PROCESS".to_owned() {
            Some(QuestionCategory::AdmissionProcess)
        } else if text == "SCHOOL_LIFE".to_owned() {
            Some(QuestionCategory::SchoolLife)
        } else if text == "SUBMIT_DOCUMENT".to_owned() {
            Some(QuestionCategory::SubmitDocument)
        } else {
            None
        }
    }

    /// The category of a stored question: the one that the stored name
    /// stands for, and the top questions where it stands for none.
    pub fn from_stored_name(name: &str) -> (category: QuestionCategory)
        ensures
            category == match QuestionCategory::spec_from_name(name@) {
                Some(c) => c,
                None => QuestionCategory::TopQuestion,
            },
    {
        match QuestionCategory::from_name(name) {
            Some(c) => c,
            None => QuestionCategory::TopQuestion,
        }
    }
}

/// A name that `name` gives is read back by `from_name` as the category it
/// came from.
pub proof fn lemma_category_name_round_trip(category: QuestionCategory)
    ensures
        QuestionCategory::spec_from_name(category.spec_name()) == Some(category),
{
    reveal_strlit("TOP_QUESTION");
    reveal_strlit("ADMISSION_PROCESS");
    reveal_strlit("SCHOOL_LIFE");
    reveal_strlit("SUBMIT_DOCUMENT");
    assert("TOP_QUESTION"@.len() == 12);
    assert("ADMISSION_PROCESS"@.len() == 17);
    assert("SCHOOL_LIFE"@.len() == 11);
    assert("SUBMIT_DOCUMENT"@.len() == 15);
}

} // verus!
