//! Who a signed-in user is to the service.
use vstd::prelude::*;
use crate::error::AppError;

verus! {

#[derive(Debug, Clone, Copy, PartialEq, Eq, Structural)]
pub enum Authority {
    User,
    Admin,
}

impl Authority {
    pub open spec fn spec_description(&self) -> Seq<char> {
        match self {
            Authority::User => "일반 사용자"@,
            Authority::Admin => "어드민"@,
        }
    }

    /// The name that stands for the authority in a token and in the store.
    pub open spec fn spec_name(&self) -> Seq<char> {
        match self {
            Authority::User => "USER"@,
            Authority::Admin => "ADMIN"@,
        }
    }

    /// The authority that a name stands for, if it is the name of one.
    pub open spec fn spec_from_name(name: Seq<char>) -> Option<Authority> {
        if name == "USER"@ {
            Some(Authority::User)
        } else if name == "ADMIN"@ {
            Some(Authority::Admin)
        } else {
            None
        }
    }

    pub fn description(&self) -> (text: &'static str)
        ensures
            text@ == self.spec_description(),
    {
        match self {
            Authority::User => "일반 사용자",
            Authority::Admin => "어드민",
        }
    }

    pub fn name(&self) -> (name: String)
        ensures
            name@ == self.spec_name(),
    {
        match self {
            Authority::User => "USER".to_owned(),
            Authority::Admin => "ADMIN".to_owned(),
        }
    }

    pub fn from_name(name: &str) -> (authority: Option<Authority>)
        ensures
            authority == Authority::spec_from_name(name@),
    {
        let text: String = name.to_owned();
        if text == "USER".to_owned() {
            Some(Authority::User)
        } else if text == "ADMIN".to_owned() {
            Some(Authority::Admin)
        } else {
            None
        }
    }

    /// Lets an administrator pass and refuses anyone else.
    pub fn require_admin(&self) -> (allowed: Result<(), AppError>)
        ensures
            *self == Authority::Admin ==> allowed is Ok,
            *self != Authority::Admin ==> (allowed matches Err(AppError::Forbidden(text)) && text@
                == "forbidden"@),
    {
        match self {
            Authority::Admin => Ok(()),
            Authority::User => Err(AppError::Forbidden("forbidden".to_owned())),
        }
    }
}

/// A name that `name` gives is read back by `from_name` as the authority it
/// came from.
pub proof fn lemma_authority_name_round_trip(authority: Authority)
    ensures
        Authority::spec_from_name(authority.spec_name()) == Some(authority),
{
    reveal_strlit("USER");
    reveal_strlit("ADMIN");
    assert("USER"@.len() != "ADMIN"@.len());
}

} // verus!
