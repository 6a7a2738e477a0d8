//! The ways in which a request to the store is refused.

use vstd::prelude::*;

verus! {

/// Why the store refused a request. A refused request changes nothing.
#[derive(Clone, Copy, Debug, PartialEq, Eq, Structural)]
pub enum CustomError {
    /// A record already exists for the owner.
    AlreadyExists,
    /// No record exists for the owner.
    NotFound,
    /// The requester is neither the owner nor the owner's delegate.
    Unauthorized,
    /// The text is longer than a record can hold.
    PayloadTooLarge,
}

impl CustomError {
    /// The sentence that explains the error to a user.
    pub open spec fn spec_message(self) -> Seq<char> {
        match self {
            CustomError::AlreadyExists => "A favorites account already exists for this user."@,
            CustomError::NotFound => "No favorites account exists for this user."@,
            CustomError::Unauthorized => "Only the authority or delegate can update this account."@,
            CustomError::PayloadTooLarge => "The color is longer than 50 characters."@,
        }
    }

    /// The sentence that explains the error to a user.
    pub fn message(&self) -> (text: String)
        ensures
            text@ == self.spec_message(),
    {
        match self {
            CustomError::AlreadyExists => "A favorites account already exists for this user.".to_owned(),
            CustomError::NotFound => "No favorites account exists for this user.".to_owned(),
            CustomError::Unauthorized => "Only the authority or delegate can update this account.".to_owned(),
            CustomError::PayloadTooLarge => "The color is longer than 50 characters.".to_owned(),
        }
    }
}

} // verus!
