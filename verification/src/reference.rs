//! Entity references: the validated names of the points that are written to.

use crate::error::PrError;
use crate::trusted::{parse_ref, ref_is_valid};
use vstd::prelude::*;

verus! {

/// The reference of a point on the remote service. A value of this type
/// always holds a text that raystack accepts as a reference.
#[derive(Debug, PartialEq, Eq)]
pub struct EntityRef {
    text: String,
}

impl View for EntityRef {
    type V = Seq<char>;

    closed spec fn view(&self) -> Seq<char> {
        self.text@
    }
}

impl EntityRef {
    #[verifier::type_invariant]
    spec fn holds_valid_text(&self) -> bool {
        ref_is_valid(self.text@)
    }

    /// Validates `text` as a reference. It is kept as it is where it is
    /// valid, and rejected with `RefParse` where it is not.
    pub fn new(text: String) -> (r: Result<EntityRef, PrError>)
        ensures
            match r {
                Ok(entity) => ref_is_valid(text@) && entity@ == text@,
                Err(failure) => !ref_is_valid(text@) && failure is RefParse,
            },
    {
        match parse_ref(text) {
            Ok(kept) => Ok(EntityRef { text: kept }),
            Err(err) => Err(PrError::RefParse(err.to_string())),
        }
    }

    /// The text of the reference, which is a valid one.
    pub fn as_str(&self) -> (text: &str)
        ensures
            text@ == self@,
            ref_is_valid(self@),
    {
        proof {
            use_type_invariant(self);
        }
        self.text.as_str()
    }

    /// Gives up the reference for its text.
    pub fn into_string(self) -> (text: String)
        ensures
            text@ == self@,
            ref_is_valid(self@),
    {
        proof {
            use_type_invariant(&self);
        }
        self.text
    }
}

} // verus!
