//! Errors of the store.

use vstd::prelude::*;

verus! {

/// A referential violation: an unknown user, a user that exists already, a
/// missing open record.
#[derive(PartialEq, Debug, Clone)]
pub struct StoreError(pub String);

impl View for StoreError {
    type V = Seq<char>;

    open spec fn view(&self) -> Seq<char> {
        self.0@
    }
}

impl StoreError {
    /// The message of the error.
    pub fn to_string(&self) -> (r: String)
        ensures
            r@ == self@,
    {
        self.0.clone()
    }
}

impl vstd::std_specs::convert::FromSpecImpl<String> for StoreError {
    open spec fn obeys_from_spec() -> bool {
        true
    }

    open spec fn from_spec(error: String) -> Self {
        StoreError(error)
    }
}

impl From<String> for StoreError {
    fn from(error: String) -> (r: Self) {
        StoreError(error)
    }
}

/// A value that may not enter the store: an empty user id, an empty command.
#[derive(PartialEq, Debug, Clone)]
pub struct ValidationError(pub String);

impl View for ValidationError {
    type V = Seq<char>;

    open spec fn view(&self) -> Seq<char> {
        self.0@
    }
}

impl ValidationError {
    /// The message of the error.
    pub fn to_string(&self) -> (r: String)
        ensures
            r@ == self@,
    {
        self.0.clone()
    }
}

impl vstd::std_specs::convert::FromSpecImpl<String> for ValidationError {
    open spec fn obeys_from_spec() -> bool {
        true
    }

    open spec fn from_spec(error: String) -> Self {
        ValidationError(error)
    }
}

impl From<String> for ValidationError {
    fn from(error: String) -> (r: Self) {
        ValidationError(error)
    }
}

} // verus!
