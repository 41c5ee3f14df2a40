//! Non-empty entity names.

use vstd::prelude::*;

verus! {

/// An error indicating a new name could not be created from an empty string.
#[derive(Clone, Copy, Debug)]
pub struct EmptyNameError;

/// A non-empty name.
#[derive(Debug, PartialEq, Eq, Hash)]
pub struct Name {
    value: String,
}

impl View for Name {
    type V = Seq<char>;

    closed spec fn view(&self) -> Seq<char> {
        self.value@
    }
}

impl Name {
    /// Whether the name is non-empty.
    #[verifier::type_invariant]
    closed spec fn non_empty(self) -> bool {
        self.value@.len() > 0
    }

    /// Builds a name from a string slice; an empty string is rejected.
    pub fn from_str(s: &str) -> (r: Result<Name, EmptyNameError>)
        ensures
            match r {
                Ok(name) => s@.len() > 0 && name@ == s@,
                Err(_) => s@.len() == 0,
            },
    {
        if s.is_empty() {
            Err(EmptyNameError)
        } else {
            Ok(Name { value: s.to_owned() })
        }
    }

    /// Builds a name from an owned string; an empty string is rejected.
    pub fn try_new(value: String) -> (r: Result<Name, EmptyNameError>)
        ensures
            match r {
                Ok(name) => value@.len() > 0 && name@ == value@,
                Err(_) => value@.len() == 0,
            },
    {
        if value.as_str().is_empty() {
            Err(EmptyNameError)
        } else {
            Ok(Name { value })
        }
    }

    /// The name's characters.
    pub fn as_str(&self) -> (r: &str)
        ensures
            r@ == self@,
    {
        self.value.as_str()
    }

    /// Whether two names are equal: exactly when their characters are
    /// equal.
    pub fn same_as(&self, other: &Name) -> (r: bool)
        ensures
            r == (self@ == other@),
    {
        self.value == other.value
    }

    /// Copies the name.
    pub fn dup(&self) -> (r: Name)
        ensures
            r@ == self@,
    {
        proof {
            use_type_invariant(self);
        }
        Name { value: self.value.clone() }
    }
}

impl Clone for Name {
    /// Copies the name.
    fn clone(&self) -> (r: Name)
        ensures
            r@ == self@,
    {
        self.dup()
    }
}

} // verus!
