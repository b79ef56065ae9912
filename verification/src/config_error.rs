//! The errors of the command line.

use vstd::prelude::*;
use vstd::string::*;

verus! {

/// What is wrong with the arguments.
#[derive(Clone, Copy, Debug, PartialEq, Eq, Structural)]
pub enum ValidationErrorKind {
    BothOrgAndUserNotSet,
    BothOrgAndUserSet,
}

impl ValidationErrorKind {
    /// The words that describe this kind to a user.
    pub open spec fn text(self) -> Seq<char> {
        match self {
            ValidationErrorKind::BothOrgAndUserSet => "cannot set both organisation and user flags"@,
            ValidationErrorKind::BothOrgAndUserNotSet =>
                "please specify a user or organisation to clone"@,
        }
    }

    pub fn as_str(&self) -> (s: &'static str)
        ensures
            s@ == self.text(),
    {
        match *self {
            ValidationErrorKind::BothOrgAndUserSet => "cannot set both organisation and user flags",
            ValidationErrorKind::BothOrgAndUserNotSet =>
                "please specify a user or organisation to clone",
        }
    }
}

/// Arguments that cannot be acted on, with what is wrong with them.
#[derive(Clone, Copy, Debug, PartialEq, Eq, Structural)]
pub struct ValidationError {
    pub kind: ValidationErrorKind,
}

impl ValidationError {
    pub fn new(kind: ValidationErrorKind) -> (e: ValidationError)
        ensures
            e.kind == kind,
    {
        ValidationError { kind }
    }

    /// The line shown to a user for this error.
    pub open spec fn text(self) -> Seq<char> {
        "ValidationError: "@ + self.kind.text()
    }

    /// The line shown to a user for this error.
    pub fn message(&self) -> (s: String)
        ensures
            s@ == self.text(),
    {
        let mut s = String::from_str("ValidationError: ");
        s.append(self.kind.as_str());
        s
    }
}

} // verus!
