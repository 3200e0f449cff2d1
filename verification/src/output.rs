//! What a run reports when it succeeds.

use vstd::prelude::*;
use vstd::string::StringExecFns;
use crate::version::{Package, ValidatedPackage};

verus! {

/// The result of a run.
#[derive(Debug, PartialEq, Clone)]
pub enum Output {
    /// The version that the manifest declares.
    Version(Package),
    /// The version to tag in git.
    Tag(Package),
    /// The version before a bump and the version after it.
    Bump(ValidatedPackage, ValidatedPackage),
}

/// A result as contracts speak of it: texts in place of strings.
pub enum Report {
    Version(Seq<char>),
    Tag(Seq<char>),
    Bump(ValidatedPackage, ValidatedPackage),
}

impl Report {
    /// The line that tells a user of the result.
    pub open spec fn text(self) -> Seq<char> {
        match self {
            Report::Version(version) => version,
            Report::Tag(version) => "git tag v"@ + version,
            Report::Bump(before, after) => "Updated version from: "@ + before.text() + " -> "@
                + after.text(),
        }
    }
}

impl View for Output {
    type V = Report;

    open spec fn view(&self) -> Report {
        match *self {
            Output::Version(package) => Report::Version(package@),
            Output::Tag(package) => Report::Tag(package@),
            Output::Bump(before, after) => Report::Bump(before, after),
        }
    }
}

impl Output {
    /// The line that tells a user of the result.
    pub fn to_string(&self) -> (text: String)
        ensures
            text@ == self@.text(),
    {
        match self {
            Output::Version(package) => package.version.clone(),
            Output::Tag(package) => {
                let mut text = String::from_str("git tag v");
                text.append(package.version.as_str());
                text
            },
            Output::Bump(before, after) => {
                let mut text = String::from_str("Updated version from: ");
                let before = before.to_string();
                text.append(before.as_str());
                text.append(" -> ");
                let after = after.to_string();
                text.append(after.as_str());
                text
            },
        }
    }
}

} // verus!
