//! What the command line asks for.

use vstd::prelude::*;
use vstd::string::StringExecFns;
use crate::error::{ResultW, WaffleError};

verus! {

/// The arguments of one run.
#[derive(Debug, Clone)]
pub struct Args {
    pub commands: WaffleCommands,
    /// Location of the manifest. Without it the manifest of the current
    /// directory is used.
    pub toml_file: Option<String>,
}

/// What a run is to do.
#[derive(Debug, Clone)]
pub enum WaffleCommands {
    /// Get the current version of the project.
    Get,
    /// Bump the current version to the next one. One of major, minor and
    /// patch is to be set.
    Bump { major: bool, minor: bool, patch: bool, no_diff: bool },
    /// Show the command that tags the current version in git.
    Tag,
}

/// The component of a version that a bump increments.
#[derive(Debug, PartialEq, Eq, Structural, Clone, Copy)]
pub enum BumpType {
    Major,
    Minor,
    Patch,
}

/// How many of the three flags are set.
pub open spec fn flags_set(major: bool, minor: bool, patch: bool) -> nat {
    (if major {
        1nat
    } else {
        0nat
    }) + (if minor {
        1nat
    } else {
        0nat
    }) + (if patch {
        1nat
    } else {
        0nat
    })
}

impl BumpType {
    /// The kind of bump as it is named in a message.
    pub open spec fn text(self) -> Seq<char> {
        match self {
            BumpType::Major => "major"@,
            BumpType::Minor => "minor"@,
            BumpType::Patch => "patch"@,
        }
    }

    /// The kind of bump as it is named in a message.
    pub fn to_string(&self) -> (text: String)
        ensures
            text@ == self.text(),
    {
        match self {
            BumpType::Major => String::from_str("major"),
            BumpType::Minor => String::from_str("minor"),
            BumpType::Patch => String::from_str("patch"),
        }
    }

    /// The kind of bump that the three flags select: the one that is set,
    /// where exactly one is.
    pub fn get_bump_type(major: bool, minor: bool, patch: bool) -> (outcome: ResultW<BumpType>)
        ensures
            flags_set(major, minor, patch) == 0 <==> outcome == Err::<BumpType, WaffleError>(
                WaffleError::NoBumpCombinations,
            ),
            flags_set(major, minor, patch) > 1 <==> outcome == Err::<BumpType, WaffleError>(
                WaffleError::TooManyBumpCombinations,
            ),
            major && !minor && !patch <==> outcome == Ok::<BumpType, WaffleError>(BumpType::Major),
            !major && minor && !patch <==> outcome == Ok::<BumpType, WaffleError>(BumpType::Minor),
            !major && !minor && patch <==> outcome == Ok::<BumpType, WaffleError>(BumpType::Patch),
    {
        let mut set_flags: u8 = 0;
        if major {
            set_flags += 1;
        }
        if minor {
            set_flags += 1;
        }
        if patch {
            set_flags += 1;
        }
        if set_flags == 0 {
            Err(WaffleError::NoBumpCombinations)
        } else if set_flags > 1 {
            Err(WaffleError::TooManyBumpCombinations)
        } else if major {
            Ok(BumpType::Major)
        } else if minor {
            Ok(BumpType::Minor)
        } else {
            Ok(BumpType::Patch)
        }
    }
}

} // verus!
