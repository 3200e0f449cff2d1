//! One run: from what was asked and the text of the manifest to what is to be
//! reported, written and shown.

use vstd::prelude::*;
use crate::args::{BumpType, WaffleCommands};
use crate::diff::{line_changes, line_views, render_diff, shown};
use crate::error::{Failure, ResultW, WaffleError};
use crate::manifest::{declared_version, document_text, get_current_version, no_version_cause};
use crate::manifest::{updated_content, updated_document, TomlData};
use crate::output::{Output, Report};
use crate::version::{validated, Rejection, ValidatedPackage};

verus! {

/// What a run is to do, once the command line is found to be in order.
#[derive(Debug, PartialEq, Eq, Structural, Clone, Copy)]
pub enum Task {
    /// Report the current version.
    Get,
    /// Report the command that tags the current version.
    Tag,
    /// Bump the current version; `no_diff` says that the change to the
    /// manifest is not to be shown.
    Bump { bump_type: BumpType, no_diff: bool },
}

/// What a run has come to.
#[derive(Debug, PartialEq, Clone)]
pub struct Outcome {
    /// What to report.
    pub output: Output,
    /// The new text of the manifest, where it is to be written.
    pub new_content: Option<String>,
    /// The lines that show how the manifest changes.
    pub diff: Vec<String>,
}

/// What a run has come to, as contracts speak of it.
pub struct Summary {
    pub report: Report,
    pub new_content: Option<Seq<char>>,
    pub diff: Seq<Seq<char>>,
}

impl View for Outcome {
    type V = Summary;

    open spec fn view(&self) -> Summary {
        Summary {
            report: self.output@,
            new_content: match self.new_content {
                Some(text) => Some(text@),
                None => None,
            },
            diff: line_views(self.diff@),
        }
    }
}

/// The task that `commands` asks for. No manifest is needed to tell: a bump
/// that does not select exactly one kind fails here.
pub fn plan(commands: &WaffleCommands) -> (outcome: ResultW<Task>)
    ensures
        match *commands {
            WaffleCommands::Get => outcome == Ok::<Task, WaffleError>(Task::Get),
            WaffleCommands::Tag => outcome == Ok::<Task, WaffleError>(Task::Tag),
            WaffleCommands::Bump { major, minor, patch, no_diff } => {
                &&& outcome == Err::<Task, WaffleError>(WaffleError::NoBumpCombinations) <==> !major
                    && !minor && !patch
                &&& outcome == Err::<Task, WaffleError>(WaffleError::TooManyBumpCombinations) <==> (
                major && minor) || (major && patch) || (minor && patch)
                &&& outcome == Ok::<Task, WaffleError>(
                    Task::Bump { bump_type: BumpType::Major, no_diff },
                ) <==> major && !minor && !patch
                &&& outcome == Ok::<Task, WaffleError>(
                    Task::Bump { bump_type: BumpType::Minor, no_diff },
                ) <==> !major && minor && !patch
                &&& outcome == Ok::<Task, WaffleError>(
                    Task::Bump { bump_type: BumpType::Patch, no_diff },
                ) <==> !major && !minor && patch
            },
        },
{
    match commands {
        WaffleCommands::Get => Ok(Task::Get),
        WaffleCommands::Tag => Ok(Task::Tag),
        WaffleCommands::Bump { major, minor, patch, no_diff } => {
            match BumpType::get_bump_type(*major, *minor, *patch) {
                Ok(bump_type) => Ok(Task::Bump { bump_type, no_diff: *no_diff }),
                Err(error) => Err(error),
            }
        },
    }
}

/// What a bump of the kind `bump_type` makes of a manifest of the text
/// `content` that declares `version`.
pub open spec fn bump_result(
    bump_type: BumpType,
    no_diff: bool,
    content: Seq<char>,
    version: Seq<char>,
) -> Result<Summary, Failure> {
    match validated(version) {
        Err(Rejection::NonNumeric) => Err(Failure::NonNumericVersions(version)),
        Err(Rejection::NotSemver) => Err(Failure::NotSemver(version)),
        Ok(current) => if !current.can_bump(bump_type) {
            Err(Failure::VersionOverflow(current, bump_type))
        } else {
            let next = current.bumped(bump_type);
            let new_content = document_text(updated_document(content, next.text()));
            Ok(
                Summary {
                    report: Report::Bump(current, next),
                    new_content: Some(new_content),
                    diff: if no_diff {
                        Seq::empty()
                    } else {
                        shown(line_changes(content, new_content))
                    },
                },
            )
        },
    }
}

/// What `task` makes of the manifest `toml_file` of the text `content`.
pub open spec fn workflow_result(task: Task, toml_file: Seq<char>, content: Seq<char>) -> Result<
    Summary,
    Failure,
> {
    match declared_version(content) {
        None => Err(Failure::CouldParseTomlFile(toml_file, no_version_cause(content))),
        Some(version) => match task {
            Task::Get => Ok(
                Summary { report: Report::Version(version), new_content: None, diff: Seq::empty() },
            ),
            Task::Tag => Ok(
                Summary { report: Report::Tag(version), new_content: None, diff: Seq::empty() },
            ),
            Task::Bump { bump_type, no_diff } => bump_result(bump_type, no_diff, content, version),
        },
    }
}

/// Carries out `task` on the manifest `toml_file`, whose text is
/// `toml_content`: reads the version it declares and, for a bump, validates
/// it, takes the next version and writes it into the text. Nothing is read
/// from disk or written to it here: the new text and the lines that show the
/// change are handed back.
pub fn workflow(task: Task, toml_file: &str, toml_content: &str) -> (outcome: ResultW<Outcome>)
    ensures
        match outcome {
            Ok(done) => workflow_result(task, toml_file@, toml_content@) == Ok::<Summary, Failure>(
                done@,
            ),
            Err(error) => workflow_result(task, toml_file@, toml_content@) == Err::<
                Summary,
                Failure,
            >(error@),
        },
{
    let toml_data = match get_current_version(toml_file, toml_content) {
        Ok(toml_data) => toml_data,
        Err(error) => {
            return Err(error);
        },
    };
    match task {
        Task::Get => {
            let done = Outcome {
                output: Output::Version(toml_data.package),
                new_content: None,
                diff: Vec::new(),
            };
            assert(done@.diff == Seq::<Seq<char>>::empty());
            Ok(done)
        },
        Task::Tag => {
            let done = Outcome {
                output: Output::Tag(toml_data.package),
                new_content: None,
                diff: Vec::new(),
            };
            assert(done@.diff == Seq::<Seq<char>>::empty());
            Ok(done)
        },
        Task::Bump { bump_type, no_diff } => {
            let TomlData { package, content } = toml_data;
            let validated_current_version = match ValidatedPackage::try_from(package) {
                Ok(validated) => validated,
                Err(error) => {
                    return Err(error);
                },
            };
            if !validated_current_version.has_next(bump_type) {
                return Err(WaffleError::VersionOverflow(validated_current_version, bump_type));
            }
            let next_version = validated_current_version.bump_version(bump_type);
            let new_content = match updated_content(toml_file, content.as_str(), next_version) {
                Ok(new_content) => new_content,
                Err(error) => {
                    return Err(error);
                },
            };
            let diff = if no_diff {
                Vec::new()
            } else {
                render_diff(content.as_str(), new_content.as_str())
            };
            let done = Outcome {
                output: Output::Bump(validated_current_version, next_version),
                new_content: Some(new_content),
                diff,
            };
            assert(no_diff ==> done@.diff == Seq::<Seq<char>>::empty());
            Ok(done)
        },
    }
}

} // verus!
