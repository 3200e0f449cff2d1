//! The failures that reading, validating and bumping a version can end in.

use vstd::prelude::*;
use vstd::string::StringExecFns;
use crate::args::BumpType;
use crate::text::{flatten, lemma_on_one_line, on_one_line, one_line};
use crate::version::{package_text, Package, ValidatedPackage};

verus! {

/// The path of a manifest, kept as text for diagnostics.
#[derive(Debug, PartialEq)]
pub struct FileName(String);

impl View for FileName {
    type V = Seq<char>;

    closed spec fn view(&self) -> Seq<char> {
        self.0@
    }
}

impl FileName {
    pub fn new(path: &str) -> (name: Self)
        ensures
            name@ == path@,
    {
        FileName(String::from_str(path))
    }

    /// The path as it was given.
    pub fn as_str(&self) -> (path: &str)
        ensures
            path@ == self@,
    {
        self.0.as_str()
    }
}

/// The text of a manifest, kept for diagnostics.
#[derive(Debug, PartialEq)]
pub struct TomlContent(String);

impl View for TomlContent {
    type V = Seq<char>;

    closed spec fn view(&self) -> Seq<char> {
        self.0@
    }
}

impl TomlContent {
    pub fn new(content: &str) -> (text: Self)
        ensures
            text@ == content@,
    {
        TomlContent(String::from_str(content))
    }

    /// The text as it was given.
    pub fn as_str(&self) -> (content: &str)
        ensures
            content@ == self@,
    {
        self.0.as_str()
    }
}

/// What a step of this library returns.
pub type ResultW<T> = Result<T, WaffleError>;

/// A failure of one run.
#[derive(Debug, PartialEq)]
pub enum WaffleError {
    /// The manifest could not be read: its path and the cause.
    CouldNotReadTomlFile(FileName, String),
    /// The manifest could not be written: its path, the text meant for it and
    /// the cause.
    CouldNotUpdateTomlFile(FileName, TomlContent, String),
    /// The manifest declares no version that can be read: its path and the
    /// cause.
    CouldParseTomlFile(FileName, String),
    /// The manifest is no document that can be edited: its path, its text and
    /// the cause.
    CouldConvertTomlContentToDocument(FileName, TomlContent, String),
    /// More than one kind of bump was asked for.
    TooManyBumpCombinations,
    /// No kind of bump was asked for.
    NoBumpCombinations,
    /// A part of the version is no number.
    NonNumericVersions(Package),
    /// The version has not three parts.
    NotSemver(Package),
    /// The version has no next version of the kind asked for.
    VersionOverflow(ValidatedPackage, BumpType),
}

/// A failure as contracts speak of it: texts in place of strings.
pub enum Failure {
    CouldNotReadTomlFile(Seq<char>, Seq<char>),
    CouldNotUpdateTomlFile(Seq<char>, Seq<char>, Seq<char>),
    CouldParseTomlFile(Seq<char>, Seq<char>),
    CouldConvertTomlContentToDocument(Seq<char>, Seq<char>, Seq<char>),
    TooManyBumpCombinations,
    NoBumpCombinations,
    NonNumericVersions(Seq<char>),
    NotSemver(Seq<char>),
    VersionOverflow(ValidatedPackage, BumpType),
}

impl Failure {
    /// The message that tells a user of the failure: one line, which names
    /// the manifest and the cause where there are any. A text that the
    /// message takes over is put on one line. The text of a manifest is kept
    /// in the failure and is no part of the message.
    pub open spec fn message(self) -> Seq<char> {
        match self {
            Failure::CouldNotReadTomlFile(file, cause) => "Could not read Toml file: "@
                + on_one_line(file) + ", due to error: "@ + on_one_line(cause),
            Failure::CouldNotUpdateTomlFile(file, _, cause) => "Could not update Toml file: "@
                + on_one_line(file) + ", due to error: "@ + on_one_line(cause),
            Failure::CouldParseTomlFile(file, cause) => "Could not parse Toml file: "@
                + on_one_line(file) + ", due to error: "@ + on_one_line(cause),
            Failure::CouldConvertTomlContentToDocument(file, _, cause) => {
                "Could not parse Toml file: "@ + on_one_line(file)
                    + " into Toml document, due to error: "@ + on_one_line(cause)
            },
            Failure::TooManyBumpCombinations => {
                "Only one of Major, Minor or Patch is allowed. Supply a single bump type."@
            },
            Failure::NoBumpCombinations => "At least one of Major, Minor or Patch is required"@,
            Failure::NonNumericVersions(version) => "Toml package.version: "@ + package_text(
                on_one_line(version),
            ) + " is not numeric. Waffle only supports Semantic Versioning."@,
            Failure::NotSemver(version) => "Toml package.version: "@ + package_text(
                on_one_line(version),
            )
                + " is not a valid Semantic Version with format: major.minor.patch. Waffle only supports Semantic Versioning."@,
            Failure::VersionOverflow(package, bump_type) => "Toml package.version: "@
                + package.text() + " has no next "@ + bump_type.text()
                + " version. Waffle only supports version numbers up to 65535."@,
        }
    }
}

/// The message of every failure is one line.
pub proof fn lemma_message_is_one_line(failure: Failure)
    ensures
        one_line(failure.message()),
{
    match failure {
        Failure::CouldNotReadTomlFile(file, cause) => {
            reveal_strlit("Could not read Toml file: ");
            reveal_strlit(", due to error: ");
        },
        Failure::CouldNotUpdateTomlFile(file, content, cause) => {
            reveal_strlit("Could not update Toml file: ");
            reveal_strlit(", due to error: ");
        },
        Failure::CouldParseTomlFile(file, cause) => {
            reveal_strlit("Could not parse Toml file: ");
            reveal_strlit(", due to error: ");
        },
        Failure::CouldConvertTomlContentToDocument(file, content, cause) => {
            reveal_strlit("Could not parse Toml file: ");
            reveal_strlit(" into Toml document, due to error: ");
        },
        Failure::TooManyBumpCombinations => {
            reveal_strlit(
                "Only one of Major, Minor or Patch is allowed. Supply a single bump type.",
            );
        },
        Failure::NoBumpCombinations => {
            reveal_strlit("At least one of Major, Minor or Patch is required");
        },
        Failure::NonNumericVersions(version) => {
            reveal_strlit("Toml package.version: ");
            reveal_strlit("Package(");
            reveal_strlit(")");
            reveal_strlit(" is not numeric. Waffle only supports Semantic Versioning.");
        },
        Failure::NotSemver(version) => {
            reveal_strlit("Toml package.version: ");
            reveal_strlit("Package(");
            reveal_strlit(")");
            reveal_strlit(
                " is not a valid Semantic Version with format: major.minor.patch. Waffle only supports Semantic Versioning.",
            );
        },
        Failure::VersionOverflow(package, bump_type) => {
            reveal_strlit("Toml package.version: ");
            reveal_strlit(" has no next ");
            reveal_strlit(" version. Waffle only supports version numbers up to 65535.");
            reveal_strlit("major");
            reveal_strlit("minor");
            reveal_strlit("patch");
            package.lemma_text_is_one_line();
        },
    }
}

/// The message of a failure takes the path, the cause and the version over as
/// they are, where they hold no line break.
pub proof fn lemma_message_keeps_one_line_texts(failure: Failure)
    ensures
        match failure {
            Failure::CouldNotReadTomlFile(file, cause) => one_line(file) && one_line(cause)
                ==> failure.message() == "Could not read Toml file: "@ + file
                + ", due to error: "@ + cause,
            Failure::CouldNotUpdateTomlFile(file, _, cause) => one_line(file) && one_line(cause)
                ==> failure.message() == "Could not update Toml file: "@ + file
                + ", due to error: "@ + cause,
            Failure::CouldParseTomlFile(file, cause) => one_line(file) && one_line(cause)
                ==> failure.message() == "Could not parse Toml file: "@ + file
                + ", due to error: "@ + cause,
            Failure::CouldConvertTomlContentToDocument(file, _, cause) => one_line(file)
                && one_line(cause) ==> failure.message() == "Could not parse Toml file: "@ + file
                + " into Toml document, due to error: "@ + cause,
            Failure::NonNumericVersions(version) => one_line(version) ==> failure.message()
                == "Toml package.version: "@ + package_text(version)
                + " is not numeric. Waffle only supports Semantic Versioning."@,
            Failure::NotSemver(version) => one_line(version) ==> failure.message()
                == "Toml package.version: "@ + package_text(version)
                + " is not a valid Semantic Version with format: major.minor.patch. Waffle only supports Semantic Versioning."@,
            _ => true,
        },
{
    match failure {
        Failure::CouldNotReadTomlFile(file, cause) => {
            lemma_on_one_line(file);
            lemma_on_one_line(cause);
        },
        Failure::CouldNotUpdateTomlFile(file, _, cause) => {
            lemma_on_one_line(file);
            lemma_on_one_line(cause);
        },
        Failure::CouldParseTomlFile(file, cause) => {
            lemma_on_one_line(file);
            lemma_on_one_line(cause);
        },
        Failure::CouldConvertTomlContentToDocument(file, _, cause) => {
            lemma_on_one_line(file);
            lemma_on_one_line(cause);
        },
        Failure::NonNumericVersions(version) => {
            lemma_on_one_line(version);
        },
        Failure::NotSemver(version) => {
            lemma_on_one_line(version);
        },
        _ => {},
    }
}

/// `file`, then `middle`, then `cause`, behind `start`; `file` and `cause`
/// on one line each.
fn file_message(start: &str, file: &FileName, middle: &str, cause: &String) -> (message: String)
    ensures
        message@ == start@ + on_one_line(file@) + middle@ + on_one_line(cause@),
{
    let mut message = String::from_str(start);
    let file = flatten(file.as_str());
    message.append(file.as_str());
    message.append(middle);
    let cause = flatten(cause.as_str());
    message.append(cause.as_str());
    message
}

/// The package of `version`, put on one line, between `start` and `end`.
fn package_message(start: &str, package: &Package, end: &str) -> (message: String)
    ensures
        message@ == start@ + package_text(on_one_line(package@)) + end@,
{
    let mut message = String::from_str(start);
    let version = flatten(package.version.as_str());
    message.append("Package(");
    message.append(version.as_str());
    message.append(")");
    message.append(end);
    assert(message@ == start@ + package_text(on_one_line(package@)) + end@);
    message
}

impl WaffleError {
    /// The message that tells a user of the failure: always one line.
    pub fn to_string(&self) -> (message: String)
        ensures
            message@ == self@.message(),
            one_line(message@),
    {
        proof {
            lemma_message_is_one_line(self@);
        }
        match self {
            WaffleError::CouldNotReadTomlFile(file, cause) => file_message(
                "Could not read Toml file: ",
                file,
                ", due to error: ",
                cause,
            ),
            WaffleError::CouldNotUpdateTomlFile(file, _, cause) => file_message(
                "Could not update Toml file: ",
                file,
                ", due to error: ",
                cause,
            ),
            WaffleError::CouldParseTomlFile(file, cause) => file_message(
                "Could not parse Toml file: ",
                file,
                ", due to error: ",
                cause,
            ),
            WaffleError::CouldConvertTomlContentToDocument(file, _, cause) => file_message(
                "Could not parse Toml file: ",
                file,
                " into Toml document, due to error: ",
                cause,
            ),
            WaffleError::TooManyBumpCombinations => String::from_str(
                "Only one of Major, Minor or Patch is allowed. Supply a single bump type.",
            ),
            WaffleError::NoBumpCombinations => String::from_str(
                "At least one of Major, Minor or Patch is required",
            ),
            WaffleError::NonNumericVersions(package) => package_message(
                "Toml package.version: ",
                package,
                " is not numeric. Waffle only supports Semantic Versioning.",
            ),
            WaffleError::NotSemver(package) => package_message(
                "Toml package.version: ",
                package,
                " is not a valid Semantic Version with format: major.minor.patch. Waffle only supports Semantic Versioning.",
            ),
            WaffleError::VersionOverflow(package, bump_type) => {
                let mut message = String::from_str("Toml package.version: ");
                let package = package.to_string();
                message.append(package.as_str());
                message.append(" has no next ");
                let bump_type = bump_type.to_string();
                message.append(bump_type.as_str());
                message.append(" version. Waffle only supports version numbers up to 65535.");
                message
            },
        }
    }
}

impl View for WaffleError {
    type V = Failure;

    open spec fn view(&self) -> Failure {
        match *self {
            WaffleError::CouldNotReadTomlFile(file, cause) => Failure::CouldNotReadTomlFile(
                file@,
                cause@,
            ),
            WaffleError::CouldNotUpdateTomlFile(file, content, cause) => {
                Failure::CouldNotUpdateTomlFile(file@, content@, cause@)
            },
            WaffleError::CouldParseTomlFile(file, cause) => Failure::CouldParseTomlFile(
                file@,
                cause@,
            ),
            WaffleError::CouldConvertTomlContentToDocument(file, content, cause) => {
                Failure::CouldConvertTomlContentToDocument(file@, content@, cause@)
            },
            WaffleError::TooManyBumpCombinations => Failure::TooManyBumpCombinations,
            WaffleError::NoBumpCombinations => Failure::NoBumpCombinations,
            WaffleError::NonNumericVersions(package) => Failure::NonNumericVersions(package@),
            WaffleError::NotSemver(package) => Failure::NotSemver(package@),
            WaffleError::VersionOverflow(package, bump_type) => Failure::VersionOverflow(
                package,
                bump_type,
            ),
        }
    }
}

} // verus!
