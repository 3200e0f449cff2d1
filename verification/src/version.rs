//! The version of a package: as the manifest holds it, and as three numbers.

use vstd::prelude::*;
use vstd::string::StringExecFns;
use vstd::std_specs::convert::TryFromSpecImpl;
use crate::args::BumpType;
use crate::error::WaffleError;
use crate::number::{decimal, decimal_text, decimal_value, is_canonical, is_digit, number_of};
use crate::number::parse_number;
use crate::number::{lemma_decimal_of_decimal_value, lemma_decimal_value_of_decimal};
use crate::text::{chars_of, join, one_line, split, split_chars};
use crate::text::{lemma_join_split, lemma_split_append_piece, lemma_split_single_piece};

verus! {

/// The package table of a manifest, with the version as it is written there.
#[derive(Debug, PartialEq, Clone)]
pub struct Package {
    pub version: String,
}

impl View for Package {
    type V = Seq<char>;

    open spec fn view(&self) -> Seq<char> {
        self.version@
    }
}

/// A package as it is named in a message: `Package(1.2.3)`.
pub open spec fn package_text(version: Seq<char>) -> Seq<char> {
    "Package("@ + version + ")"@
}

impl Package {
    pub fn new(version: &str) -> (package: Self)
        ensures
            package@ == version@,
    {
        Package { version: String::from_str(version) }
    }

    /// The package as it is named in a message.
    pub fn to_string(&self) -> (text: String)
        ensures
            text@ == package_text(self@),
    {
        let mut text = String::from_str("Package(");
        text.append(self.version.as_str());
        text.append(")");
        text
    }
}

/// A version of three numbers.
#[derive(Debug, Clone, Copy, PartialEq, Eq, Structural)]
pub struct ValidatedPackage {
    pub major: u16,
    pub minor: u16,
    pub patch: u16,
}

/// Why a text is no version of three numbers.
#[derive(Debug, Clone, Copy, PartialEq, Eq, Structural)]
pub enum Rejection {
    /// There are three parts, and one of them is no number.
    NonNumeric,
    /// There are not three parts.
    NotSemver,
}

/// The parts of a version text: what stands between its dots.
pub open spec fn parts_of(version: Seq<char>) -> Seq<Seq<char>> {
    split(version, '.')
}

/// Every part of `version` is a number.
pub open spec fn all_numeric(version: Seq<char>) -> bool {
    forall|i: int|
        0 <= i < parts_of(version).len() ==> (#[trigger] number_of(parts_of(version)[i])) is Some
}

/// What validating `version` gives. The count of the parts is judged first:
/// a text that has not three parts is no semantic version, whatever its parts
/// are. Of three parts each is to be a number.
pub open spec fn validated(version: Seq<char>) -> Result<ValidatedPackage, Rejection> {
    let parts = parts_of(version);
    if parts.len() != 3 {
        Err(Rejection::NotSemver)
    } else if !all_numeric(version) {
        Err(Rejection::NonNumeric)
    } else {
        Ok(
            ValidatedPackage {
                major: number_of(parts[0])->0,
                minor: number_of(parts[1])->0,
                patch: number_of(parts[2])->0,
            },
        )
    }
}

/// A version text in the form in which a version is written out: three
/// numbers of at most 16 bits, without a sign and without zeros in front.
pub open spec fn is_canonical_version(version: Seq<char>) -> bool {
    let parts = parts_of(version);
    &&& parts.len() == 3
    &&& forall|i: int|
        0 <= i < 3 ==> is_canonical(#[trigger] parts[i]) && decimal_value(parts[i]) <= u16::MAX
}

/// Reads a version of three numbers from `version`, as [`validated`] says.
pub fn validate(version: &str) -> (outcome: Result<ValidatedPackage, Rejection>)
    ensures
        outcome == validated(version@),
{
    let chars = chars_of(version);
    let parts = split_chars(&chars, '.');
    let ghost texts = parts_of(version@);
    assert(texts.len() == parts.len());
    if parts.len() != 3 {
        return Err(Rejection::NotSemver);
    }
    assert(texts[0] == parts[0]@ && texts[1] == parts[1]@ && texts[2] == parts[2]@);
    match (parse_number(&parts[0]), parse_number(&parts[1]), parse_number(&parts[2])) {
        (Some(major), Some(minor), Some(patch)) => Ok(ValidatedPackage { major, minor, patch }),
        _ => Err(Rejection::NonNumeric),
    }
}

impl ValidatedPackage {
    /// The version that `version` holds.
    pub fn new(version: &str) -> (package: Self)
        requires
            validated(version@) is Ok,
        ensures
            validated(version@) == Ok::<ValidatedPackage, Rejection>(package),
    {
        match validate(version) {
            Ok(package) => package,
            Err(_) => vstd::pervasive::unreached(),
        }
    }

    /// The version written out: `major.minor.patch`.
    pub open spec fn text(self) -> Seq<char> {
        decimal(self.major as nat).push('.') + decimal(self.minor as nat).push('.') + decimal(
            self.patch as nat,
        )
    }

    /// The version written out.
    pub fn to_string(&self) -> (text: String)
        ensures
            text@ == self.text(),
    {
        proof {
            reveal_strlit(".");
        }
        let mut text = decimal_text(self.major);
        text.append(".");
        let minor = decimal_text(self.minor);
        text.append(minor.as_str());
        text.append(".");
        let patch = decimal_text(self.patch);
        text.append(patch.as_str());
        text
    }

    /// A version is written out on one line.
    pub proof fn lemma_text_is_one_line(self)
        ensures
            one_line(self.text()),
    {
        lemma_decimal_value_of_decimal(self.major as nat);
        lemma_decimal_value_of_decimal(self.minor as nat);
        lemma_decimal_value_of_decimal(self.patch as nat);
        let major = decimal(self.major as nat);
        let minor = decimal(self.minor as nat);
        let patch = decimal(self.patch as nat);
        assert forall|i: int| 0 <= i < self.text().len() implies self.text()[i] != '\n' by {
            let first = major.push('.');
            let second = minor.push('.');
            if i < major.len() {
                assert(is_digit(major[i]));
            } else if i < first.len() {
            } else if i < first.len() + minor.len() {
                assert(is_digit(minor[i - first.len()]));
            } else if i < first.len() + second.len() {
            } else {
                assert(is_digit(patch[i - first.len() - second.len()]));
            }
        }
    }

    /// The part that a bump of `bump_type` increments.
    pub open spec fn bumped_part(self, bump_type: BumpType) -> u16 {
        match bump_type {
            BumpType::Major => self.major,
            BumpType::Minor => self.minor,
            BumpType::Patch => self.patch,
        }
    }

    /// There is a next version of this kind: the part to increment is not
    /// yet the largest number of 16 bits.
    pub open spec fn can_bump(self, bump_type: BumpType) -> bool {
        self.bumped_part(bump_type) < u16::MAX
    }

    /// The next version of the given kind: the part increased by one, the
    /// parts to its right zero, the parts to its left as they were.
    pub open spec fn bumped(self, bump_type: BumpType) -> ValidatedPackage
        recommends
            self.can_bump(bump_type),
    {
        match bump_type {
            BumpType::Major => ValidatedPackage {
                major: (self.major + 1) as u16,
                minor: 0,
                patch: 0,
            },
            BumpType::Minor => ValidatedPackage {
                major: self.major,
                minor: (self.minor + 1) as u16,
                patch: 0,
            },
            BumpType::Patch => ValidatedPackage {
                major: self.major,
                minor: self.minor,
                patch: (self.patch + 1) as u16,
            },
        }
    }

    /// Says whether there is a next version of the given kind.
    pub fn has_next(&self, bump_type: BumpType) -> (yes: bool)
        ensures
            yes == self.can_bump(bump_type),
    {
        match bump_type {
            BumpType::Major => self.major < u16::MAX,
            BumpType::Minor => self.minor < u16::MAX,
            BumpType::Patch => self.patch < u16::MAX,
        }
    }

    /// The next version of the given kind.
    pub fn bump_version(&self, bump_type: BumpType) -> (next: ValidatedPackage)
        requires
            self.can_bump(bump_type),
        ensures
            next == self.bumped(bump_type),
    {
        let (next_major, next_minor, next_patch) = match bump_type {
            BumpType::Major => (self.major + 1, 0u16, 0u16),
            BumpType::Minor => (self.major, self.minor + 1, 0u16),
            BumpType::Patch => (self.major, self.minor, self.patch + 1),
        };
        ValidatedPackage { major: next_major, minor: next_minor, patch: next_patch }
    }
}

impl TryFrom<Package> for ValidatedPackage {
    type Error = WaffleError;

    fn try_from(package: Package) -> (outcome: Result<Self, Self::Error>) {
        match validate(package.version.as_str()) {
            Ok(validated) => Ok(validated),
            Err(Rejection::NonNumeric) => Err(WaffleError::NonNumericVersions(package)),
            Err(Rejection::NotSemver) => Err(WaffleError::NotSemver(package)),
        }
    }
}

impl TryFromSpecImpl<Package> for ValidatedPackage {
    open spec fn obeys_try_from_spec() -> bool {
        true
    }

    open spec fn try_from_spec(package: Package) -> Result<Self, Self::Error> {
        match validated(package@) {
            Ok(validated) => Ok(validated),
            Err(Rejection::NonNumeric) => Err(WaffleError::NonNumericVersions(package)),
            Err(Rejection::NotSemver) => Err(WaffleError::NotSemver(package)),
        }
    }
}

/// A canonical part is read as the number that its digits are worth.
proof fn lemma_canonical_part_number(part: Seq<char>)
    requires
        is_canonical(part),
        decimal_value(part) <= u16::MAX,
    ensures
        number_of(part) == Some(decimal_value(part) as u16),
        decimal(decimal_value(part)) == part,
{
    assert(part[0] != '+');
    lemma_decimal_of_decimal_value(part);
}

/// Validating a version text in canonical form and writing the result out
/// gives the text back.
pub proof fn lemma_validate_then_write(version: Seq<char>)
    requires
        is_canonical_version(version),
    ensures
        validated(version) is Ok,
        validated(version)->Ok_0.text() == version,
{
    let parts = parts_of(version);
    assert(is_canonical(parts[0]) && is_canonical(parts[1]) && is_canonical(parts[2]));
    lemma_canonical_part_number(parts[0]);
    lemma_canonical_part_number(parts[1]);
    lemma_canonical_part_number(parts[2]);
    assert(all_numeric(version)) by {
        assert forall|i: int| 0 <= i < parts_of(version).len() implies (#[trigger] number_of(
            parts_of(version)[i],
        )) is Some by {
            assert(is_canonical(parts[i]));
            lemma_canonical_part_number(parts[i]);
        }
    }
    let package = validated(version)->Ok_0;
    assert(decimal(package.major as nat) == parts[0]);
    assert(decimal(package.minor as nat) == parts[1]);
    assert(decimal(package.patch as nat) == parts[2]);
    lemma_join_split(version, '.');
    let two = parts.drop_last();
    let one = two.drop_last();
    assert(join(one, '.') == parts[0]);
    assert(join(two, '.') == join(one, '.').push('.') + parts[1]);
    assert(join(parts, '.') == join(two, '.').push('.') + parts[2]);
    assert(package.text() == join(parts, '.'));
}

/// Writing a version out and validating the text gives the version back, and
/// the text is in canonical form.
pub proof fn lemma_write_then_validate(package: ValidatedPackage)
    ensures
        is_canonical_version(package.text()),
        validated(package.text()) == Ok::<ValidatedPackage, Rejection>(package),
{
    let major = decimal(package.major as nat);
    let minor = decimal(package.minor as nat);
    let patch = decimal(package.patch as nat);
    lemma_decimal_value_of_decimal(package.major as nat);
    lemma_decimal_value_of_decimal(package.minor as nat);
    lemma_decimal_value_of_decimal(package.patch as nat);
    assert forall|j: int| 0 <= j < major.len() implies major[j] != '.' by {
        assert(is_digit(major[j]));
    }
    assert forall|j: int| 0 <= j < minor.len() implies minor[j] != '.' by {
        assert(is_digit(minor[j]));
    }
    assert forall|j: int| 0 <= j < patch.len() implies patch[j] != '.' by {
        assert(is_digit(patch[j]));
    }
    lemma_split_single_piece(major, '.');
    lemma_split_append_piece(major, minor, '.');
    lemma_split_append_piece(major.push('.') + minor, patch, '.');
    let text = package.text();
    assert(text == (major.push('.') + minor).push('.') + patch);
    let parts = parts_of(text);
    assert(parts == seq![major, minor, patch]);
    lemma_canonical_part_number(major);
    lemma_canonical_part_number(minor);
    lemma_canonical_part_number(patch);
    assert(all_numeric(text)) by {
        assert forall|i: int| 0 <= i < parts_of(text).len() implies (#[trigger] number_of(
            parts_of(text)[i],
        )) is Some by {
            assert(parts[i] == major || parts[i] == minor || parts[i] == patch);
        }
    }
    assert forall|i: int| 0 <= i < 3 implies is_canonical(#[trigger] parts[i]) && decimal_value(
        parts[i],
    ) <= u16::MAX by {
        assert(parts[i] == major || parts[i] == minor || parts[i] == patch);
    }
}

/// How many of the three parts of `after` are the part of `before` plus one.
pub open spec fn parts_raised(before: ValidatedPackage, after: ValidatedPackage) -> nat {
    (if after.major == before.major + 1 {
        1nat
    } else {
        0nat
    }) + (if after.minor == before.minor + 1 {
        1nat
    } else {
        0nat
    }) + (if after.patch == before.patch + 1 {
        1nat
    } else {
        0nat
    })
}

/// A bump raises exactly one part by one, the part of its kind; the parts to
/// the right of that part are zero afterwards, the parts to its left unchanged.
pub proof fn lemma_bump_raises_one_part(package: ValidatedPackage, bump_type: BumpType)
    requires
        package.can_bump(bump_type),
    ensures
        parts_raised(package, package.bumped(bump_type)) == 1,
        package.bumped(bump_type).bumped_part(bump_type) == package.bumped_part(bump_type) + 1,
        bump_type == BumpType::Major ==> package.bumped(bump_type).minor == 0
            && package.bumped(bump_type).patch == 0,
        bump_type == BumpType::Minor ==> package.bumped(bump_type).major == package.major
            && package.bumped(bump_type).patch == 0,
        bump_type == BumpType::Patch ==> package.bumped(bump_type).major == package.major
            && package.bumped(bump_type).minor == package.minor,
{
}

} // verus!
