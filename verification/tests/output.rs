use waffle::args::BumpType;
use waffle::error::{FileName, TomlContent, WaffleError};
use waffle::output::Output;
use waffle::version::{Package, ValidatedPackage};

#[test]
fn version_is_reported_as_it_is() {
    assert_eq!(Output::Version(Package::new("1.2.3")).to_string(), "1.2.3")
}

#[test]
fn tag_is_reported_as_a_git_command() {
    assert_eq!(Output::Tag(Package::new("1.2.3")).to_string(), "git tag v1.2.3")
}

#[test]
fn bump_is_reported_with_both_versions() {
    let before = ValidatedPackage { major: 1, minor: 2, patch: 3 };
    let after = ValidatedPackage { major: 2, minor: 0, patch: 0 };

    assert_eq!(Output::Bump(before, after).to_string(), "Updated version from: 1.2.3 -> 2.0.0")
}

#[test]
fn file_name_and_content_keep_their_text() {
    assert_eq!(FileName::new("./Cargo.toml").as_str(), "./Cargo.toml");
    assert_eq!(TomlContent::new("a = 1\n").as_str(), "a = 1\n");
}

#[test]
fn message_could_not_read() {
    let error = WaffleError::CouldNotReadTomlFile(
        FileName::new("x/Cargo.toml"),
        "No such file or directory (os error 2)".to_owned(),
    );

    assert_eq!(
        error.to_string(),
        "Could not read Toml file: x/Cargo.toml, due to error: No such file or directory (os error 2)"
    )
}

#[test]
fn message_could_not_update() {
    let error = WaffleError::CouldNotUpdateTomlFile(
        FileName::new("Cargo.toml"),
        TomlContent::new("[package]\n"),
        "denied".to_owned(),
    );

    assert_eq!(
        error.to_string(),
        "Could not update Toml file: Cargo.toml, due to error: denied"
    )
}

#[test]
fn message_could_not_parse() {
    let error =
        WaffleError::CouldParseTomlFile(FileName::new("Cargo.toml"), "expected `=`".to_owned());

    assert_eq!(
        error.to_string(),
        "Could not parse Toml file: Cargo.toml, due to error: expected `=`"
    )
}

#[test]
fn message_could_not_convert() {
    let error = WaffleError::CouldConvertTomlContentToDocument(
        FileName::new("Cargo.toml"),
        TomlContent::new("[package"),
        "invalid table header".to_owned(),
    );

    assert_eq!(
        error.to_string(),
        "Could not parse Toml file: Cargo.toml into Toml document, due to error: invalid table header"
    )
}

#[test]
fn message_of_the_bump_selection() {
    assert_eq!(
        WaffleError::TooManyBumpCombinations.to_string(),
        "Only one of Major, Minor or Patch is allowed. Supply a single bump type."
    );
    assert_eq!(
        WaffleError::NoBumpCombinations.to_string(),
        "At least one of Major, Minor or Patch is required"
    );
}

#[test]
fn message_of_the_version_checks() {
    assert_eq!(
        WaffleError::NonNumericVersions(Package::new("1.2.x")).to_string(),
        "Toml package.version: Package(1.2.x) is not numeric. Waffle only supports Semantic Versioning."
    );
    assert_eq!(
        WaffleError::NotSemver(Package::new("1.2")).to_string(),
        "Toml package.version: Package(1.2) is not a valid Semantic Version with format: major.minor.patch. Waffle only supports Semantic Versioning."
    );
}

#[test]
fn message_of_a_version_without_a_next_one() {
    let package = ValidatedPackage { major: 1, minor: 65535, patch: 3 };

    assert_eq!(
        WaffleError::VersionOverflow(package, BumpType::Minor).to_string(),
        "Toml package.version: 1.65535.3 has no next minor version. Waffle only supports version numbers up to 65535."
    );
    assert_eq!(BumpType::Major.to_string(), "major");
    assert_eq!(BumpType::Patch.to_string(), "patch");
}

#[test]
fn every_message_is_one_line() {
    let package = ValidatedPackage { major: 65535, minor: 0, patch: 12 };
    let errors = [
        WaffleError::CouldNotReadTomlFile(FileName::new("a/b.toml"), "not found".to_owned()),
        WaffleError::CouldNotUpdateTomlFile(
            FileName::new("a/b.toml"),
            TomlContent::new("[package]\nversion = \"1.2.3\"\n"),
            "denied".to_owned(),
        ),
        WaffleError::CouldParseTomlFile(FileName::new("a/b.toml"), "no version".to_owned()),
        WaffleError::CouldConvertTomlContentToDocument(
            FileName::new("a/b.toml"),
            TomlContent::new("[package\nversion = \"1.2.3\"\n"),
            "invalid table header".to_owned(),
        ),
        WaffleError::TooManyBumpCombinations,
        WaffleError::NoBumpCombinations,
        WaffleError::NonNumericVersions(Package::new("1.2.x")),
        WaffleError::NotSemver(Package::new("1.2")),
        WaffleError::VersionOverflow(package, BumpType::Major),
    ];

    for error in errors.iter() {
        let message = error.to_string();
        assert!(!message.is_empty());
        assert!(!message.contains('\n'), "{:?}", message);
    }
}

#[test]
fn message_leaves_the_text_of_the_manifest_out() {
    let content = "[package]\nname = \"a sample that is not named in a message\"\n";
    let update = WaffleError::CouldNotUpdateTomlFile(
        FileName::new("Cargo.toml"),
        TomlContent::new(content),
        "denied".to_owned(),
    );
    let convert = WaffleError::CouldConvertTomlContentToDocument(
        FileName::new("Cargo.toml"),
        TomlContent::new(content),
        "refused".to_owned(),
    );

    assert!(!update.to_string().contains("a sample"));
    assert!(!convert.to_string().contains("a sample"));
    assert!(update.to_string().contains("Cargo.toml") && update.to_string().contains("denied"));
    assert!(convert.to_string().contains("Cargo.toml") && convert.to_string().contains("refused"));
}

#[test]
fn message_puts_a_cause_of_several_lines_on_one() {
    let error = WaffleError::CouldParseTomlFile(
        FileName::new("Cargo.toml"),
        "TOML parse error at line 1, column 9\n  |\n1 | [package\n".to_owned(),
    );

    assert_eq!(
        error.to_string(),
        "Could not parse Toml file: Cargo.toml, due to error: TOML parse error at line 1, column 9   | 1 | [package "
    );
}

#[test]
fn message_puts_every_text_it_takes_over_on_one_line() {
    let errors = [
        WaffleError::CouldNotReadTomlFile(FileName::new("a\nb.toml"), "not\nfound\n".to_owned()),
        WaffleError::CouldNotUpdateTomlFile(
            FileName::new("\na.toml"),
            TomlContent::new("x\n"),
            "\n\n".to_owned(),
        ),
        WaffleError::CouldConvertTomlContentToDocument(
            FileName::new("a.toml\n"),
            TomlContent::new("x\n"),
            "line 1\nline 2".to_owned(),
        ),
        WaffleError::NonNumericVersions(Package::new("1.2.\nx")),
        WaffleError::NotSemver(Package::new("1\n.2")),
    ];

    for error in errors.iter() {
        assert!(!error.to_string().contains('\n'), "{:?}", error.to_string());
    }
    assert_eq!(
        errors[0].to_string(),
        "Could not read Toml file: a b.toml, due to error: not found "
    );
    assert_eq!(
        errors[4].to_string(),
        "Toml package.version: Package(1 .2) is not a valid Semantic Version with format: major.minor.patch. Waffle only supports Semantic Versioning."
    );
}

#[test]
fn message_of_a_manifest_that_is_refused_is_one_line() {
    let error = waffle::manifest::get_current_version("Cargo.toml", "[package\nversion = 1\n")
        .unwrap_err();
    let message = error.to_string();

    assert!(message.starts_with("Could not parse Toml file: Cargo.toml, due to error: "));
    assert!(!message.contains('\n'));
}
