use ansi_term::Colour;
use waffle::args::WaffleCommands;
use waffle::error::{FileName, WaffleError};
use waffle::manifest::get_toml_file;
use waffle::version::Package;
use waffle::workflow::{plan, workflow, Task};

const SAMPLE_TOML_CONTENT: &str = r#"
[package]
name = "Sample"
version = "1.2.3"
edition = "2021"

# See more keys and their definitions at https://doc.rust-lang.org/cargo/reference/manifest.html

[dependencies]
serde = { version = "1", features = ["derive"]}
serde_json = "1"
clap = { version = "4", features = ["derive", "cargo", "env", "unicode"] }
ansi_term = "0.12"

[dev-dependencies]
pretty_assertions = "1"
assert_cmd = "2"
"#;

enum BumpType {
    Major,
    Minor,
    Patch,
}

/// What a run prints and what it leaves as the text of the manifest.
fn run(commands: WaffleCommands, content: &str) -> Result<(String, String), WaffleError> {
    let task = plan(&commands)?;
    let toml_file = get_toml_file(Some("Sample.toml".to_owned()));
    let mut printed = format!("Using toml file: {}\n", toml_file);
    let outcome = workflow(task, &toml_file, content)?;
    for line in &outcome.diff {
        printed.push_str(line);
    }
    printed.push_str(&outcome.output.to_string());
    printed.push('\n');
    Ok((printed, outcome.new_content.unwrap_or(content.to_owned())))
}

fn bump(major: bool, minor: bool, patch: bool, no_diff: bool) -> WaffleCommands {
    WaffleCommands::Bump { major, minor, patch, no_diff }
}

fn sample_with_version(version: &str) -> String {
    SAMPLE_TOML_CONTENT.replacen("version = \"1.2.3\"", &format!("version = \"{}\"", version), 1)
}

fn assert_version_bump(new_version: &str, bump_type: BumpType) {
    let expected_version_string = [
        format!("Updated version from: 1.2.3 -> {new_version}"),
        format!("{}version = \"1.2.3\"", Colour::Red.paint("-")),
        format!("{}version = \"{new_version}\"", Colour::Green.paint("+")),
    ];

    let commands = match bump_type {
        BumpType::Major => bump(true, false, false, false),
        BumpType::Minor => bump(false, true, false, false),
        BumpType::Patch => bump(false, false, true, false),
    };

    let (printed, written) = run(commands, SAMPLE_TOML_CONTENT).unwrap();

    for expected in expected_version_string.iter() {
        assert!(printed.contains(expected.as_str()));
    }
    assert_eq!(written, sample_with_version(new_version));
}

#[test]
fn get_current_package_version() {
    let (printed, written) = run(WaffleCommands::Get, SAMPLE_TOML_CONTENT).unwrap();

    assert!(printed.contains("1.2.3"));
    assert_eq!(printed, "Using toml file: Sample.toml\n1.2.3\n");
    assert_eq!(written, SAMPLE_TOML_CONTENT);
}

#[test]
fn tag_current_package_version() {
    let (printed, written) = run(WaffleCommands::Tag, SAMPLE_TOML_CONTENT).unwrap();

    assert!(printed.contains("git tag v1.2.3"));
    assert_eq!(printed, "Using toml file: Sample.toml\ngit tag v1.2.3\n");
    assert_eq!(written, SAMPLE_TOML_CONTENT);
}

#[test]
fn bump_major_version() {
    assert_version_bump("2.0.0", BumpType::Major)
}

#[test]
fn bump_minor_version() {
    assert_version_bump("1.3.0", BumpType::Minor)
}

#[test]
fn bump_patch_version() {
    assert_version_bump("1.2.4", BumpType::Patch)
}

#[test]
fn bump_current_package_version_without_diff() {
    let old_version_diff = format!("{}version = \"1.2.3\"", Colour::Red.paint("-"));
    let new_version_diff = format!("{}version = \"2.0.0\"", Colour::Green.paint("+"));
    let expected_version_string = "Updated version from: 1.2.3 -> 2.0.0";

    let (printed, written) = run(bump(true, false, false, true), SAMPLE_TOML_CONTENT).unwrap();

    assert!(printed.contains(expected_version_string));
    assert!(!printed.contains(&old_version_diff));
    assert!(!printed.contains(&new_version_diff));
    assert_eq!(written, sample_with_version("2.0.0"));
}

#[test]
fn bump_shows_one_removed_and_one_added_line() {
    let outcome = workflow(
        Task::Bump { bump_type: waffle::args::BumpType::Major, no_diff: false },
        "Sample.toml",
        SAMPLE_TOML_CONTENT,
    )
    .unwrap();

    assert_eq!(
        outcome.diff,
        vec![
            "  \u{1b}[31m-\u{1b}[0mversion = \"1.2.3\"\n",
            "  \u{1b}[32m+\u{1b}[0mversion = \"2.0.0\"\n",
        ]
    );
    assert_eq!(outcome.output.to_string(), "Updated version from: 1.2.3 -> 2.0.0");
    assert_eq!(outcome.new_content, Some(sample_with_version("2.0.0")));
}

#[test]
fn get_and_tag_write_nothing_and_show_nothing() {
    for task in [Task::Get, Task::Tag] {
        let outcome = workflow(task, "Sample.toml", SAMPLE_TOML_CONTENT).unwrap();

        assert_eq!(outcome.new_content, None);
        assert_eq!(outcome.diff, Vec::<String>::new());
    }
}

#[test]
fn get_reports_a_version_that_is_no_semantic_version() {
    let (printed, _) = run(WaffleCommands::Get, &sample_with_version("1.2")).unwrap();

    assert_eq!(printed, "Using toml file: Sample.toml\n1.2\n");
}

#[test]
fn bump_of_a_version_of_two_parts_fails() {
    for commands in [
        bump(true, false, false, false),
        bump(false, true, false, false),
        bump(false, false, true, true),
    ] {
        assert_eq!(
            run(commands, &sample_with_version("1.2")),
            Err(WaffleError::NotSemver(Package::new("1.2")))
        );
    }
}

#[test]
fn bump_of_a_version_with_a_part_that_is_no_number_fails() {
    assert_eq!(
        run(bump(false, false, true, false), &sample_with_version("1.2.x")),
        Err(WaffleError::NonNumericVersions(Package::new("1.2.x")))
    );
}

#[test]
fn bump_with_two_kinds_fails_before_the_manifest_is_looked_at() {
    assert_eq!(plan(&bump(true, true, false, false)), Err(WaffleError::TooManyBumpCombinations));
    assert_eq!(
        run(bump(true, true, false, false), "this is no manifest ["),
        Err(WaffleError::TooManyBumpCombinations)
    );
}

#[test]
fn bump_with_no_kind_fails_before_the_manifest_is_looked_at() {
    assert_eq!(plan(&bump(false, false, false, true)), Err(WaffleError::NoBumpCombinations));
    assert_eq!(
        run(bump(false, false, false, false), "this is no manifest ["),
        Err(WaffleError::NoBumpCombinations)
    );
}

#[test]
fn plan_takes_over_the_kind_and_the_flag() {
    assert_eq!(plan(&WaffleCommands::Get), Ok(Task::Get));
    assert_eq!(plan(&WaffleCommands::Tag), Ok(Task::Tag));
    assert_eq!(
        plan(&bump(false, true, false, true)),
        Ok(Task::Bump { bump_type: waffle::args::BumpType::Minor, no_diff: true })
    );
    assert_eq!(
        plan(&bump(false, false, true, false)),
        Ok(Task::Bump { bump_type: waffle::args::BumpType::Patch, no_diff: false })
    );
}

#[test]
fn text_that_is_no_manifest_fails_for_every_task() {
    let content = "[package\n";
    let cause = content.parse::<toml_edit::DocumentMut>().unwrap_err().to_string();
    let expected = WaffleError::CouldParseTomlFile(FileName::new("Sample.toml"), cause);

    for commands in [WaffleCommands::Get, WaffleCommands::Tag, bump(true, false, false, false)] {
        assert_eq!(run(commands, content), Err(expected_copy(&expected)));
    }
}

fn expected_copy(error: &WaffleError) -> WaffleError {
    match error {
        WaffleError::CouldParseTomlFile(file, cause) => {
            WaffleError::CouldParseTomlFile(FileName::new(file.as_str()), cause.clone())
        }
        _ => unreachable!(),
    }
}

#[test]
fn bump_at_the_largest_number_fails() {
    let package = waffle::version::ValidatedPackage { major: 65535, minor: 2, patch: 3 };

    assert_eq!(
        run(bump(true, false, false, false), &sample_with_version("65535.2.3")),
        Err(WaffleError::VersionOverflow(package, waffle::args::BumpType::Major))
    );
    assert!(run(bump(false, true, false, false), &sample_with_version("65535.2.3")).is_ok());
}
