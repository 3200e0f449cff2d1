use waffle::args::BumpType;
use waffle::error::WaffleError;

#[test]
fn get_bump_type_with_patch() {
    let bump_type = BumpType::get_bump_type(false, false, true).unwrap();
    let expected_bump_type = BumpType::Patch;

    assert_eq!(bump_type, expected_bump_type)
}

#[test]
fn get_bump_type_with_minor() {
    let bump_type = BumpType::get_bump_type(false, true, false).unwrap();
    let expected_bump_type = BumpType::Minor;

    assert_eq!(bump_type, expected_bump_type)
}

#[test]
fn get_bump_type_with_major() {
    let bump_type = BumpType::get_bump_type(true, false, false).unwrap();
    let expected_bump_type = BumpType::Major;

    assert_eq!(bump_type, expected_bump_type)
}

#[test]
fn get_bump_type_with_more_than_one_type() {
    let expected_bump_type_error = Err(WaffleError::TooManyBumpCombinations);

    let bump_type_major_minor = BumpType::get_bump_type(true, true, false);
    let bump_type_minor_patch = BumpType::get_bump_type(false, true, true);
    let bump_type_major_patch = BumpType::get_bump_type(true, false, true);
    let bump_type_major_minor_patch = BumpType::get_bump_type(true, true, true);

    assert_eq!(bump_type_major_minor, expected_bump_type_error);
    assert_eq!(bump_type_minor_patch, expected_bump_type_error);
    assert_eq!(bump_type_major_patch, expected_bump_type_error);
    assert_eq!(bump_type_major_minor_patch, expected_bump_type_error)
}

#[test]
fn get_bump_type_with_no_types() {
    let bump_type = BumpType::get_bump_type(false, false, false);
    let expected_bump_type_error = Err(WaffleError::NoBumpCombinations);

    assert_eq!(bump_type, expected_bump_type_error)
}
