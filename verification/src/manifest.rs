//! The manifest: reading the version it declares, and setting a new version
//! in it. The text is read, edited and written out again by `toml_edit`; the
//! new version takes the place of the old one and keeps what surrounds it on
//! its line. What `toml_edit` writes for the rest of a document is its own
//! affair: nothing here states that it is the text that was read.

use vstd::prelude::*;
use vstd::string::StringExecFns;
use crate::error::{Failure, FileName, ResultW, TomlContent, WaffleError};
use crate::version::{Package, ValidatedPackage};

verus! {

/// Makes `toml_edit::DocumentMut` known as a type whose inside is not looked
/// into: a document that can be edited.
#[verifier::external_type_specification]
#[verifier::external_body]
pub struct ExDocumentMut(toml_edit::DocumentMut);

/// Makes `toml_edit::Item` known as a type whose inside is not looked into:
/// what stands under a key of a document.
#[verifier::external_type_specification]
#[verifier::external_body]
pub struct ExItem(toml_edit::Item);

/// Makes `toml_edit::Value` known as a type whose inside is not looked into:
/// a value of a document, with what surrounds it on its line.
#[verifier::external_type_specification]
#[verifier::external_body]
pub struct ExValue(toml_edit::Value);

/// Makes `toml_edit::Decor` known as a type whose inside is not looked into:
/// what stands before and behind a value on its line, spacing and comment.
#[verifier::external_type_specification]
#[verifier::external_body]
pub struct ExDecor(toml_edit::Decor);

/// Makes `toml_edit::TomlError` known as a type whose inside is not looked
/// into: why a text is no document.
#[verifier::external_type_specification]
#[verifier::external_body]
pub struct ExTomlError(toml_edit::TomlError);

/// The document that `toml_edit` reads from `content`, or the error with
/// which it refuses the text.
pub uninterp spec fn parsed_document(content: Seq<char>) -> Result<
    toml_edit::DocumentMut,
    toml_edit::TomlError,
>;

/// The message of a `toml_edit` error.
pub uninterp spec fn error_message(error: toml_edit::TomlError) -> Seq<char>;

/// What `document` holds under `key` at its top, if anything.
pub uninterp spec fn document_entry(document: toml_edit::DocumentMut, key: Seq<char>) -> Option<
    toml_edit::Item,
>;

/// What `item` holds under `key`, if it is a table that holds something there.
pub uninterp spec fn item_entry(item: toml_edit::Item, key: Seq<char>) -> Option<toml_edit::Item>;

/// The value that `item` is, if it is one.
pub uninterp spec fn item_value(item: toml_edit::Item) -> Option<toml_edit::Value>;

/// The string that `value` is, if it is one.
pub uninterp spec fn value_string(value: toml_edit::Value) -> Option<Seq<char>>;

/// What surrounds `value` on its line.
pub uninterp spec fn value_decor(value: toml_edit::Value) -> toml_edit::Decor;

/// The value that `document` holds under `key` in its table `table`, if
/// there is such a table holding a value under that key.
pub open spec fn value_at(document: toml_edit::DocumentMut, table: Seq<char>, key: Seq<char>) -> Option<
    toml_edit::Value,
> {
    match document_entry(document, table) {
        Some(found) => match item_entry(found, key) {
            Some(item) => item_value(item),
            None => None,
        },
        None => None,
    }
}

/// The string that `document` holds under `key` in its table `table`, if
/// there is such a table holding a string under that key.
pub open spec fn string_at(document: toml_edit::DocumentMut, table: Seq<char>, key: Seq<char>) -> Option<
    Seq<char>,
> {
    match value_at(document, table, key) {
        Some(value) => value_string(value),
        None => None,
    }
}

/// `document` holds something under `key` in its table `table`.
pub open spec fn holds_entry(document: toml_edit::DocumentMut, table: Seq<char>, key: Seq<char>) -> bool {
    document_entry(document, table) matches Some(found) && item_entry(found, key) is Some
}

/// `document` after the string `text`, surrounded by `decor`, was assigned
/// to `key` in its table `table`.
pub uninterp spec fn with_string_at(
    document: toml_edit::DocumentMut,
    table: Seq<char>,
    key: Seq<char>,
    text: Seq<char>,
    decor: toml_edit::Decor,
) -> toml_edit::DocumentMut;

/// The text that `document` is written out as.
pub uninterp spec fn document_text(document: toml_edit::DocumentMut) -> Seq<char>;

/// Reads `content` as a document that can be edited.
///
/// Trusted: calls `str::parse::<toml_edit::DocumentMut>`. The contract claims
/// that the outcome is a function of the text.
#[verifier::external_body]
fn parse_document(content: &str) -> (outcome: Result<toml_edit::DocumentMut, toml_edit::TomlError>)
    ensures
        outcome == parsed_document(content@),
{
    content.parse::<toml_edit::DocumentMut>()
}

/// The message of `error`.
///
/// Trusted: calls `to_string` of `toml_edit::TomlError`. The contract claims
/// that the message is a function of the error.
#[verifier::external_body]
fn message_of(error: &toml_edit::TomlError) -> (message: String)
    ensures
        message@ == error_message(*error),
{
    error.to_string()
}

/// What `document` holds under `key` at its top.
///
/// Trusted: calls `toml_edit::Table::get` on the document, which stands for
/// its top table. The contract claims that the outcome is a function of the
/// document and the key.
#[verifier::external_body]
fn document_get<'a>(document: &'a toml_edit::DocumentMut, key: &str) -> (found: Option<
    &'a toml_edit::Item,
>)
    ensures
        match found {
            Some(item) => document_entry(*document, key@) == Some(*item),
            None => document_entry(*document, key@) is None,
        },
{
    document.get(key)
}

/// What `item` holds under `key`.
///
/// Trusted: calls `toml_edit::Item::get` with a string, which gives nothing
/// where the item is no table. The contract claims that the outcome is a
/// function of the item and the key.
#[verifier::external_body]
fn item_get<'a>(item: &'a toml_edit::Item, key: &str) -> (found: Option<&'a toml_edit::Item>)
    ensures
        match found {
            Some(value) => item_entry(*item, key@) == Some(*value),
            None => item_entry(*item, key@) is None,
        },
{
    item.get(key)
}

/// The value that `item` is.
///
/// Trusted: calls `toml_edit::Item::as_value`. The contract claims that the
/// outcome is a function of the item.
#[verifier::external_body]
fn item_as_value<'a>(item: &'a toml_edit::Item) -> (found: Option<&'a toml_edit::Value>)
    ensures
        match found {
            Some(value) => item_value(*item) == Some(*value),
            None => item_value(*item) is None,
        },
{
    item.as_value()
}

/// The string that `value` is.
///
/// Trusted: calls `toml_edit::Value::as_str`. The contract claims that the
/// outcome is a function of the value.
#[verifier::external_body]
fn value_as_str<'a>(value: &'a toml_edit::Value) -> (found: Option<&'a str>)
    ensures
        match found {
            Some(text) => value_string(*value) == Some(text@),
            None => value_string(*value) is None,
        },
{
    value.as_str()
}

/// What surrounds `value` on its line.
///
/// Trusted: calls `toml_edit::Value::decor` and clones what it gives. The
/// contract claims that the outcome is a function of the value.
#[verifier::external_body]
fn decor_of(value: &toml_edit::Value) -> (decor: toml_edit::Decor)
    ensures
        decor == value_decor(*value),
{
    value.decor().clone()
}

/// Assigns the string `text`, surrounded by `decor`, to `key` in the table
/// `table` of `document`.
///
/// Trusted: makes a value of `text` with `toml_edit::Value::from`, sets its
/// surroundings through `toml_edit::Value::decor_mut`, and assigns it through
/// `IndexMut::index_mut` of `toml_edit::DocumentMut` with `table` and of
/// `toml_edit::Item` with `key`. The second index panics where `table`
/// names something that is no table; where `Item::get` finds something
/// under `key` in it, as is required, it is a table. The contract claims
/// that the document afterwards is a function of the document before, of
/// the three texts and of `decor`, and that it holds the string `text` where
/// it was assigned.
#[verifier::external_body]
fn assign_string(
    document: &mut toml_edit::DocumentMut,
    table: &str,
    key: &str,
    text: &str,
    decor: toml_edit::Decor,
)
    requires
        holds_entry(*old(document), table@, key@),
    ensures
        *final(document) == with_string_at(*old(document), table@, key@, text@, decor),
        string_at(*final(document), table@, key@) == Some(text@),
{
    let mut value = toml_edit::Value::from(text);
    *value.decor_mut() = decor;
    document[table][key] = toml_edit::Item::Value(value);
}

/// Writes `document` out as text.
///
/// Trusted: calls `to_string` of `toml_edit::DocumentMut`. The contract
/// claims that the text is a function of the document.
#[verifier::external_body]
fn write_document(document: &toml_edit::DocumentMut) -> (text: String)
    ensures
        text@ == document_text(*document),
{
    document.to_string()
}

/// The manifest of a package: the package it declares, and its whole text.
#[derive(Debug, PartialEq, Clone)]
pub struct TomlData {
    pub package: Package,
    pub content: String,
}

/// The name of the table that holds the version.
pub open spec fn package_table() -> Seq<char> {
    "package"@
}

/// The name under which the table holds the version.
pub open spec fn version_key() -> Seq<char> {
    "version"@
}

/// The manifest that is used where none is named.
pub open spec fn default_toml_file() -> Seq<char> {
    "./Cargo.toml"@
}

/// The cause given where a manifest can be read but declares no version.
pub open spec fn no_version_declared() -> Seq<char> {
    "package.version is missing or is not a string"@
}

/// The version that a manifest of the text `content` declares: the string
/// under `version` in the table `package`. A text that is no manifest
/// declares none.
pub open spec fn declared_version(content: Seq<char>) -> Option<Seq<char>> {
    match parsed_document(content) {
        Ok(document) => string_at(document, package_table(), version_key()),
        Err(_) => None,
    }
}

/// Why a manifest of the text `content` declares no version.
pub open spec fn no_version_cause(content: Seq<char>) -> Seq<char> {
    match parsed_document(content) {
        Ok(_) => no_version_declared(),
        Err(error) => error_message(error),
    }
}

/// The manifest of the text `content` with `version` as its version. The
/// new version stands where the old one stood: it takes over what surrounds
/// the old one on its line, the spacing and a comment behind it.
pub open spec fn updated_document(content: Seq<char>, version: Seq<char>) -> toml_edit::DocumentMut
    recommends
        declared_version(content) is Some,
{
    let document = parsed_document(content)->Ok_0;
    with_string_at(
        document,
        package_table(),
        version_key(),
        version,
        value_decor(value_at(document, package_table(), version_key())->0),
    )
}

/// The value under `key` in the table `table` of `document`.
fn lookup_value<'a>(document: &'a toml_edit::DocumentMut, table: &str, key: &str) -> (found:
    Option<&'a toml_edit::Value>)
    ensures
        match found {
            Some(value) => value_at(*document, table@, key@) == Some(*value),
            None => value_at(*document, table@, key@) is None,
        },
{
    match document_get(document, table) {
        Some(found) => match item_get(found, key) {
            Some(item) => item_as_value(item),
            None => None,
        },
        None => None,
    }
}

/// The string under `key` in the table `table` of `document`.
fn lookup_string<'a>(document: &'a toml_edit::DocumentMut, table: &str, key: &str) -> (found:
    Option<&'a str>)
    ensures
        match found {
            Some(text) => string_at(*document, table@, key@) == Some(text@),
            None => string_at(*document, table@, key@) is None,
        },
{
    match lookup_value(document, table, key) {
        Some(value) => value_as_str(value),
        None => None,
    }
}

/// The manifest to use: the one that is named, else `./Cargo.toml`.
pub fn get_toml_file(toml_file_arg: Option<String>) -> (toml_file: String)
    ensures
        toml_file@ == match toml_file_arg {
            Some(named) => named@,
            None => default_toml_file(),
        },
{
    match toml_file_arg {
        Some(named) => named,
        None => String::from_str("./Cargo.toml"),
    }
}

/// Reads the version that the manifest `toml_content` declares. The
/// manifest was read from `file_name`, which is named in a failure.
pub fn get_current_version(file_name: &str, toml_content: &str) -> (outcome: ResultW<TomlData>)
    ensures
        match outcome {
            Ok(data) => {
                &&& declared_version(toml_content@) == Some(data.package@)
                &&& data.content@ == toml_content@
            },
            Err(error) => {
                &&& declared_version(toml_content@) is None
                &&& error@ == Failure::CouldParseTomlFile(
                    file_name@,
                    no_version_cause(toml_content@),
                )
            },
        },
{
    match parse_document(toml_content) {
        Ok(document) => match lookup_string(&document, "package", "version") {
            Some(version) => Ok(
                TomlData { package: Package::new(version), content: String::from_str(toml_content) },
            ),
            None => Err(
                WaffleError::CouldParseTomlFile(
                    FileName::new(file_name),
                    String::from_str("package.version is missing or is not a string"),
                ),
            ),
        },
        Err(error) => Err(
            WaffleError::CouldParseTomlFile(FileName::new(file_name), message_of(&error)),
        ),
    }
}

/// Reads the manifest `toml_content` as a document and puts `next_version`
/// in the place of the version it declares, between what surrounded the old
/// version on its line. The manifest belongs to `toml_file`, which is named
/// in a failure. The manifest is to declare a version, if it is a manifest
/// at all.
pub fn update_toml(toml_file: &str, toml_content: &str, next_version: ValidatedPackage) -> (outcome:
    ResultW<toml_edit::DocumentMut>)
    requires
        parsed_document(toml_content@) is Ok ==> declared_version(toml_content@) is Some,
    ensures
        match outcome {
            Ok(document) => {
                &&& parsed_document(toml_content@) is Ok
                &&& document == updated_document(toml_content@, next_version.text())
                &&& string_at(document, package_table(), version_key()) == Some(
                    next_version.text(),
                )
            },
            Err(error) => {
                &&& parsed_document(toml_content@) matches Err(cause)
                &&& error@ == Failure::CouldConvertTomlContentToDocument(
                    toml_file@,
                    toml_content@,
                    error_message(cause),
                )
            },
        },
{
    match parse_document(toml_content) {
        Ok(mut document) => {
            let decor = match lookup_value(&document, "package", "version") {
                Some(current) => decor_of(current),
                None => vstd::pervasive::unreached(),
            };
            let version = next_version.to_string();
            assign_string(&mut document, "package", "version", version.as_str(), decor);
            Ok(document)
        },
        Err(error) => Err(
            WaffleError::CouldConvertTomlContentToDocument(
                FileName::new(toml_file),
                TomlContent::new(toml_content),
                message_of(&error),
            ),
        ),
    }
}

/// The text of the manifest `toml_content` with `next_version` as its
/// version: what is to be written to `toml_file`.
pub fn updated_content(toml_file: &str, toml_content: &str, next_version: ValidatedPackage) -> (outcome:
    ResultW<String>)
    requires
        parsed_document(toml_content@) is Ok ==> declared_version(toml_content@) is Some,
    ensures
        match outcome {
            Ok(new_content) => {
                &&& parsed_document(toml_content@) is Ok
                &&& new_content@ == document_text(
                    updated_document(toml_content@, next_version.text()),
                )
            },
            Err(error) => {
                &&& parsed_document(toml_content@) matches Err(cause)
                &&& error@ == Failure::CouldConvertTomlContentToDocument(
                    toml_file@,
                    toml_content@,
                    error_message(cause),
                )
            },
        },
{
    match update_toml(toml_file, toml_content, next_version) {
        Ok(document) => Ok(write_document(&document)),
        Err(error) => Err(error),
    }
}

} // verus!
