//! Reading one desktop entry: from the bytes of an entry file to the record
//! of the program it describes.
//!
//! The file format is parsed by the `freedesktop_entry_parser` crate. What
//! that crate does is not proved here: it is named, and the rules that decide
//! whether an entry yields a record are proved against those names.

use vstd::prelude::*;
use vstd::string::*;
use crate::application::{Application, ApplicationView};
use freedesktop_entry_parser::{Entry, ParseError};

verus! {

/// A parsed entry file, held by `freedesktop_entry_parser`.
#[verifier::external_type_specification]
#[verifier::external_body]
pub struct ExEntry(freedesktop_entry_parser::Entry);

/// The reason `freedesktop_entry_parser` gives for rejecting a file.
#[verifier::external_type_specification]
#[verifier::external_body]
pub struct ExParseError(freedesktop_entry_parser::ParseError);

/// The plain values of an entry's attributes, keyed by section title and
/// attribute name. A pair is in the map exactly when the entry gives that
/// attribute a value without a parameter: `Name=..` counts, `Name[de]=..`
/// does not.
pub type Values = Map<(Seq<char>, Seq<char>), Seq<char>>;

/// What a parsed entry holds.
pub uninterp spec fn values_of(entry: Entry) -> Map<(Seq<char>, Seq<char>), Seq<char>>;

/// What parsing `contents` gives: the values of the entry, or `None` where
/// the parser rejects the bytes.
pub uninterp spec fn parsed(contents: Seq<u8>) -> Option<Map<(Seq<char>, Seq<char>), Seq<char>>>;

/// The value that `values` gives to `name` in `section`, if any.
pub open spec fn lookup(values: Values, section: Seq<char>, name: Seq<char>) -> Option<Seq<char>> {
    if values.contains_key((section, name)) {
        Some(values[(section, name)])
    } else {
        None
    }
}

/// `Entry::parse`: the parser accepts `contents` exactly when `parsed` gives
/// values for them, and the entry it returns then holds those values. The
/// parser works on the bytes alone.
#[verifier::external_body]
fn parse(contents: Vec<u8>) -> (outcome: Result<Entry, ParseError>)
    ensures
        match outcome {
            Ok(entry) => parsed(contents@) == Some(values_of(entry)),
            Err(_) => parsed(contents@) is None,
        },
{
    Entry::parse(contents)
}

/// `Entry::section` followed by `AttrSelector::attr`: the plain value of the
/// attribute `name` in the section titled `section`, or `None` where the
/// entry has no such section, or the section no such attribute, or the
/// attribute only values with a parameter.
#[verifier::external_body]
fn attr(entry: &Entry, section: &str, name: &str) -> (value: Option<String>)
    ensures
        value.deep_view() == lookup(values_of(*entry), section@, name@),
{
    entry.section(section).attr(name).map(String::from)
}

/// The title of the section that describes the program.
pub const SECTION: &'static str = "Desktop Entry";

/// The value of `name` in the section that describes the program.
pub open spec fn attribute(values: Values, name: Seq<char>) -> Option<Seq<char>> {
    lookup(values, SECTION@, name)
}

/// The command of an entry: `TryExec` where it is given, else `Exec`.
pub open spec fn command_of(values: Values) -> Option<Seq<char>> {
    match attribute(values, "TryExec"@) {
        Some(command) => Some(command),
        None => attribute(values, "Exec"@),
    }
}

/// The record made of the three attributes, which exists only where all
/// three are present.
pub open spec fn assembled(
    path: Seq<char>,
    name: Option<Seq<char>>,
    exec_file: Option<Seq<char>>,
    icon_path: Option<Seq<char>>,
) -> Option<ApplicationView> {
    match (name, exec_file, icon_path) {
        (Some(name), Some(exec_file), Some(icon_path)) => Some(
            ApplicationView { path: Some(path), name, exec_file, icon_path },
        ),
        _ => None,
    }
}

/// The record that an entry with the given values yields, if it yields one.
pub open spec fn application_of(path: Seq<char>, values: Values) -> Option<ApplicationView> {
    assembled(path, attribute(values, "Name"@), command_of(values), attribute(values, "Icon"@))
}

/// Builds the record of an entry from its three attributes. An entry that
/// lacks one of them yields nothing.
pub fn assemble(
    path: String,
    name: Option<String>,
    exec_file: Option<String>,
    icon_path: Option<String>,
) -> (application: Option<Application>)
    ensures
        application.deep_view() == assembled(
            path@,
            name.deep_view(),
            exec_file.deep_view(),
            icon_path.deep_view(),
        ),
{
    match (name, exec_file, icon_path) {
        (Some(name), Some(exec_file), Some(icon_path)) => Some(
            Application { path: Some(path), name, exec_file, icon_path },
        ),
        _ => None,
    }
}

/// The record that a parsed entry yields.
fn application_from_entry(path: String, entry: &Entry) -> (application: Option<Application>)
    ensures
        application.deep_view() == application_of(path@, values_of(*entry)),
{
    let name = attr(entry, SECTION, "Name");
    let mut exec_file = attr(entry, SECTION, "TryExec");
    if exec_file.is_none() {
        exec_file = attr(entry, SECTION, "Exec");
    }
    let icon_path = attr(entry, SECTION, "Icon");
    assemble(path, name, exec_file, icon_path)
}

/// An entry file that the parser rejects.
#[derive(Debug)]
pub struct Unparsable {
    /// The path of the rejected file.
    pub path: String,
}

/// Reads the entry file at `path`, whose bytes are `contents`.
///
/// The result is an error exactly when the parser rejects the bytes.
/// Otherwise it is the record of the entry, or `None` where the entry lacks
/// a name, a command or an icon.
pub fn read_application(
    path: String,
    contents: Vec<u8>,
) -> (outcome: Result<Option<Application>, Unparsable>)
    ensures
        match outcome {
            Ok(application) => parsed(contents@) matches Some(values)
                && application.deep_view() == application_of(path@, values),
            Err(rejected) => parsed(contents@) is None && rejected.path@ == path@,
        },
{
    match parse(contents) {
        Ok(entry) => Ok(application_from_entry(path, &entry)),
        Err(_) => Err(Unparsable { path }),
    }
}

} // verus!
