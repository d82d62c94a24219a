//! Discovering the programs in the applications directory.
//!
//! The binary lists the directory and reads the files; this module says which
//! files are read and what the scan makes of their contents.

use vstd::prelude::*;
use vstd::string::*;
use crate::application::{Application, ApplicationView};
use crate::entry::{parsed, application_of, read_application, Unparsable};
use crate::text::{contains, is_substring};

verus! {

/// The directory that holds the desktop entries. Every entry's path is made
/// from it and the entry's file name.
pub const APPLICATIONS_DIR: &'static str = "/usr/share/applications/";

/// The marker that a file name must contain for the file to be read.
pub const ENTRY_MARKER: &'static str = ".desktop";

/// A file name that the scan takes for a desktop entry: one that contains
/// `.desktop`, wherever in the name.
pub open spec fn is_entry_name(file_name: Seq<char>) -> bool {
    is_substring(file_name, ENTRY_MARKER@)
}

/// The path under which the entry named `file_name` is read.
pub open spec fn entry_path_of(file_name: Seq<char>) -> Seq<char> {
    APPLICATIONS_DIR@ + file_name
}

/// Whether the scan reads a file of this name.
pub fn is_desktop_entry(file_name: &str) -> (yes: bool)
    ensures
        yes == is_entry_name(file_name@),
{
    contains(file_name, ENTRY_MARKER)
}

/// The path under which the entry named `file_name` is read.
pub fn entry_path(file_name: &str) -> (path: String)
    ensures
        path@ == entry_path_of(file_name@),
{
    String::from_str(APPLICATIONS_DIR).concat(file_name)
}

/// The paths of the entries among `file_names`, in the order of the names.
pub open spec fn candidate_paths_of(file_names: Seq<Seq<char>>) -> Seq<Seq<char>> {
    file_names.filter(|name: Seq<char>| is_entry_name(name)).map_values(
        |name: Seq<char>| entry_path_of(name),
    )
}

/// Picks the desktop entries out of a directory listing and gives the path
/// of each, in the order of the listing.
pub fn candidate_paths(file_names: &Vec<String>) -> (paths: Vec<String>)
    ensures
        paths.deep_view() == candidate_paths_of(file_names.deep_view()),
{
    let ghost names = file_names.deep_view();
    let mut paths: Vec<String> = Vec::new();
    let mut i: usize = 0;
    assert(names.take(0) =~= Seq::<Seq<char>>::empty());
    assert(paths.deep_view() =~= candidate_paths_of(names.take(0))) by {
        reveal(Seq::filter);
    }
    while i < file_names.len()
        invariant
            i <= file_names.len(),
            names == file_names.deep_view(),
            paths.deep_view() == candidate_paths_of(names.take(i as int)),
        decreases file_names.len() - i,
    {
        let name = file_names[i].as_str();
        proof {
            lemma_candidate_paths_step(names, i as int);
        }
        if is_desktop_entry(name) {
            let ghost before = paths.deep_view();
            paths.push(entry_path(name));
            assert(paths.deep_view() =~= before.push(entry_path_of(names[i as int])));
        }
        i += 1;
    }
    assert(names.take(i as int) =~= names);
    paths
}

/// One more name adds its path where it is an entry's, and nothing else.
proof fn lemma_candidate_paths_step(names: Seq<Seq<char>>, i: int)
    requires
        0 <= i < names.len(),
    ensures
        candidate_paths_of(names.take(i + 1)) == if is_entry_name(names[i]) {
            candidate_paths_of(names.take(i)).push(entry_path_of(names[i]))
        } else {
            candidate_paths_of(names.take(i))
        },
{
    reveal(Seq::filter);
    assert(names.take(i + 1).drop_last() =~= names.take(i));
    assert(names.take(i + 1).last() == names[i]);
    let pred = |name: Seq<char>| is_entry_name(name);
    let to_path = |name: Seq<char>| entry_path_of(name);
    let kept = names.take(i).filter(pred);
    if is_entry_name(names[i]) {
        assert(names.take(i + 1).filter(pred) == kept.push(names[i]));
        assert(kept.push(names[i]).map_values(to_path) =~= kept.map_values(to_path).push(
            entry_path_of(names[i]),
        ));
    }
}

/// An entry file as the binary read it.
#[derive(Debug)]
pub struct SourceFile {
    /// The path that the file was read from.
    pub path: String,
    /// The bytes of the file.
    pub contents: Vec<u8>,
}

/// What a [`SourceFile`] holds.
pub ghost struct SourceFileView {
    pub path: Seq<char>,
    pub contents: Seq<u8>,
}

impl View for SourceFile {
    type V = SourceFileView;

    open spec fn view(&self) -> SourceFileView {
        SourceFileView { path: self.path@, contents: self.contents@ }
    }
}

impl DeepView for SourceFile {
    type V = SourceFileView;

    open spec fn deep_view(&self) -> SourceFileView {
        self@
    }
}

/// The parser accepts the file.
pub open spec fn parses(file: SourceFileView) -> bool {
    parsed(file.contents) is Some
}

/// The record that a file yields: none where the parser rejects it, and
/// none where its entry lacks a name, a command or an icon.
pub open spec fn record_of(file: SourceFileView) -> Option<ApplicationView> {
    match parsed(file.contents) {
        Some(values) => application_of(file.path, values),
        None => None,
    }
}

/// The file is accepted and yields a record.
pub open spec fn is_complete(file: SourceFileView) -> bool {
    record_of(file) is Some
}

/// The file is accepted and yields no record.
pub open spec fn is_incomplete(file: SourceFileView) -> bool {
    parses(file) && record_of(file) is None
}

/// The records of the files that yield one, in the order of the files.
pub open spec fn records_of(files: Seq<SourceFileView>) -> Seq<ApplicationView> {
    files.filter_map(|file: SourceFileView| record_of(file))
}

/// `at` is the place of the first file that the parser rejects.
pub open spec fn is_first_rejected(files: Seq<SourceFileView>, at: int) -> bool {
    &&& 0 <= at < files.len()
    &&& !parses(files[at])
    &&& forall|j: int| 0 <= j < at ==> parses(#[trigger] files[j])
}

/// Turns the entry files of a directory into the list of programs.
///
/// The records come in the order of the files. A file whose entry lacks a
/// name, a command or an icon is passed over in silence. A file that the
/// parser rejects ends the whole scan: the error names the first such file,
/// and no record is returned.
pub fn get_files(files: Vec<SourceFile>) -> (outcome: Result<Vec<Application>, Unparsable>)
    ensures
        match outcome {
            Ok(applications) => {
                &&& forall|i: int| 0 <= i < files.len() ==> parses(#[trigger] files.deep_view()[i])
                &&& applications.deep_view() == records_of(files.deep_view())
            },
            Err(rejected) => exists|at: int|
                #![trigger files.deep_view()[at]]
                is_first_rejected(files.deep_view(), at) && rejected.path@
                    == files.deep_view()[at].path,
        },
{
    let ghost all = files.deep_view();
    let mut applications: Vec<Application> = Vec::new();
    assert(all.take(0) =~= Seq::<SourceFileView>::empty());
    assert(applications.deep_view() =~= records_of(all.take(0)));
    for file in it: files
        invariant
            all == files.deep_view(),
            it.seq() == files@,
            forall|j: int| 0 <= j < it.index() ==> parses(#[trigger] all[j]),
            applications.deep_view() == records_of(all.take(it.index() as int)),
    {
        let ghost at = it.index() as int;
        let ghost before = applications.deep_view();
        assert(file@ == all[at]);
        proof {
            all.lemma_filter_map_take_succ(|file: SourceFileView| record_of(file), at);
        }
        match read_application(file.path, file.contents) {
            Ok(Some(application)) => {
                applications.push(application);
                assert(applications.deep_view() =~= before + seq![record_of(all[at])->0]);
            },
            Ok(None) => {},
            Err(rejected) => {
                assert(is_first_rejected(all, at));
                return Err(rejected);
            },
        }
    }
    assert(all.take(files.len() as int) =~= all);
    Ok(applications)
}

/// Where the parser accepts every file, the scan yields one record for each
/// file that is complete and none for the others: with `n` complete files
/// and `m` incomplete ones it yields exactly `n` records.
pub proof fn lemma_one_record_per_complete_file(files: Seq<SourceFileView>)
    requires
        forall|i: int| 0 <= i < files.len() ==> parses(#[trigger] files[i]),
    ensures
        records_of(files).len() == files.filter(|file: SourceFileView| is_complete(file)).len(),
        files.filter(|file: SourceFileView| is_complete(file)).len() + files.filter(
            |file: SourceFileView| is_incomplete(file),
        ).len() == files.len(),
    decreases files.len(),
{
    reveal(Seq::filter);
    if files.len() > 0 {
        let rest = files.drop_last();
        assert forall|i: int| 0 <= i < rest.len() implies parses(#[trigger] rest[i]) by {
            assert(rest[i] == files[i]);
        }
        lemma_one_record_per_complete_file(rest);
        assert(parses(files[files.len() - 1]));
    }
}

/// Every record of a scan is the record of one of the files: no record is
/// made of a file that lacks a name, a command or an icon.
pub proof fn lemma_records_come_from_files(files: Seq<SourceFileView>, k: int) -> (at: int)
    requires
        0 <= k < records_of(files).len(),
    ensures
        0 <= at < files.len(),
        record_of(files[at]) == Some(records_of(files)[k]),
    decreases files.len(),
{
    let rest = files.drop_last();
    if record_of(files.last()) is Some && k == records_of(rest).len() {
        files.len() - 1
    } else {
        let at = lemma_records_come_from_files(rest, k);
        assert(rest[at] == files[at]);
        at
    }
}

} // verus!
