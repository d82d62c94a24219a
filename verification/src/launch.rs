//! Deciding how a chosen program is started.
//!
//! Nothing is started here. A launch is planned, and the binary spawns the
//! process that the plan names.

use vstd::prelude::*;
use vstd::string::*;
use std::path::Path;
use crate::application::Application;
use crate::terminal::{candidates_of, get_terminal_command, resolution_of};

verus! {

/// The helper program that starts a desktop entry by its identifier.
pub const LAUNCHER: &'static str = "gtk-launch";

/// The file stem that the standard library finds in a path: the file name
/// without its final extension, where a dot at the start of the name begins
/// no extension, or `None` where the path has no file name.
pub uninterp spec fn file_stem_of(path: Seq<char>) -> Option<Seq<char>>;

/// `Path::file_stem`: the result is the stem that the standard library finds
/// in `path`, which this library names and does not define. The path is a
/// string, so its stem is one too.
#[verifier::external_body]
fn file_stem(path: &str) -> (stem: Option<String>)
    ensures
        stem.deep_view() == file_stem_of(path@),
{
    Path::new(path).file_stem().and_then(|stem| stem.to_str()).map(String::from)
}

/// What is to be done about a launch.
#[derive(Debug)]
pub enum LaunchPlan {
    /// Spawn `program` with the single argument `argument`, and do not wait
    /// for it.
    Spawn { program: String, argument: String },
    /// No terminal command was found: nothing is spawned.
    NoTerminal,
}

/// What a [`LaunchPlan`] holds.
pub ghost enum LaunchPlanView {
    Spawn { program: Seq<char>, argument: Seq<char> },
    NoTerminal,
}

impl View for LaunchPlan {
    type V = LaunchPlanView;

    open spec fn view(&self) -> LaunchPlanView {
        match self {
            LaunchPlan::Spawn { program, argument } => LaunchPlanView::Spawn {
                program: program@,
                argument: argument@,
            },
            LaunchPlan::NoTerminal => LaunchPlanView::NoTerminal,
        }
    }
}

/// The text of an optional string, empty where there is none.
pub open spec fn text_or_empty(text: Option<Seq<char>>) -> Seq<char> {
    match text {
        Some(text) => text,
        None => Seq::empty(),
    }
}

/// The plan for a launch, given the terminal command that was found and the
/// stem of the entry's path. The terminal command only gates the launch: the
/// helper is called with the stem alone, or with the empty string where the
/// path has no stem.
pub open spec fn plan_of(
    terminal_command: Option<Seq<char>>,
    stem: Option<Seq<char>>,
) -> LaunchPlanView {
    match terminal_command {
        Some(_) => LaunchPlanView::Spawn { program: LAUNCHER@, argument: text_or_empty(stem) },
        None => LaunchPlanView::NoTerminal,
    }
}

/// The identifier by which the helper is asked to start an entry: the stem
/// of the entry's path, where an entry without a path counts as having the
/// empty path.
pub open spec fn identifier_of(path: Option<Seq<char>>) -> Seq<char> {
    text_or_empty(file_stem_of(text_or_empty(path)))
}

/// Plans a launch from the terminal command that was found, if any, and the
/// stem of the entry's path, if it has one.
pub fn plan_launch(terminal_command: Option<String>, stem: Option<String>) -> (plan: LaunchPlan)
    ensures
        plan@ == plan_of(terminal_command.deep_view(), stem.deep_view()),
{
    match terminal_command {
        Some(_) => {
            let argument = match stem {
                Some(stem) => stem,
                None => String::new(),
            };
            LaunchPlan::Spawn { program: String::from_str(LAUNCHER), argument }
        },
        None => LaunchPlan::NoTerminal,
    }
}

/// Plans the launch of `app`, given the terminal that the environment asks
/// for, if it asks for one.
///
/// A terminal command is looked for first. One is always found, so the plan
/// is always to spawn the helper with the identifier of the entry.
pub fn open_application(
    app: &Application,
    preferred_terminal: Option<String>,
) -> (plan: LaunchPlan)
    ensures
        plan@ == plan_of(
            resolution_of(candidates_of(preferred_terminal.deep_view())),
            file_stem_of(text_or_empty(app@.path)),
        ),
        plan@ == (LaunchPlanView::Spawn { program: LAUNCHER@, argument: identifier_of(app@.path) }),
{
    let terminal_command = get_terminal_command(preferred_terminal);
    let stem = match &app.path {
        Some(path) => file_stem(path.as_str()),
        None => file_stem(""),
    };
    proof {
        reveal_strlit("");
        assert(""@ =~= Seq::<char>::empty());
    }
    plan_launch(terminal_command, stem)
}

} // verus!
