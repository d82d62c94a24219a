//! Choosing the terminal emulator and the way it is told to run a command.

use vstd::prelude::*;
use vstd::string::*;
use crate::text::{chars_of, spells};

verus! {

/// The environment variable that names the preferred terminal.
pub const TERMINAL_VARIABLE: &'static str = "TERMINAL";

/// How a terminal emulator takes the command it is to run.
#[derive(Clone, Copy, Debug, PartialEq, Eq, Structural)]
pub enum Convention {
    /// The command follows a `--`.
    DoubleDash,
    /// The terminal is started alone.
    Bare,
    /// The command follows `-e`.
    Execute,
}

/// The terminals that take their command after `--`.
pub open spec fn takes_double_dash(term: Seq<char>) -> bool {
    ||| term == "mate-terminal"@
    ||| term == "gnome-terminal"@
    ||| term == "terminator"@
    ||| term == "xfce4-terminal"@
    ||| term == "lxterminal"@
    ||| term == "terminology"@
    ||| term == "st"@
    ||| term == "qterminal"@
    ||| term == "konsole"@
    ||| term == "kitty"@
    ||| term == "guake"@
    ||| term == "tilda"@
    ||| term == "alacritty"@
    ||| term == "hyper"@
}

/// The terminals that are started without any flag.
pub open spec fn runs_bare(term: Seq<char>) -> bool {
    term == "tilix"@ || term == "terminix"@
}

/// The convention of the terminal named `term`. A name that is not known
/// gets `-e`.
pub open spec fn convention_of(term: Seq<char>) -> Convention {
    if takes_double_dash(term) {
        Convention::DoubleDash
    } else if runs_bare(term) {
        Convention::Bare
    } else {
        Convention::Execute
    }
}

/// The command prefix for the terminal named `term`: `<term> --`, `<term>`
/// or `<term> -e`.
pub open spec fn invocation_of(term: Seq<char>) -> Seq<char> {
    match convention_of(term) {
        Convention::DoubleDash => term + " --"@,
        Convention::Bare => term,
        Convention::Execute => term + " -e"@,
    }
}

/// The convention of the terminal named `term`.
pub fn convention(term: &str) -> (c: Convention)
    ensures
        c == convention_of(term@),
{
    let t = chars_of(term);
    let double_dash = spells(&t, "mate-terminal") || spells(&t, "gnome-terminal")
        || spells(&t, "terminator") || spells(&t, "xfce4-terminal")
        || spells(&t, "lxterminal") || spells(&t, "terminology")
        || spells(&t, "st") || spells(&t, "qterminal")
        || spells(&t, "konsole") || spells(&t, "kitty")
        || spells(&t, "guake") || spells(&t, "tilda")
        || spells(&t, "alacritty") || spells(&t, "hyper");
    if double_dash {
        Convention::DoubleDash
    } else if spells(&t, "tilix") || spells(&t, "terminix") {
        Convention::Bare
    } else {
        Convention::Execute
    }
}

/// The command prefix for the terminal named `term`.
pub fn invocation(term: &str) -> (command: String)
    ensures
        command@ == invocation_of(term@),
{
    let name = String::from_str(term);
    match convention(term) {
        Convention::DoubleDash => name.concat(" --"),
        Convention::Bare => name,
        Convention::Execute => name.concat(" -e"),
    }
}

/// The terminals to consider, in order of preference: first the one that
/// the environment asks for, if it asks for one, then the well-known
/// emulators.
pub open spec fn candidates_of(preferred: Option<Seq<char>>) -> Seq<Option<Seq<char>>> {
    seq![
        preferred,
        Some("x-terminal-emulator"@),
        Some("mate-terminal"@),
        Some("gnome-terminal"@),
        Some("terminator"@),
        Some("xfce4-terminal"@),
        Some("urxvt"@),
        Some("rxvt"@),
        Some("termit"@),
        Some("Eterm"@),
        Some("aterm"@),
        Some("uxterm"@),
        Some("xterm"@),
        Some("roxterm"@),
        Some("termite"@),
        Some("lxterminal"@),
        Some("terminology"@),
        Some("st"@),
        Some("qterminal"@),
        Some("lilyterm"@),
        Some("tilix"@),
        Some("terminix"@),
        Some("konsole"@),
        Some("kitty"@),
        Some("guake"@),
        Some("tilda"@),
        Some("alacritty"@),
        Some("hyper"@),
    ]
}

/// The command prefix of the first candidate that is present, or `None`
/// where no candidate is.
pub open spec fn resolution_of(candidates: Seq<Option<Seq<char>>>) -> Option<Seq<char>>
    decreases candidates.len(),
{
    if candidates.len() == 0 {
        None
    } else {
        match candidates[0] {
            Some(term) => Some(invocation_of(term)),
            None => resolution_of(candidates.drop_first()),
        }
    }
}

/// The terminal that is chosen for a given preference: the preferred one,
/// or else the first of the well-known emulators.
pub open spec fn chosen_terminal(preferred: Option<Seq<char>>) -> Seq<char> {
    match preferred {
        Some(term) => term,
        None => "x-terminal-emulator"@,
    }
}

/// The list of candidates for a given preference.
pub fn terminal_candidates(preferred: Option<String>) -> (candidates: Vec<Option<String>>)
    ensures
        candidates.deep_view() == candidates_of(preferred.deep_view()),
{
    let mut candidates: Vec<Option<String>> = Vec::new();
    candidates.push(preferred);
    candidates.push(Some(String::from_str("x-terminal-emulator")));
    candidates.push(Some(String::from_str("mate-terminal")));
    candidates.push(Some(String::from_str("gnome-terminal")));
    candidates.push(Some(String::from_str("terminator")));
    candidates.push(Some(String::from_str("xfce4-terminal")));
    candidates.push(Some(String::from_str("urxvt")));
    candidates.push(Some(String::from_str("rxvt")));
    candidates.push(Some(String::from_str("termit")));
    candidates.push(Some(String::from_str("Eterm")));
    candidates.push(Some(String::from_str("aterm")));
    candidates.push(Some(String::from_str("uxterm")));
    candidates.push(Some(String::from_str("xterm")));
    candidates.push(Some(String::from_str("roxterm")));
    candidates.push(Some(String::from_str("termite")));
    candidates.push(Some(String::from_str("lxterminal")));
    candidates.push(Some(String::from_str("terminology")));
    candidates.push(Some(String::from_str("st")));
    candidates.push(Some(String::from_str("qterminal")));
    candidates.push(Some(String::from_str("lilyterm")));
    candidates.push(Some(String::from_str("tilix")));
    candidates.push(Some(String::from_str("terminix")));
    candidates.push(Some(String::from_str("konsole")));
    candidates.push(Some(String::from_str("kitty")));
    candidates.push(Some(String::from_str("guake")));
    candidates.push(Some(String::from_str("tilda")));
    candidates.push(Some(String::from_str("alacritty")));
    candidates.push(Some(String::from_str("hyper")));
    assert(candidates.deep_view() =~= candidates_of(preferred.deep_view()));
    candidates
}

/// Picks the first candidate that is present and gives its command prefix.
/// Nothing is asked of the system: a name that is listed counts as present.
pub fn resolve_terminal(candidates: &Vec<Option<String>>) -> (command: Option<String>)
    ensures
        command.deep_view() == resolution_of(candidates.deep_view()),
{
    let ghost all = candidates.deep_view();
    let mut i: usize = 0;
    assert(all.skip(0) =~= all);
    while i < candidates.len()
        invariant
            i <= candidates.len(),
            all == candidates.deep_view(),
            resolution_of(all) == resolution_of(all.skip(i as int)),
        decreases candidates.len() - i,
    {
        assert(all.skip(i as int)[0] == candidates@[i as int].deep_view());
        assert(all.skip(i as int).drop_first() =~= all.skip(i + 1));
        if let Some(term) = &candidates[i] {
            return Some(invocation(term.as_str()));
        }
        i += 1;
    }
    None
}

/// The terminal command to go by, given what the environment asks for.
///
/// The list of well-known emulators is never empty, so a command is always
/// found: the preferred terminal's where there is a preference, and that of
/// the first well-known emulator where there is none.
pub fn get_terminal_command(preferred: Option<String>) -> (command: Option<String>)
    ensures
        command.deep_view() == resolution_of(candidates_of(preferred.deep_view())),
        command.deep_view() == Some(invocation_of(chosen_terminal(preferred.deep_view()))),
{
    let candidates = terminal_candidates(preferred);
    proof {
        lemma_resolution_of_candidates(preferred.deep_view());
    }
    resolve_terminal(&candidates)
}

/// The resolution goes by the first candidate that is present: where the
/// candidate at `at` is present and none before it is, the command is that
/// candidate's.
pub proof fn lemma_resolution_is_first_present(candidates: Seq<Option<Seq<char>>>, at: int)
    requires
        0 <= at < candidates.len(),
        candidates[at] is Some,
        forall|j: int| 0 <= j < at ==> candidates[j] is None,
    ensures
        resolution_of(candidates) == Some(invocation_of(candidates[at]->0)),
    decreases at,
{
    if at > 0 {
        let rest = candidates.drop_first();
        assert(candidates[0] is None);
        assert(rest[at - 1] == candidates[at]);
        assert forall|j: int| 0 <= j < at - 1 implies rest[j] is None by {
            assert(rest[j] == candidates[j + 1]);
        }
        lemma_resolution_is_first_present(rest, at - 1);
    }
}

/// The resolution fails exactly where no candidate is present.
pub proof fn lemma_resolution_fails_when_exhausted(candidates: Seq<Option<Seq<char>>>)
    ensures
        resolution_of(candidates) is None <==> forall|i: int|
            0 <= i < candidates.len() ==> candidates[i] is None,
    decreases candidates.len(),
{
    if candidates.len() > 0 {
        let rest = candidates.drop_first();
        lemma_resolution_fails_when_exhausted(rest);
        if candidates[0] is None {
            if resolution_of(candidates) is None {
                assert forall|i: int| 0 <= i < candidates.len() implies candidates[i] is None by {
                    if i > 0 {
                        assert(rest[i - 1] == candidates[i]);
                    }
                }
            } else {
                let i = choose|i: int| 0 <= i < rest.len() && rest[i] is Some;
                assert(candidates[i + 1] is Some);
            }
        }
    }
}

/// With the well-known emulators in the list, a terminal is always found.
pub proof fn lemma_resolution_of_candidates(preferred: Option<Seq<char>>)
    ensures
        resolution_of(candidates_of(preferred)) == Some(
            invocation_of(chosen_terminal(preferred)),
        ),
{
    let all = candidates_of(preferred);
    assert(all[0] == preferred);
    assert(all.drop_first()[0] == Some("x-terminal-emulator"@));
    reveal_with_fuel(resolution_of, 2);
}

} // verus!
