use rmenu::terminal::{
    convention, get_terminal_command, invocation, resolve_terminal, terminal_candidates,
    Convention, TERMINAL_VARIABLE,
};

#[test]
fn the_preference_is_read_from_terminal() {
    assert_eq!(TERMINAL_VARIABLE, "TERMINAL");
}

#[test]
fn terminals_that_take_a_double_dash() {
    let names = [
        "mate-terminal",
        "gnome-terminal",
        "terminator",
        "xfce4-terminal",
        "lxterminal",
        "terminology",
        "st",
        "qterminal",
        "konsole",
        "kitty",
        "guake",
        "tilda",
        "alacritty",
        "hyper",
    ];
    for name in names {
        assert_eq!(convention(name), Convention::DoubleDash);
        assert_eq!(invocation(name), format!("{} --", name));
    }
}

#[test]
fn terminals_that_run_bare() {
    for name in ["tilix", "terminix"] {
        assert_eq!(convention(name), Convention::Bare);
        assert_eq!(invocation(name), name);
    }
}

#[test]
fn other_terminals_take_dash_e() {
    let names = [
        "x-terminal-emulator",
        "urxvt",
        "rxvt",
        "termit",
        "Eterm",
        "aterm",
        "uxterm",
        "xterm",
        "roxterm",
        "termite",
        "lilyterm",
        "wezterm",
        "",
        "Kitty",
        "kitty ",
    ];
    for name in names {
        assert_eq!(convention(name), Convention::Execute);
        assert_eq!(invocation(name), format!("{} -e", name));
    }
}

#[test]
fn exact_invocations() {
    assert_eq!(invocation("kitty"), "kitty --");
    assert_eq!(invocation("tilix"), "tilix");
    assert_eq!(invocation("xterm"), "xterm -e");
}

#[test]
fn the_candidates_are_the_preference_and_the_well_known_emulators() {
    let candidates = terminal_candidates(Some("foot".to_string()));
    let expected = [
        "foot",
        "x-terminal-emulator",
        "mate-terminal",
        "gnome-terminal",
        "terminator",
        "xfce4-terminal",
        "urxvt",
        "rxvt",
        "termit",
        "Eterm",
        "aterm",
        "uxterm",
        "xterm",
        "roxterm",
        "termite",
        "lxterminal",
        "terminology",
        "st",
        "qterminal",
        "lilyterm",
        "tilix",
        "terminix",
        "konsole",
        "kitty",
        "guake",
        "tilda",
        "alacritty",
        "hyper",
    ];
    assert_eq!(candidates.len(), 28);
    for (candidate, name) in candidates.iter().zip(expected) {
        assert_eq!(candidate.as_deref(), Some(name));
    }
}

#[test]
fn without_a_preference_the_first_candidate_is_absent() {
    let candidates = terminal_candidates(None);
    assert_eq!(candidates.len(), 28);
    assert_eq!(candidates[0], None);
    assert_eq!(candidates[1].as_deref(), Some("x-terminal-emulator"));
}

#[test]
fn resolution_takes_the_first_candidate_that_is_present() {
    let candidates = vec![None, Some("tilix".to_string()), Some("kitty".to_string())];
    assert_eq!(resolve_terminal(&candidates), Some("tilix".to_string()));
    let candidates = vec![Some("kitty".to_string()), Some("tilix".to_string())];
    assert_eq!(resolve_terminal(&candidates), Some("kitty --".to_string()));
}

#[test]
fn resolution_fails_where_no_candidate_is_present() {
    assert_eq!(resolve_terminal(&Vec::new()), None);
    assert_eq!(resolve_terminal(&vec![None, None, None]), None);
}

#[test]
fn without_a_preference_the_command_is_that_of_the_first_emulator() {
    assert_eq!(get_terminal_command(None), Some("x-terminal-emulator -e".to_string()));
}

#[test]
fn a_preference_is_taken_whether_or_not_it_is_known() {
    assert_eq!(get_terminal_command(Some("kitty".to_string())), Some("kitty --".to_string()));
    assert_eq!(get_terminal_command(Some("tilix".to_string())), Some("tilix".to_string()));
    assert_eq!(get_terminal_command(Some("foot".to_string())), Some("foot -e".to_string()));
    assert_eq!(get_terminal_command(Some(String::new())), Some(" -e".to_string()));
}
