use rmenu::application::Application;
use rmenu::launch::{open_application, plan_launch, LaunchPlan, LAUNCHER};

fn app_at(path: Option<&str>) -> Application {
    Application {
        path: path.map(String::from),
        name: "Firefox".to_string(),
        exec_file: "firefox %u".to_string(),
        icon_path: "firefox".to_string(),
    }
}

fn spawned(plan: LaunchPlan) -> (String, String) {
    match plan {
        LaunchPlan::Spawn { program, argument } => (program, argument),
        LaunchPlan::NoTerminal => panic!("nothing is spawned"),
    }
}

#[test]
fn the_helper_is_gtk_launch() {
    assert_eq!(LAUNCHER, "gtk-launch");
}

#[test]
fn the_helper_gets_the_stem_of_the_entry_path() {
    let app = app_at(Some("/usr/share/applications/firefox.desktop"));
    let (program, argument) = spawned(open_application(&app, None));
    assert_eq!(program, "gtk-launch");
    assert_eq!(argument, "firefox");
}

#[test]
fn only_the_last_extension_is_dropped() {
    let app = app_at(Some("/usr/share/applications/org.gnome.Terminal.desktop"));
    assert_eq!(spawned(open_application(&app, None)).1, "org.gnome.Terminal");
    let app = app_at(Some("/usr/share/applications/firefox.desktop.bak"));
    assert_eq!(spawned(open_application(&app, None)).1, "firefox.desktop");
    let app = app_at(Some("/usr/share/applications/.desktop"));
    assert_eq!(spawned(open_application(&app, None)).1, ".desktop");
}

#[test]
fn an_entry_without_a_path_gives_the_empty_identifier() {
    let (program, argument) = spawned(open_application(&app_at(None), None));
    assert_eq!(program, "gtk-launch");
    assert_eq!(argument, "");
    assert_eq!(spawned(open_application(&app_at(Some("")), None)).1, "");
    assert_eq!(spawned(open_application(&app_at(Some("/")), None)).1, "");
}

#[test]
fn the_preferred_terminal_does_not_change_the_plan() {
    let app = app_at(Some("/usr/share/applications/gimp.desktop"));
    for preferred in [None, Some("kitty"), Some("tilix"), Some("no-such-terminal"), Some("")] {
        let (program, argument) = spawned(open_application(&app, preferred.map(String::from)));
        assert_eq!(program, "gtk-launch");
        assert_eq!(argument, "gimp");
    }
}

#[test]
fn without_a_terminal_command_nothing_is_spawned() {
    assert!(matches!(plan_launch(None, Some("firefox".to_string())), LaunchPlan::NoTerminal));
    assert!(matches!(plan_launch(None, None), LaunchPlan::NoTerminal));
}

#[test]
fn with_a_terminal_command_the_helper_is_spawned() {
    let plan = plan_launch(Some("kitty --".to_string()), Some("firefox".to_string()));
    assert_eq!(spawned(plan), ("gtk-launch".to_string(), "firefox".to_string()));
    let plan = plan_launch(Some("kitty --".to_string()), None);
    assert_eq!(spawned(plan), ("gtk-launch".to_string(), String::new()));
}
