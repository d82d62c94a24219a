use rmenu::application::Application;
use rmenu::filter::{lowered_name_matches, search_strings};

fn app(name: &str) -> Application {
    Application {
        path: Some(format!("/usr/share/applications/{}.desktop", name)),
        name: name.to_string(),
        exec_file: name.to_lowercase(),
        icon_path: format!("{}.png", name),
    }
}

fn names(apps: &Vec<Application>) -> Vec<String> {
    apps.iter().map(|app| app.name.clone()).collect()
}

fn three() -> Vec<Application> {
    vec![app("Firefox"), app("GIMP"), app("LibreOffice")]
}

#[test]
fn fire_finds_firefox() {
    assert_eq!(names(&search_strings(&three(), "fire")), vec!["Firefox"]);
}

#[test]
fn the_found_programs_are_whole_copies() {
    let found = search_strings(&three(), "gimp");
    assert_eq!(found.len(), 1);
    assert_eq!(found[0].name, "GIMP");
    assert_eq!(found[0].exec_file, "gimp");
    assert_eq!(found[0].icon_path, "GIMP.png");
    assert_eq!(found[0].path.as_deref(), Some("/usr/share/applications/GIMP.desktop"));
}

#[test]
fn the_term_is_taken_as_it_is_given() {
    assert_eq!(names(&search_strings(&three(), "Fire")), Vec::<String>::new());
    assert_eq!(names(&search_strings(&three(), "GIMP")), Vec::<String>::new());
}

#[test]
fn the_empty_term_finds_every_program() {
    assert_eq!(names(&search_strings(&three(), "")), vec!["Firefox", "GIMP", "LibreOffice"]);
}

#[test]
fn a_search_in_an_empty_list_finds_nothing() {
    assert_eq!(search_strings(&Vec::new(), "a").len(), 0);
}

#[test]
fn the_found_programs_keep_their_order() {
    let apps = vec![app("Zed"), app("Files"), app("Emacs"), app("Thunderbird"), app("Eye")];
    assert_eq!(names(&search_strings(&apps, "e")), vec!["Zed", "Files", "Emacs", "Thunderbird", "Eye"]);
    assert_eq!(names(&search_strings(&apps, "es")), vec!["Files"]);
    assert_eq!(names(&search_strings(&apps, "ye")), vec!["Eye"]);
    assert_eq!(names(&search_strings(&apps, "d")), vec!["Zed", "Thunderbird"]);
}

#[test]
fn names_that_differ_in_case_are_found_together() {
    let apps = vec![app("Firefox"), app("GIMP"), app("FIREFOX"), app("firefox"), app("fIrEfOx")];
    assert_eq!(
        names(&search_strings(&apps, "fox")),
        vec!["Firefox", "FIREFOX", "firefox", "fIrEfOx"]
    );
    assert_eq!(names(&search_strings(&apps, "gim")), vec!["GIMP"]);
}

#[test]
fn narrowing_a_search_is_searching_for_the_narrower_term() {
    let apps = vec![app("Firefox"), app("Firewall"), app("GIMP"), app("Campfire"), app("Fir")];
    let fire = search_strings(&apps, "fire");
    assert_eq!(names(&fire), vec!["Firefox", "Firewall", "Campfire"]);
    let narrowed = search_strings(&fire, "firew");
    assert_eq!(names(&narrowed), names(&search_strings(&apps, "firew")));
    assert_eq!(names(&narrowed), vec!["Firewall"]);
}

#[test]
fn lower_case_follows_unicode() {
    let apps = vec![app("ÄPFEL"), app("Éditeur"), app("ΣΟΦΙΑ")];
    assert_eq!(names(&search_strings(&apps, "äpfel")), vec!["ÄPFEL"]);
    assert_eq!(names(&search_strings(&apps, "éd")), vec!["Éditeur"]);
    assert_eq!(names(&search_strings(&apps, "σοφ")), vec!["ΣΟΦΙΑ"]);
    assert_eq!(names(&search_strings(&apps, "apfel")), Vec::<String>::new());
}

#[test]
fn a_lowered_name_matches_what_it_contains() {
    assert!(lowered_name_matches("firefox", "fire"));
    assert!(lowered_name_matches("firefox", ""));
    assert!(!lowered_name_matches("firefox", "Fire"));
    assert!(!lowered_name_matches("Firefox", "fire"));
    assert!(!lowered_name_matches("gimp", "fire"));
}
