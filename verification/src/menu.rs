//! The state of the menu and what it does about the user's input.
//!
//! The window belongs to the binary. Each frame it draws the list that the
//! state shows, hands the state what the user did, and carries out the
//! action it gets back.

use vstd::prelude::*;
use crate::application::{Application, ApplicationView};
use crate::filter::{matching, search_strings};
use crate::launch::{identifier_of, open_application, LaunchPlan, LaunchPlanView, LAUNCHER};

verus! {

/// The status with which the process ends when the user leaves the menu.
pub const EXIT_STATUS: i32 = 1;

/// The menu: the programs that were found when it was opened, and what the
/// user has typed so far.
#[derive(Debug)]
pub struct MyApp {
    /// The programs, in the order of the scan. The list is never changed.
    pub applications: Vec<Application>,
    /// The search term, which the text field edits.
    pub search: String,
}

/// What the user did.
#[derive(Debug)]
pub enum Event {
    /// The Escape key was pressed.
    EscapePressed,
    /// The row at `index` of the shown list was clicked. With the click
    /// comes the terminal that the environment asks for at that moment, if
    /// it asks for one.
    Clicked { index: usize, preferred_terminal: Option<String> },
}

/// What the binary is to do.
#[derive(Debug)]
pub enum Action {
    /// End the process with this status.
    Exit { status: i32 },
    /// Carry out this launch plan and go on.
    Launch(LaunchPlan),
    /// Go on.
    Nothing,
}

/// The list that the menu shows: every program while nothing is typed, and
/// the programs that match the search term otherwise.
pub open spec fn shown_of(
    applications: Seq<ApplicationView>,
    search: Seq<char>,
) -> Seq<ApplicationView> {
    if search.len() == 0 {
        applications
    } else {
        matching(applications, search)
    }
}

/// A copy of `apps`.
fn copy_all(apps: &Vec<Application>) -> (copies: Vec<Application>)
    ensures
        copies.deep_view() == apps.deep_view(),
{
    let mut copies: Vec<Application> = Vec::with_capacity(apps.len());
    let mut i: usize = 0;
    while i < apps.len()
        invariant
            i <= apps.len(),
            copies.len() == i,
            forall|j: int| 0 <= j < i ==> copies@[j]@ == apps@[j]@,
        decreases apps.len() - i,
    {
        copies.push(apps[i].clone());
        i += 1;
    }
    assert(copies.deep_view() =~= apps.deep_view());
    copies
}

impl MyApp {
    /// A menu over `applications`, with nothing typed yet.
    pub fn new(applications: Vec<Application>) -> (menu: MyApp)
        ensures
            menu.applications == applications,
            menu.search@ == Seq::<char>::empty(),
    {
        MyApp { applications, search: String::new() }
    }

    /// The programs to show, in the order of the scan.
    pub fn shown(&self) -> (list: Vec<Application>)
        ensures
            list.deep_view() == shown_of(self.applications.deep_view(), self.search@),
    {
        if self.search.as_str().is_empty() {
            copy_all(&self.applications)
        } else {
            search_strings(&self.applications, self.search.as_str())
        }
    }

    /// What to do about an event.
    ///
    /// Escape ends the process. A click on a row plans the launch of the
    /// program shown there; a click beyond the end of the list does nothing.
    pub fn update(&self, event: Event) -> (action: Action)
        ensures
            match event {
                Event::EscapePressed => action == (Action::Exit { status: EXIT_STATUS }),
                Event::Clicked { index, preferred_terminal } => {
                    let list = shown_of(self.applications.deep_view(), self.search@);
                    if index < list.len() {
                        action matches Action::Launch(plan) && plan@ == (LaunchPlanView::Spawn {
                            program: LAUNCHER@,
                            argument: identifier_of(list[index as int].path),
                        })
                    } else {
                        action == Action::Nothing
                    }
                },
            },
    {
        match event {
            Event::EscapePressed => Action::Exit { status: EXIT_STATUS },
            Event::Clicked { index, preferred_terminal } => {
                let list = self.shown();
                if index < list.len() {
                    Action::Launch(open_application(&list[index], preferred_terminal))
                } else {
                    Action::Nothing
                }
            },
        }
    }
}

} // verus!
