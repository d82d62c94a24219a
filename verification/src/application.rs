//! The record of one discoverable program.

use vstd::prelude::*;

verus! {

/// One launchable program, as read from its desktop entry.
///
/// A record exists only for an entry that gave a display name, a command and
/// an icon: an entry that lacks one of the three yields no record at all.
#[derive(Debug)]
pub struct Application {
    /// Where the entry file lies, if known.
    pub path: Option<String>,
    /// The label shown to the user.
    pub name: String,
    /// The command line named by the entry. It is never run as such.
    pub exec_file: String,
    /// The name of the entry's icon.
    pub icon_path: String,
}

/// What an [`Application`] holds, as sequences of characters.
pub ghost struct ApplicationView {
    pub path: Option<Seq<char>>,
    pub name: Seq<char>,
    pub exec_file: Seq<char>,
    pub icon_path: Seq<char>,
}

impl View for Application {
    type V = ApplicationView;

    open spec fn view(&self) -> ApplicationView {
        ApplicationView {
            path: self.path.deep_view(),
            name: self.name@,
            exec_file: self.exec_file@,
            icon_path: self.icon_path@,
        }
    }
}

impl DeepView for Application {
    type V = ApplicationView;

    open spec fn deep_view(&self) -> ApplicationView {
        self@
    }
}

impl Clone for Application {
    fn clone(&self) -> (copy: Self)
        ensures
            copy@ == self@,
    {
        let path = match &self.path {
            Some(p) => Some(p.clone()),
            None => None,
        };
        Application {
            path,
            name: self.name.clone(),
            exec_file: self.exec_file.clone(),
            icon_path: self.icon_path.clone(),
        }
    }
}

} // verus!
