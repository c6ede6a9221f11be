//! The screens of the interface, and how a key press or a paste reaches the
//! one shown.
use vstd::prelude::*;
use crate::add_package_form::AddPackageForm;
use crate::append_files_form::AppendFilesForm;
use crate::downloads_screen::DownloadsScreen;
use crate::files_screen::FilesScreen;
use crate::packages_screen::PackagesScreen;
use crate::requests::{KeyOutcome, OutcomeView};
use crate::text_input::{Key, KeyPress};

verus! {

/// A screen of the interface.
#[derive(Debug)]
pub enum Screen {
    Packages(PackagesScreen),
    Files(FilesScreen),
    Downloads(DownloadsScreen),
    AddPackageForm(AddPackageForm),
    AppendFilesForm(AppendFilesForm),
}

/// Which screen is shown, without its contents.
pub enum CurrentScreen {
    Packages(PackagesScreen),
    Files(FilesScreen),
    AddPackageForm,
    AppendFilesForm,
}

/// Whether two screens are of the same kind.
pub open spec fn same_kind(a: Screen, b: Screen) -> bool {
    match (a, b) {
        (Screen::Packages(_), Screen::Packages(_)) => true,
        (Screen::Files(_), Screen::Files(_)) => true,
        (Screen::Downloads(_), Screen::Downloads(_)) => true,
        (Screen::AddPackageForm(_), Screen::AddPackageForm(_)) => true,
        (Screen::AppendFilesForm(_), Screen::AppendFilesForm(_)) => true,
        _ => false,
    }
}

impl Screen {
    /// Whether the screen can handle a key (see the list screens).
    pub open spec fn accepts(self, key: Key) -> bool {
        match self {
            Screen::Packages(s) => s.accepts(key),
            Screen::Files(s) => s.accepts(key),
            _ => true,
        }
    }

    /// What a key press does to the screen (`new`) and what it comes to
    /// (`out`): the list screens read its key, the forms the whole press.
    pub open spec fn key_step(self, press: KeyPress, new: Screen, out: OutcomeView) -> bool {
        let key = press.key;
        match self {
            Screen::Packages(s) => new == Screen::Packages(
                PackagesScreen { table_state: s.key_table_state(key), ..s },
            ) && out == OutcomeView::Action(s.key_action(key)),
            Screen::Files(s) => new == Screen::Files(
                FilesScreen { table_state: s.key_table_state(key), ..s },
            ) && out == OutcomeView::Action(s.key_action(key)),
            Screen::Downloads(s) => new == Screen::Downloads(
                DownloadsScreen { table_state: s.key_table_state(key), ..s },
            ) && out == OutcomeView::Action(s.key_action(key)),
            Screen::AddPackageForm(f) => match new {
                Screen::AddPackageForm(g) => f.key_step(press, g, out),
                _ => false,
            },
            Screen::AppendFilesForm(f) => match new {
                Screen::AppendFilesForm(g) => f.key_step(press, g, out),
                _ => false,
            },
        }
    }

    /// What pasting `text` does to the screen: the form shown pastes it into
    /// its focused text input; the other screens ignore it.
    pub open spec fn paste_step(self, new: Screen, text: Seq<char>) -> bool {
        match self {
            Screen::AddPackageForm(f) => match new {
                Screen::AddPackageForm(g) => f.pasted(g, text),
                _ => false,
            },
            Screen::AppendFilesForm(f) => match new {
                Screen::AppendFilesForm(g) => f.pasted(g, text),
                _ => false,
            },
            _ => new == self,
        }
    }

    /// Hands a key press to the screen.
    pub fn handle_keys(&mut self, key: KeyPress) -> (out: KeyOutcome)
        requires
            old(self).accepts(key.key),
        ensures
            old(self).key_step(key, *final(self), out@),
    {
        match self {
            Screen::Packages(s) => KeyOutcome::Action(s.handle_keys(key.key)),
            Screen::Files(s) => KeyOutcome::Action(s.handle_keys(key.key)),
            Screen::Downloads(s) => KeyOutcome::Action(s.handle_keys(key.key)),
            Screen::AddPackageForm(f) => f.handle_keys(key),
            Screen::AppendFilesForm(f) => f.handle_keys(key),
        }
    }

    /// Hands pasted text to the screen.
    pub fn handle_paste(&mut self, content: &str)
        ensures
            old(self).paste_step(*final(self), content@),
    {
        match self {
            Screen::AddPackageForm(f) => f.handle_paste(content),
            Screen::AppendFilesForm(f) => f.handle_paste(content),
            _ => {},
        }
    }
}

} // verus!
