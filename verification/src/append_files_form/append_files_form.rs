//! The form for adding links to an existing package.
use vstd::prelude::*;
use super::SelectedInput;
use crate::app_action::{ActionView, AppAction};
use crate::requests::{KeyOutcome, OutcomeView};
use crate::text::{link_list, links_of};
use crate::text_input::{text_after_key, text_after_paste, text_lines, Edit, Key, KeyPress, TextInput};

verus! {

/// The package that links are added to, and the links input.
#[derive(Debug)]
pub struct AppendFilesForm {
    pub package_id: i32,
    pub package_name: String,
    pub links: TextInput,
    pub selected: SelectedInput,
}

impl AppendFilesForm {
    /// The links that the form holds: lines trimmed, empty ones left out.
    pub open spec fn link_texts(self) -> Seq<Seq<char>> {
        links_of(text_lines(self.links))
    }

    /// What a key press does to the form (`new`) and what it comes to
    /// (`out`): Esc asks to go back, Tab and Shift+Tab move the focus, Enter
    /// on the button submits the links, and every other key goes to the
    /// links input when it has the focus.
    pub open spec fn key_step(self, press: KeyPress, new: AppendFilesForm, out: OutcomeView) -> bool {
        match press.key {
            Key::Esc => new == self && out == OutcomeView::Action(Some(ActionView::GoToPreviousScreen)),
            Key::Tab | Key::BackTab => new == (AppendFilesForm {
                selected: self.selected.shifted(1),
                ..self
            }) && out == OutcomeView::Action(None),
            Key::Enter => match self.selected {
                SelectedInput::AddLinks => new == self && out == if self.link_texts().len() == 0 {
                    OutcomeView::Action(None)
                } else {
                    OutcomeView::SubmitLinks(self.package_id, self.link_texts())
                },
                SelectedInput::Links => self.typed(new, press.input) && out == OutcomeView::Action(
                    None,
                ),
            },
            _ => self.typed(new, press.input) && out == OutcomeView::Action(None),
        }
    }

    /// `new` is `self` after the links input read a key press, when it has
    /// the focus; otherwise nothing changes.
    pub open spec fn typed(self, new: AppendFilesForm, edit: Edit) -> bool {
        if self.selected == SelectedInput::Links {
            &&& text_lines(new.links) == text_after_key(self.links, edit)
            &&& new.package_id == self.package_id
            &&& new.package_name == self.package_name
            &&& new.selected == self.selected
        } else {
            new == self
        }
    }

    /// `new` is `self` after a text was pasted into the links, when they have
    /// the focus; otherwise nothing changes.
    pub open spec fn pasted(self, new: AppendFilesForm, text: Seq<char>) -> bool {
        if self.selected == SelectedInput::Links {
            &&& text_lines(new.links) == text_after_paste(self.links, text)
            &&& new.package_id == self.package_id
            &&& new.package_name == self.package_name
            &&& new.selected == self.selected
        } else {
            new == self
        }
    }

    /// `new` is `self` emptied: the same package, no links, the links
    /// focused.
    pub open spec fn emptied(self, new: AppendFilesForm) -> bool {
        &&& new.package_id == self.package_id
        &&& new.package_name == self.package_name
        &&& text_lines(new.links) == seq![Seq::<char>::empty()]
        &&& new.selected == SelectedInput::Links
    }

    /// A form for adding links to a package, empty, the links focused.
    pub fn new(package_id: i32, package_name: String) -> (f: AppendFilesForm)
        ensures
            f.package_id == package_id,
            f.package_name == package_name,
            text_lines(f.links) == seq![Seq::<char>::empty()],
            f.selected == SelectedInput::Links,
    {
        AppendFilesForm {
            package_id,
            package_name,
            links: TextInput::new(),
            selected: SelectedInput::Links,
        }
    }

    fn submit(&self) -> (out: KeyOutcome)
        ensures
            out@ == if self.link_texts().len() == 0 {
                OutcomeView::Action(None)
            } else {
                OutcomeView::SubmitLinks(self.package_id, self.link_texts())
            },
    {
        let links = link_list(&self.links.lines());
        if links.len() == 0 {
            return KeyOutcome::Action(None);
        }
        KeyOutcome::SubmitLinks(self.package_id, links)
    }

    /// What the form asks for once the server has answered its links: when
    /// they were added, the form is emptied (a selection under way is ended
    /// first, so that all the text goes) and the previous screen comes back;
    /// otherwise nothing.
    pub fn finish_submit(&mut self, added: bool) -> (a: Option<AppAction>)
        ensures
            added ==> a matches Some(AppAction::GoToPreviousScreen),
            added ==> old(self).emptied(*final(self)),
            !added ==> a is None && *final(self) == *old(self),
    {
        if !added {
            return None;
        }
        self.reset();
        Some(AppAction::GoToPreviousScreen)
    }

    fn reset(&mut self)
        ensures
            old(self).emptied(*final(self)),
    {
        self.links.cancel_selection();
        self.links.clear();
        self.selected = SelectedInput::Links;
    }

    /// Handles a key: Esc goes back, Tab and Shift+Tab move the focus, Enter
    /// on the button submits the links, and the links input gets the other
    /// keys when it has the focus.
    pub fn handle_keys(&mut self, key: KeyPress) -> (out: KeyOutcome)
        ensures
            old(self).key_step(key, *final(self), out@),
    {
        match key.key {
            Key::Esc => KeyOutcome::Action(Some(AppAction::GoToPreviousScreen)),
            Key::Tab => {
                self.selected = self.selected.next();
                KeyOutcome::Action(None)
            },
            Key::BackTab => {
                self.selected = self.selected.prev();
                KeyOutcome::Action(None)
            },
            Key::Enter => match self.selected {
                SelectedInput::AddLinks => self.submit(),
                SelectedInput::Links => {
                    self.links.input(key.input);
                    KeyOutcome::Action(None)
                },
            },
            _ => {
                if self.selected == SelectedInput::Links {
                    self.links.input(key.input);
                }
                KeyOutcome::Action(None)
            },
        }
    }

    /// Pastes text into the links input when it has the focus.
    pub fn handle_paste(&mut self, content: &str)
        ensures
            old(self).pasted(*final(self), content@),
    {
        if self.selected == SelectedInput::Links {
            self.links.insert_str(content);
        }
    }
}

} // verus!
