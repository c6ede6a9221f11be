//! The form for adding a package: a name, links (one per line), an optional
//! password, and whether the package goes to the queue or the collector.
use vstd::prelude::*;
use super::SelectedInput;
use crate::app_action::{ActionView, AppAction};
use crate::model::Destination;
use crate::palette::Color;
use crate::requests::{AddPackageRequest, KeyOutcome, OutcomeView, PackageRequestView};
use crate::text::{join_lines, joined, link_list, links_of, texts};
use crate::text_input::{text_after_key, text_after_paste, text_lines, Edit, Key, KeyPress, TextInput};

verus! {

/// The inputs of the package form. Exactly one of the two destinations is
/// checked at a time, unless the user unchecks the one checked.
#[derive(Debug)]
pub struct AddPackageForm {
    pub name: TextInput,
    pub links: TextInput,
    pub password: TextInput,
    pub selected: SelectedInput,
    pub queue_checked: bool,
    pub collector_checked: bool,
}

/// The package that the form's inputs describe (see
/// `AddPackageForm::submission`).
pub open spec fn request_of(
    name: Seq<Seq<char>>,
    links: Seq<Seq<char>>,
    password: Seq<Seq<char>>,
    collector_checked: bool,
) -> PackageRequestView {
    let pw = joined(password, ""@);
    PackageRequestView {
        name: joined(name, "\n"@),
        links: links_of(links),
        password: if pw.len() == 0 {
            None
        } else {
            Some(pw)
        },
        dest: if collector_checked {
            Destination::Collector
        } else {
            Destination::Queue
        },
    }
}

/// The package that the lines of the form's inputs describe.
pub fn package_request(
    name_lines: &Vec<String>,
    link_lines: &Vec<String>,
    password_lines: &Vec<String>,
    collector_checked: bool,
) -> (r: AddPackageRequest)
    ensures
        r@ == request_of(texts(name_lines@), texts(link_lines@), texts(password_lines@), collector_checked),
{
    let name = join_lines(name_lines, "\n");
    let links = link_list(link_lines);
    let p = join_lines(password_lines, "");
    let password = if p.unicode_len() == 0 {
        None
    } else {
        Some(p)
    };
    let dest = if collector_checked {
        Destination::Collector
    } else {
        Destination::Queue
    };
    AddPackageRequest { name, links, password, dest }
}

impl AddPackageForm {
    /// The package that the form describes: the name lines joined by
    /// newlines, the links trimmed with empty lines left out, the password
    /// lines joined (no password when that is empty), and the collector as
    /// destination when it is checked, else the queue.
    pub open spec fn submission(self) -> PackageRequestView {
        request_of(
            text_lines(self.name),
            text_lines(self.links),
            text_lines(self.password),
            self.collector_checked,
        )
    }

    /// The form with the focus moved.
    pub open spec fn focused(self, s: SelectedInput) -> AddPackageForm {
        AddPackageForm { selected: s, ..self }
    }

    /// The form after Enter on a checkbox: the checkbox with the focus
    /// flips, and when it becomes checked the other one is unchecked.
    pub open spec fn toggled(self) -> AddPackageForm {
        match self.selected {
            SelectedInput::Queue => {
                let q = !self.queue_checked;
                AddPackageForm {
                    queue_checked: q,
                    collector_checked: if q { false } else { self.collector_checked },
                    ..self
                }
            },
            SelectedInput::Collector => {
                let c = !self.collector_checked;
                AddPackageForm {
                    collector_checked: c,
                    queue_checked: if c { false } else { self.queue_checked },
                    ..self
                }
            },
            _ => self,
        }
    }

    /// `new` is `self` after the text input that has the focus read a key
    /// press; when a checkbox or the button has the focus, nothing changes.
    pub open spec fn typed(self, new: AddPackageForm, edit: Edit) -> bool {
        &&& new.selected == self.selected
        &&& new.queue_checked == self.queue_checked
        &&& new.collector_checked == self.collector_checked
        &&& match self.selected {
            SelectedInput::Name => text_lines(new.name) == text_after_key(self.name, edit)
                && new.links == self.links && new.password == self.password,
            SelectedInput::Links => text_lines(new.links) == text_after_key(self.links, edit)
                && new.name == self.name && new.password == self.password,
            SelectedInput::Password => text_lines(new.password) == text_after_key(
                self.password,
                edit,
            ) && new.name == self.name && new.links == self.links,
            _ => new == self,
        }
    }

    /// `new` is `self` after a text was pasted into the text input that has
    /// the focus; when a checkbox or the button has the focus, nothing
    /// changes.
    pub open spec fn pasted(self, new: AddPackageForm, text: Seq<char>) -> bool {
        &&& new.selected == self.selected
        &&& new.queue_checked == self.queue_checked
        &&& new.collector_checked == self.collector_checked
        &&& match self.selected {
            SelectedInput::Name => text_lines(new.name) == text_after_paste(self.name, text)
                && new.links == self.links && new.password == self.password,
            SelectedInput::Links => text_lines(new.links) == text_after_paste(self.links, text)
                && new.name == self.name && new.password == self.password,
            SelectedInput::Password => text_lines(new.password) == text_after_paste(
                self.password,
                text,
            ) && new.name == self.name && new.links == self.links,
            _ => new == self,
        }
    }

    /// What a key press does to the form (`new`) and what it comes to
    /// (`out`): Esc asks to go back to the previous screen, Tab and
    /// Shift+Tab move the focus, Enter submits on the button and flips a
    /// checkbox, and every other key (Enter among them, on a text input)
    /// goes to the text input that has the focus.
    pub open spec fn key_step(self, press: KeyPress, new: AddPackageForm, out: OutcomeView) -> bool {
        match press.key {
            Key::Esc => new == self && out == OutcomeView::Action(
                Some(ActionView::GoToPreviousScreen),
            ),
            Key::Tab => new == self.focused(self.selected.shifted(1)) && out == OutcomeView::Action(
                None,
            ),
            Key::BackTab => new == self.focused(self.selected.shifted(5)) && out
                == OutcomeView::Action(None),
            Key::Enter => match self.selected {
                SelectedInput::AddPackage => new == self && out == OutcomeView::SubmitPackage(
                    self.submission(),
                ),
                SelectedInput::Name | SelectedInput::Links | SelectedInput::Password => {
                    self.typed(new, press.input) && out == OutcomeView::Action(None)
                },
                _ => new == self.toggled() && out == OutcomeView::Action(None),
            },
            _ => self.typed(new, press.input) && out == OutcomeView::Action(None),
        }
    }

    /// The colour of the border of an input: yellow when it has the focus;
    /// otherwise black for the checkboxes and blue for the text inputs and
    /// the button.
    pub open spec fn border_color_of(self, input: SelectedInput) -> Color {
        if self.selected == input {
            Color::Yellow
        } else if input == SelectedInput::Queue || input == SelectedInput::Collector {
            Color::Black
        } else {
            Color::Blue
        }
    }

    /// The colour of the border of an input, as the form is drawn.
    pub fn border_color(&self, input: SelectedInput) -> (c: Color)
        ensures
            c == self.border_color_of(input),
    {
        if self.selected == input {
            Color::Yellow
        } else if input == SelectedInput::Queue || input == SelectedInput::Collector {
            Color::Black
        } else {
            Color::Blue
        }
    }

    /// The package that the form describes.
    pub fn submit(&self) -> (r: AddPackageRequest)
        ensures
            r@ == self.submission(),
    {
        package_request(
            &self.name.lines(),
            &self.links.lines(),
            &self.password.lines(),
            self.collector_checked,
        )
    }

    /// What the form asks for once the server has answered its submission:
    /// back to the packages when the package was added, nothing otherwise.
    pub fn finish_submit(&self, added: bool) -> (a: Option<AppAction>)
        ensures
            added ==> a matches Some(AppAction::GoToPackages),
            !added ==> a is None,
    {
        if added {
            Some(AppAction::GoToPackages)
        } else {
            None
        }
    }

    /// Handles a key: Esc goes back, Tab and Shift+Tab move the focus,
    /// Enter submits on the button, flips a checkbox, or goes to the text
    /// input, which gets every other key.
    pub fn handle_keys(&mut self, key: KeyPress) -> (out: KeyOutcome)
        ensures
            old(self).key_step(key, *final(self), out@),
    {
        match key.key {
            Key::Esc => KeyOutcome::Action(Some(AppAction::GoToPreviousScreen)),
            Key::Tab => {
                self.selected = self.selected.next();
                KeyOutcome::Action(None)
            },
            Key::BackTab => {
                self.selected = self.selected.prev();
                KeyOutcome::Action(None)
            },
            Key::Enter => match self.selected {
                SelectedInput::AddPackage => KeyOutcome::SubmitPackage(self.submit()),
                SelectedInput::Name | SelectedInput::Links | SelectedInput::Password => {
                    self.handle_text_input(key.input);
                    KeyOutcome::Action(None)
                },
                _ => {
                    self.handle_checkbox_toggle();
                    KeyOutcome::Action(None)
                },
            },
            _ => {
                self.handle_text_input(key.input);
                KeyOutcome::Action(None)
            },
        }
    }

    /// Pastes text into the text input that has the focus, if any.
    pub fn handle_paste(&mut self, content: &str)
        ensures
            old(self).pasted(*final(self), content@),
    {
        match self.selected {
            SelectedInput::Name => {
                self.name.insert_str(content);
            },
            SelectedInput::Links => {
                self.links.insert_str(content);
            },
            SelectedInput::Password => {
                self.password.insert_str(content);
            },
            _ => {},
        }
    }

    /// Hands a key press to the text input that has the focus, if any.
    pub fn handle_text_input(&mut self, input: Edit)
        ensures
            old(self).typed(*final(self), input),
    {
        match self.selected {
            SelectedInput::Name => {
                self.name.input(input);
            },
            SelectedInput::Links => {
                self.links.input(input);
            },
            SelectedInput::Password => {
                self.password.input(input);
            },
            _ => {},
        }
    }

    /// Flips the checkbox that has the focus, if any; checking one unchecks
    /// the other.
    pub fn handle_checkbox_toggle(&mut self)
        ensures
            *final(self) == old(self).toggled(),
    {
        match self.selected {
            SelectedInput::Queue => {
                self.queue_checked = !self.queue_checked;
                if self.queue_checked {
                    self.collector_checked = false;
                }
            },
            SelectedInput::Collector => {
                self.collector_checked = !self.collector_checked;
                if self.collector_checked {
                    self.queue_checked = false;
                }
            },
            _ => {},
        }
    }
}

impl Default for AddPackageForm {
    fn default() -> (f: AddPackageForm)
        ensures
            f.is_fresh(),
    {
        AddPackageForm {
            name: TextInput::new(),
            links: TextInput::new(),
            password: TextInput::new(),
            selected: SelectedInput::Name,
            queue_checked: false,
            collector_checked: true,
        }
    }
}

impl AddPackageForm {
    /// A form as it opens: empty inputs, focus on the name, the collector
    /// checked.
    pub open spec fn is_fresh(self) -> bool {
        &&& text_lines(self.name) == seq![Seq::<char>::empty()]
        &&& text_lines(self.links) == seq![Seq::<char>::empty()]
        &&& text_lines(self.password) == seq![Seq::<char>::empty()]
        &&& self.selected == SelectedInput::Name
        &&& !self.queue_checked
        &&& self.collector_checked
    }
}

} // verus!
