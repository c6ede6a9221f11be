//! Multi-line text inputs, edited by the `ratatui_textarea` crate, and the
//! key presses that the interface receives.
use vstd::prelude::*;
use ratatui_textarea::{Input, Key as AreaKey, TextArea};
use crate::text::texts;

verus! {

/// A key as `ratatui_textarea` names it (`ratatui_textarea::Key`).
#[verifier::external_type_specification]
#[verifier::external_body]
pub struct ExAreaKey(AreaKey);

/// The keys that move the cursor of a text input.
#[derive(Clone, Copy, Debug, PartialEq, Eq, Structural)]
pub enum NavKey {
    Left,
    Right,
    Up,
    Down,
    Home,
    End,
    PageUp,
    PageDown,
}

/// The other named keys that a text input reads; `Null` is a key that it
/// ignores.
#[derive(Clone, Copy, Debug, PartialEq, Eq, Structural)]
pub enum ActionKey {
    Backspace,
    Enter,
    Tab,
    Delete,
    Esc,
    Null,
}

/// A key as a text input reads it.
#[derive(Clone, Copy, Debug, PartialEq, Eq, Structural)]
pub enum EditKey {
    Char(char),
    F(u8),
    Nav(NavKey),
    Action(ActionKey),
}

/// A key press as a text input reads it: the key and the modifiers held.
#[derive(Clone, Copy, Debug, PartialEq, Eq, Structural)]
pub struct Edit {
    pub key: EditKey,
    pub ctrl: bool,
    pub alt: bool,
    pub shift: bool,
}

/// The `ratatui_textarea::Key` of a cursor key.
#[verifier::external_body]
fn nav_area_key(k: NavKey) -> AreaKey {
    match k {
        NavKey::Left => AreaKey::Left,
        NavKey::Right => AreaKey::Right,
        NavKey::Up => AreaKey::Up,
        NavKey::Down => AreaKey::Down,
        NavKey::Home => AreaKey::Home,
        NavKey::End => AreaKey::End,
        NavKey::PageUp => AreaKey::PageUp,
        NavKey::PageDown => AreaKey::PageDown,
    }
}

/// The `ratatui_textarea::Key` of another named key.
#[verifier::external_body]
fn action_area_key(k: ActionKey) -> AreaKey {
    match k {
        ActionKey::Backspace => AreaKey::Backspace,
        ActionKey::Enter => AreaKey::Enter,
        ActionKey::Tab => AreaKey::Tab,
        ActionKey::Delete => AreaKey::Delete,
        ActionKey::Esc => AreaKey::Esc,
        ActionKey::Null => AreaKey::Null,
    }
}

/// A multi-line text input. The text area itself, its text, cursor and
/// history, is kept and edited by `ratatui_textarea`, and read and changed
/// only through the methods below; the interface draws it from its lines
/// and its cursor.
#[verifier::external_body]
#[derive(Debug)]
pub struct TextInput {
    area: TextArea<'static>,
}

/// The lines of text that a text input holds.
pub uninterp spec fn text_lines(input: TextInput) -> Seq<Seq<char>>;

/// Where the cursor of a text input stands: its row and its column, counted
/// in characters.
pub uninterp spec fn text_cursor(input: TextInput) -> (usize, usize);

/// Whether a selection is under way in a text input (it was started with a
/// shifted move and not yet ended).
pub uninterp spec fn text_selecting(input: TextInput) -> bool;

/// The lines of text that a text input holds after it reads a key press,
/// by its own key map, from where its cursor and selection stand.
pub uninterp spec fn text_after_key(input: TextInput, edit: Edit) -> Seq<Seq<char>>;

/// The lines of text that a text input holds after a text is pasted into
/// it, in place of its selection and at its cursor.
pub uninterp spec fn text_after_paste(input: TextInput, text: Seq<char>) -> Seq<Seq<char>>;

impl TextInput {
    /// A new, empty text input (`TextArea::default`): it holds one empty line.
    #[verifier::external_body]
    pub(crate) fn new() -> (t: TextInput)
        ensures
            text_lines(t) == seq![Seq::<char>::empty()],
    {
        TextInput { area: TextArea::default() }
    }

    /// The lines of the text (`TextArea::lines`), copied.
    #[verifier::external_body]
    pub(crate) fn lines(&self) -> (lines: Vec<String>)
        ensures
            lines@.map_values(|l: String| l@) == text_lines(*self),
    {
        self.area.lines().to_vec()
    }

    /// Feeds a key press to the text area (`TextArea::input`), which edits
    /// its text or moves its cursor by its own key map. The text after is
    /// named, as a function of the text input before (with its cursor and
    /// selection) and of the key press; what that function is, is not stated.
    #[verifier::external_body]
    pub(crate) fn input(&mut self, edit: Edit)
        ensures
            text_lines(*final(self)) == text_after_key(*old(self), edit),
    {
        let key = match edit.key {
            EditKey::Char(c) => AreaKey::Char(c),
            EditKey::F(n) => AreaKey::F(n),
            EditKey::Nav(k) => nav_area_key(k),
            EditKey::Action(k) => action_area_key(k),
        };
        self.area.input(Input { key, ctrl: edit.ctrl, alt: edit.alt, shift: edit.shift });
    }

    /// Inserts pasted text (`TextArea::insert_str`), in place of the
    /// selection and at the cursor. The text after is named, as a function
    /// of the text input before and of the pasted text; what that function
    /// is, is not stated.
    #[verifier::external_body]
    pub(crate) fn insert_str(&mut self, text: &str)
        ensures
            text_lines(*final(self)) == text_after_paste(*old(self), text@),
    {
        self.area.insert_str(text);
    }

    /// Where the cursor stands (`TextArea::cursor`), as a row and a column
    /// counted in characters: the text area's cursor field, named
    /// `text_cursor`; where it stands is not stated.
    #[verifier::external_body]
    pub(crate) fn area_cursor(&self) -> (c: (usize, usize))
        ensures
            c == text_cursor(*self),
    {
        let c = self.area.cursor();
        (c.0, c.1)
    }

    /// Ends the selection, if one is under way (`TextArea::cancel_selection`):
    /// the text and the cursor stay as they are.
    #[verifier::external_body]
    pub(crate) fn cancel_selection(&mut self)
        ensures
            text_lines(*final(self)) == text_lines(*old(self)),
            text_cursor(*final(self)) == text_cursor(*old(self)),
            !text_selecting(*final(self)),
    {
        self.area.cancel_selection();
    }

    /// Deletes all the text (`TextArea::clear`); one empty line is left. This
    /// holds only when no selection is under way: `clear` moves the cursor to
    /// the start with the selection kept and deletes only the selection, so
    /// it is not called then.
    #[verifier::external_body]
    pub(crate) fn clear(&mut self)
        requires
            !text_selecting(*old(self)),
        ensures
            text_lines(*final(self)) == seq![Seq::<char>::empty()],
    {
        self.area.clear();
    }
}

impl TextInput {
    /// The lines of text that the input holds.
    pub fn text(&self) -> (lines: Vec<String>)
        ensures
            texts(lines@) == text_lines(*self),
    {
        self.lines()
    }

    /// Where the cursor stands, as a row and a column counted in
    /// characters, for drawing the input.
    pub fn cursor(&self) -> (c: (usize, usize))
        ensures
            c == text_cursor(*self),
    {
        self.area_cursor()
    }
}

/// Height in rows of the box that shows a text input with `line_count`
/// lines: at least three lines of text, plus the two borders.
pub fn input_height(line_count: usize) -> (h: u16)
    requires
        line_count as u16 <= 65533,
    ensures
        h == (if line_count as u16 > 3 { line_count as u16 } else { 3 }) + 2,
{
    let n = line_count as u16;
    let lines = if n > 3 {
        n
    } else {
        3
    };
    lines + 2
}

/// The keys that the interface tells apart.
#[derive(Clone, Copy, Debug, PartialEq, Eq, Structural)]
pub enum Key {
    Char(char),
    Esc,
    Tab,
    BackTab,
    Enter,
    Other,
}

/// A key press: the key, and the same press as a text input reads it.
#[derive(Clone, Copy, Debug)]
pub struct KeyPress {
    pub key: Key,
    pub input: Edit,
}

} // verus!
