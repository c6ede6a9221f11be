//! The application state: the screen shown, the screen before it, the status
//! bar and whether to quit; and what a key press does to it.
use vstd::prelude::*;
use crate::add_package_form::AddPackageForm;
use crate::app_action::{single, ActionView, AppAction};
use crate::append_files_form::AppendFilesForm;
use crate::downloads_screen::DownloadsScreen;
use crate::files_screen::FilesScreen;
use crate::model::{DownloadInfo, FileData, PackageData, ServerStatus};
use crate::packages_screen::PackagesScreen;
use crate::requests::{AddPackageRequest, ApiCall, CallView, KeyOutcome, OutcomeView, PackageRequestView};
use crate::screens::{same_kind, Screen};
use crate::status_bar::StatusBar;
use crate::table_state::TableState;
use crate::text::texts;
use crate::text_input::{text_lines, Key, KeyPress};

verus! {

/// The interface's state.
#[derive(Debug)]
pub struct App {
    pub current_screen: Screen,
    pub previous_screen: Option<Screen>,
    pub status_bar: StatusBar,
    pub quit: bool,
}

/// What the application has to do outside once a key press is handled.
#[derive(Debug)]
pub enum Effect {
    /// Nothing more.
    Nothing,
    /// Send a request to the server.
    Call(ApiCall),
    /// Fetch the files of a package and the running downloads, then open the
    /// package's files screen with them (`App::open_files`).
    OpenFiles(i32, String),
    /// Fetch the server status, then send the requests that
    /// `abort_and_pause_calls` gives for it.
    AbortAndPause,
    /// Add this package, then tell the form how it went
    /// (`App::package_submitted`).
    SubmitPackage(AddPackageRequest),
    /// Add these links to the package, then tell the form how it went
    /// (`App::links_submitted`).
    SubmitLinks(i32, Vec<String>),
}

/// An effect, with texts and lists as sequences.
pub enum EffectView {
    Nothing,
    Call(CallView),
    OpenFiles(i32, Seq<char>),
    AbortAndPause,
    SubmitPackage(PackageRequestView),
    SubmitLinks(i32, Seq<Seq<char>>),
}

impl View for Effect {
    type V = EffectView;

    open spec fn view(&self) -> EffectView {
        match self {
            Effect::Nothing => EffectView::Nothing,
            Effect::Call(c) => EffectView::Call(c@),
            Effect::OpenFiles(pid, name) => EffectView::OpenFiles(*pid, name@),
            Effect::AbortAndPause => EffectView::AbortAndPause,
            Effect::SubmitPackage(r) => EffectView::SubmitPackage(r@),
            Effect::SubmitLinks(pid, links) => EffectView::SubmitLinks(*pid, texts(links@)),
        }
    }
}

/// The action of the keys that every screen shares, for a key that the
/// screen shown left alone. 'q' quits everywhere but in the package form.
pub open spec fn global_action(screen: Screen, key: Key) -> Option<ActionView> {
    match key {
        Key::Char('q') => if screen is AddPackageForm {
            None
        } else {
            Some(ActionView::Quit)
        },
        Key::Char('A') => Some(ActionView::OpenAddPackageForm),
        Key::Char('R') => Some(ActionView::RestartFailed),
        Key::Char('S') => Some(ActionView::AbortActive),
        Key::Char('X') => Some(ActionView::AbortAndPause),
        Key::Char('P') => Some(ActionView::PauseServer),
        Key::Char('U') => Some(ActionView::UnpauseServer),
        Key::Char('T') => Some(ActionView::TogglePause),
        Key::Char('D') => Some(ActionView::GoToDownloads),
        _ => None,
    }
}

/// Position of a package in its destination: negative positions count as
/// the first one.
pub open spec fn order_position(position: i32) -> i32 {
    if position < 0 {
        0
    } else {
        position
    }
}

/// A packages screen as a newly opened one: no packages, nothing selected.
pub open spec fn is_blank_packages(s: Screen) -> bool {
    match s {
        Screen::Packages(p) => p.packages@.len() == 0 && p.table_state == (TableState {
            selected: None,
            offset: 0,
        }),
        _ => false,
    }
}

/// A downloads screen as a newly opened one.
pub open spec fn is_blank_downloads(s: Screen) -> bool {
    match s {
        Screen::Downloads(d) => d.downloads_info@.len() == 0 && d.table_state == (TableState {
            selected: None,
            offset: 0,
        }),
        _ => false,
    }
}

impl App {
    /// `new` differs from `self` only in its current and previous screens.
    pub open spec fn same_rest(self, new: App) -> bool {
        new.status_bar == self.status_bar && new.quit == self.quit
    }

    /// `new` shows the previous screen of `self`, and has its current one as
    /// previous.
    pub open spec fn swapped(self, new: App) -> bool {
        &&& self.previous_screen is Some
        &&& new.current_screen == self.previous_screen.unwrap()
        &&& new.previous_screen == Some(self.current_screen)
        &&& self.same_rest(new)
    }

    /// `new` has the current screen of `self` as previous (what it shows is
    /// said by the caller).
    pub open spec fn pushed(self, new: App) -> bool {
        &&& new.previous_screen == Some(self.current_screen)
        &&& self.same_rest(new)
    }

    /// Going to the package form: nothing when it is shown; back to it when
    /// it is the previous screen; else a new form.
    pub open spec fn went_to_add_package_form(self, new: App) -> bool {
        if self.current_screen is AddPackageForm {
            new == self
        } else if self.previous_screen matches Some(Screen::AddPackageForm(_)) {
            self.swapped(new)
        } else {
            &&& self.pushed(new)
            &&& new.current_screen matches Screen::AddPackageForm(f) && f.is_fresh()
        }
    }

    /// Going to the packages: nothing when they are shown; back to them when
    /// they are the previous screen; else a new, empty packages screen.
    pub open spec fn went_to_packages(self, new: App) -> bool {
        if self.current_screen is Packages {
            new == self
        } else if self.previous_screen matches Some(Screen::Packages(_)) {
            self.swapped(new)
        } else {
            self.pushed(new) && is_blank_packages(new.current_screen)
        }
    }

    /// Going to the downloads, as for the packages.
    pub open spec fn went_to_downloads(self, new: App) -> bool {
        if self.current_screen is Downloads {
            new == self
        } else if self.previous_screen matches Some(Screen::Downloads(_)) {
            self.swapped(new)
        } else {
            self.pushed(new) && is_blank_downloads(new.current_screen)
        }
    }

    /// Opening the form for adding links to a package: nothing when such a
    /// form is shown; else a new form for the package.
    pub open spec fn went_to_append_files_form(self, pid: i32, name: Seq<char>, new: App) -> bool {
        if self.current_screen is AppendFilesForm {
            new == self
        } else {
            &&& self.pushed(new)
            &&& new.current_screen matches Screen::AppendFilesForm(f) && f.package_id == pid
                && f.package_name@ == name && text_lines(f.links) == seq![Seq::<char>::empty()]
                && f.selected == crate::append_files_form::SelectedInput::Links
        }
    }

    /// Going back: the previous screen and the current one trade places,
    /// unless there is no previous screen or it is of the same kind.
    pub open spec fn went_back(self, new: App) -> bool {
        match self.previous_screen {
            Some(prev) => if same_kind(self.current_screen, prev) {
                new == self
            } else {
                self.swapped(new)
            },
            None => new == self,
        }
    }

    /// Whether the files of package `pid` are shown or are the previous
    /// screen.
    pub open spec fn files_in_reach(self, pid: i32) -> bool {
        ||| self.current_screen matches Screen::Files(s) && s.package_id == pid
        ||| self.previous_screen matches Some(Screen::Files(s)) && s.package_id == pid
    }

    /// What an action does to the application (`new`) and what is left to
    /// do outside (`eff`).
    pub open spec fn dispatched(self, action: Option<ActionView>, new: App, eff: EffectView) -> bool {
        match action {
            None => new == self && eff == EffectView::Nothing,
            Some(a) => match a {
                ActionView::Quit => new == App { quit: true, ..self } && eff == EffectView::Nothing,
                ActionView::OpenAddPackageForm => self.went_to_add_package_form(new) && eff
                    == EffectView::Nothing,
                ActionView::OpenAppendFilesForm(pid, name) => self.went_to_append_files_form(
                    pid,
                    name,
                    new,
                ) && eff == EffectView::Nothing,
                ActionView::GoToPackages => self.went_to_packages(new) && eff == EffectView::Nothing,
                ActionView::GoToDownloads => self.went_to_downloads(new) && eff
                    == EffectView::Nothing,
                ActionView::GoToFiles(pid, name) => if self.current_screen matches Screen::Files(s)
                    && s.package_id == pid {
                    new == self && eff == EffectView::Nothing
                } else if self.previous_screen matches Some(Screen::Files(s)) && s.package_id == pid {
                    self.swapped(new) && eff == EffectView::Nothing
                } else {
                    new == self && eff == EffectView::OpenFiles(pid, name)
                },
                ActionView::GoToPreviousScreen => self.went_back(new) && eff == EffectView::Nothing,
                ActionView::DeletePackages(ids) => new == self && eff == if ids.len() == 0 {
                    EffectView::Nothing
                } else {
                    EffectView::Call(CallView::RemovePackages(seq![ids[0]]))
                },
                ActionView::DeleteFiles(ids) => new == self && eff == if ids.len() == 0 {
                    EffectView::Nothing
                } else {
                    EffectView::Call(CallView::RemoveFiles(seq![ids[0]]))
                },
                ActionView::StopDownloads(ids) => new == self && eff == EffectView::Call(
                    CallView::StopDownloads(ids),
                ),
                ActionView::RestartFile(fid) => new == self && eff == EffectView::Call(
                    CallView::RestartFile(fid),
                ),
                ActionView::RestartPackage(pid) => new == self && eff == EffectView::Call(
                    CallView::RestartPackage(pid),
                ),
                ActionView::RestartFailed => new == self && eff == EffectView::Call(
                    CallView::RestartFailed,
                ),
                ActionView::AbortActive => new == self && eff == EffectView::Call(
                    CallView::StopAllDownloads,
                ),
                ActionView::AbortAndPause => new == self && eff == EffectView::AbortAndPause,
                ActionView::PauseServer => new == self && eff == EffectView::Call(
                    CallView::PauseServer,
                ),
                ActionView::UnpauseServer => new == self && eff == EffectView::Call(
                    CallView::UnpauseServer,
                ),
                ActionView::TogglePause => new == self && eff == EffectView::Call(
                    CallView::TogglePause,
                ),
                ActionView::ReorderPackage(pid, pos) => new == self && eff == EffectView::Call(
                    CallView::OrderPackage(pid, order_position(pos)),
                ),
                ActionView::ReorderFile(fid, pos) => new == self && eff == EffectView::Call(
                    CallView::OrderFile(fid, pos),
                ),
                ActionView::MovePackage(dest, pid) => new == self && eff == EffectView::Call(
                    CallView::MovePackage(dest, pid),
                ),
            },
        }
    }

    /// What a screen's outcome for a key does: an action (or, when the
    /// screen asked for nothing, the shared key's action) is dispatched; a
    /// submission is left to do outside.
    pub open spec fn outcome_applied(self, key: Key, out: OutcomeView, new: App, eff: EffectView) -> bool {
        match out {
            OutcomeView::Action(a) => self.dispatched(
                if a is None {
                    global_action(self.current_screen, key)
                } else {
                    a
                },
                new,
                eff,
            ),
            OutcomeView::SubmitPackage(r) => new == self && eff == EffectView::SubmitPackage(r),
            OutcomeView::SubmitLinks(pid, links) => new == self && eff == EffectView::SubmitLinks(
                pid,
                links,
            ),
        }
    }

    /// What a key press does: the screen shown handles it, then its outcome
    /// is applied to the application with the handled screen.
    pub open spec fn key_handled(self, press: KeyPress, new: App, eff: EffectView) -> bool {
        exists|mid: Screen, out: OutcomeView|
            #[trigger] self.current_screen.key_step(press, mid, out) && (App {
                current_screen: mid,
                ..self
            }).outcome_applied(press.key, out, new, eff)
    }

    /// The application at start: the packages fetched (none when the fetch
    /// failed), no previous screen, no status yet.
    pub fn new(fetched: Result<Vec<PackageData>, String>) -> (app: App)
        ensures
            app.current_screen matches Screen::Packages(s) && s.packages@ == match fetched {
                Ok(ps) => ps@,
                Err(_) => Seq::<PackageData>::empty(),
            } && s.table_state == (TableState { selected: Some(0), offset: 0 }),
            app.previous_screen is None,
            app.status_bar.shown() is None,
            !app.quit,
    {
        App {
            current_screen: Screen::Packages(PackagesScreen::new(fetched)),
            previous_screen: None,
            quit: false,
            status_bar: StatusBar::new(),
        }
    }

    /// Shows a newly received server status.
    pub fn update_status(&mut self, server_status: ServerStatus)
        ensures
            final(self).status_bar.shown() == Some(server_status),
            final(self).current_screen == old(self).current_screen,
            final(self).previous_screen == old(self).previous_screen,
            final(self).quit == old(self).quit,
    {
        self.status_bar.refresh(server_status);
    }

    /// Hands pasted text to the screen shown.
    pub fn handle_paste(&mut self, content: &str)
        ensures
            old(self).current_screen.paste_step(final(self).current_screen, content@),
            final(self).previous_screen == old(self).previous_screen,
            old(self).same_rest(*final(self)),
    {
        self.current_screen.handle_paste(content);
    }

    fn swap_with_previous(&mut self)
        requires
            old(self).previous_screen is Some,
        ensures
            old(self).swapped(*final(self)),
    {
        match &mut self.previous_screen {
            Some(prev) => std::mem::swap(&mut self.current_screen, prev),
            None => {},
        }
    }

    fn push_screen(&mut self, screen: Screen)
        ensures
            old(self).pushed(*final(self)),
            final(self).current_screen == screen,
    {
        let mut s = screen;
        std::mem::swap(&mut self.current_screen, &mut s);
        self.previous_screen = Some(s);
    }

    /// Goes back: the previous screen and the one shown trade places, unless
    /// there is no previous screen or it is of the same kind as the one
    /// shown. Going back twice comes back to where one started.
    pub fn go_to_previous_screen(&mut self)
        ensures
            old(self).went_back(*final(self)),
    {
        let back = match &self.previous_screen {
            Some(prev) => !is_same_kind(&self.current_screen, prev),
            None => false,
        };
        if back {
            self.swap_with_previous();
        }
    }

    fn go_to_add_package_form(&mut self)
        ensures
            old(self).went_to_add_package_form(*final(self)),
    {
        if let Screen::AddPackageForm(_) = &self.current_screen {
            return;
        }
        if let Some(Screen::AddPackageForm(_)) = &self.previous_screen {
            self.swap_with_previous();
            return;
        }
        self.push_screen(Screen::AddPackageForm(AddPackageForm::default()));
    }

    fn go_to_packages(&mut self)
        ensures
            old(self).went_to_packages(*final(self)),
    {
        if let Screen::Packages(_) = &self.current_screen {
            return;
        }
        if let Some(Screen::Packages(_)) = &self.previous_screen {
            self.swap_with_previous();
            return;
        }
        self.push_screen(Screen::Packages(PackagesScreen::default()));
    }

    fn go_to_downloads(&mut self)
        ensures
            old(self).went_to_downloads(*final(self)),
    {
        if let Screen::Downloads(_) = &self.current_screen {
            return;
        }
        if let Some(Screen::Downloads(_)) = &self.previous_screen {
            self.swap_with_previous();
            return;
        }
        self.push_screen(Screen::Downloads(DownloadsScreen::default()));
    }

    fn go_to_append_files_form(&mut self, pid: i32, name: String)
        ensures
            old(self).went_to_append_files_form(pid, name@, *final(self)),
    {
        if let Screen::AppendFilesForm(_) = &self.current_screen {
            return;
        }
        self.push_screen(Screen::AppendFilesForm(AppendFilesForm::new(pid, name)));
    }

    /// Goes to the files of a package when they are shown or previous;
    /// returns whether they have to be fetched instead.
    fn go_to_files(&mut self, pid: i32) -> (fetch: bool)
        ensures
            fetch == !old(self).files_in_reach(pid),
            fetch ==> *final(self) == *old(self),
            !fetch ==> ((old(self).current_screen matches Screen::Files(s) && s.package_id == pid)
                ==> *final(self) == *old(self)),
            !fetch ==> (!(old(self).current_screen matches Screen::Files(s) && s.package_id == pid)
                ==> old(self).swapped(*final(self))),
    {
        if let Screen::Files(screen) = &self.current_screen {
            if screen.package_id == pid {
                return false;
            }
        }
        if let Some(Screen::Files(screen)) = &self.previous_screen {
            if screen.package_id == pid {
                self.swap_with_previous();
                return false;
            }
        }
        true
    }

    /// Opens the files screen of a package with its fetched files (none
    /// when the fetch failed) and the running downloads; the screen shown
    /// becomes the previous one.
    pub fn open_files(
        &mut self,
        pid: i32,
        name: String,
        files: Result<Vec<FileData>, String>,
        downloads_info: Vec<DownloadInfo>,
    )
        ensures
            old(self).pushed(*final(self)),
            final(self).current_screen matches Screen::Files(s) && s.package_id == pid
                && s.package_name == name && s.files@ == match files {
                Ok(fs) => fs@,
                Err(_) => Seq::<FileData>::empty(),
            } && s.downloads_info == downloads_info && s.table_state == (TableState {
                selected: Some(0),
                offset: 0,
            }),
    {
        self.push_screen(Screen::Files(FilesScreen::new(pid, name, files, downloads_info)));
    }

    fn dispatch(&mut self, action: Option<AppAction>) -> (eff: Effect)
        ensures
            old(self).dispatched(crate::app_action::action_view(action), *final(self), eff@),
    {
        match action {
            None => Effect::Nothing,
            Some(AppAction::Quit) => {
                self.quit = true;
                Effect::Nothing
            },
            Some(AppAction::OpenAddPackageForm) => {
                self.go_to_add_package_form();
                Effect::Nothing
            },
            Some(AppAction::OpenAppendFilesForm(pid, name)) => {
                self.go_to_append_files_form(pid, name);
                Effect::Nothing
            },
            Some(AppAction::GoToPackages) => {
                self.go_to_packages();
                Effect::Nothing
            },
            Some(AppAction::GoToDownloads) => {
                self.go_to_downloads();
                Effect::Nothing
            },
            Some(AppAction::GoToFiles(pid, name)) => {
                if self.go_to_files(pid) {
                    Effect::OpenFiles(pid, name)
                } else {
                    Effect::Nothing
                }
            },
            Some(AppAction::DeletePackages(packages)) => {
                if packages.len() > 0 {
                    Effect::Call(ApiCall::RemovePackages(single(packages[0])))
                } else {
                    Effect::Nothing
                }
            },
            Some(AppAction::DeleteFiles(files)) => {
                if files.len() > 0 {
                    Effect::Call(ApiCall::RemoveFiles(single(files[0])))
                } else {
                    Effect::Nothing
                }
            },
            Some(AppAction::GoToPreviousScreen) => {
                self.go_to_previous_screen();
                Effect::Nothing
            },
            Some(AppAction::StopDownloads(files)) => Effect::Call(ApiCall::StopDownloads(files)),
            Some(AppAction::RestartFile(file)) => Effect::Call(ApiCall::RestartFile(file)),
            Some(AppAction::RestartPackage(pid)) => Effect::Call(ApiCall::RestartPackage(pid)),
            Some(AppAction::RestartFailed) => Effect::Call(ApiCall::RestartFailed),
            Some(AppAction::AbortActive) => Effect::Call(ApiCall::StopAllDownloads),
            Some(AppAction::AbortAndPause) => Effect::AbortAndPause,
            Some(AppAction::PauseServer) => Effect::Call(ApiCall::PauseServer),
            Some(AppAction::UnpauseServer) => Effect::Call(ApiCall::UnpauseServer),
            Some(AppAction::TogglePause) => Effect::Call(ApiCall::TogglePause),
            Some(AppAction::ReorderPackage(pid, position)) => {
                let position = if position < 0 {
                    0
                } else {
                    position
                };
                Effect::Call(ApiCall::OrderPackage(pid, position))
            },
            Some(AppAction::ReorderFile(fid, position)) => Effect::Call(
                ApiCall::OrderFile(fid, position),
            ),
            Some(AppAction::MovePackage(destination, pid)) => Effect::Call(
                ApiCall::MovePackage(destination, pid),
            ),
        }
    }

    fn global_key(&self, key: Key) -> (a: Option<AppAction>)
        ensures
            crate::app_action::action_view(a) == global_action(self.current_screen, key),
    {
        match key {
            Key::Char('q') => {
                if let Screen::AddPackageForm(_) = &self.current_screen {
                    None
                } else {
                    Some(AppAction::Quit)
                }
            },
            Key::Char('A') => Some(AppAction::OpenAddPackageForm),
            Key::Char('R') => Some(AppAction::RestartFailed),
            Key::Char('S') => Some(AppAction::AbortActive),
            Key::Char('X') => Some(AppAction::AbortAndPause),
            Key::Char('P') => Some(AppAction::PauseServer),
            Key::Char('U') => Some(AppAction::UnpauseServer),
            Key::Char('T') => Some(AppAction::TogglePause),
            Key::Char('D') => Some(AppAction::GoToDownloads),
            _ => None,
        }
    }

    /// Whether the screen shown can handle a key: see the list screens.
    pub fn accepts(&self, key: Key) -> (b: bool)
        ensures
            b == self.current_screen.accepts(key),
    {
        match &self.current_screen {
            Screen::Packages(s) => match key {
                Key::Char('a') | Key::Char('l') => match s.table_state.selected {
                    Some(i) => i < s.packages.len(),
                    None => false,
                },
                Key::Char('d') | Key::Char('r') | Key::Char('m') | Key::Char('J') | Key::Char('K') => {
                    match s.table_state.selected {
                        Some(i) => i < s.packages.len(),
                        None => true,
                    }
                },
                _ => true,
            },
            Screen::Files(s) => match key {
                Key::Char('s') | Key::Char('r') | Key::Char('d') | Key::Char('J') | Key::Char('K') => {
                    match s.table_state.selected {
                        Some(i) => i < s.files.len(),
                        None => true,
                    }
                },
                _ => true,
            },
            _ => true,
        }
    }

    /// The key bindings to show for the screen shown.
    pub fn get_bindings(&self) -> (b: Vec<(&'static str, &'static str)>)
        ensures
            bindings_view(b@) == bindings_of(self.current_screen),
    {
        let mut b: Vec<(&'static str, &'static str)> = Vec::new();
        match &self.current_screen {
            Screen::AddPackageForm(_) => {
                b.push(("Esc", "back"));
                b.push(("Tab", "next"));
                b.push(("Shift+Tab", "prev"));
                b.push(("Enter", "newline/toggle/submit"));
            },
            Screen::AppendFilesForm(_) => {
                b.push(("Esc", "back"));
                b.push(("Tab", "next"));
                b.push(("Shift+Tab", "prev"));
                b.push(("Enter", "newline/submit"));
            },
            _ => {
                let back = match &self.current_screen {
                    Screen::Files(_) | Screen::Downloads(_) => true,
                    _ => false,
                };
                if back {
                    b.push(("h", "go back"));
                }
                b.push(("j", "next item"));
                b.push(("k", "prev item"));
                b.push(("l", "enter"));
                b.push(("q", "quit"));
                b.push(("A", "add package"));
                b.push(("a", "add links"));
                b.push(("d", "delete"));
            },
        }
        assert(bindings_view(b@) =~= bindings_of(self.current_screen));
        b
    }

    /// Tells the package form how its submission went: when the package was
    /// added, the packages screen comes (back).
    pub fn package_submitted(&mut self, added: bool) -> (eff: Effect)
        ensures
            (added && old(self).current_screen is AddPackageForm) ==> old(self).went_to_packages(
                *final(self),
            ),
            !(added && old(self).current_screen is AddPackageForm) ==> *final(self) == *old(self),
            eff is Nothing,
    {
        let action = match &self.current_screen {
            Screen::AddPackageForm(f) => f.finish_submit(added),
            _ => None,
        };
        self.dispatch(action)
    }

    /// Tells the links form how its submission went: when the links were
    /// added, the form is emptied (same package, links focused) and the
    /// previous screen comes back.
    pub fn links_submitted(&mut self, added: bool) -> (eff: Effect)
        ensures
            (added && old(self).current_screen is AppendFilesForm) ==> {
                let cleared = match (old(self).current_screen, final(self).current_screen, final(self).previous_screen) {
                    (Screen::AppendFilesForm(f), Screen::AppendFilesForm(g), _) => f.emptied(g),
                    (Screen::AppendFilesForm(f), _, Some(Screen::AppendFilesForm(g))) => f.emptied(g),
                    _ => false,
                };
                &&& cleared
                &&& (old(self).previous_screen is Some && !(old(self).previous_screen
                    matches Some(Screen::AppendFilesForm(_))) ==> final(self).current_screen
                    == old(self).previous_screen.unwrap())
                &&& old(self).same_rest(*final(self))
            },
            !(added && old(self).current_screen is AppendFilesForm) ==> *final(self) == *old(self),
            eff is Nothing,
    {
        let action = match &mut self.current_screen {
            Screen::AppendFilesForm(f) => f.finish_submit(added),
            _ => None,
        };
        self.dispatch(action)
    }

    /// Handles a key press: the screen shown handles it first; when it asks
    /// for nothing, the keys that every screen shares apply. Returns what is
    /// left to do outside.
    pub fn handle_key(&mut self, key: KeyPress) -> (eff: Effect)
        requires
            old(self).current_screen.accepts(key.key),
        ensures
            old(self).key_handled(key, *final(self), eff@),
    {
        let k = key.key;
        let ghost old_app = *self;
        let outcome = self.current_screen.handle_keys(key);
        let ghost mid = self.current_screen;
        let ghost out = outcome@;
        let ghost mid_app = *self;
        assert(mid_app == (App { current_screen: mid, ..old_app }));
        let eff = match outcome {
            KeyOutcome::Action(action) => {
                let action = if action.is_none() {
                    self.global_key(k)
                } else {
                    action
                };
                self.dispatch(action)
            },
            KeyOutcome::SubmitPackage(request) => Effect::SubmitPackage(request),
            KeyOutcome::SubmitLinks(pid, links) => Effect::SubmitLinks(pid, links),
        };
        assert(old_app.current_screen.key_step(key, mid, out));
        assert(mid_app.outcome_applied(k, out, *self, eff@));
        eff
    }
}

/// The key bindings shown for a screen.
pub open spec fn bindings_of(screen: Screen) -> Seq<(Seq<char>, Seq<char>)> {
    match screen {
        Screen::AddPackageForm(_) => seq![
            ("Esc"@, "back"@),
            ("Tab"@, "next"@),
            ("Shift+Tab"@, "prev"@),
            ("Enter"@, "newline/toggle/submit"@),
        ],
        Screen::AppendFilesForm(_) => seq![
            ("Esc"@, "back"@),
            ("Tab"@, "next"@),
            ("Shift+Tab"@, "prev"@),
            ("Enter"@, "newline/submit"@),
        ],
        _ => {
            let common = seq![
                ("j"@, "next item"@),
                ("k"@, "prev item"@),
                ("l"@, "enter"@),
                ("q"@, "quit"@),
                ("A"@, "add package"@),
                ("a"@, "add links"@),
                ("d"@, "delete"@),
            ];
            if screen is Files || screen is Downloads {
                seq![("h"@, "go back"@)] + common
            } else {
                common
            }
        },
    }
}

/// The text of key bindings.
pub open spec fn bindings_view(b: Seq<(&'static str, &'static str)>) -> Seq<(Seq<char>, Seq<char>)> {
    b.map_values(|p: (&'static str, &'static str)| (p.0@, p.1@))
}

/// The requests that abort and pause, or restart and unpause, given the
/// server status fetched: when the queue is paused, restart the failed
/// (aborted) files and unpause; otherwise pause and stop all downloads, which
/// leaves the aborted files as they are until the next press. Nothing when
/// the status could not be fetched.
pub fn abort_and_pause_calls(status: Option<ServerStatus>) -> (calls: Vec<ApiCall>)
    ensures
        calls@.map_values(|c: ApiCall| c@) == match status {
            Some(st) => if st.pause {
                seq![CallView::RestartFailed, CallView::UnpauseServer]
            } else {
                seq![CallView::PauseServer, CallView::StopAllDownloads]
            },
            None => Seq::<CallView>::empty(),
        },
{
    let mut calls: Vec<ApiCall> = Vec::new();
    if let Some(st) = status {
        if st.pause {
            calls.push(ApiCall::RestartFailed);
            calls.push(ApiCall::UnpauseServer);
        } else {
            calls.push(ApiCall::PauseServer);
            calls.push(ApiCall::StopAllDownloads);
        }
    }
    assert(calls@.map_values(|c: ApiCall| c@) =~= match status {
        Some(st) => if st.pause {
            seq![CallView::RestartFailed, CallView::UnpauseServer]
        } else {
            seq![CallView::PauseServer, CallView::StopAllDownloads]
        },
        None => Seq::<CallView>::empty(),
    });
    calls
}

impl Default for App {
    /// The application on an empty packages screen.
    fn default() -> (app: App)
        ensures
            is_blank_packages(app.current_screen),
            app.previous_screen is None,
            app.status_bar.shown() is None,
            !app.quit,
    {
        App {
            current_screen: Screen::Packages(PackagesScreen::default()),
            previous_screen: None,
            quit: false,
            status_bar: StatusBar::new(),
        }
    }
}

fn is_same_kind(a: &Screen, b: &Screen) -> (r: bool)
    ensures
        r == same_kind(*a, *b),
{
    match (a, b) {
        (Screen::Packages(_), Screen::Packages(_)) => true,
        (Screen::Files(_), Screen::Files(_)) => true,
        (Screen::Downloads(_), Screen::Downloads(_)) => true,
        (Screen::AddPackageForm(_), Screen::AddPackageForm(_)) => true,
        (Screen::AppendFilesForm(_), Screen::AppendFilesForm(_)) => true,
        _ => false,
    }
}

} // verus!
