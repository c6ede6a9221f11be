//! What a screen asks the application to do in answer to a key.
use vstd::prelude::*;
use crate::model::Destination;

verus! {

/// An action that a screen, or the global key map, asks for.
#[derive(Debug)]
pub enum AppAction {
    Quit,
    GoToPackages,
    GoToDownloads,
    GoToFiles(i32, String),
    GoToPreviousScreen,
    OpenAddPackageForm,
    OpenAppendFilesForm(i32, String),
    DeletePackages(Vec<i32>),
    DeleteFiles(Vec<i32>),
    StopDownloads(Vec<i32>),
    RestartFile(i32),
    RestartPackage(i32),
    RestartFailed,
    AbortActive,
    AbortAndPause,
    PauseServer,
    UnpauseServer,
    TogglePause,
    ReorderPackage(i32, i32),
    ReorderFile(i32, i32),
    MovePackage(Destination, i32),
}

/// An action, with its texts and id lists as sequences.
pub enum ActionView {
    Quit,
    GoToPackages,
    GoToDownloads,
    GoToFiles(i32, Seq<char>),
    GoToPreviousScreen,
    OpenAddPackageForm,
    OpenAppendFilesForm(i32, Seq<char>),
    DeletePackages(Seq<i32>),
    DeleteFiles(Seq<i32>),
    StopDownloads(Seq<i32>),
    RestartFile(i32),
    RestartPackage(i32),
    RestartFailed,
    AbortActive,
    AbortAndPause,
    PauseServer,
    UnpauseServer,
    TogglePause,
    ReorderPackage(i32, i32),
    ReorderFile(i32, i32),
    MovePackage(Destination, i32),
}

impl View for AppAction {
    type V = ActionView;

    open spec fn view(&self) -> ActionView {
        match self {
            AppAction::Quit => ActionView::Quit,
            AppAction::GoToPackages => ActionView::GoToPackages,
            AppAction::GoToDownloads => ActionView::GoToDownloads,
            AppAction::GoToFiles(pid, name) => ActionView::GoToFiles(*pid, name@),
            AppAction::GoToPreviousScreen => ActionView::GoToPreviousScreen,
            AppAction::OpenAddPackageForm => ActionView::OpenAddPackageForm,
            AppAction::OpenAppendFilesForm(pid, name) => ActionView::OpenAppendFilesForm(*pid, name@),
            AppAction::DeletePackages(ids) => ActionView::DeletePackages(ids@),
            AppAction::DeleteFiles(ids) => ActionView::DeleteFiles(ids@),
            AppAction::StopDownloads(ids) => ActionView::StopDownloads(ids@),
            AppAction::RestartFile(fid) => ActionView::RestartFile(*fid),
            AppAction::RestartPackage(pid) => ActionView::RestartPackage(*pid),
            AppAction::RestartFailed => ActionView::RestartFailed,
            AppAction::AbortActive => ActionView::AbortActive,
            AppAction::AbortAndPause => ActionView::AbortAndPause,
            AppAction::PauseServer => ActionView::PauseServer,
            AppAction::UnpauseServer => ActionView::UnpauseServer,
            AppAction::TogglePause => ActionView::TogglePause,
            AppAction::ReorderPackage(pid, pos) => ActionView::ReorderPackage(*pid, *pos),
            AppAction::ReorderFile(fid, pos) => ActionView::ReorderFile(*fid, *pos),
            AppAction::MovePackage(dest, pid) => ActionView::MovePackage(*dest, *pid),
        }
    }
}

/// The view of an optional action.
pub open spec fn action_view(a: Option<AppAction>) -> Option<ActionView> {
    match a {
        Some(a) => Some(a@),
        None => None,
    }
}

/// A list of one id.
pub fn single(id: i32) -> (v: Vec<i32>)
    ensures
        v@ == seq![id],
{
    let mut v = Vec::new();
    v.push(id);
    assert(v@ =~= seq![id]);
    v
}

} // verus!
