//! Requests to the download server that the interface decides to send, and
//! what a key press comes to once a screen has handled it.
use vstd::prelude::*;
use crate::app_action::{action_view, ActionView, AppAction};
use crate::model::Destination;
use crate::text::texts;

verus! {

/// A new package to add: its name, its links, its password if one was
/// given, and where it goes.
#[derive(Debug)]
pub struct AddPackageRequest {
    pub name: String,
    pub links: Vec<String>,
    pub password: Option<String>,
    pub dest: Destination,
}

/// A package to add, with its texts as sequences.
pub struct PackageRequestView {
    pub name: Seq<char>,
    pub links: Seq<Seq<char>>,
    pub password: Option<Seq<char>>,
    pub dest: Destination,
}

impl View for AddPackageRequest {
    type V = PackageRequestView;

    open spec fn view(&self) -> PackageRequestView {
        PackageRequestView {
            name: self.name@,
            links: texts(self.links@),
            password: match self.password {
                Some(p) => Some(p@),
                None => None,
            },
            dest: self.dest,
        }
    }
}

/// What a screen makes of a key press.
#[derive(Debug)]
pub enum KeyOutcome {
    /// The key asks for an action, or for nothing.
    Action(Option<AppAction>),
    /// The package form is submitted with this package.
    SubmitPackage(AddPackageRequest),
    /// These links are to be added to the package with this id.
    SubmitLinks(i32, Vec<String>),
}

/// What a key press comes to, with texts as sequences.
pub enum OutcomeView {
    Action(Option<ActionView>),
    SubmitPackage(PackageRequestView),
    SubmitLinks(i32, Seq<Seq<char>>),
}

impl View for KeyOutcome {
    type V = OutcomeView;

    open spec fn view(&self) -> OutcomeView {
        match self {
            KeyOutcome::Action(a) => OutcomeView::Action(action_view(*a)),
            KeyOutcome::SubmitPackage(r) => OutcomeView::SubmitPackage(r@),
            KeyOutcome::SubmitLinks(pid, links) => OutcomeView::SubmitLinks(*pid, texts(links@)),
        }
    }
}

/// A request that the server is sent, whose answer the interface does not
/// wait for.
#[derive(Debug)]
pub enum ApiCall {
    RemovePackages(Vec<i32>),
    RemoveFiles(Vec<i32>),
    StopDownloads(Vec<i32>),
    RestartFile(i32),
    RestartPackage(i32),
    RestartFailed,
    StopAllDownloads,
    PauseServer,
    UnpauseServer,
    TogglePause,
    /// Move a package to a position in its destination.
    OrderPackage(i32, i32),
    /// Move a file to a position in its package.
    OrderFile(i32, i32),
    MovePackage(Destination, i32),
}

/// A request to the server, with its id lists as sequences.
pub enum CallView {
    RemovePackages(Seq<i32>),
    RemoveFiles(Seq<i32>),
    StopDownloads(Seq<i32>),
    RestartFile(i32),
    RestartPackage(i32),
    RestartFailed,
    StopAllDownloads,
    PauseServer,
    UnpauseServer,
    TogglePause,
    OrderPackage(i32, i32),
    OrderFile(i32, i32),
    MovePackage(Destination, i32),
}

impl View for ApiCall {
    type V = CallView;

    open spec fn view(&self) -> CallView {
        match self {
            ApiCall::RemovePackages(ids) => CallView::RemovePackages(ids@),
            ApiCall::RemoveFiles(ids) => CallView::RemoveFiles(ids@),
            ApiCall::StopDownloads(ids) => CallView::StopDownloads(ids@),
            ApiCall::RestartFile(fid) => CallView::RestartFile(*fid),
            ApiCall::RestartPackage(pid) => CallView::RestartPackage(*pid),
            ApiCall::RestartFailed => CallView::RestartFailed,
            ApiCall::StopAllDownloads => CallView::StopAllDownloads,
            ApiCall::PauseServer => CallView::PauseServer,
            ApiCall::UnpauseServer => CallView::UnpauseServer,
            ApiCall::TogglePause => CallView::TogglePause,
            ApiCall::OrderPackage(pid, pos) => CallView::OrderPackage(*pid, *pos),
            ApiCall::OrderFile(fid, pos) => CallView::OrderFile(*fid, *pos),
            ApiCall::MovePackage(d, pid) => CallView::MovePackage(*d, *pid),
        }
    }
}

} // verus!
