//! What the application does on the events that the server reports. An
//! event may need data fetched from the server, sometimes twice in a row:
//! `App::begin_event` says what to fetch first, and `App::resume_event`
//! takes what was fetched and says what to fetch next, until nothing is
//! left to fetch.
use vstd::prelude::*;
use crate::app::App;
use crate::files_screen::{has_fid, FilesScreen};
use crate::model::{DownloadInfo, EventInfo, FileData, PackageData};
use crate::packages_screen::{has_pid, insert_position, PackagesScreen};
use crate::screens::Screen;
use crate::search::first_match;
use crate::table_state::TableState;

verus! {

/// The kinds of event names.
#[derive(Clone, Copy, Debug, PartialEq, Eq, Structural)]
pub enum EventKind {
    Update,
    Remove,
    Insert,
    Reload,
    Other,
}

/// The kind of an event name.
pub open spec fn kind_of(name: Seq<char>) -> EventKind {
    if name == "update"@ {
        EventKind::Update
    } else if name == "remove"@ {
        EventKind::Remove
    } else if name == "insert"@ {
        EventKind::Insert
    } else if name == "reload"@ {
        EventKind::Reload
    } else {
        EventKind::Other
    }
}

/// The kind of an event's name.
pub fn event_kind(name: &String) -> (k: EventKind)
    ensures
        k == kind_of(name@),
{
    if *name == String::from_str("update") {
        EventKind::Update
    } else if *name == String::from_str("remove") {
        EventKind::Remove
    } else if *name == String::from_str("insert") {
        EventKind::Insert
    } else if *name == String::from_str("reload") {
        EventKind::Reload
    } else {
        EventKind::Other
    }
}

/// What an event waits for from the server, and what it will do with it.
#[derive(Clone, Copy, Debug, PartialEq, Eq, Structural)]
pub enum Pending {
    /// The data of package `pid`, to replace it in the packages.
    UpdatePackage(i32),
    /// The files of package `pid`, to replace them in its files screen.
    RefreshFiles(i32),
    /// The data of file `fid`, to replace it in the files.
    UpdateFile(i32),
    /// The running downloads, for the files screen.
    RefreshDownloads,
    /// The data of a new package `pid`, to insert it in the packages.
    InsertPackage(i32),
    /// The data of a new file `fid`, to learn its package.
    InsertFile(i32),
    /// The files of a package, to replace the files and select file `fid`
    /// (the first id), which the package (the second id) now holds.
    InsertFileList(i32, i32),
    /// All the packages, to replace them.
    Reload,
}

/// What the server answered to a fetch.
#[derive(Debug)]
pub enum Reply {
    Package(PackageData),
    File(FileData),
    Files(Vec<FileData>),
    Downloads(Vec<DownloadInfo>),
    Packages(Vec<PackageData>),
    /// The fetch failed.
    Failed,
}

impl App {
    /// The packages screen that events act on: the one shown, else the
    /// previous one.
    pub open spec fn packages_target(self) -> Option<PackagesScreen> {
        match self.current_screen {
            Screen::Packages(s) => Some(s),
            _ => match self.previous_screen {
                Some(Screen::Packages(s)) => Some(s),
                _ => None,
            },
        }
    }

    /// The files screen that events act on: the one shown, else the
    /// previous one.
    pub open spec fn files_target(self) -> Option<FilesScreen> {
        match self.current_screen {
            Screen::Files(s) => Some(s),
            _ => match self.previous_screen {
                Some(Screen::Files(s)) => Some(s),
                _ => None,
            },
        }
    }

    /// `new` is `self` with the packages and table state of its target
    /// packages screen replaced.
    pub open spec fn packages_replaced(self, new: App, ps: Seq<PackageData>, ts: TableState) -> bool {
        &&& self.same_rest(new)
        &&& if self.current_screen is Packages {
            &&& new.current_screen matches Screen::Packages(n) && n.packages@ == ps && n.table_state
                == ts
            &&& new.previous_screen == self.previous_screen
        } else {
            &&& new.previous_screen matches Some(Screen::Packages(n)) && n.packages@ == ps
                && n.table_state == ts
            &&& new.current_screen == self.current_screen
        }
    }

    /// `new` is `self` with the files, downloads and table state of its
    /// target files screen replaced.
    pub open spec fn files_replaced(
        self,
        new: App,
        fs: Seq<FileData>,
        d: Vec<DownloadInfo>,
        ts: TableState,
    ) -> bool {
        let t = self.files_target().unwrap();
        let same = |n: FilesScreen|
            n.package_id == t.package_id && n.package_name == t.package_name && n.files@ == fs
                && n.downloads_info == d && n.table_state == ts;
        &&& self.same_rest(new)
        &&& if self.current_screen is Files {
            &&& new.current_screen matches Screen::Files(n) && same(n)
            &&& new.previous_screen == self.previous_screen
        } else {
            &&& new.previous_screen matches Some(Screen::Files(n)) && same(n)
            &&& new.current_screen == self.current_screen
        }
    }

    /// What an event does first (`new`), and what it then waits for.
    pub open spec fn event_begun(self, ev: EventInfo, new: App, p: Option<Pending>) -> bool {
        let pk = self.packages_target();
        let fl = self.files_target();
        match (kind_of(ev.eventname@), ev.event_type, ev.id) {
            (EventKind::Update, Some(0), Some(pid)) => new == self && p == if pk is Some {
                Some(Pending::UpdatePackage(pid))
            } else {
                None
            },
            (EventKind::Update, Some(1), Some(fid)) => new == self && p == if fl is Some {
                Some(Pending::UpdateFile(fid))
            } else {
                None
            },
            (EventKind::Remove, Some(0), Some(pid)) => p is None && match pk {
                Some(s) => {
                    let i = first_match(s.packages@, has_pid(pid));
                    if i < 0 {
                        new == self
                    } else {
                        self.packages_replaced(new, s.packages@.remove(i), s.table_state)
                    }
                },
                None => new == self,
            },
            (EventKind::Remove, Some(1), Some(fid)) => p is None && match fl {
                Some(s) => {
                    let i = first_match(s.files@, has_fid(fid));
                    if i < 0 {
                        new == self
                    } else {
                        self.files_replaced(new, s.files@.remove(i), s.downloads_info, s.table_state)
                    }
                },
                None => new == self,
            },
            (EventKind::Insert, Some(0), Some(pid)) => new == self && p == if pk is Some {
                Some(Pending::InsertPackage(pid))
            } else {
                None
            },
            (EventKind::Insert, Some(1), Some(fid)) => new == self && p == if fl is Some {
                Some(Pending::InsertFile(fid))
            } else {
                None
            },
            (EventKind::Reload, _, _) => new == self && p == if pk is Some {
                Some(Pending::Reload)
            } else {
                None
            },
            _ => new == self && p is None,
        }
    }

    /// What a fetched reply does (`new`), and what the event then waits for.
    pub open spec fn event_resumed(self, pending: Pending, reply: Reply, new: App, next: Option<Pending>) -> bool {
        let pk = self.packages_target();
        let fl = self.files_target();
        let unchanged = new == self && next is None;
        match (pending, reply) {
            (Pending::UpdatePackage(pid), Reply::Package(pkg)) => match pk {
                Some(s) => {
                    let i = first_match(s.packages@, has_pid(pid));
                    if i < 0 {
                        unchanged
                    } else {
                        &&& self.packages_replaced(new, s.packages@.update(i, pkg), s.table_state)
                        &&& next == if s.packages@[i].linkstotal != pkg.linkstotal && (fl matches Some(
                            f,
                        ) && f.package_id == pid) {
                            Some(Pending::RefreshFiles(pid))
                        } else {
                            None
                        }
                    }
                },
                None => unchanged,
            },
            (Pending::RefreshFiles(pid), Reply::Files(fs)) => match fl {
                Some(f) => if f.package_id == pid {
                    self.files_replaced(new, fs@, f.downloads_info, f.table_state) && next is None
                } else {
                    unchanged
                },
                None => unchanged,
            },
            (Pending::UpdateFile(fid), Reply::File(file)) => match fl {
                Some(f) => {
                    let i = first_match(f.files@, has_fid(fid));
                    if file.package_id != f.package_id || i < 0 {
                        unchanged
                    } else {
                        &&& self.files_replaced(new, f.files@.update(i, file), f.downloads_info, f.table_state)
                        &&& next == Some(Pending::RefreshDownloads)
                    }
                },
                None => unchanged,
            },
            (Pending::RefreshDownloads, Reply::Downloads(d)) => match fl {
                Some(f) => self.files_replaced(new, f.files@, d, f.table_state) && next is None,
                None => unchanged,
            },
            (Pending::InsertPackage(_), Reply::Package(pkg)) => match pk {
                Some(s) => {
                    let i = insert_position(s.packages@, pkg);
                    &&& self.packages_replaced(
                        new,
                        s.packages@.insert(i, pkg),
                        TableState { selected: Some(i as usize), ..s.table_state },
                    )
                    &&& next is None
                },
                None => unchanged,
            },
            (Pending::InsertFile(fid), Reply::File(file)) => match fl {
                Some(f) => if file.package_id != f.package_id {
                    unchanged
                } else {
                    new == self && next == Some(Pending::InsertFileList(fid, file.package_id))
                },
                None => unchanged,
            },
            (Pending::InsertFileList(fid, _), Reply::Files(fs)) => match fl {
                Some(f) => {
                    let i = first_match(fs@, has_fid(fid));
                    &&& self.files_replaced(
                        new,
                        fs@,
                        f.downloads_info,
                        if i < 0 {
                            f.table_state
                        } else {
                            TableState { selected: Some(i as usize), ..f.table_state }
                        },
                    )
                    &&& next is None
                },
                None => unchanged,
            },
            (Pending::Reload, Reply::Packages(ps)) => match pk {
                Some(s) => self.packages_replaced(
                    new,
                    ps@,
                    TableState { selected: Some(0), ..s.table_state },
                ) && next is None,
                None => unchanged,
            },
            _ => unchanged,
        }
    }

    fn has_packages_target(&self) -> (b: bool)
        ensures
            b == self.packages_target() is Some,
    {
        match &self.current_screen {
            Screen::Packages(_) => true,
            _ => match &self.previous_screen {
                Some(Screen::Packages(_)) => true,
                _ => false,
            },
        }
    }

    fn has_files_target(&self) -> (b: bool)
        ensures
            b == self.files_target() is Some,
    {
        match &self.current_screen {
            Screen::Files(_) => true,
            _ => match &self.previous_screen {
                Some(Screen::Files(_)) => true,
                _ => false,
            },
        }
    }

    fn files_target_package(&self) -> (r: Option<i32>)
        ensures
            match self.files_target() {
                Some(f) => r == Some(f.package_id),
                None => r is None,
            },
    {
        match &self.current_screen {
            Screen::Files(s) => Some(s.package_id),
            _ => match &self.previous_screen {
                Some(Screen::Files(s)) => Some(s.package_id),
                _ => None,
            },
        }
    }

    /// Starts handling a server event: removals are done at once; for the
    /// rest, returns what to fetch.
    pub fn begin_event(&mut self, event: &EventInfo) -> (p: Option<Pending>)
        ensures
            old(self).event_begun(*event, *final(self), p),
    {
        let kind = event_kind(&event.eventname);
        match (kind, event.event_type, event.id) {
            (EventKind::Update, Some(0), Some(pid)) => {
                if self.has_packages_target() {
                    Some(Pending::UpdatePackage(pid))
                } else {
                    None
                }
            },
            (EventKind::Update, Some(1), Some(fid)) => {
                if self.has_files_target() {
                    Some(Pending::UpdateFile(fid))
                } else {
                    None
                }
            },
            (EventKind::Remove, Some(0), Some(pid)) => {
                match &mut self.current_screen {
                    Screen::Packages(s) => s.remove_package(pid),
                    _ => match &mut self.previous_screen {
                        Some(Screen::Packages(s)) => s.remove_package(pid),
                        _ => {},
                    },
                }
                None
            },
            (EventKind::Remove, Some(1), Some(fid)) => {
                match &mut self.current_screen {
                    Screen::Files(s) => s.remove_file(fid),
                    _ => match &mut self.previous_screen {
                        Some(Screen::Files(s)) => s.remove_file(fid),
                        _ => {},
                    },
                }
                None
            },
            (EventKind::Insert, Some(0), Some(pid)) => {
                if self.has_packages_target() {
                    Some(Pending::InsertPackage(pid))
                } else {
                    None
                }
            },
            (EventKind::Insert, Some(1), Some(fid)) => {
                if self.has_files_target() {
                    Some(Pending::InsertFile(fid))
                } else {
                    None
                }
            },
            (EventKind::Reload, _, _) => {
                if self.has_packages_target() {
                    Some(Pending::Reload)
                } else {
                    None
                }
            },
            _ => None,
        }
    }

    /// Goes on with a server event once the data it waited for was fetched
    /// (or failed to be); returns what to fetch next, if anything.
    pub fn resume_event(&mut self, pending: Pending, reply: Reply) -> (next: Option<Pending>)
        ensures
            old(self).event_resumed(pending, reply, *final(self), next),
    {
        match (pending, reply) {
            (Pending::UpdatePackage(pid), Reply::Package(package)) => {
                let changed = match &mut self.current_screen {
                    Screen::Packages(s) => s.replace_package(pid, package),
                    _ => match &mut self.previous_screen {
                        Some(Screen::Packages(s)) => s.replace_package(pid, package),
                        _ => None,
                    },
                };
                match changed {
                    Some(true) => {
                        if self.files_target_package() == Some(pid) {
                            Some(Pending::RefreshFiles(pid))
                        } else {
                            None
                        }
                    },
                    _ => None,
                }
            },
            (Pending::RefreshFiles(pid), Reply::Files(files)) => {
                if self.files_target_package() == Some(pid) {
                    match &mut self.current_screen {
                        Screen::Files(s) => s.files = files,
                        _ => match &mut self.previous_screen {
                            Some(Screen::Files(s)) => s.files = files,
                            _ => {},
                        },
                    }
                }
                None
            },
            (Pending::UpdateFile(fid), Reply::File(file)) => {
                let done = match &mut self.current_screen {
                    Screen::Files(s) => s.replace_file(fid, file),
                    _ => match &mut self.previous_screen {
                        Some(Screen::Files(s)) => s.replace_file(fid, file),
                        _ => false,
                    },
                };
                if done {
                    Some(Pending::RefreshDownloads)
                } else {
                    None
                }
            },
            (Pending::RefreshDownloads, Reply::Downloads(downloads)) => {
                match &mut self.current_screen {
                    Screen::Files(s) => s.downloads_info = downloads,
                    _ => match &mut self.previous_screen {
                        Some(Screen::Files(s)) => s.downloads_info = downloads,
                        _ => {},
                    },
                }
                None
            },
            (Pending::InsertPackage(_), Reply::Package(package)) => {
                match &mut self.current_screen {
                    Screen::Packages(s) => s.insert_package(package),
                    _ => match &mut self.previous_screen {
                        Some(Screen::Packages(s)) => s.insert_package(package),
                        _ => {},
                    },
                }
                None
            },
            (Pending::InsertFile(fid), Reply::File(file)) => {
                match self.files_target_package() {
                    Some(package_id) => if package_id == file.package_id {
                        Some(Pending::InsertFileList(fid, file.package_id))
                    } else {
                        None
                    },
                    None => None,
                }
            },
            (Pending::InsertFileList(fid, _), Reply::Files(files)) => {
                match &mut self.current_screen {
                    Screen::Files(s) => s.reload_selecting(files, fid),
                    _ => match &mut self.previous_screen {
                        Some(Screen::Files(s)) => s.reload_selecting(files, fid),
                        _ => {},
                    },
                }
                None
            },
            (Pending::Reload, Reply::Packages(packages)) => {
                match &mut self.current_screen {
                    Screen::Packages(s) => s.reload(packages),
                    _ => match &mut self.previous_screen {
                        Some(Screen::Packages(s)) => s.reload(packages),
                        _ => {},
                    },
                }
                None
            },
            _ => None,
        }
    }
}

} // verus!
