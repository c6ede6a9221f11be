//! The server's data as the interface reads it: packages, files, downloads,
//! the server status and the events that the server reports.
use vstd::prelude::*;

verus! {

/// Where a package stands on the server: the collector holds packages that
/// are not to be downloaded yet, the queue those that are.
#[derive(Clone, Copy, Debug, PartialEq, Eq, Structural)]
pub enum Destination {
    Collector,
    Queue,
}

impl Destination {
    /// The number by which the server orders destinations.
    pub open spec fn rank(self) -> int {
        match self {
            Destination::Collector => 0,
            Destination::Queue => 1,
        }
    }

    /// Whether `self` comes before `other` in the server's numbering.
    pub fn is_below(&self, other: &Destination) -> (b: bool)
        ensures
            b == (self.rank() < other.rank()),
    {
        match (self, other) {
            (Destination::Collector, Destination::Queue) => true,
            _ => false,
        }
    }

    /// The other destination.
    pub fn other(&self) -> (d: Destination)
        ensures
            d != *self,
    {
        match self {
            Destination::Collector => Destination::Queue,
            Destination::Queue => Destination::Collector,
        }
    }
}

/// A file (a download link) of a package.
#[derive(Clone, Debug)]
pub struct FileData {
    pub fid: i32,
    pub name: String,
    pub package_id: i32,
    pub order: i32,
    pub format_size: String,
    /// The name of the file's download status.
    pub status: String,
    pub plugin: String,
    pub error: String,
}

/// A package: a container of download links.
#[derive(Clone, Debug)]
pub struct PackageData {
    pub pid: i32,
    pub name: String,
    pub folder: String,
    pub dest: Destination,
    pub order: i32,
    pub linksdone: Option<i32>,
    pub linkstotal: Option<i32>,
    pub sizedone: Option<i64>,
    pub sizetotal: Option<i64>,
    /// The package's files, where the server sent them.
    pub links: Option<Vec<FileData>>,
}

/// A running download.
#[derive(Clone, Debug)]
pub struct DownloadInfo {
    pub fid: i32,
    pub name: String,
    pub statusmsg: String,
    pub plugin: String,
    pub info: String,
    pub format_size: String,
    pub percent: i32,
}

/// The state of the download server.
#[derive(Clone, Copy, Debug, PartialEq, Eq, Structural)]
pub struct ServerStatus {
    pub pause: bool,
    pub active: i32,
    pub queue: i32,
    pub total: i32,
    pub speed: i64,
    pub download: bool,
    pub reconnect: bool,
    pub captcha: bool,
}

/// An event that the server reports: something was inserted, updated or
/// removed, or everything is to be reloaded.
#[derive(Clone, Debug)]
pub struct EventInfo {
    pub eventname: String,
    /// 0 for a package, 1 for a file.
    pub event_type: Option<i32>,
    /// The id of the package or file.
    pub id: Option<i32>,
}

} // verus!
