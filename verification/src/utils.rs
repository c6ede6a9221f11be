//! The parts of the server requests and of the configuration that are
//! decisions of this client: how the package list is put together, which
//! password is sent, and how the configuration file is read.
use vstd::prelude::*;
use crate::model::{FileData, PackageData};
use crate::search::{first_match, lemma_first_match_at};

verus! {

/// The configuration file written when there is none.
pub const DEFAULT_CONFIG: &'static str = "pyload-url \"http://localhost:8000/\"\n// api-key YOUR_API_KEY_HERE";

/// The server address used when the configuration gives none.
pub const DEFAULT_URL: &'static str = "http://localhost:8000/";

/// The packages as listed: those of the queue, then those of the collector.
pub fn merge_packages(queue: Vec<PackageData>, collector: Vec<PackageData>) -> (all: Vec<PackageData>)
    ensures
        all@ == queue@ + collector@,
{
    let mut all = queue;
    let mut rest = collector;
    all.append(&mut rest);
    all
}

/// The files of a package, or an error when the server sent none.
pub fn files_of(package: PackageData) -> (r: Result<Vec<FileData>, String>)
    ensures
        match package.links {
            Some(fs) => r == Ok::<Vec<FileData>, String>(fs),
            None => r matches Err(e) && e@ == "No files found"@,
        },
{
    match package.links {
        Some(fs) => Ok(fs),
        None => Err(String::from_str("No files found")),
    }
}

/// The password to set on a new package: the one given, unless it is
/// empty.
pub fn password_to_set(password: Option<String>) -> (r: Option<String>)
    ensures
        match password {
            Some(p) => if p@.len() == 0 { r is None } else { r == Some(p) },
            None => r is None,
        },
{
    match password {
        Some(p) => if p.unicode_len() == 0 {
            None
        } else {
            Some(p)
        },
        None => None,
    }
}

/// The first entry of a configuration node.
#[derive(Debug)]
pub enum FirstEntry {
    /// The node has no entry.
    Missing,
    /// The first entry is not a string.
    NotText,
    /// The first entry is this string.
    Text(String),
}

/// A node of the configuration document: its name and its first entry.
#[derive(Debug)]
pub struct ConfigNode {
    pub name: String,
    pub first: FirstEntry,
}

/// A node as plain values: its name, and its first entry (none; not a
/// string; this string).
pub open spec fn node_view(n: ConfigNode) -> (Seq<char>, Option<Option<Seq<char>>>) {
    (
        n.name@,
        match n.first {
            FirstEntry::Missing => None,
            FirstEntry::NotText => Some(None),
            FirstEntry::Text(s) => Some(Some(s@)),
        },
    )
}

/// The nodes of the KDL document that a text holds, each as its name and
/// its first entry, in order; `None` when the text is not a KDL document.
pub uninterp spec fn kdl_nodes(text: Seq<char>) -> Option<Seq<(Seq<char>, Option<Option<Seq<char>>>)>>;

/// Parses a text as a KDL document (`KdlDocument::parse`, through
/// `FromStr`) and hands out its top-level nodes (`KdlDocument::nodes`),
/// each converted to its name (`KdlNode::name`) and its first entry
/// (`KdlNode::entries`, `KdlEntry::value`, `KdlValue::as_string`).
#[verifier::external_body]
pub(crate) fn parse_config_nodes(text: &str) -> (r: Option<Vec<ConfigNode>>)
    ensures
        match r {
            Some(nodes) => kdl_nodes(text@) == Some(nodes@.map_values(|n: ConfigNode| node_view(n))),
            None => kdl_nodes(text@) is None,
        },
{
    let doc: kdl::KdlDocument = text.parse().ok()?;
    Some(doc.nodes().iter().map(|n| ConfigNode {
        name: n.name().value().to_string(),
        first: match n.entries().first() {
            None => FirstEntry::Missing,
            Some(e) => match e.value().as_string() {
                None => FirstEntry::NotText,
                Some(s) => FirstEntry::Text(s.to_string()),
            },
        },
    }).collect())
}

/// Whether a node has the given name.
pub open spec fn named(name: Seq<char>) -> spec_fn((Seq<char>, Option<Option<Seq<char>>>)) -> bool {
    |n: (Seq<char>, Option<Option<Seq<char>>>)| n.0 == name
}

/// The string that the first node with the given name starts with, if it
/// starts with a string.
pub open spec fn setting(nodes: Seq<(Seq<char>, Option<Option<Seq<char>>>)>, name: Seq<char>) -> Option<Seq<char>> {
    let i = first_match(nodes, named(name));
    if i < 0 {
        None
    } else {
        match nodes[i].1 {
            Some(Some(s)) => Some(s),
            _ => None,
        }
    }
}

/// `s` without the slashes at its end.
pub open spec fn without_trailing_slashes(s: Seq<char>) -> Seq<char>
    decreases s.len(),
{
    if s.len() > 0 && s.last() == '/' {
        without_trailing_slashes(s.drop_last())
    } else {
        s
    }
}

/// How the client reaches the server.
#[derive(Debug)]
pub struct Settings {
    /// The server's address, without a trailing slash.
    pub api_url: String,
    pub api_key: String,
}

/// Why a configuration cannot be used.
#[derive(Debug, PartialEq, Eq, Structural)]
pub enum ConfigError {
    /// The file is not a KDL document.
    NotKdl,
    /// The file gives no API key.
    MissingApiKey,
}

/// The settings that the nodes of a configuration give: the server address
/// of the `pyload-url` node (by default the local server's) without trailing
/// slashes, and the API key of the `api-key` node, which is required.
pub open spec fn settings_in(nodes: Seq<(Seq<char>, Option<Option<Seq<char>>>)>) -> Result<(Seq<char>, Seq<char>), ConfigError> {
    let url = match setting(nodes, "pyload-url"@) {
        Some(u) => u,
        None => DEFAULT_URL@,
    };
    match setting(nodes, "api-key"@) {
        Some(k) => Ok((without_trailing_slashes(url), k)),
        None => Err(ConfigError::MissingApiKey),
    }
}

/// The settings that a configuration text gives (see `settings_in`), or
/// an error when it is not a KDL document.
pub open spec fn settings_of(text: Seq<char>) -> Result<(Seq<char>, Seq<char>), ConfigError> {
    match kdl_nodes(text) {
        None => Err(ConfigError::NotKdl),
        Some(nodes) => settings_in(nodes),
    }
}

fn find_setting(nodes: &Vec<ConfigNode>, name: &str) -> (r: Option<String>)
    ensures
        ({
            let v = nodes@.map_values(|n: ConfigNode| node_view(n));
            match r {
                Some(s) => setting(v, name@) == Some(s@),
                None => setting(v, name@) is None,
            }
        }),
{
    let ghost v = nodes@.map_values(|n: ConfigNode| node_view(n));
    let target = String::from_str(name);
    let n = nodes.len();
    let mut i: usize = 0;
    while i < n && nodes[i].name != target
        invariant
            n == nodes@.len(),
            i <= n,
            v == nodes@.map_values(|n: ConfigNode| node_view(n)),
            target@ == name@,
            forall|j: int| 0 <= j < i ==> !named(name@)(#[trigger] v[j]),
        decreases n - i,
    {
        i = i + 1;
    }
    proof {
        lemma_first_match_at(v, named(name@), i as int);
    }
    if i == n {
        return None;
    }
    match &nodes[i].first {
        FirstEntry::Text(s) => Some(s.clone()),
        _ => None,
    }
}

fn strip_trailing_slashes(s: &str) -> (r: String)
    ensures
        r@ == without_trailing_slashes(s@),
{
    let mut end = s.unicode_len();
    assert(s@.take(end as int) =~= s@);
    while end > 0 && s.get_char(end - 1) == '/'
        invariant
            end <= s@.len(),
            without_trailing_slashes(s@) == without_trailing_slashes(s@.take(end as int)),
        decreases end,
    {
        assert(s@.take(end as int).drop_last() =~= s@.take(end - 1));
        end = end - 1;
    }
    String::from_str(s.substring_char(0, end))
}

/// Reads the settings from the text of the configuration file.
pub fn settings_from(text: &str) -> (r: Result<Settings, ConfigError>)
    ensures
        match r {
            Ok(st) => settings_of(text@) == Ok::<(Seq<char>, Seq<char>), ConfigError>(
                (st.api_url@, st.api_key@),
            ),
            Err(e) => settings_of(text@) == Err::<(Seq<char>, Seq<char>), ConfigError>(e),
        },
{
    match parse_config_nodes(text) {
        Some(nodes) => settings_from_nodes(&nodes),
        None => Err(ConfigError::NotKdl),
    }
}

/// Reads the settings from the nodes of the configuration document.
pub fn settings_from_nodes(nodes: &Vec<ConfigNode>) -> (r: Result<Settings, ConfigError>)
    ensures
        match r {
            Ok(st) => settings_in(nodes@.map_values(|n: ConfigNode| node_view(n))) == Ok::<
                (Seq<char>, Seq<char>),
                ConfigError,
            >((st.api_url@, st.api_key@)),
            Err(e) => settings_in(nodes@.map_values(|n: ConfigNode| node_view(n))) == Err::<
                (Seq<char>, Seq<char>),
                ConfigError,
            >(e),
        },
{
    let url = match find_setting(nodes, "pyload-url") {
        Some(u) => u,
        None => String::from_str(DEFAULT_URL),
    };
    let api_url = strip_trailing_slashes(url.as_str());
    match find_setting(nodes, "api-key") {
        Some(api_key) => Ok(Settings { api_url, api_key }),
        None => Err(ConfigError::MissingApiKey),
    }
}

} // verus!
