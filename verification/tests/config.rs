use pyload_tui::model::{Destination, FileData, PackageData};
use pyload_tui::utils::{settings_from_nodes, ConfigNode, FirstEntry};
use pyload_tui::utils::{files_of, merge_packages, password_to_set, settings_from, ConfigError, DEFAULT_CONFIG};

fn package(pid: i32) -> PackageData {
    PackageData {
        pid,
        name: String::new(),
        folder: String::new(),
        dest: Destination::Queue,
        order: 0,
        linksdone: None,
        linkstotal: None,
        sizedone: None,
        sizetotal: None,
        links: None,
    }
}

#[test]
fn settings_read() {
    let s = settings_from("pyload-url \"http://host:9000///\"\napi-key \"abc\"").unwrap();
    assert_eq!(s.api_url, "http://host:9000");
    assert_eq!(s.api_key, "abc");
}

#[test]
fn settings_default_url() {
    let s = settings_from("api-key \"k\"").unwrap();
    assert_eq!(s.api_url, "http://localhost:8000");
    let t = settings_from("pyload-url 5\napi-key \"k\"").unwrap();
    assert_eq!(t.api_url, "http://localhost:8000");
}

#[test]
fn settings_errors() {
    assert_eq!(settings_from(DEFAULT_CONFIG).unwrap_err(), ConfigError::MissingApiKey);
    assert_eq!(settings_from("api-key \"unterminated").unwrap_err(), ConfigError::NotKdl);
    assert_eq!(settings_from("api-key").unwrap_err(), ConfigError::MissingApiKey);
}

#[test]
fn first_node_wins() {
    let s = settings_from("api-key \"one\"\napi-key \"two\"").unwrap();
    assert_eq!(s.api_key, "one");
}

#[test]
fn merge_lists_queue_first() {
    let all = merge_packages(vec![package(1), package(2)], vec![package(3)]);
    assert_eq!(all.iter().map(|p| p.pid).collect::<Vec<_>>(), vec![1, 2, 3]);
}

#[test]
fn files_of_package() {
    assert_eq!(files_of(package(1)).unwrap_err(), "No files found");
    let mut p = package(1);
    p.links = Some(vec![FileData {
        fid: 4,
        name: String::new(),
        package_id: 1,
        order: 0,
        format_size: String::new(),
        status: String::new(),
        plugin: String::new(),
        error: String::new(),
    }]);
    assert_eq!(files_of(p).unwrap().len(), 1);
}

#[test]
fn password_only_when_given() {
    assert_eq!(password_to_set(None), None);
    assert_eq!(password_to_set(Some(String::new())), None);
    assert_eq!(password_to_set(Some("pw".to_string())), Some("pw".to_string()));
}

#[test]
fn settings_from_given_nodes() {
    let nodes = vec![
        ConfigNode { name: "pyload-url".to_string(), first: FirstEntry::Text("https://h/".to_string()) },
        ConfigNode { name: "api-key".to_string(), first: FirstEntry::NotText },
        ConfigNode { name: "api-key".to_string(), first: FirstEntry::Text("later".to_string()) },
    ];
    assert_eq!(settings_from_nodes(&nodes).unwrap_err(), ConfigError::MissingApiKey);
    let nodes2 = vec![
        ConfigNode { name: "api-key".to_string(), first: FirstEntry::Text("k".to_string()) },
        ConfigNode { name: "pyload-url".to_string(), first: FirstEntry::Missing },
    ];
    let s = settings_from_nodes(&nodes2).unwrap();
    assert_eq!(s.api_url, "http://localhost:8000");
    assert_eq!(s.api_key, "k");
}
