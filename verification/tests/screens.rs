use pyload_tui::add_package_form::{AddPackageForm, SelectedInput as PackageInput};
use pyload_tui::add_package_form::add_package_form::package_request;
use pyload_tui::app_action::AppAction;
use pyload_tui::append_files_form::{AppendFilesForm, SelectedInput as LinksInput};
use pyload_tui::downloads_screen::{DownloadsScreen, DownloadsTable};
use pyload_tui::files_screen::FilesScreen;
use pyload_tui::key_hints::{part_color, HintPart, KeyHints};
use pyload_tui::palette::Color;
use pyload_tui::model::{Destination, DownloadInfo, FileData, PackageData, ServerStatus};
use pyload_tui::packages_screen::PackagesScreen;
use pyload_tui::requests::KeyOutcome;
use pyload_tui::status_bar::{StatusBar, StatusTable};
use pyload_tui::table::{FilesTable, PackagesTable};
use pyload_tui::table_state::TableState;
use pyload_tui::text::{join_lines, link_list, trim_text};
use pyload_tui::text_input::{ActionKey, Edit, EditKey, Key, KeyPress, NavKey};

fn press(key: Key) -> KeyPress {
    let edit_key = match key {
        Key::Char(c) => EditKey::Char(c),
        Key::Enter => EditKey::Action(ActionKey::Enter),
        Key::Tab => EditKey::Action(ActionKey::Tab),
        Key::BackTab => EditKey::Action(ActionKey::Tab),
        Key::Esc => EditKey::Action(ActionKey::Esc),
        Key::Other => EditKey::Action(ActionKey::Null),
    };
    let shift = matches!(key, Key::BackTab);
    KeyPress { key, input: Edit { key: edit_key, ctrl: false, alt: false, shift } }
}

fn package(pid: i32, name: &str, dest: Destination, order: i32) -> PackageData {
    PackageData {
        pid,
        name: name.to_string(),
        folder: format!("{}-folder", name),
        dest,
        order,
        linksdone: Some(1),
        linkstotal: Some(3),
        sizedone: Some(1536),
        sizetotal: Some(3 * 1024 * 1024),
        links: None,
    }
}

fn file(fid: i32, package_id: i32, order: i32) -> FileData {
    FileData {
        fid,
        name: format!("file{}", fid),
        package_id,
        order,
        format_size: "1.0 MiB".to_string(),
        status: "Queued".to_string(),
        plugin: "BasePlugin".to_string(),
        error: String::new(),
    }
}

#[test]
fn package_form_focus_cycles() {
    let mut s = PackageInput::Name;
    let mut seen = vec![];
    for _ in 0..6 {
        seen.push(s);
        s = s.next();
    }
    assert_eq!(s, PackageInput::Name);
    assert_eq!(seen, vec![
        PackageInput::Name,
        PackageInput::Links,
        PackageInput::Password,
        PackageInput::Queue,
        PackageInput::Collector,
        PackageInput::AddPackage,
    ]);
    assert_eq!(PackageInput::Name.prev(), PackageInput::AddPackage);
    assert_eq!(PackageInput::Queue.next().prev(), PackageInput::Queue);
    assert_eq!(PackageInput::default(), PackageInput::Name);
}

#[test]
fn links_form_focus_toggles() {
    assert_eq!(LinksInput::Links.next(), LinksInput::AddLinks);
    assert_eq!(LinksInput::AddLinks.next(), LinksInput::Links);
    assert_eq!(LinksInput::Links.prev(), LinksInput::AddLinks);
    assert_eq!(LinksInput::default(), LinksInput::Links);
}

#[test]
fn table_selection_moves() {
    let mut t = TableState::new();
    t.select_next();
    assert_eq!(t.selected(), Some(0));
    t.select_next();
    t.select_previous();
    assert_eq!(t.selected(), Some(0));
    t.select_previous();
    assert_eq!(t.selected(), Some(0));
    let mut u = TableState::new();
    u.select_previous();
    assert_eq!(u.selected(), Some(usize::MAX));
    let mut w = TableState { selected: Some(4), offset: 3 };
    w.select(None);
    assert_eq!(w, TableState { selected: None, offset: 0 });
    w.select_first();
    assert_eq!(w.selected, Some(0));
}

#[test]
fn packages_table_cells() {
    let mut p = package(7, "Movies", Destination::Queue, 0);
    let mut q = package(8, "Music", Destination::Collector, 0);
    q.linksdone = None;
    q.sizetotal = None;
    p.sizedone = Some(0);
    let t = PackagesTable::from_packages(&vec![p, q]);
    assert_eq!(t.rows.len(), 2);
    assert_eq!(t.rows[0], vec!["7", "Movies", "1/3", "0 B / 3.00 MB", "Movies-folder"]);
    assert_eq!(t.rows[1], vec!["8", "Music", "0/0", "0 B / 0 B", "Music-folder"]);
}

#[test]
fn files_table_cells() {
    let t = FilesTable::from_files(&vec![file(3, 1, 0)]);
    assert_eq!(t.rows, vec![vec!["3", "file3", "1.0 MiB", "Queued", "BasePlugin", ""]]);
}

#[test]
fn downloads_table_cells() {
    let d = DownloadInfo {
        fid: 1,
        name: "a.zip".to_string(),
        statusmsg: "downloading".to_string(),
        plugin: "Http".to_string(),
        info: "".to_string(),
        format_size: "2 MiB".to_string(),
        percent: 42,
    };
    let t = DownloadsTable::from_downloads(&vec![d]);
    assert_eq!(t.rows, vec![vec!["downloading", "a.zip", "Http", "", "2 MiB", "42"]]);
}

fn status(pause: bool, active: i32, speed: i64) -> ServerStatus {
    ServerStatus { pause, active, queue: 2, total: 5, speed, download: true, reconnect: false, captcha: false }
}

#[test]
fn status_table_rows() {
    let t = StatusTable::from_status(status(true, 0, 2048));
    assert_eq!(t.colors, vec![Color::Yellow, Color::Magenta, Color::Blue]);
    assert_eq!(t.rows, vec![vec!["QUEUE:", "PAUSED"], vec!["ACTIVE:", "0"], vec!["SPEED:", "―"]]);
    let u = StatusTable::from_status(status(false, 2, 2048));
    assert_eq!(u.colors, vec![Color::Green, Color::Magenta, Color::Blue]);
    assert_eq!(u.rows, vec![vec!["QUEUE:", "UNPAUSED"], vec!["ACTIVE:", "2"], vec!["SPEED:", "2.0 KB/s"]]);
}

#[test]
fn status_bar_keeps_last_status() {
    let mut bar = StatusBar::new();
    assert_eq!(bar.server_status(), None);
    bar.refresh(status(false, 1, 10));
    bar.refresh(status(false, 1, 10));
    assert_eq!(bar.server_status(), Some(status(false, 1, 10)));
    bar.refresh(status(true, 0, 0));
    assert_eq!(bar.server_status(), Some(status(true, 0, 0)));
    assert_eq!(StatusBar::default().server_status(), None);
}

#[test]
fn key_hints_five_per_line() {
    let bindings: Vec<(&str, &str)> = (0..12).map(|_| ("k", "act")).collect();
    let hints = KeyHints::new(&bindings);
    let lines = hints.lines();
    assert_eq!(lines.iter().map(|l| l.len()).collect::<Vec<_>>(), vec![5, 5, 2]);
    let pieces = KeyHints::line_pieces(&vec![("j", "next item")]);
    assert_eq!(pieces, vec![
        (HintPart::Plain, "["),
        (HintPart::Key, "j"),
        (HintPart::Plain, "] "),
        (HintPart::Action, "next item"),
        (HintPart::Plain, "  "),
    ]);
    assert_eq!(KeyHints::new(&[]).lines().len(), 0);
}

#[test]
fn text_helpers() {
    assert_eq!(trim_text("  a b \t\n"), "a b");
    assert_eq!(trim_text("\u{3000}x\u{a0}"), "x");
    assert_eq!(trim_text("   "), "");
    let lines = vec!["  http://a ".to_string(), "".to_string(), "   ".to_string(), "http://b".to_string()];
    assert_eq!(link_list(&lines), vec!["http://a", "http://b"]);
    assert_eq!(join_lines(&vec!["x".to_string(), "y".to_string()], "\n"), "x\ny");
    assert_eq!(join_lines(&vec![], "\n"), "");
}

#[test]
fn packages_screen_keys() {
    let mut s = PackagesScreen::new(Ok(vec![
        package(1, "A", Destination::Queue, 0),
        package(2, "B", Destination::Queue, 1),
        package(3, "C", Destination::Collector, 0),
    ]));
    assert_eq!(s.table_state.selected, Some(0));
    assert!(matches!(s.handle_keys(Key::Char('q')), Some(AppAction::Quit)));
    assert!(matches!(s.handle_keys(Key::Char('l')), Some(AppAction::GoToFiles(1, ref n)) if n == "A"));
    assert!(matches!(s.handle_keys(Key::Char('a')), Some(AppAction::OpenAppendFilesForm(1, ref n)) if n == "A"));
    assert!(matches!(s.handle_keys(Key::Char('d')), Some(AppAction::DeletePackages(ref v)) if *v == vec![1]));
    assert!(matches!(s.handle_keys(Key::Char('r')), Some(AppAction::RestartPackage(1))));
    assert!(matches!(s.handle_keys(Key::Char('m')), Some(AppAction::MovePackage(Destination::Collector, 1))));
    assert!(matches!(s.handle_keys(Key::Char('J')), Some(AppAction::ReorderPackage(1, 1))));
    assert!(s.handle_keys(Key::Char('K')).is_none());
    assert!(s.handle_keys(Key::Char('j')).is_none());
    assert_eq!(s.table_state.selected, Some(1));
    assert!(s.handle_keys(Key::Char('J')).is_none());
    assert!(matches!(s.handle_keys(Key::Char('K')), Some(AppAction::ReorderPackage(2, 0))));
    assert!(s.handle_keys(Key::Char('k')).is_none());
    assert_eq!(s.table_state.selected, Some(0));
    assert!(s.handle_keys(Key::Char('x')).is_none());
    let mut e = PackagesScreen::default();
    assert!(e.handle_keys(Key::Char('d')).is_none());
    let failed = PackagesScreen::new(Err("down".to_string()));
    assert!(failed.packages.is_empty());
}

#[test]
fn files_screen_keys() {
    let mut s = FilesScreen::new(9, "Pkg".to_string(), Ok(vec![file(1, 9, 0), file(2, 9, 1)]), vec![]);
    assert!(matches!(s.handle_keys(Key::Char('a')), Some(AppAction::OpenAppendFilesForm(9, ref n)) if n == "Pkg"));
    assert!(matches!(s.handle_keys(Key::Char('h')), Some(AppAction::GoToPackages)));
    assert!(matches!(s.handle_keys(Key::Char('s')), Some(AppAction::StopDownloads(ref v)) if *v == vec![1]));
    assert!(matches!(s.handle_keys(Key::Char('r')), Some(AppAction::RestartFile(1))));
    assert!(matches!(s.handle_keys(Key::Char('d')), Some(AppAction::DeleteFiles(ref v)) if *v == vec![1]));
    assert!(matches!(s.handle_keys(Key::Char('J')), Some(AppAction::ReorderFile(1, 1))));
    assert!(s.handle_keys(Key::Char('K')).is_none());
    s.handle_keys(Key::Char('j'));
    assert!(s.handle_keys(Key::Char('J')).is_none());
    assert!(matches!(s.handle_keys(Key::Char('K')), Some(AppAction::ReorderFile(2, 0))));
    let failed = FilesScreen::new(1, String::new(), Err("x".to_string()), vec![]);
    assert!(failed.files.is_empty());
    let d = FilesScreen::default();
    assert_eq!(d.package_id, 0);
    assert_eq!(d.table_state.selected, None);
}

#[test]
fn downloads_screen_keys() {
    let mut s = DownloadsScreen::default();
    assert!(matches!(s.handle_keys(Key::Char('h')), Some(AppAction::GoToPreviousScreen)));
    assert!(matches!(s.handle_keys(Key::Char('q')), Some(AppAction::Quit)));
    assert!(s.handle_keys(Key::Char('j')).is_none());
    assert_eq!(s.table_state.selected, Some(0));
}

#[test]
fn package_form_submission() {
    let mut f = AddPackageForm::default();
    assert!(f.collector_checked && !f.queue_checked);
    f.handle_paste("My package");
    assert!(matches!(f.handle_keys(press(Key::Tab)), KeyOutcome::Action(None)));
    assert_eq!(f.selected, PackageInput::Links);
    f.handle_paste(" http://x/1 \n\n  http://x/2\n");
    f.handle_keys(press(Key::Tab));
    f.handle_paste("secret");
    f.handle_keys(press(Key::Tab));
    assert_eq!(f.selected, PackageInput::Queue);
    f.handle_keys(press(Key::Enter));
    assert!(f.queue_checked && !f.collector_checked);
    f.handle_keys(press(Key::Tab));
    f.handle_keys(press(Key::Tab));
    assert_eq!(f.selected, PackageInput::AddPackage);
    match f.handle_keys(press(Key::Enter)) {
        KeyOutcome::SubmitPackage(r) => {
            assert_eq!(r.name, "My package");
            assert_eq!(r.links, vec!["http://x/1", "http://x/2"]);
            assert_eq!(r.password, Some("secret".to_string()));
            assert_eq!(r.dest, Destination::Queue);
        },
        _ => panic!("expected a submission"),
    }
    assert!(matches!(f.handle_keys(press(Key::Esc)), KeyOutcome::Action(Some(AppAction::GoToPreviousScreen))));
    assert!(matches!(f.finish_submit(true), Some(AppAction::GoToPackages)));
    assert!(f.finish_submit(false).is_none());
}

#[test]
fn package_form_defaults_to_collector_without_password() {
    let f = AddPackageForm::default();
    let r = f.submit();
    assert_eq!(r.name, "");
    assert!(r.links.is_empty());
    assert_eq!(r.password, None);
    assert_eq!(r.dest, Destination::Collector);
}

#[test]
fn package_form_checkbox_toggles() {
    let mut f = AddPackageForm::default();
    f.selected = PackageInput::Collector;
    f.handle_keys(press(Key::Enter));
    assert!(!f.collector_checked && !f.queue_checked);
    f.handle_keys(press(Key::Enter));
    assert!(f.collector_checked && !f.queue_checked);
}

#[test]
fn package_form_typing() {
    let mut f = AddPackageForm::default();
    f.handle_keys(press(Key::Char('h')));
    f.handle_keys(press(Key::Char('i')));
    assert_eq!(f.name.text(), vec!["hi"]);
    assert_eq!(f.links.text(), vec![""]);
}

#[test]
fn links_form_submission() {
    let mut f = AppendFilesForm::new(5, "Pkg".to_string());
    f.handle_keys(press(Key::Tab));
    assert_eq!(f.selected, LinksInput::AddLinks);
    assert!(matches!(f.handle_keys(press(Key::Enter)), KeyOutcome::Action(None)));
    f.handle_keys(press(Key::Tab));
    f.handle_paste("http://a\n  \nhttp://b ");
    f.handle_keys(press(Key::Tab));
    match f.handle_keys(press(Key::Enter)) {
        KeyOutcome::SubmitLinks(5, links) => assert_eq!(links, vec!["http://a", "http://b"]),
        _ => panic!("expected links"),
    }
    assert!(f.finish_submit(false).is_none());
    assert_eq!(f.links.text().len(), 3);
    assert!(matches!(f.finish_submit(true), Some(AppAction::GoToPreviousScreen)));
    assert_eq!(f.links.text(), vec![""]);
    assert_eq!(f.selected, LinksInput::Links);
    assert!(matches!(f.handle_keys(press(Key::Esc)), KeyOutcome::Action(Some(AppAction::GoToPreviousScreen))));
}

#[test]
fn package_request_from_lines() {
    let v = |xs: &[&str]| xs.iter().map(|s| s.to_string()).collect::<Vec<String>>();
    let r = package_request(&v(&["a", "b"]), &v(&[" x ", "", "y"]), &v(&["p", "w"]), false);
    assert_eq!(r.name, "a\nb");
    assert_eq!(r.links, vec!["x", "y"]);
    assert_eq!(r.password, Some("pw".to_string()));
    assert_eq!(r.dest, Destination::Queue);
    let e = package_request(&v(&[""]), &v(&[""]), &v(&[""]), true);
    assert_eq!(e.password, None);
    assert_eq!(e.dest, Destination::Collector);
}

#[test]
fn text_keys_reach_the_focused_input() {
    let mut f = AddPackageForm::default();
    f.selected = PackageInput::Password;
    f.handle_keys(press(Key::Char('x')));
    f.handle_keys(KeyPress { key: Key::Other, input: Edit { key: EditKey::Action(ActionKey::Backspace), ctrl: false, alt: false, shift: false } });
    f.handle_keys(press(Key::Char('y')));
    assert_eq!(f.password.text(), vec!["y"]);
    assert_eq!(f.name.text(), vec![""]);
    f.selected = PackageInput::Queue;
    f.handle_paste("ignored");
    assert_eq!(f.password.text(), vec!["y"]);
    f.selected = PackageInput::Name;
    f.handle_paste("a\r\nb");
    assert_eq!(f.name.text(), vec!["a", "b"]);
    let mut g = AppendFilesForm::new(1, String::new());
    g.selected = LinksInput::AddLinks;
    g.handle_paste("x");
    assert_eq!(g.links.text(), vec![""]);
}

#[test]
fn table_headers() {
    assert_eq!(PackagesTable::header(), vec!["PID", "Name", "Links", "Size", "Folder"]);
    assert_eq!(FilesTable::header(), vec!["FID", "Name", "Size", "Status", "Plugin", "Error"]);
    assert_eq!(DownloadsTable::header(), vec!["Status", "Name", "Hoster", "Info", "Size", "Progress"]);
}

#[test]
fn hint_part_colors() {
    assert_eq!(part_color(HintPart::Key), Color::Cyan);
    assert_eq!(part_color(HintPart::Action), Color::Gray);
    assert_eq!(part_color(HintPart::Plain), Color::DarkGray);
}

#[test]
fn package_form_border_colors() {
    let mut f = AddPackageForm::default();
    assert_eq!(f.border_color(PackageInput::Name), Color::Yellow);
    assert_eq!(f.border_color(PackageInput::Links), Color::Blue);
    assert_eq!(f.border_color(PackageInput::Queue), Color::Black);
    assert_eq!(f.border_color(PackageInput::Collector), Color::Black);
    assert_eq!(f.border_color(PackageInput::AddPackage), Color::Blue);
    f.handle_keys(press(Key::Tab));
    f.handle_keys(press(Key::Tab));
    f.handle_keys(press(Key::Tab));
    assert_eq!(f.selected, PackageInput::Queue);
    assert_eq!(f.border_color(PackageInput::Queue), Color::Yellow);
    assert_eq!(f.border_color(PackageInput::Name), Color::Blue);
}

#[test]
fn package_form_checkbox_toggle() {
    let mut f = AddPackageForm::default();
    f.handle_checkbox_toggle();
    assert!(!f.queue_checked && f.collector_checked);
    f.selected = PackageInput::Queue;
    f.handle_checkbox_toggle();
    assert!(f.queue_checked && !f.collector_checked);
    f.handle_checkbox_toggle();
    assert!(!f.queue_checked && !f.collector_checked);
    f.selected = PackageInput::Collector;
    f.handle_checkbox_toggle();
    assert!(!f.queue_checked && f.collector_checked);
}

#[test]
fn package_form_text_input_gets_key() {
    let mut f = AddPackageForm::default();
    f.handle_text_input(press(Key::Char('x')).input);
    assert_eq!(f.name.text(), vec!["x"]);
    assert_eq!(f.name.cursor(), (0, 1));
    f.selected = PackageInput::AddPackage;
    f.handle_text_input(press(Key::Char('y')).input);
    assert_eq!(f.name.text(), vec!["x"]);
    assert_eq!(f.links.text(), vec![""]);
}

#[test]
fn trim_removes_unicode_white_space() {
    assert_eq!(trim_text("\u{3000}\u{a0} link \u{2028}\u{85}"), "link");
    assert_eq!(trim_text("\u{200b}x"), "\u{200b}x");
}

fn nav(k: NavKey, shift: bool) -> KeyPress {
    KeyPress { key: Key::Other, input: Edit { key: EditKey::Nav(k), ctrl: false, alt: false, shift } }
}

#[test]
fn links_form_reset_clears_a_selection_too() {
    let mut f = AppendFilesForm::new(3, "p3".to_string());
    for c in "abcdef".chars() {
        f.handle_keys(press(Key::Char(c)));
    }
    for _ in 0..3 {
        f.handle_keys(nav(NavKey::Left, false));
    }
    f.handle_keys(nav(NavKey::Right, true));
    assert_eq!(f.links.text(), vec!["abcdef"]);
    assert!(matches!(f.finish_submit(true), Some(AppAction::GoToPreviousScreen)));
    assert_eq!(f.links.text(), vec![""]);
    assert_eq!(f.links.cursor(), (0, 0));
    assert_eq!(f.selected, LinksInput::Links);
    assert_eq!(f.package_id, 3);
    assert_eq!(f.package_name, "p3");
}

#[test]
fn trim_agrees_with_char_is_whitespace() {
    for n in 0u32..=0x10ffff {
        if let Some(c) = char::from_u32(n) {
            let t = trim_text(&format!("{}x{}", c, c));
            if c.is_whitespace() {
                assert_eq!(t, "x", "U+{:04X}", n);
            } else {
                assert_ne!(t, "x", "U+{:04X}", n);
            }
        }
    }
}
