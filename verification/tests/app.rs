use pyload_tui::app::{abort_and_pause_calls, App, Effect};
use pyload_tui::events::{Pending, Reply};
use pyload_tui::model::{Destination, DownloadInfo, EventInfo, FileData, PackageData, ServerStatus};
use pyload_tui::requests::ApiCall;
use pyload_tui::screens::Screen;
use pyload_tui::text_input::{ActionKey, Edit, EditKey, Key, KeyPress};

fn press(key: Key) -> KeyPress {
    let edit_key = match key {
        Key::Char(c) => EditKey::Char(c),
        Key::Enter => EditKey::Action(ActionKey::Enter),
        Key::Tab => EditKey::Action(ActionKey::Tab),
        Key::BackTab => EditKey::Action(ActionKey::Tab),
        Key::Esc => EditKey::Action(ActionKey::Esc),
        Key::Other => EditKey::Action(ActionKey::Null),
    };
    let shift = matches!(key, Key::BackTab);
    KeyPress { key, input: Edit { key: edit_key, ctrl: false, alt: false, shift } }
}

fn package(pid: i32, dest: Destination, order: i32, total: Option<i32>) -> PackageData {
    PackageData {
        pid,
        name: format!("p{}", pid),
        folder: String::new(),
        dest,
        order,
        linksdone: Some(0),
        linkstotal: total,
        sizedone: None,
        sizetotal: None,
        links: None,
    }
}

fn file(fid: i32, package_id: i32) -> FileData {
    FileData {
        fid,
        name: format!("f{}", fid),
        package_id,
        order: 0,
        format_size: String::new(),
        status: "Queued".to_string(),
        plugin: String::new(),
        error: String::new(),
    }
}

fn event(name: &str, kind: i32, id: i32) -> EventInfo {
    EventInfo { eventname: name.to_string(), event_type: Some(kind), id: Some(id) }
}

fn sample_app() -> App {
    App::new(Ok(vec![
        package(1, Destination::Queue, 0, Some(1)),
        package(2, Destination::Queue, 1, Some(2)),
        package(3, Destination::Collector, 0, Some(3)),
    ]))
}

fn packages_of(app: &App) -> Vec<i32> {
    let s = match &app.current_screen {
        Screen::Packages(s) => s,
        _ => match &app.previous_screen {
            Some(Screen::Packages(s)) => s,
            _ => panic!("no packages screen"),
        },
    };
    s.packages.iter().map(|p| p.pid).collect()
}

fn is_packages(s: &Screen) -> bool {
    matches!(s, Screen::Packages(_))
}

#[test]
fn app_starts_on_packages() {
    let app = sample_app();
    assert!(is_packages(&app.current_screen));
    assert!(app.previous_screen.is_none());
    assert!(!app.quit);
    assert_eq!(app.status_bar.server_status(), None);
}

#[test]
fn quit_key() {
    let mut app = sample_app();
    assert!(matches!(app.handle_key(press(Key::Char('q'))), Effect::Nothing));
    assert!(app.quit);
}

#[test]
fn q_is_typed_in_package_form() {
    let mut app = sample_app();
    app.handle_key(press(Key::Char('A')));
    assert!(matches!(app.current_screen, Screen::AddPackageForm(_)));
    app.handle_key(press(Key::Char('q')));
    assert!(!app.quit);
    match &app.current_screen {
        Screen::AddPackageForm(f) => assert_eq!(f.name.text(), vec!["q"]),
        _ => panic!(),
    }
    assert!(matches!(app.handle_key(press(Key::Esc)), Effect::Nothing));
    assert!(is_packages(&app.current_screen));
    assert!(matches!(app.previous_screen, Some(Screen::AddPackageForm(_))));
    app.handle_key(press(Key::Char('A')));
    match &app.current_screen {
        Screen::AddPackageForm(f) => assert_eq!(f.name.text(), vec!["q"]),
        _ => panic!(),
    }
}

#[test]
fn open_files_and_back() {
    let mut app = sample_app();
    match app.handle_key(press(Key::Char('l'))) {
        Effect::OpenFiles(1, name) => {
            assert_eq!(name, "p1");
            app.open_files(1, name, Ok(vec![file(10, 1), file(11, 1)]), vec![]);
        },
        _ => panic!("expected files to fetch"),
    }
    assert!(matches!(&app.current_screen, Screen::Files(s) if s.package_id == 1 && s.files.len() == 2));
    assert!(matches!(app.handle_key(press(Key::Char('h'))), Effect::Nothing));
    assert!(is_packages(&app.current_screen));
    assert!(matches!(app.handle_key(press(Key::Char('l'))), Effect::Nothing));
    assert!(matches!(&app.current_screen, Screen::Files(s) if s.package_id == 1));
}

#[test]
fn server_keys() {
    let mut app = sample_app();
    assert!(matches!(app.handle_key(press(Key::Char('P'))), Effect::Call(ApiCall::PauseServer)));
    assert!(matches!(app.handle_key(press(Key::Char('U'))), Effect::Call(ApiCall::UnpauseServer)));
    assert!(matches!(app.handle_key(press(Key::Char('T'))), Effect::Call(ApiCall::TogglePause)));
    assert!(matches!(app.handle_key(press(Key::Char('S'))), Effect::Call(ApiCall::StopAllDownloads)));
    assert!(matches!(app.handle_key(press(Key::Char('R'))), Effect::Call(ApiCall::RestartFailed)));
    assert!(matches!(app.handle_key(press(Key::Char('X'))), Effect::AbortAndPause));
    assert!(matches!(app.handle_key(press(Key::Char('d'))), Effect::Call(ApiCall::RemovePackages(ref v)) if *v == vec![1]));
    assert!(matches!(app.handle_key(press(Key::Char('m'))), Effect::Call(ApiCall::MovePackage(Destination::Collector, 1))));
    assert!(matches!(app.handle_key(press(Key::Char('K'))), Effect::Nothing));
    assert!(matches!(app.handle_key(press(Key::Char('z'))), Effect::Nothing));
    assert!(!app.quit);
}

#[test]
fn abort_and_pause_by_status() {
    let st = |pause| ServerStatus { pause, active: 1, queue: 0, total: 0, speed: 0, download: true, reconnect: false, captcha: false };
    let paused = abort_and_pause_calls(Some(st(true)));
    assert!(matches!(paused.as_slice(), [ApiCall::RestartFailed, ApiCall::UnpauseServer]));
    let running = abort_and_pause_calls(Some(st(false)));
    assert!(matches!(running.as_slice(), [ApiCall::PauseServer, ApiCall::StopAllDownloads]));
    assert!(abort_and_pause_calls(None).is_empty());
}

#[test]
fn downloads_and_back() {
    let mut app = sample_app();
    app.handle_key(press(Key::Char('D')));
    assert!(matches!(app.current_screen, Screen::Downloads(_)));
    let b = app.get_bindings();
    assert_eq!(b[0], ("h", "go back"));
    assert_eq!(b.len(), 8);
    app.handle_key(press(Key::Char('h')));
    assert!(is_packages(&app.current_screen));
    assert_eq!(app.get_bindings().len(), 7);
}

#[test]
fn bindings_of_forms() {
    let mut app = sample_app();
    app.handle_key(press(Key::Char('A')));
    assert_eq!(app.get_bindings()[3], ("Enter", "newline/toggle/submit"));
    let mut app2 = sample_app();
    app2.handle_key(press(Key::Char('a')));
    assert!(matches!(&app2.current_screen, Screen::AppendFilesForm(f) if f.package_id == 1));
    assert_eq!(app2.get_bindings()[3], ("Enter", "newline/submit"));
}

#[test]
fn package_submitted_goes_to_packages() {
    let mut app = sample_app();
    app.handle_key(press(Key::Char('A')));
    app.package_submitted(false);
    assert!(matches!(app.current_screen, Screen::AddPackageForm(_)));
    app.package_submitted(true);
    assert!(is_packages(&app.current_screen));
}

#[test]
fn links_submitted_goes_back() {
    let mut app = sample_app();
    app.handle_key(press(Key::Char('a')));
    app.handle_paste("http://x");
    app.links_submitted(true);
    assert!(is_packages(&app.current_screen));
    match &app.previous_screen {
        Some(Screen::AppendFilesForm(f)) => assert_eq!(f.links.text(), vec![""]),
        _ => panic!(),
    }
}

#[test]
fn remove_events() {
    let mut app = sample_app();
    assert_eq!(app.begin_event(&event("remove", 0, 2)), None);
    assert_eq!(packages_of(&app), vec![1, 3]);
    assert_eq!(app.begin_event(&event("remove", 0, 42)), None);
    assert_eq!(packages_of(&app), vec![1, 3]);
    assert_eq!(app.begin_event(&event("unknown", 0, 1)), None);
    assert_eq!(packages_of(&app), vec![1, 3]);
}

#[test]
fn insert_event_places_package() {
    let mut app = sample_app();
    let p = app.begin_event(&event("insert", 0, 4));
    assert_eq!(p, Some(Pending::InsertPackage(4)));
    let next = app.resume_event(Pending::InsertPackage(4), Reply::Package(package(4, Destination::Queue, 2, None)));
    assert_eq!(next, None);
    assert_eq!(packages_of(&app), vec![1, 2, 4, 3]);
    match &app.current_screen {
        Screen::Packages(s) => assert_eq!(s.table_state.selected, Some(2)),
        _ => panic!(),
    }
    app.resume_event(Pending::InsertPackage(5), Reply::Package(package(5, Destination::Collector, 1, None)));
    assert_eq!(packages_of(&app), vec![1, 2, 4, 3, 5]);
    app.resume_event(Pending::InsertPackage(6), Reply::Package(package(6, Destination::Queue, 0, None)));
    assert_eq!(packages_of(&app), vec![1, 6, 2, 4, 3, 5]);
    assert_eq!(app.resume_event(Pending::InsertPackage(7), Reply::Failed), None);
    assert_eq!(packages_of(&app), vec![1, 6, 2, 4, 3, 5]);
}

#[test]
fn update_event_refetches_files_on_new_links() {
    let mut app = sample_app();
    app.open_files(1, "p1".to_string(), Ok(vec![file(10, 1)]), vec![]);
    assert_eq!(app.begin_event(&event("update", 0, 1)), Some(Pending::UpdatePackage(1)));
    let next = app.resume_event(Pending::UpdatePackage(1), Reply::Package(package(1, Destination::Queue, 0, Some(5))));
    assert_eq!(next, Some(Pending::RefreshFiles(1)));
    assert_eq!(app.resume_event(Pending::RefreshFiles(1), Reply::Files(vec![file(10, 1), file(12, 1)])), None);
    assert!(matches!(&app.current_screen, Screen::Files(s) if s.files.len() == 2));
    let same = app.resume_event(Pending::UpdatePackage(1), Reply::Package(package(1, Destination::Queue, 0, Some(5))));
    assert_eq!(same, None);
}

#[test]
fn file_events() {
    let mut app = sample_app();
    assert_eq!(app.begin_event(&event("update", 1, 10)), None);
    app.open_files(1, "p1".to_string(), Ok(vec![file(10, 1), file(11, 1)]), vec![]);
    assert_eq!(app.begin_event(&event("update", 1, 11)), Some(Pending::UpdateFile(11)));
    let mut changed = file(11, 1);
    changed.status = "Finished".to_string();
    assert_eq!(app.resume_event(Pending::UpdateFile(11), Reply::File(changed)), Some(Pending::RefreshDownloads));
    let d = DownloadInfo { fid: 10, name: String::new(), statusmsg: String::new(), plugin: String::new(), info: String::new(), format_size: String::new(), percent: 5 };
    assert_eq!(app.resume_event(Pending::RefreshDownloads, Reply::Downloads(vec![d])), None);
    match &app.current_screen {
        Screen::Files(s) => {
            assert_eq!(s.files[1].status, "Finished");
            assert_eq!(s.downloads_info.len(), 1);
        },
        _ => panic!(),
    }
    assert_eq!(app.resume_event(Pending::UpdateFile(11), Reply::File(file(11, 2))), None);
    assert_eq!(app.begin_event(&event("remove", 1, 10)), None);
    assert!(matches!(&app.current_screen, Screen::Files(s) if s.files.len() == 1 && s.files[0].fid == 11));
    assert_eq!(app.begin_event(&event("insert", 1, 12)), Some(Pending::InsertFile(12)));
    assert_eq!(app.resume_event(Pending::InsertFile(12), Reply::File(file(12, 1))), Some(Pending::InsertFileList(12, 1)));
    assert_eq!(app.resume_event(Pending::InsertFileList(12, 1), Reply::Files(vec![file(11, 1), file(12, 1)])), None);
    match &app.current_screen {
        Screen::Files(s) => assert_eq!(s.table_state.selected, Some(1)),
        _ => panic!(),
    }
}

#[test]
fn reload_event() {
    let mut app = sample_app();
    app.handle_key(press(Key::Char('j')));
    assert_eq!(app.begin_event(&event("reload", 0, 0)), Some(Pending::Reload));
    app.resume_event(Pending::Reload, Reply::Packages(vec![package(9, Destination::Queue, 0, None)]));
    assert_eq!(packages_of(&app), vec![9]);
    match &app.current_screen {
        Screen::Packages(s) => assert_eq!(s.table_state.selected, Some(0)),
        _ => panic!(),
    }
}

#[test]
fn reorder_position_is_never_negative() {
    let mut app = App::new(Ok(vec![package(1, Destination::Queue, 0, None), package(2, Destination::Queue, 1, None)]));
    app.handle_key(press(Key::Char('j')));
    assert!(matches!(app.handle_key(press(Key::Char('K'))), Effect::Call(ApiCall::OrderPackage(2, 0))));
    assert!(matches!(app.handle_key(press(Key::Char('J'))), Effect::Nothing));
}

#[test]
fn status_update() {
    let mut app = sample_app();
    let st = ServerStatus { pause: true, active: 0, queue: 1, total: 2, speed: 0, download: false, reconnect: false, captcha: false };
    app.update_status(st);
    assert_eq!(app.status_bar.server_status(), Some(st));
}

#[test]
fn accepts_checks_selection() {
    let mut app = App::new(Ok(vec![]));
    assert!(!app.accepts(Key::Char('l')));
    assert!(!app.accepts(Key::Char('d')));
    assert!(app.accepts(Key::Char('q')));
    if let Screen::Packages(s) = &mut app.current_screen {
        s.table_state.select(None);
    }
    assert!(app.accepts(Key::Char('d')));
    assert!(!app.accepts(Key::Char('a')));
    assert!(matches!(app.handle_key(press(Key::Char('d'))), Effect::Nothing));
}

#[test]
fn links_form_round_trip_keeps_files_screen() {
    let mut app = sample_app();
    app.open_files(1, "p1".to_string(), Ok(vec![file(10, 1), file(11, 1)]), vec![]);
    app.handle_key(press(Key::Char('j')));
    app.handle_key(press(Key::Char('a')));
    assert!(matches!(&app.current_screen, Screen::AppendFilesForm(f) if f.package_id == 1));
    app.handle_key(press(Key::Esc));
    match &app.current_screen {
        Screen::Files(s) => {
            assert_eq!(s.package_id, 1);
            assert_eq!(s.table_state.selected, Some(1));
        },
        _ => panic!("expected the files screen back"),
    }
}

#[test]
fn insert_then_remove_restores_packages() {
    let mut app = sample_app();
    let before = packages_of(&app);
    app.resume_event(Pending::InsertPackage(8), Reply::Package(package(8, Destination::Collector, 7, None)));
    assert_eq!(packages_of(&app), vec![1, 2, 3, 8]);
    app.begin_event(&event("remove", 0, 8));
    assert_eq!(packages_of(&app), before);
}

#[test]
fn going_back_twice_restores() {
    let mut app = sample_app();
    app.handle_key(press(Key::Char('D')));
    app.handle_key(press(Key::Char('h')));
    assert!(is_packages(&app.current_screen));
    assert!(matches!(app.previous_screen, Some(Screen::Downloads(_))));
    app.handle_key(press(Key::Char('D')));
    assert!(matches!(app.current_screen, Screen::Downloads(_)));
    assert!(matches!(app.previous_screen, Some(Screen::Packages(_))));
}

#[test]
fn server_keys_act_in_forms_too() {
    let mut app = sample_app();
    app.handle_key(press(Key::Char('A')));
    assert!(matches!(app.handle_key(press(Key::Char('P'))), Effect::Call(ApiCall::PauseServer)));
    match &app.current_screen {
        Screen::AddPackageForm(f) => assert_eq!(f.name.text(), vec!["P"]),
        _ => panic!(),
    }
    let mut app2 = sample_app();
    app2.handle_key(press(Key::Char('a')));
    assert!(matches!(app2.handle_key(press(Key::Char('R'))), Effect::Call(ApiCall::RestartFailed)));
    assert!(matches!(app2.handle_key(press(Key::Char('q'))), Effect::Nothing));
    assert!(app2.quit);
}

#[test]
fn package_form_esc_goes_back_to_files() {
    let mut app = sample_app();
    app.open_files(1, "p1".to_string(), Ok(vec![file(10, 1), file(11, 1)]), vec![]);
    app.handle_key(press(Key::Char('j')));
    app.handle_key(press(Key::Char('A')));
    assert!(matches!(app.current_screen, Screen::AddPackageForm(_)));
    assert!(matches!(app.handle_key(press(Key::Esc)), Effect::Nothing));
    match &app.current_screen {
        Screen::Files(s) => {
            assert_eq!(s.package_id, 1);
            assert_eq!(s.table_state.selected, Some(1));
        },
        _ => panic!("expected the files screen back"),
    }
    assert!(matches!(app.previous_screen, Some(Screen::AddPackageForm(_))));
}

#[test]
fn go_to_previous_screen_twice_restores() {
    let mut app = sample_app();
    app.go_to_previous_screen();
    assert!(matches!(app.current_screen, Screen::Packages(_)));
    assert!(app.previous_screen.is_none());
    app.handle_key(press(Key::Char('A')));
    app.go_to_previous_screen();
    assert!(matches!(app.current_screen, Screen::Packages(_)));
    assert!(matches!(app.previous_screen, Some(Screen::AddPackageForm(_))));
    app.go_to_previous_screen();
    assert!(matches!(app.current_screen, Screen::AddPackageForm(_)));
    assert!(matches!(app.previous_screen, Some(Screen::Packages(_))));
}

#[test]
fn inserted_package_keeps_listing_order() {
    let mut app = sample_app();
    let pending = app.begin_event(&event("insert", 0, 7));
    assert_eq!(pending, Some(Pending::InsertPackage(7)));
    app.resume_event(Pending::InsertPackage(7), Reply::Package(package(7, Destination::Queue, 1, None)));
    assert_eq!(packages_of(&app), vec![1, 2, 7, 3]);
    app.resume_event(Pending::InsertPackage(8), Reply::Package(package(8, Destination::Collector, 0, None)));
    assert_eq!(packages_of(&app), vec![1, 2, 7, 3, 8]);
    app.resume_event(Pending::InsertPackage(9), Reply::Package(package(9, Destination::Queue, 0, None)));
    assert_eq!(packages_of(&app), vec![1, 9, 2, 7, 3, 8]);
}
