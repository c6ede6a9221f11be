//! What the keys of the list screens and of the package form, and the
//! server's remove events, do, stated over their inputs and results.
use vstd::prelude::*;
use crate::add_package_form::{AddPackageForm, SelectedInput};
use crate::app::{App, EffectView};
use crate::events::{kind_of, EventKind};
use crate::files_screen::{has_fid, max_file_order, FilesScreen};
use crate::model::{Destination, EventInfo, FileData, PackageData};
use crate::packages_screen::{has_dest, has_pid, max_order_in, PackagesScreen};
use crate::requests::{CallView, OutcomeView};
use crate::screens::Screen;
use crate::search::{first_match, lemma_first_match_meaning};
use crate::events::Pending;
use crate::text_input::{text_after_key, text_lines, Edit, Key, KeyPress};

verus! {

/// The highest order of nonempty files is the order of one of them, and no
/// file has a higher one.
proof fn lemma_max_file_order(fs: Seq<FileData>)
    requires
        fs.len() > 0,
    ensures
        forall|j: int| 0 <= j < fs.len() ==> (#[trigger] fs[j]).order <= max_file_order(fs),
        exists|j: int| 0 <= j < fs.len() && (#[trigger] fs[j]).order == max_file_order(fs),
    decreases fs.len(),
{
    if fs.len() == 1 {
        assert(fs[0].order == max_file_order(fs));
    } else {
        let rest = fs.drop_last();
        lemma_max_file_order(rest);
        assert forall|j: int| 0 <= j < fs.len() implies (#[trigger] fs[j]).order <= max_file_order(
            fs,
        ) by {
            if j < fs.len() - 1 {
                assert(fs[j] == rest[j]);
            }
        }
        if fs.last().order > max_file_order(rest) {
            assert(fs[fs.len() - 1].order == max_file_order(fs));
        } else {
            let k = choose|k: int| 0 <= k < rest.len() && (#[trigger] rest[k]).order == max_file_order(rest);
            assert(fs[k] == rest[k]);
            assert(fs[k].order == max_file_order(fs));
        }
    }
}

/// The highest order in a destination is the order of one of its packages,
/// when it has some, and no package of it has a higher one.
proof fn lemma_max_order_in(ps: Seq<PackageData>, d: Destination)
    ensures
        forall|j: int|
            0 <= j < ps.len() && (#[trigger] ps[j]).dest == d ==> ps[j].order <= max_order_in(ps, d),
        has_dest(ps, d) ==> exists|j: int|
            0 <= j < ps.len() && (#[trigger] ps[j]).dest == d && ps[j].order == max_order_in(ps, d),
    decreases ps.len(),
{
    if ps.len() > 0 {
        let rest = ps.drop_last();
        let n = ps.len() - 1;
        lemma_max_order_in(rest, d);
        assert forall|j: int| 0 <= j < ps.len() && (#[trigger] ps[j]).dest == d implies ps[j].order
            <= max_order_in(ps, d) by {
            if j < n {
                assert(ps[j] == rest[j]);
                assert(has_dest(rest, d));
            }
        }
        if has_dest(ps, d) {
            if ps[n].dest == d && (!has_dest(rest, d) || ps[n].order > max_order_in(rest, d)) {
                assert(ps[n].order == max_order_in(ps, d));
            } else {
                if ps[n].dest != d {
                    let j = choose|j: int| 0 <= j < ps.len() && (#[trigger] ps[j]).dest == d;
                    assert(rest[j] == ps[j]);
                }
                assert(has_dest(rest, d));
                let k = choose|k: int|
                    0 <= k < rest.len() && (#[trigger] rest[k]).dest == d && rest[k].order
                        == max_order_in(rest, d);
                assert(ps[k] == rest[k]);
            }
        }
    }
}

/// On a files screen with a file selected, the file keys ask the server
/// about that file and nothing else, and change nothing on screen:
/// 'd' deletes the file, 's' stops its download, 'r' restarts it, and 'J'
/// and 'K' move it
/// exactly one place down or up: 'J' only when some file of the package has
/// a higher order, 'K' only when it is not first.
pub proof fn lemma_file_keys(a: App, s: FilesScreen, i: usize, c: char, edit: Edit, b: App, e: EffectView)
    requires
        a.current_screen == Screen::Files(s),
        s.table_state.selected == Some(i),
        i < s.files@.len(),
        c == 'd' || c == 's' || c == 'r' || c == 'J' || c == 'K',
        a.key_handled(KeyPress { key: Key::Char(c), input: edit }, b, e),
    ensures
        b == a,
        c == 'd' ==> e == EffectView::Call(CallView::RemoveFiles(seq![s.files@[i as int].fid])),
        c == 'r' ==> e == EffectView::Call(CallView::RestartFile(s.files@[i as int].fid)),
        c == 's' ==> e == EffectView::Call(CallView::StopDownloads(seq![s.files@[i as int].fid])),
        c == 'J' ==> if exists|j: int|
            0 <= j < s.files@.len() && (#[trigger] s.files@[j]).order > s.files@[i as int].order {
            e matches EffectView::Call(CallView::OrderFile(fid, n)) && fid == s.files@[i as int].fid
                && n == s.files@[i as int].order + 1
        } else {
            e == EffectView::Nothing
        },
        c == 'K' ==> if s.files@[i as int].order > 0 {
            e matches EffectView::Call(CallView::OrderFile(fid, n)) && fid == s.files@[i as int].fid
                && n == s.files@[i as int].order - 1
        } else {
            e == EffectView::Nothing
        },
{
    let press = KeyPress { key: Key::Char(c), input: edit };
    let (mid, out) = choose|mid: Screen, out: OutcomeView|
        #[trigger] a.current_screen.key_step(press, mid, out) && (App {
            current_screen: mid,
            ..a
        }).outcome_applied(press.key, out, b, e);
    assert(mid == a.current_screen);
    assert((App { current_screen: mid, ..a }) == a);
    let f = s.files@[i as int];
    if c == 'J' {
        lemma_max_file_order(s.files@);
        if exists|j: int| 0 <= j < s.files@.len() && (#[trigger] s.files@[j]).order > f.order {
            let j = choose|j: int| 0 <= j < s.files@.len() && (#[trigger] s.files@[j]).order > f.order;
            assert(s.files@[j].order <= max_file_order(s.files@));
        } else {
            let k = choose|k: int|
                0 <= k < s.files@.len() && (#[trigger] s.files@[k]).order == max_file_order(s.files@);
            assert(!(s.files@[k].order > f.order));
        }
    }
}

/// On the packages screen with a package selected, the package keys ask the
/// server about that package and nothing else, and change nothing on
/// screen: 'd' deletes it, 'r' restarts it, and 'm' moves it to the other
/// destination.
pub proof fn lemma_package_keys(a: App, s: PackagesScreen, i: usize, c: char, edit: Edit, b: App, e: EffectView)
    requires
        a.current_screen == Screen::Packages(s),
        s.table_state.selected == Some(i),
        i < s.packages@.len(),
        c == 'd' || c == 'r' || c == 'm',
        a.key_handled(KeyPress { key: Key::Char(c), input: edit }, b, e),
    ensures
        b == a,
        c == 'd' ==> e == EffectView::Call(CallView::RemovePackages(seq![s.packages@[i as int].pid])),
        c == 'r' ==> e == EffectView::Call(CallView::RestartPackage(s.packages@[i as int].pid)),
        c == 'm' ==> (e matches EffectView::Call(CallView::MovePackage(d, pid)) && pid
            == s.packages@[i as int].pid && d != s.packages@[i as int].dest),
{
    let press = KeyPress { key: Key::Char(c), input: edit };
    let (mid, out) = choose|mid: Screen, out: OutcomeView|
        #[trigger] a.current_screen.key_step(press, mid, out) && (App {
            current_screen: mid,
            ..a
        }).outcome_applied(press.key, out, b, e);
    assert(mid == a.current_screen);
    assert((App { current_screen: mid, ..a }) == a);
}

/// 'X' on the packages, files or downloads screen asks for the two-step stop
/// (`abort_and_pause_calls` says which requests, by the server status) and
/// changes nothing on screen.
pub proof fn lemma_abort_key(a: App, edit: Edit, b: App, e: EffectView)
    requires
        a.current_screen is Packages || a.current_screen is Files || a.current_screen is Downloads,
        a.key_handled(KeyPress { key: Key::Char('X'), input: edit }, b, e),
    ensures
        b == a,
        e == EffectView::AbortAndPause,
{
    let press = KeyPress { key: Key::Char('X'), input: edit };
    let (mid, out) = choose|mid: Screen, out: OutcomeView|
        #[trigger] a.current_screen.key_step(press, mid, out) && (App {
            current_screen: mid,
            ..a
        }).outcome_applied(press.key, out, b, e);
    assert(mid == a.current_screen);
    assert((App { current_screen: mid, ..a }) == a);
}

/// On the packages screen with a package selected, 'J' and 'K' move it
/// exactly one place down or up within its destination (a place below zero
/// counts as zero), and change nothing on screen: 'J' only when some
/// package of the same destination has a higher order, 'K' only when it is
/// not first.
pub proof fn lemma_package_reorder_keys(
    a: App,
    s: PackagesScreen,
    i: usize,
    c: char,
    edit: Edit,
    b: App,
    e: EffectView,
)
    requires
        a.current_screen == Screen::Packages(s),
        s.table_state.selected == Some(i),
        i < s.packages@.len(),
        c == 'J' || c == 'K',
        a.key_handled(KeyPress { key: Key::Char(c), input: edit }, b, e),
    ensures
        b == a,
        c == 'J' ==> if exists|j: int|
            0 <= j < s.packages@.len() && (#[trigger] s.packages@[j]).dest == s.packages@[i as int].dest
                && s.packages@[j].order > s.packages@[i as int].order {
            e matches EffectView::Call(CallView::OrderPackage(pid, n)) && pid
                == s.packages@[i as int].pid && n == if s.packages@[i as int].order + 1 < 0 {
                0
            } else {
                s.packages@[i as int].order + 1
            }
        } else {
            e == EffectView::Nothing
        },
        c == 'K' ==> if s.packages@[i as int].order > 0 {
            e matches EffectView::Call(CallView::OrderPackage(pid, n)) && pid
                == s.packages@[i as int].pid && n == s.packages@[i as int].order - 1
        } else {
            e == EffectView::Nothing
        },
{
    let press = KeyPress { key: Key::Char(c), input: edit };
    let (mid, out) = choose|mid: Screen, out: OutcomeView|
        #[trigger] a.current_screen.key_step(press, mid, out) && (App {
            current_screen: mid,
            ..a
        }).outcome_applied(press.key, out, b, e);
    assert(mid == a.current_screen);
    assert((App { current_screen: mid, ..a }) == a);
    let p = s.packages@[i as int];
    if c == 'J' {
        lemma_max_order_in(s.packages@, p.dest);
        assert(s.packages@[i as int].dest == p.dest);
        assert(has_dest(s.packages@, p.dest));
        if exists|j: int|
            0 <= j < s.packages@.len() && (#[trigger] s.packages@[j]).dest == p.dest
                && s.packages@[j].order > p.order {
            let j = choose|j: int|
                0 <= j < s.packages@.len() && (#[trigger] s.packages@[j]).dest == p.dest
                    && s.packages@[j].order > p.order;
            assert(s.packages@[j].order <= max_order_in(s.packages@, p.dest));
        } else {
            let k = choose|k: int|
                0 <= k < s.packages@.len() && (#[trigger] s.packages@[k]).dest == p.dest
                    && s.packages@[k].order == max_order_in(s.packages@, p.dest);
            assert(!(s.packages@[k].order > p.order));
        }
    }
}

/// A file removed on the server (a remove event of type 1) leaves the files
/// screen that events act on, shown or previous, without its first file of
/// that id, all else kept; the rest of the application is untouched, and
/// nothing more is fetched.
pub proof fn lemma_file_remove_event(a: App, ev: EventInfo, fid: i32, b: App, p: Option<Pending>)
    requires
        ev.eventname@ == "remove"@,
        ev.event_type == Some(1i32),
        ev.id == Some(fid),
        a.files_target() is Some,
        a.event_begun(ev, b, p),
    ensures
        p is None,
        b.files_target() is Some,
        ({
            let s = a.files_target().unwrap();
            let t = b.files_target().unwrap();
            let i = first_match(s.files@, has_fid(fid));
            &&& t.files@ == if i < 0 {
                s.files@
            } else {
                s.files@.remove(i)
            }
            &&& t.package_id == s.package_id
            &&& i >= 0 ==> s.files@[i].fid == fid
            &&& forall|j: int| 0 <= j < i ==> (#[trigger] s.files@[j]).fid != fid
            &&& i < 0 ==> forall|j: int| 0 <= j < s.files@.len() ==> (#[trigger] s.files@[j]).fid != fid
        }),
        b.quit == a.quit,
        b.status_bar == a.status_bar,
        a.current_screen is Files ==> b.previous_screen == a.previous_screen,
        !(a.current_screen is Files) ==> b.current_screen == a.current_screen,
{
    reveal_strlit("update");
    reveal_strlit("remove");
    assert("remove"@[0] != "update"@[0]);
    assert(kind_of(ev.eventname@) == EventKind::Remove);
    lemma_first_match_meaning(a.files_target().unwrap().files@, has_fid(fid));
}

/// A package removed on the server (a remove event of type 0) leaves the
/// packages screen that events act on, shown or previous, without its first
/// package of that id; the rest of the application is untouched, and nothing
/// more is fetched.
pub proof fn lemma_package_remove_event(a: App, ev: EventInfo, pid: i32, b: App, p: Option<Pending>)
    requires
        ev.eventname@ == "remove"@,
        ev.event_type == Some(0i32),
        ev.id == Some(pid),
        a.packages_target() is Some,
        a.event_begun(ev, b, p),
    ensures
        p is None,
        b.packages_target() is Some,
        ({
            let s = a.packages_target().unwrap();
            let t = b.packages_target().unwrap();
            let i = first_match(s.packages@, has_pid(pid));
            &&& t.packages@ == if i < 0 {
                s.packages@
            } else {
                s.packages@.remove(i)
            }
            &&& i >= 0 ==> s.packages@[i].pid == pid
            &&& forall|j: int| 0 <= j < i ==> (#[trigger] s.packages@[j]).pid != pid
            &&& i < 0 ==> forall|j: int|
                0 <= j < s.packages@.len() ==> (#[trigger] s.packages@[j]).pid != pid
        }),
        b.quit == a.quit,
        b.status_bar == a.status_bar,
        a.current_screen is Packages ==> b.previous_screen == a.previous_screen,
        !(a.current_screen is Packages) ==> b.current_screen == a.current_screen,
{
    reveal_strlit("update");
    reveal_strlit("remove");
    assert("remove"@[0] != "update"@[0]);
    assert(kind_of(ev.eventname@) == EventKind::Remove);
    lemma_first_match_meaning(a.packages_target().unwrap().packages@, has_pid(pid));
}

/// Enter on a text input of the package form goes to that input (a new
/// line, by its key map) and keeps the focus there; the other inputs, the
/// checkboxes and the rest of the application stay as they were, and
/// nothing is asked for.
pub proof fn lemma_enter_in_text_input(a: App, f: AddPackageForm, edit: Edit, b: App, e: EffectView)
    requires
        a.current_screen == Screen::AddPackageForm(f),
        f.selected == SelectedInput::Name || f.selected == SelectedInput::Links || f.selected
            == SelectedInput::Password,
        a.key_handled(KeyPress { key: Key::Enter, input: edit }, b, e),
    ensures
        e == EffectView::Nothing,
        b.previous_screen == a.previous_screen,
        b.quit == a.quit,
        b.status_bar == a.status_bar,
        b.current_screen matches Screen::AddPackageForm(g) && {
            &&& g.selected == f.selected
            &&& g.queue_checked == f.queue_checked
            &&& g.collector_checked == f.collector_checked
            &&& f.selected == SelectedInput::Name ==> text_lines(g.name) == text_after_key(f.name, edit)
                && g.links == f.links && g.password == f.password
            &&& f.selected == SelectedInput::Links ==> text_lines(g.links) == text_after_key(
                f.links,
                edit,
            ) && g.name == f.name && g.password == f.password
            &&& f.selected == SelectedInput::Password ==> text_lines(g.password) == text_after_key(
                f.password,
                edit,
            ) && g.name == f.name && g.links == f.links
        },
{
    let press = KeyPress { key: Key::Enter, input: edit };
    let (mid, out) = choose|mid: Screen, out: OutcomeView|
        #[trigger] a.current_screen.key_step(press, mid, out) && (App {
            current_screen: mid,
            ..a
        }).outcome_applied(press.key, out, b, e);
    assert(mid is AddPackageForm);
}

} // verus!
