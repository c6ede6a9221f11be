//! Properties of the interface that span several operations.
use vstd::prelude::*;
use crate::add_package_form::AddPackageForm;
use crate::app::{global_action, App, EffectView};
use crate::app_action::ActionView;
use crate::events::{EventKind, Pending, Reply, kind_of};
use crate::model::{EventInfo, PackageData};
use crate::packages_screen::{has_pid, in_listing_order, insert_position, listed_before, listed_no_later};
use crate::requests::OutcomeView;
use crate::screens::Screen;
use crate::search::{first_match, lemma_first_match_at, lemma_first_match_meaning};
use crate::table_state::{next_selection, previous_selection};
use crate::text::{links_of, trimmed};
use crate::text_input::{Edit, Key, KeyPress};

verus! {

/// Going back twice in a row comes back to where one started.
pub proof fn lemma_back_twice_restores(a: App, b: App, c: App)
    requires
        a.went_back(b),
        b.went_back(c),
    ensures
        c == a,
{
}

/// Opening the package form from any other screen, then leaving it (Esc
/// goes back), shows the same screen again, with its contents and
/// selection kept.
pub proof fn lemma_package_form_round_trip(a: App, b: App, c: App, e1: EffectView, e2: EffectView)
    requires
        !(a.current_screen is AddPackageForm),
        a.dispatched(Some(ActionView::OpenAddPackageForm), b, e1),
        b.dispatched(Some(ActionView::GoToPreviousScreen), c, e2),
    ensures
        c.current_screen == a.current_screen,
        c.quit == a.quit,
        c.status_bar == a.status_bar,
{
}

/// Opening the form for adding links from a files screen, then leaving it
/// (Esc goes back), shows the same files screen again.
pub proof fn lemma_links_form_round_trip(
    a: App,
    b: App,
    c: App,
    pid: i32,
    name: Seq<char>,
    e1: EffectView,
    e2: EffectView,
)
    requires
        a.current_screen is Files,
        a.dispatched(Some(ActionView::OpenAppendFilesForm(pid, name)), b, e1),
        b.dispatched(Some(ActionView::GoToPreviousScreen), c, e2),
    ensures
        c.current_screen == a.current_screen,
        c.quit == a.quit,
        c.status_bar == a.status_bar,
{
}

/// 'q' quits on every screen but the package form, where it is typed into
/// the text input that has the focus.
pub proof fn lemma_q_quits(a: App, edit: Edit, b: App, e: EffectView)
    requires
        a.key_handled(KeyPress { key: Key::Char('q'), input: edit }, b, e),
    ensures
        b.quit == (a.quit || !(a.current_screen is AddPackageForm)),
        e == EffectView::Nothing,
        a.current_screen matches Screen::AddPackageForm(f) ==> b.current_screen matches Screen::AddPackageForm(
            g,
        ) && f.typed(g, edit),
{
    let press = KeyPress { key: Key::Char('q'), input: edit };
    let (mid, out) = choose|mid: Screen, out: OutcomeView|
        #[trigger] a.current_screen.key_step(press, mid, out) && (App {
            current_screen: mid,
            ..a
        }).outcome_applied(press.key, out, b, e);
    let m = App { current_screen: mid, ..a };
    match a.current_screen {
        Screen::AddPackageForm(f) => {
            assert(mid is AddPackageForm);
            assert(global_action(mid, Key::Char('q')) is None);
        },
        _ => {},
    }
}

/// The request that a server key sends.
pub open spec fn server_key_call(c: char) -> Option<crate::requests::CallView> {
    if c == 'R' {
        Some(crate::requests::CallView::RestartFailed)
    } else if c == 'S' {
        Some(crate::requests::CallView::StopAllDownloads)
    } else if c == 'P' {
        Some(crate::requests::CallView::PauseServer)
    } else if c == 'U' {
        Some(crate::requests::CallView::UnpauseServer)
    } else if c == 'T' {
        Some(crate::requests::CallView::TogglePause)
    } else {
        None
    }
}

/// The server keys (R restarts the failed files, S stops all downloads, P
/// pauses, U unpauses, T toggles the queue) send their request from every
/// screen, and leave the application as it was but for what the key typed
/// into a form.
pub proof fn lemma_server_keys_everywhere(a: App, c: char, edit: Edit, b: App, e: EffectView)
    requires
        server_key_call(c) is Some,
        a.key_handled(KeyPress { key: Key::Char(c), input: edit }, b, e),
    ensures
        e == EffectView::Call(server_key_call(c).unwrap()),
        b.previous_screen == a.previous_screen,
        b.quit == a.quit,
        b.status_bar == a.status_bar,
        a.current_screen.key_step(
            KeyPress { key: Key::Char(c), input: edit },
            b.current_screen,
            OutcomeView::Action(None),
        ),
{
    let press = KeyPress { key: Key::Char(c), input: edit };
    let (mid, out) = choose|mid: Screen, out: OutcomeView|
        #[trigger] a.current_screen.key_step(press, mid, out) && (App {
            current_screen: mid,
            ..a
        }).outcome_applied(press.key, out, b, e);
}

/// Moving the selection down then up comes back to the same row, unless it
/// was on the very last index a table can hold.
pub proof fn lemma_down_then_up(selected: Option<usize>)
    requires
        selected matches Some(i) ==> i < usize::MAX,
    ensures
        selected is Some ==> previous_selection(Some(next_selection(selected))) == selected.unwrap(),
        selected is None ==> previous_selection(Some(next_selection(selected))) == 0,
{
}

/// In the package form, the queue and the collector are never both checked:
/// the form opens with one checked, and no key checks both.
pub proof fn lemma_one_destination(f: AddPackageForm, press: KeyPress, g: AddPackageForm, out: OutcomeView)
    requires
        !(f.queue_checked && f.collector_checked),
        f.key_step(press, g, out),
    ensures
        !(g.queue_checked && g.collector_checked),
{
}

/// A fresh package form has exactly one destination checked.
pub proof fn lemma_fresh_form_destination(f: AddPackageForm)
    requires
        f.is_fresh(),
    ensures
        f.queue_checked != f.collector_checked,
{
}

/// Every link taken from a text is a trimmed line of it, and none is empty.
pub proof fn lemma_links_are_trimmed_lines(lines: Seq<Seq<char>>)
    ensures
        forall|k: int|
            0 <= k < links_of(lines).len() ==> #[trigger] links_of(lines)[k].len() > 0
                && exists|j: int| 0 <= j < lines.len() && trimmed(lines[j]) == links_of(lines)[k],
    decreases lines.len(),
{
    if lines.len() > 0 {
        let rest = lines.drop_last();
        lemma_links_are_trimmed_lines(rest);
        assert forall|k: int| 0 <= k < links_of(lines).len() implies #[trigger] links_of(
            lines,
        )[k].len() > 0 && exists|j: int| 0 <= j < lines.len() && trimmed(lines[j]) == links_of(
            lines,
        )[k] by {
            if k < links_of(rest).len() {
                assert(links_of(lines)[k] == links_of(rest)[k]);
                assert(links_of(rest)[k].len() > 0);
                let j = choose|j: int| 0 <= j < rest.len() && trimmed(rest[j]) == links_of(rest)[k];
                assert(lines[j] == rest[j]);
            } else {
                assert(trimmed(lines[lines.len() - 1]) == links_of(lines)[k]);
            }
        }
    }
}

/// A package that the server reports as inserted, and then as removed,
/// leaves the list of packages as it was, when its id was not listed
/// before.
pub proof fn lemma_insert_then_remove(
    a: App,
    b: App,
    c: App,
    pkg: PackageData,
    ev: EventInfo,
    p: Option<Pending>,
    next: Option<Pending>,
)
    requires
        a.packages_target() is Some,
        first_match(a.packages_target().unwrap().packages@, has_pid(pkg.pid)) < 0,
        a.event_resumed(Pending::InsertPackage(pkg.pid), Reply::Package(pkg), b, next),
        kind_of(ev.eventname@) == EventKind::Remove,
        ev.event_type == Some(0i32),
        ev.id == Some(pkg.pid),
        b.event_begun(ev, c, p),
    ensures
        c.packages_target() is Some,
        c.packages_target().unwrap().packages@ == a.packages_target().unwrap().packages@,
{
    let ps = a.packages_target().unwrap().packages@;
    let i = insert_position(ps, pkg);
    lemma_first_match_meaning(ps, crate::packages_screen::listed_before(pkg));
    let inserted = ps.insert(i, pkg);
    assert(b.packages_target().unwrap().packages@ == inserted);
    lemma_first_match_meaning(ps, has_pid(pkg.pid));
    assert forall|j: int| 0 <= j < i implies !has_pid(pkg.pid)(#[trigger] inserted[j]) by {
        assert(inserted[j] == ps[j]);
    }
    lemma_first_match_at(inserted, has_pid(pkg.pid), i);
    assert(inserted.remove(i) =~= ps);
}

/// Inserting a package keeps a list in listing order (the queue before the
/// collector, then by order), and the package goes after every package
/// listed no later than it and before all the others.
pub proof fn lemma_insert_keeps_order(ps: Seq<PackageData>, new: PackageData)
    requires
        in_listing_order(ps),
    ensures
        0 <= insert_position(ps, new) <= ps.len(),
        in_listing_order(ps.insert(insert_position(ps, new), new)),
        forall|j: int|
            0 <= j < insert_position(ps, new) ==> listed_no_later(#[trigger] ps[j], new),
        forall|j: int|
            insert_position(ps, new) <= j < ps.len() ==> !listed_no_later(#[trigger] ps[j], new),
{
    let k = insert_position(ps, new);
    let before = listed_before(new);
    lemma_first_match_meaning(ps, before);
    assert forall|j: int| 0 <= j < k implies listed_no_later(#[trigger] ps[j], new) by {
        assert(!before(ps[j]));
    }
    assert forall|j: int| k <= j < ps.len() implies !listed_no_later(#[trigger] ps[j], new) by {
        assert(before(ps[k]));
        if j > k {
            assert(listed_no_later(ps[k], ps[j]));
        }
    }
    let ins = ps.insert(k, new);
    assert forall|i: int, j: int| 0 <= i < j < ins.len() implies listed_no_later(
        #[trigger] ins[i],
        #[trigger] ins[j],
    ) by {
        if j < k {
            assert(ins[i] == ps[i] && ins[j] == ps[j]);
        } else if j == k {
            assert(ins[i] == ps[i]);
            assert(listed_no_later(ps[i], new));
        } else if i < k {
            assert(ins[i] == ps[i] && ins[j] == ps[j - 1]);
            assert(listed_no_later(ps[i], ps[j - 1]));
        } else if i == k {
            assert(ins[j] == ps[j - 1]);
            assert(!listed_no_later(ps[j - 1], new));
        } else {
            assert(ins[i] == ps[i - 1] && ins[j] == ps[j - 1]);
            assert(listed_no_later(ps[i - 1], ps[j - 1]));
        }
    }
}

/// A package that the server reports as inserted goes into the packages
/// screen at its place: a list in listing order stays in listing order.
pub proof fn lemma_inserted_package_keeps_order(
    a: App,
    pid: i32,
    pkg: PackageData,
    b: App,
    next: Option<Pending>,
)
    requires
        a.packages_target() is Some,
        in_listing_order(a.packages_target().unwrap().packages@),
        a.event_resumed(Pending::InsertPackage(pid), Reply::Package(pkg), b, next),
    ensures
        b.packages_target() is Some,
        b.packages_target().unwrap().packages@ == a.packages_target().unwrap().packages@.insert(
            insert_position(a.packages_target().unwrap().packages@, pkg),
            pkg,
        ),
        in_listing_order(b.packages_target().unwrap().packages@),
{
    lemma_insert_keeps_order(a.packages_target().unwrap().packages@, pkg);
}

} // verus!
