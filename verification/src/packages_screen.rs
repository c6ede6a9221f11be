//! The packages screen: the packages of the queue and of the collector, and
//! what its keys ask for.
use vstd::prelude::*;
use crate::app_action::{action_view, single, ActionView, AppAction};
use crate::model::{Destination, PackageData};
use crate::table_state::{next_selection, previous_selection, TableState};
use crate::text_input::Key;
use crate::search::{first_match, lemma_first_match_at};

verus! {

/// The list of packages and its selection.
#[derive(Debug)]
pub struct PackagesScreen {
    pub packages: Vec<PackageData>,
    pub table_state: TableState,
}

/// Highest order among the packages of a destination (0 when there is none).
pub open spec fn max_order_in(ps: Seq<PackageData>, dest: Destination) -> int
    decreases ps.len(),
{
    if ps.len() == 0 {
        0
    } else {
        let rest = max_order_in(ps.drop_last(), dest);
        let p = ps.last();
        if p.dest != dest {
            rest
        } else if !has_dest(ps.drop_last(), dest) || p.order > rest {
            p.order as int
        } else {
            rest
        }
    }
}

/// Whether some package stands in a destination.
pub open spec fn has_dest(ps: Seq<PackageData>, dest: Destination) -> bool {
    exists|j: int| 0 <= j < ps.len() && (#[trigger] ps[j]).dest == dest
}

/// Whether a package has the id `pid`.
pub open spec fn has_pid(pid: i32) -> spec_fn(PackageData) -> bool {
    |p: PackageData| p.pid == pid
}

/// Whether a package is listed before `new`: the queue before the
/// collector, and within one destination in the server's order.
pub open spec fn listed_before(new: PackageData) -> spec_fn(PackageData) -> bool {
    |p: PackageData| p.dest.rank() < new.dest.rank() || (p.dest == new.dest && p.order > new.order)
}

/// Whether package `a` is listed no later than package `b`: the queue comes
/// before the collector, and within a destination the lower order first.
pub open spec fn listed_no_later(a: PackageData, b: PackageData) -> bool {
    a.dest.rank() > b.dest.rank() || (a.dest == b.dest && a.order <= b.order)
}

/// Whether packages are in listing order.
pub open spec fn in_listing_order(ps: Seq<PackageData>) -> bool {
    forall|i: int, j: int|
        0 <= i < j < ps.len() ==> listed_no_later(#[trigger] ps[i], #[trigger] ps[j])
}

/// Where a new package is inserted in the list: before the first package
/// that it is not listed after, or at the end.
pub open spec fn insert_position(ps: Seq<PackageData>, new: PackageData) -> int {
    let i = first_match(ps, listed_before(new));
    if i < 0 {
        ps.len() as int
    } else {
        i
    }
}

fn goes_before(p: &PackageData, new: &PackageData) -> (b: bool)
    ensures
        b == listed_before(*new)(*p),
{
    p.dest.is_below(&new.dest) || (p.dest == new.dest && p.order > new.order)
}

impl PackagesScreen {
    /// Position of the first package with id `pid`.
    pub fn position_of(&self, pid: i32) -> (r: Option<usize>)
        ensures
            match r {
                Some(i) => i < self.packages@.len() && i == first_match(self.packages@, has_pid(pid)),
                None => first_match(self.packages@, has_pid(pid)) < 0,
            },
    {
        let n = self.packages.len();
        let mut i: usize = 0;
        while i < n
            invariant
                n == self.packages@.len(),
                i <= n,
                forall|j: int| 0 <= j < i ==> !has_pid(pid)(#[trigger] self.packages@[j]),
            decreases n - i,
        {
            if self.packages[i].pid == pid {
                proof {
                    lemma_first_match_at(self.packages@, has_pid(pid), i as int);
                }
                return Some(i);
            }
            i = i + 1;
        }
        proof {
            lemma_first_match_at(self.packages@, has_pid(pid), n as int);
        }
        None
    }

    /// Removes the first package with id `pid`, if there is one.
    pub fn remove_package(&mut self, pid: i32)
        ensures
            final(self).packages@ == {
                let i = first_match(old(self).packages@, has_pid(pid));
                if i < 0 {
                    old(self).packages@
                } else {
                    old(self).packages@.remove(i)
                }
            },
            final(self).table_state == old(self).table_state,
            first_match(old(self).packages@, has_pid(pid)) < 0 ==> *final(self) == *old(self),
    {
        if let Some(i) = self.position_of(pid) {
            self.packages.remove(i);
        }
    }

    /// Replaces the first package with id `pid` by `package`; returns, when
    /// there was one, whether its total of links changed.
    pub fn replace_package(&mut self, pid: i32, package: PackageData) -> (r: Option<bool>)
        ensures
            ({
                let i = first_match(old(self).packages@, has_pid(pid));
                if i < 0 {
                    r is None && final(self).packages@ == old(self).packages@
                } else {
                    r == Some(old(self).packages@[i].linkstotal != package.linkstotal)
                        && final(self).packages@ == old(self).packages@.update(i, package)
                }
            }),
            final(self).table_state == old(self).table_state,
            r is None ==> *final(self) == *old(self),
    {
        match self.position_of(pid) {
            Some(i) => {
                let changed = self.packages[i].linkstotal != package.linkstotal;
                self.packages.set(i, package);
                Some(changed)
            },
            None => None,
        }
    }

    /// Inserts a new package where the server lists it, and selects it.
    pub fn insert_package(&mut self, package: PackageData)
        ensures
            ({
                let i = insert_position(old(self).packages@, package);
                &&& final(self).packages@ == old(self).packages@.insert(i, package)
                &&& final(self).table_state == (TableState {
                    selected: Some(i as usize),
                    ..old(self).table_state
                })
            }),
    {
        let n = self.packages.len();
        let mut i: usize = 0;
        while i < n && !goes_before(&self.packages[i], &package)
            invariant
                n == self.packages@.len(),
                i <= n,
                forall|j: int| 0 <= j < i ==> !listed_before(package)(#[trigger] self.packages@[j]),
            decreases n - i,
        {
            i = i + 1;
        }
        proof {
            lemma_first_match_at(self.packages@, listed_before(package), i as int);
        }
        self.packages.insert(i, package);
        self.table_state.select(Some(i));
    }

    /// Replaces all the packages, and selects the first one.
    pub fn reload(&mut self, packages: Vec<PackageData>)
        ensures
            final(self).packages == packages,
            final(self).table_state == (TableState { selected: Some(0), ..old(self).table_state }),
    {
        self.packages = packages;
        self.table_state.select_first();
    }

    /// Whether the selection is a row of the list, or nothing.
    pub open spec fn selection_valid(self) -> bool {
        match self.table_state.selected {
            Some(i) => i < self.packages@.len(),
            None => true,
        }
    }

    /// Whether a key can be handled: keys that act on the selected package
    /// need the selection to be a row, and 'a' and 'l' need a selection.
    pub open spec fn accepts(self, key: Key) -> bool {
        match key {
            Key::Char('a') | Key::Char('l') => self.table_state.selected is Some
                && self.selection_valid(),
            Key::Char('d') | Key::Char('r') | Key::Char('m') | Key::Char('J') | Key::Char('K') => {
                self.selection_valid()
            },
            _ => true,
        }
    }

    /// The selected package.
    pub open spec fn chosen(self) -> PackageData {
        self.packages@[self.table_state.selected.unwrap() as int]
    }

    /// The action that a key asks for.
    pub open spec fn key_action(self, key: Key) -> Option<ActionView> {
        let sel = self.table_state.selected;
        let p = self.chosen();
        match key {
            Key::Char('q') => Some(ActionView::Quit),
            Key::Char('a') => Some(ActionView::OpenAppendFilesForm(p.pid, p.name@)),
            Key::Char('l') => Some(ActionView::GoToFiles(p.pid, p.name@)),
            Key::Char('d') => if sel is None { None } else { Some(ActionView::DeletePackages(seq![p.pid])) },
            Key::Char('r') => if sel is None { None } else { Some(ActionView::RestartPackage(p.pid)) },
            Key::Char('m') => if sel is None {
                None
            } else {
                Some(
                    ActionView::MovePackage(
                        match p.dest {
                            Destination::Collector => Destination::Queue,
                            Destination::Queue => Destination::Collector,
                        },
                        p.pid,
                    ),
                )
            },
            Key::Char('J') => if sel is None || p.order >= max_order_in(self.packages@, p.dest) {
                None
            } else {
                Some(ActionView::ReorderPackage(p.pid, (p.order + 1) as i32))
            },
            Key::Char('K') => if sel is None || p.order <= 0 {
                None
            } else {
                Some(ActionView::ReorderPackage(p.pid, (p.order - 1) as i32))
            },
            _ => None,
        }
    }

    /// The table state after a key.
    pub open spec fn key_table_state(self, key: Key) -> TableState {
        match key {
            Key::Char('j') => TableState {
                selected: Some(next_selection(self.table_state.selected)),
                ..self.table_state
            },
            Key::Char('k') => TableState {
                selected: Some(previous_selection(self.table_state.selected)),
                ..self.table_state
            },
            _ => self.table_state,
        }
    }

    /// The screen with the fetched packages (none when the fetch failed),
    /// the first row selected.
    pub fn new(fetched: Result<Vec<PackageData>, String>) -> (s: PackagesScreen)
        ensures
            s.packages@ == match fetched {
                Ok(ps) => ps@,
                Err(_) => Seq::<PackageData>::empty(),
            },
            s.table_state == (TableState { selected: Some(0), offset: 0 }),
    {
        let packages = match fetched {
            Ok(ps) => ps,
            Err(_) => Vec::new(),
        };
        PackagesScreen { packages, table_state: TableState::new().with_selected(0) }
    }

    fn max_order(&self, dest: Destination) -> (m: i32)
        ensures
            m == max_order_in(self.packages@, dest),
    {
        let mut m: i32 = 0;
        let mut found = false;
        for i in 0..self.packages.len()
            invariant
                m == max_order_in(self.packages@.subrange(0, i as int), dest),
                found == has_dest(self.packages@.subrange(0, i as int), dest),
        {
            let ghost prefix = self.packages@.subrange(0, i as int);
            let ghost next = self.packages@.subrange(0, i + 1);
            assert(next.drop_last() =~= prefix);
            let p = &self.packages[i];
            if p.dest == dest {
                if !found || p.order > m {
                    m = p.order;
                }
                found = true;
                assert(next[i as int].dest == dest);
            } else {
                assert forall|j: int| 0 <= j < next.len() && (#[trigger] next[j]).dest == dest
                    implies 0 <= j < prefix.len() && prefix[j].dest == dest by {
                    assert(j != i);
                }
                assert(has_dest(next, dest) == has_dest(prefix, dest)) by {
                    if has_dest(prefix, dest) {
                        let j = choose|j: int| 0 <= j < prefix.len() && (#[trigger] prefix[j]).dest == dest;
                        assert(next[j] == prefix[j]);
                    }
                }
            }
            assert(has_dest(next, dest) == (found)) by {
                if p.dest == dest {
                    assert(next[i as int].dest == dest);
                } else if has_dest(prefix, dest) {
                    let j = choose|j: int| 0 <= j < prefix.len() && (#[trigger] prefix[j]).dest == dest;
                    assert(next[j] == prefix[j]);
                }
            }
        }
        assert(self.packages@.subrange(0, self.packages@.len() as int) =~= self.packages@);
        m
    }

    /// Handles a key: moves the selection on 'j' and 'k', and returns the
    /// action that the key asks for.
    pub fn handle_keys(&mut self, key: Key) -> (action: Option<AppAction>)
        requires
            old(self).accepts(key),
        ensures
            action_view(action) == old(self).key_action(key),
            final(self).packages == old(self).packages,
            final(self).table_state == old(self).key_table_state(key),
    {
        match key {
            Key::Char('q') => Some(AppAction::Quit),
            Key::Char('a') => {
                let index = self.table_state.selected().unwrap();
                let pkg = &self.packages[index];
                Some(AppAction::OpenAppendFilesForm(pkg.pid, pkg.name.clone()))
            },
            Key::Char('d') => {
                let index = self.table_state.selected()?;
                Some(AppAction::DeletePackages(single(self.packages[index].pid)))
            },
            Key::Char('l') => {
                let index = self.table_state.selected().unwrap();
                let pkg = &self.packages[index];
                Some(AppAction::GoToFiles(pkg.pid, pkg.name.clone()))
            },
            Key::Char('r') => {
                let index = self.table_state.selected()?;
                Some(AppAction::RestartPackage(self.packages[index].pid))
            },
            Key::Char('m') => {
                let index = self.table_state.selected()?;
                let pkg = &self.packages[index];
                Some(AppAction::MovePackage(pkg.dest.other(), pkg.pid))
            },
            Key::Char('J') => {
                let index = self.table_state.selected()?;
                let pkg = &self.packages[index];
                let max_order = self.max_order(pkg.dest);
                if pkg.order < max_order {
                    Some(AppAction::ReorderPackage(pkg.pid, pkg.order + 1))
                } else {
                    None
                }
            },
            Key::Char('K') => {
                let index = self.table_state.selected()?;
                let pkg = &self.packages[index];
                if pkg.order > 0 {
                    Some(AppAction::ReorderPackage(pkg.pid, pkg.order - 1))
                } else {
                    None
                }
            },
            Key::Char('j') => {
                self.table_state.select_next();
                None
            },
            Key::Char('k') => {
                self.table_state.select_previous();
                None
            },
            _ => None,
        }
    }
}

impl Default for PackagesScreen {
    fn default() -> (s: PackagesScreen)
        ensures
            s.packages@.len() == 0,
            s.table_state == (TableState { selected: None, offset: 0 }),
    {
        PackagesScreen { packages: Vec::new(), table_state: TableState::new() }
    }
}

} // verus!
