//! The files screen: the files of one package, and what its keys ask for.
use vstd::prelude::*;
use crate::app_action::{action_view, single, ActionView, AppAction};
use crate::model::{DownloadInfo, FileData};
use crate::table_state::{next_selection, previous_selection, TableState};
use crate::text_input::Key;
use crate::search::{first_match, lemma_first_match_at};

verus! {

/// The files of a package, the running downloads, and the selection.
#[derive(Debug)]
pub struct FilesScreen {
    pub package_id: i32,
    pub package_name: String,
    pub files: Vec<FileData>,
    pub downloads_info: Vec<DownloadInfo>,
    pub table_state: TableState,
}

/// Highest order among files (0 when there is none).
pub open spec fn max_file_order(fs: Seq<FileData>) -> int
    decreases fs.len(),
{
    if fs.len() == 0 {
        0
    } else if fs.len() == 1 {
        fs[0].order as int
    } else {
        let rest = max_file_order(fs.drop_last());
        if fs.last().order > rest {
            fs.last().order as int
        } else {
            rest
        }
    }
}

/// Whether a file has the id `fid`.
pub open spec fn has_fid(fid: i32) -> spec_fn(FileData) -> bool {
    |f: FileData| f.fid == fid
}

/// Position of the first file with id `fid` in `fs`.
pub fn file_position(fs: &Vec<FileData>, fid: i32) -> (r: Option<usize>)
    ensures
        match r {
            Some(i) => i < fs@.len() && i == first_match(fs@, has_fid(fid)),
            None => first_match(fs@, has_fid(fid)) < 0,
        },
{
    let n = fs.len();
    let mut i: usize = 0;
    while i < n
        invariant
            n == fs@.len(),
            i <= n,
            forall|j: int| 0 <= j < i ==> !has_fid(fid)(#[trigger] fs@[j]),
        decreases n - i,
    {
        if fs[i].fid == fid {
            proof {
                lemma_first_match_at(fs@, has_fid(fid), i as int);
            }
            return Some(i);
        }
        i = i + 1;
    }
    proof {
        lemma_first_match_at(fs@, has_fid(fid), n as int);
    }
    None
}

impl FilesScreen {
    /// Removes the first file with id `fid`, if there is one.
    pub fn remove_file(&mut self, fid: i32)
        ensures
            final(self).files@ == {
                let i = first_match(old(self).files@, has_fid(fid));
                if i < 0 {
                    old(self).files@
                } else {
                    old(self).files@.remove(i)
                }
            },
            final(self).package_id == old(self).package_id,
            final(self).package_name == old(self).package_name,
            final(self).downloads_info == old(self).downloads_info,
            final(self).table_state == old(self).table_state,
            first_match(old(self).files@, has_fid(fid)) < 0 ==> *final(self) == *old(self),
    {
        if let Some(i) = file_position(&self.files, fid) {
            self.files.remove(i);
        }
    }

    /// Replaces the first file with id `fid` by `file`, when `file` belongs
    /// to this screen's package; returns whether it did.
    pub fn replace_file(&mut self, fid: i32, file: FileData) -> (done: bool)
        ensures
            ({
                let i = first_match(old(self).files@, has_fid(fid));
                if file.package_id != old(self).package_id || i < 0 {
                    !done && final(self).files@ == old(self).files@
                } else {
                    done && final(self).files@ == old(self).files@.update(i, file)
                }
            }),
            final(self).package_id == old(self).package_id,
            final(self).package_name == old(self).package_name,
            final(self).downloads_info == old(self).downloads_info,
            final(self).table_state == old(self).table_state,
            !done ==> *final(self) == *old(self),
    {
        if self.package_id != file.package_id {
            return false;
        }
        match file_position(&self.files, fid) {
            Some(i) => {
                self.files.set(i, file);
                true
            },
            None => false,
        }
    }

    /// Replaces all the files; selects the file with id `fid` when it is
    /// among them.
    pub fn reload_selecting(&mut self, files: Vec<FileData>, fid: i32)
        ensures
            final(self).files == files,
            final(self).table_state == {
                let i = first_match(files@, has_fid(fid));
                if i < 0 {
                    old(self).table_state
                } else {
                    TableState { selected: Some(i as usize), ..old(self).table_state }
                }
            },
            final(self).package_id == old(self).package_id,
            final(self).package_name == old(self).package_name,
            final(self).downloads_info == old(self).downloads_info,
    {
        let pos = file_position(&files, fid);
        self.files = files;
        if let Some(i) = pos {
            self.table_state.select(Some(i));
        }
    }

    /// Whether the selection is a row of the list, or nothing.
    pub open spec fn selection_valid(self) -> bool {
        match self.table_state.selected {
            Some(i) => i < self.files@.len(),
            None => true,
        }
    }

    /// Whether a key can be handled: keys that act on the selected file need
    /// the selection to be a row or nothing.
    pub open spec fn accepts(self, key: Key) -> bool {
        match key {
            Key::Char('s') | Key::Char('r') | Key::Char('d') | Key::Char('J') | Key::Char('K') => {
                self.selection_valid()
            },
            _ => true,
        }
    }

    /// The selected file.
    pub open spec fn chosen(self) -> FileData {
        self.files@[self.table_state.selected.unwrap() as int]
    }

    /// The action that a key asks for.
    pub open spec fn key_action(self, key: Key) -> Option<ActionView> {
        let sel = self.table_state.selected;
        let f = self.chosen();
        match key {
            Key::Char('a') => Some(ActionView::OpenAppendFilesForm(self.package_id, self.package_name@)),
            Key::Char('q') => Some(ActionView::Quit),
            Key::Char('h') => Some(ActionView::GoToPackages),
            Key::Char('s') => if sel is None { None } else { Some(ActionView::StopDownloads(seq![f.fid])) },
            Key::Char('r') => if sel is None { None } else { Some(ActionView::RestartFile(f.fid)) },
            Key::Char('d') => if sel is None { None } else { Some(ActionView::DeleteFiles(seq![f.fid])) },
            Key::Char('J') => if sel is None || f.order >= max_file_order(self.files@) {
                None
            } else {
                Some(ActionView::ReorderFile(f.fid, (f.order + 1) as i32))
            },
            Key::Char('K') => if sel is None || f.order <= 0 {
                None
            } else {
                Some(ActionView::ReorderFile(f.fid, (f.order - 1) as i32))
            },
            _ => None,
        }
    }

    /// The table state after a key.
    pub open spec fn key_table_state(self, key: Key) -> TableState {
        match key {
            Key::Char('j') => TableState {
                selected: Some(next_selection(self.table_state.selected)),
                ..self.table_state
            },
            Key::Char('k') => TableState {
                selected: Some(previous_selection(self.table_state.selected)),
                ..self.table_state
            },
            _ => self.table_state,
        }
    }

    /// The screen of a package with its fetched files (none when the fetch
    /// failed) and the running downloads, the first row selected.
    pub fn new(
        package_id: i32,
        package_name: String,
        files: Result<Vec<FileData>, String>,
        downloads_info: Vec<DownloadInfo>,
    ) -> (s: FilesScreen)
        ensures
            s.package_id == package_id,
            s.package_name == package_name,
            s.files@ == match files {
                Ok(fs) => fs@,
                Err(_) => Seq::<FileData>::empty(),
            },
            s.downloads_info == downloads_info,
            s.table_state == (TableState { selected: Some(0), offset: 0 }),
    {
        let files = match files {
            Ok(fs) => fs,
            Err(_) => Vec::new(),
        };
        FilesScreen {
            package_id,
            package_name,
            files,
            downloads_info,
            table_state: TableState::new().with_selected(0),
        }
    }

    fn max_order(&self) -> (m: i32)
        ensures
            m == max_file_order(self.files@),
    {
        let n = self.files.len();
        if n == 0 {
            return 0;
        }
        let mut m: i32 = self.files[0].order;
        let mut i: usize = 1;
        assert(self.files@.subrange(0, 1).drop_last().len() == 0);
        assert(max_file_order(self.files@.subrange(0, 1)) == self.files@[0].order);
        while i < n
            invariant
                1 <= i <= n,
                n == self.files@.len(),
                m == max_file_order(self.files@.subrange(0, i as int)),
            decreases n - i,
        {
            assert(self.files@.subrange(0, i + 1).drop_last() =~= self.files@.subrange(0, i as int));
            if self.files[i].order > m {
                m = self.files[i].order;
            }
            i = i + 1;
        }
        assert(self.files@.subrange(0, n as int) =~= self.files@);
        m
    }

    /// Handles a key: moves the selection on 'j' and 'k', and returns the
    /// action that the key asks for.
    pub fn handle_keys(&mut self, key: Key) -> (action: Option<AppAction>)
        requires
            old(self).accepts(key),
        ensures
            action_view(action) == old(self).key_action(key),
            final(self).package_id == old(self).package_id,
            final(self).package_name == old(self).package_name,
            final(self).files == old(self).files,
            final(self).downloads_info == old(self).downloads_info,
            final(self).table_state == old(self).key_table_state(key),
    {
        match key {
            Key::Char('a') => Some(AppAction::OpenAppendFilesForm(self.package_id, self.package_name.clone())),
            Key::Char('q') => Some(AppAction::Quit),
            Key::Char('h') => Some(AppAction::GoToPackages),
            Key::Char('s') => {
                let file = self.table_state.selected()?;
                Some(AppAction::StopDownloads(single(self.files[file].fid)))
            },
            Key::Char('r') => {
                let file = self.table_state.selected()?;
                Some(AppAction::RestartFile(self.files[file].fid))
            },
            Key::Char('j') => {
                self.table_state.select_next();
                None
            },
            Key::Char('k') => {
                self.table_state.select_previous();
                None
            },
            Key::Char('d') => {
                let file = self.table_state.selected()?;
                Some(AppAction::DeleteFiles(single(self.files[file].fid)))
            },
            Key::Char('J') => {
                let index = self.table_state.selected()?;
                let file = &self.files[index];
                let max_order = self.max_order();
                if file.order < max_order {
                    Some(AppAction::ReorderFile(file.fid, file.order + 1))
                } else {
                    None
                }
            },
            Key::Char('K') => {
                let index = self.table_state.selected()?;
                let file = &self.files[index];
                if file.order > 0 {
                    Some(AppAction::ReorderFile(file.fid, file.order - 1))
                } else {
                    None
                }
            },
            _ => None,
        }
    }
}

impl Default for FilesScreen {
    fn default() -> (s: FilesScreen)
        ensures
            s.package_id == 0,
            s.package_name@.len() == 0,
            s.files@.len() == 0,
            s.downloads_info@.len() == 0,
            s.table_state == (TableState { selected: None, offset: 0 }),
    {
        FilesScreen {
            package_id: 0,
            package_name: String::new(),
            files: Vec::new(),
            downloads_info: Vec::new(),
            table_state: TableState::new(),
        }
    }
}

} // verus!
