//! The downloads screen: the running downloads.
use vstd::prelude::*;
use crate::app_action::{action_view, ActionView, AppAction};
use crate::model::DownloadInfo;
use crate::number_text::{int_text, int_to_text};
use crate::table::{header_text, row_text, rows_text};
use crate::table_state::{next_selection, previous_selection, TableState};
use crate::text_input::Key;

verus! {

/// The running downloads and the selection.
#[derive(Debug)]
pub struct DownloadsScreen {
    pub downloads_info: Vec<DownloadInfo>,
    pub table_state: TableState,
}

/// The rows of the downloads table, one per download, in order.
pub struct DownloadsTable {
    pub rows: Vec<Vec<String>>,
}

/// The cells of a download's row: status, name, hoster, info, size and
/// progress.
pub open spec fn download_cells(d: DownloadInfo) -> Seq<Seq<char>> {
    seq![d.statusmsg@, d.name@, d.plugin@, d.info@, d.format_size@, int_text(d.percent as int)]
}

/// The cells of a download's row.
pub fn download_row(d: &DownloadInfo) -> (row: Vec<String>)
    ensures
        row_text(row) == download_cells(*d),
{
    let mut row: Vec<String> = Vec::new();
    row.push(d.statusmsg.clone());
    row.push(d.name.clone());
    row.push(d.plugin.clone());
    row.push(d.info.clone());
    row.push(d.format_size.clone());
    row.push(int_to_text(d.percent as i64));
    assert(row_text(row) =~= download_cells(*d));
    row
}

/// The header of the downloads table.
pub open spec fn downloads_header() -> Seq<Seq<char>> {
    seq!["Status"@, "Name"@, "Hoster"@, "Info"@, "Size"@, "Progress"@]
}

impl DownloadsTable {
    /// The header of the table: one title per column of the rows.
    pub fn header() -> (h: Vec<&'static str>)
        ensures
            header_text(h@) == downloads_header(),
    {
        let mut h: Vec<&'static str> = Vec::new();
        h.push("Status");
        h.push("Name");
        h.push("Hoster");
        h.push("Info");
        h.push("Size");
        h.push("Progress");
        assert(header_text(h@) =~= downloads_header());
        h
    }

    /// The table of the given downloads.
    pub fn from_downloads(downloads_info: &Vec<DownloadInfo>) -> (t: DownloadsTable)
        ensures
            rows_text(t.rows@) == downloads_info@.map_values(|d: DownloadInfo| download_cells(d)),
    {
        let mut rows: Vec<Vec<String>> = Vec::new();
        for i in 0..downloads_info.len()
            invariant
                rows@.len() == i,
                forall|j: int|
                    0 <= j < i ==> row_text(#[trigger] rows@[j]) == download_cells(downloads_info@[j]),
        {
            rows.push(download_row(&downloads_info[i]));
        }
        assert(rows_text(rows@) =~= downloads_info@.map_values(|d: DownloadInfo| download_cells(d)));
        DownloadsTable { rows }
    }
}

impl DownloadsScreen {
    /// The action that a key asks for.
    pub open spec fn key_action(self, key: Key) -> Option<ActionView> {
        match key {
            Key::Char('q') => Some(ActionView::Quit),
            Key::Char('h') => Some(ActionView::GoToPreviousScreen),
            _ => None,
        }
    }

    /// The table state after a key.
    pub open spec fn key_table_state(self, key: Key) -> TableState {
        match key {
            Key::Char('j') => TableState {
                selected: Some(next_selection(self.table_state.selected)),
                ..self.table_state
            },
            Key::Char('k') => TableState {
                selected: Some(previous_selection(self.table_state.selected)),
                ..self.table_state
            },
            _ => self.table_state,
        }
    }

    /// Handles a key: moves the selection on 'j' and 'k', goes back on 'h',
    /// quits on 'q'.
    pub fn handle_keys(&mut self, key: Key) -> (action: Option<AppAction>)
        ensures
            action_view(action) == old(self).key_action(key),
            final(self).downloads_info == old(self).downloads_info,
            final(self).table_state == old(self).key_table_state(key),
    {
        match key {
            Key::Char('q') => Some(AppAction::Quit),
            Key::Char('h') => Some(AppAction::GoToPreviousScreen),
            Key::Char('j') => {
                self.table_state.select_next();
                None
            },
            Key::Char('k') => {
                self.table_state.select_previous();
                None
            },
            _ => None,
        }
    }
}

impl Default for DownloadsScreen {
    fn default() -> (s: DownloadsScreen)
        ensures
            s.downloads_info@.len() == 0,
            s.table_state == (TableState { selected: None, offset: 0 }),
    {
        DownloadsScreen { downloads_info: Vec::new(), table_state: TableState::new() }
    }
}

} // verus!
