//! The status bar: the last server status received, and the table that shows
//! it.
use vstd::prelude::*;
use crate::palette::Color;
use crate::model::ServerStatus;
use crate::number_text::{int_text, int_to_text, push_int_text, push_scaled, scaled_text};
use crate::table::rows_text;

verus! {

/// The last server status that the interface received, if any.
#[derive(Clone, Copy, Debug)]
pub struct StatusBar {
    server_status: Option<ServerStatus>,
}

impl StatusBar {
    /// The status shown.
    pub closed spec fn shown(self) -> Option<ServerStatus> {
        self.server_status
    }

    /// A status bar that has received no status yet.
    pub fn new() -> (bar: StatusBar)
        ensures
            bar.shown() is None,
    {
        StatusBar { server_status: None }
    }

    /// The status shown.
    pub fn server_status(&self) -> (s: Option<ServerStatus>)
        ensures
            s == self.shown(),
    {
        self.server_status
    }

    /// Shows a newly received status.
    pub fn refresh(&mut self, server_status: ServerStatus)
        ensures
            final(self).shown() == Some(server_status),
    {
        if let Some(current) = self.server_status {
            if current == server_status {
                return;
            }
        }
        self.server_status = Some(server_status);
    }
}

impl Default for StatusBar {
    fn default() -> (bar: StatusBar)
        ensures
            bar.shown() is None,
    {
        StatusBar::new()
    }
}

/// A transfer speed in bytes per second, in the largest unit it reaches
/// (1024-based), with one decimal.
pub open spec fn speed_text(speed: int) -> Seq<char> {
    if speed >= 0x4000_0000 {
        scaled_text(speed as nat, 30, 1) + " GB/s"@
    } else if speed >= 0x10_0000 {
        scaled_text(speed as nat, 20, 1) + " MB/s"@
    } else if speed >= 0x400 {
        scaled_text(speed as nat, 10, 1) + " KB/s"@
    } else {
        int_text(speed) + " B/s"@
    }
}

/// A transfer speed in bytes per second, in the largest unit it reaches
/// (1024-based), with one decimal.
pub fn format_speed(speed: i64) -> (s: String)
    ensures
        s@ == speed_text(speed as int),
{
    let mut s = String::new();
    if speed >= 0x4000_0000 {
        push_scaled(&mut s, speed as u64, 30, 1);
        s.append(" GB/s");
    } else if speed >= 0x10_0000 {
        push_scaled(&mut s, speed as u64, 20, 1);
        s.append(" MB/s");
    } else if speed >= 0x400 {
        push_scaled(&mut s, speed as u64, 10, 1);
        s.append(" KB/s");
    } else {
        push_int_text(&mut s, speed);
        s.append(" B/s");
    }
    assert(s@ =~= speed_text(speed as int));
    s
}

/// The rows of the status table: the queue's state, the number of active
/// downloads, and the speed (a dash when nothing is active).
pub open spec fn status_cells(st: ServerStatus) -> Seq<Seq<Seq<char>>> {
    seq![
        seq!["QUEUE:"@, if st.pause { "PAUSED"@ } else { "UNPAUSED"@ }],
        seq!["ACTIVE:"@, int_text(st.active as int)],
        seq!["SPEED:"@, if st.active > 0 { speed_text(st.speed as int) } else { "―"@ }],
    ]
}

/// The table that shows a server status.
pub struct StatusTable {
    pub rows: Vec<Vec<String>>,
    /// The colour of each row, drawn bold.
    pub colors: Vec<Color>,
}

/// The colours of the status rows: the queue yellow when paused and green
/// otherwise, the active count magenta, the speed blue.
pub open spec fn status_colors(s: ServerStatus) -> Seq<Color> {
    seq![if s.pause { Color::Yellow } else { Color::Green }, Color::Magenta, Color::Blue]
}

fn pair(a: String, b: String) -> (row: Vec<String>)
    ensures
        row@.map_values(|c: String| c@) == seq![a@, b@],
{
    let mut row = Vec::new();
    row.push(a);
    row.push(b);
    assert(row@.map_values(|c: String| c@) =~= seq![a@, b@]);
    row
}

impl StatusTable {
    /// The table of a server status.
    pub fn from_status(server_status: ServerStatus) -> (t: StatusTable)
        ensures
            rows_text(t.rows@) == status_cells(server_status),
            t.colors@ == status_colors(server_status),
    {
        let queue_label = if server_status.pause {
            String::from_str("PAUSED")
        } else {
            String::from_str("UNPAUSED")
        };
        let speed = if server_status.active > 0 {
            format_speed(server_status.speed)
        } else {
            String::from_str("―")
        };
        let mut rows: Vec<Vec<String>> = Vec::new();
        rows.push(pair(String::from_str("QUEUE:"), queue_label));
        rows.push(pair(String::from_str("ACTIVE:"), int_to_text(server_status.active as i64)));
        rows.push(pair(String::from_str("SPEED:"), speed));
        assert(rows_text(rows@) =~= status_cells(server_status));
        let mut colors: Vec<Color> = Vec::new();
        colors.push(
            if server_status.pause {
                Color::Yellow
            } else {
                Color::Green
            },
        );
        colors.push(Color::Magenta);
        colors.push(Color::Blue);
        assert(colors@ =~= status_colors(server_status));
        StatusTable { rows, colors }
    }
}

} // verus!
