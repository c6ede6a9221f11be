//! The cells of the packages table and of the files table.
use vstd::prelude::*;
use crate::model::{FileData, PackageData};
use crate::number_text::{int_text, push_int_text, push_scaled, scaled_text};

verus! {

/// The text of a cell row.
pub open spec fn row_text(row: Vec<String>) -> Seq<Seq<char>> {
    row@.map_values(|c: String| c@)
}

/// The text of the rows of a table.
pub open spec fn rows_text(rows: Seq<Vec<String>>) -> Seq<Seq<Seq<char>>> {
    rows.map_values(|r: Vec<String>| row_text(r))
}

/// A byte count in the largest unit it reaches, with two decimals.
pub open spec fn bytes_text(bytes: int) -> Seq<char> {
    if bytes >= 0x4000_0000 {
        scaled_text(bytes as nat, 30, 2) + " GB"@
    } else if bytes >= 0x10_0000 {
        scaled_text(bytes as nat, 20, 2) + " MB"@
    } else if bytes >= 0x400 {
        scaled_text(bytes as nat, 10, 2) + " KB"@
    } else {
        int_text(bytes) + " B"@
    }
}

/// Progress of a package's size: what is done, out of the total.
pub open spec fn size_text(done: int, total: int) -> Seq<char> {
    bytes_text(done) + " / "@ + bytes_text(total)
}

/// The links cell of a package: links done out of links in all.
pub open spec fn links_cell(p: PackageData) -> Seq<char> {
    match (p.linksdone, p.linkstotal) {
        (Some(done), Some(total)) => int_text(done as int) + seq!['/'] + int_text(total as int),
        _ => "0/0"@,
    }
}

/// The size cell of a package.
pub open spec fn size_cell(p: PackageData) -> Seq<char> {
    match (p.sizedone, p.sizetotal) {
        (Some(done), Some(total)) => size_text(done as int, total as int),
        _ => "0 B / 0 B"@,
    }
}

/// The cells of a package's row: id, name, links, size and folder.
pub open spec fn package_cells(p: PackageData) -> Seq<Seq<char>> {
    seq![int_text(p.pid as int), p.name@, links_cell(p), size_cell(p), p.folder@]
}

/// The cells of a file's row: id, name, size, status, plugin and error.
pub open spec fn file_cells(f: FileData) -> Seq<Seq<char>> {
    seq![int_text(f.fid as int), f.name@, f.format_size@, f.status@, f.plugin@, f.error@]
}

/// A byte count in the largest unit it reaches (1024-based), with two
/// decimals.
pub fn format_bytes(bytes: i64) -> (s: String)
    ensures
        s@ == bytes_text(bytes as int),
{
    let mut s = String::new();
    if bytes >= 0x4000_0000 {
        push_scaled(&mut s, bytes as u64, 30, 2);
        s.append(" GB");
    } else if bytes >= 0x10_0000 {
        push_scaled(&mut s, bytes as u64, 20, 2);
        s.append(" MB");
    } else if bytes >= 0x400 {
        push_scaled(&mut s, bytes as u64, 10, 2);
        s.append(" KB");
    } else {
        push_int_text(&mut s, bytes);
        s.append(" B");
    }
    assert(s@ =~= bytes_text(bytes as int));
    s
}

/// "done / total", each in its own unit.
pub fn format_size(done: i64, total: i64) -> (s: String)
    ensures
        s@ == size_text(done as int, total as int),
{
    let mut s = format_bytes(done);
    s.append(" / ");
    let t = format_bytes(total);
    s.append(t.as_str());
    assert(s@ =~= size_text(done as int, total as int));
    s
}

fn links_text(p: &PackageData) -> (s: String)
    ensures
        s@ == links_cell(*p),
{
    match (p.linksdone, p.linkstotal) {
        (Some(done), Some(total)) => {
            let mut s = String::new();
            push_int_text(&mut s, done as i64);
            s.append("/");
            push_int_text(&mut s, total as i64);
            proof {
                reveal_strlit("/");
            }
            assert(s@ =~= links_cell(*p));
            s
        },
        _ => String::from_str("0/0"),
    }
}

fn size_of(p: &PackageData) -> (s: String)
    ensures
        s@ == size_cell(*p),
{
    match (p.sizedone, p.sizetotal) {
        (Some(done), Some(total)) => format_size(done, total),
        _ => String::from_str("0 B / 0 B"),
    }
}

/// The cells of a package's row.
pub fn package_row(p: &PackageData) -> (row: Vec<String>)
    ensures
        row_text(row) == package_cells(*p),
{
    let mut row: Vec<String> = Vec::new();
    row.push(crate::number_text::int_to_text(p.pid as i64));
    row.push(p.name.clone());
    row.push(links_text(p));
    row.push(size_of(p));
    row.push(p.folder.clone());
    assert(row_text(row) =~= package_cells(*p));
    row
}

/// The cells of a file's row.
pub fn file_row(f: &FileData) -> (row: Vec<String>)
    ensures
        row_text(row) == file_cells(*f),
{
    let mut row: Vec<String> = Vec::new();
    row.push(crate::number_text::int_to_text(f.fid as i64));
    row.push(f.name.clone());
    row.push(f.format_size.clone());
    row.push(f.status.clone());
    row.push(f.plugin.clone());
    row.push(f.error.clone());
    assert(row_text(row) =~= file_cells(*f));
    row
}

/// The rows of the packages table, one per package, in order.
pub struct PackagesTable {
    pub rows: Vec<Vec<String>>,
}

/// The rows of the files table, one per file, in order.
pub struct FilesTable {
    pub rows: Vec<Vec<String>>,
}

/// The texts of a table's header cells.
pub open spec fn header_text(h: Seq<&'static str>) -> Seq<Seq<char>> {
    h.map_values(|s: &'static str| s@)
}

/// The header of the packages table.
pub open spec fn packages_header() -> Seq<Seq<char>> {
    seq!["PID"@, "Name"@, "Links"@, "Size"@, "Folder"@]
}

/// The header of the files table.
pub open spec fn files_header() -> Seq<Seq<char>> {
    seq!["FID"@, "Name"@, "Size"@, "Status"@, "Plugin"@, "Error"@]
}

impl PackagesTable {
    /// The header of the table: one title per column of the rows.
    pub fn header() -> (h: Vec<&'static str>)
        ensures
            header_text(h@) == packages_header(),
    {
        let mut h: Vec<&'static str> = Vec::new();
        h.push("PID");
        h.push("Name");
        h.push("Links");
        h.push("Size");
        h.push("Folder");
        assert(header_text(h@) =~= packages_header());
        h
    }

    /// The table of the given packages.
    pub fn from_packages(packages: &Vec<PackageData>) -> (t: PackagesTable)
        ensures
            rows_text(t.rows@) == packages@.map_values(|p: PackageData| package_cells(p)),
    {
        let mut rows: Vec<Vec<String>> = Vec::new();
        for i in 0..packages.len()
            invariant
                rows@.len() == i,
                forall|j: int| 0 <= j < i ==> row_text(#[trigger] rows@[j]) == package_cells(packages@[j]),
        {
            rows.push(package_row(&packages[i]));
        }
        assert(rows_text(rows@) =~= packages@.map_values(|p: PackageData| package_cells(p)));
        PackagesTable { rows }
    }
}

impl FilesTable {
    /// The header of the table: one title per column of the rows.
    pub fn header() -> (h: Vec<&'static str>)
        ensures
            header_text(h@) == files_header(),
    {
        let mut h: Vec<&'static str> = Vec::new();
        h.push("FID");
        h.push("Name");
        h.push("Size");
        h.push("Status");
        h.push("Plugin");
        h.push("Error");
        assert(header_text(h@) =~= files_header());
        h
    }

    /// The table of the given files.
    pub fn from_files(files: &Vec<FileData>) -> (t: FilesTable)
        ensures
            rows_text(t.rows@) == files@.map_values(|f: FileData| file_cells(f)),
    {
        let mut rows: Vec<Vec<String>> = Vec::new();
        for i in 0..files.len()
            invariant
                rows@.len() == i,
                forall|j: int| 0 <= j < i ==> row_text(#[trigger] rows@[j]) == file_cells(files@[j]),
        {
            rows.push(file_row(&files[i]));
        }
        assert(rows_text(rows@) =~= files@.map_values(|f: FileData| file_cells(f)));
        FilesTable { rows }
    }
}

} // verus!
