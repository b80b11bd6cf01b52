//! qutebrowser: one profile, with its history in the table `History` of
//! `history.sqlite`.

use vstd::prelude::*;
use vstd::string::*;

use crate::path::{join, joined};
use crate::snapshot::{
    after_copy, copy_outcome, destination_of, destination_view, fresh_token, is_consistent,
    is_snapshot_of, is_token, lemma_token_is_name_part, located_at, names_snapshot, snapshot_path,
    snapshot_path_of, DatabaseView, SnapshotError, Source,
};
use crate::store::{
    flag_at, read_flag, read_text, read_unsigned, row_view, rows_view, text_at, unsigned_at, Cell,
    CellView, ReadError, SchemaViolation,
};
use crate::text::{same_text, text_of, text_of_slice};

verus! {

/// The history of the store.
#[derive(Debug)]
pub struct History {
    pub entries: Vec<HistoryEntry>,
}

/// One row of `History`.
#[derive(Debug)]
pub struct HistoryEntry {
    pub url: String,
    pub title: String,
    pub access_time: u32,
    pub redirect: bool,
}

/// A `HistoryEntry` with its strings as sequences of characters.
pub ghost struct HistoryEntryView {
    pub url: Seq<char>,
    pub title: Seq<char>,
    pub access_time: u32,
    pub redirect: bool,
}

impl View for HistoryEntry {
    type V = HistoryEntryView;

    open spec fn view(&self) -> HistoryEntryView {
        HistoryEntryView {
            url: self.url@,
            title: self.title@,
            access_time: self.access_time,
            redirect: self.redirect,
        }
    }
}

/// A reference to the history store: the live file, and its snapshot once
/// one was taken. A snapshot is never the live file itself.
#[derive(Debug)]
pub struct Database {
    location: String,
    tmp_location: Option<String>,
}

impl View for Database {
    type V = DatabaseView;

    closed spec fn view(&self) -> DatabaseView {
        DatabaseView { location: self.location@, snapshot_location: text_of(self.tmp_location) }
    }
}

impl Database {
    #[verifier::type_invariant]
    spec fn consistent(self) -> bool {
        is_consistent(Source::Qutebrowser, self@)
    }

    /// The store whose live file is at `location`, without a snapshot.
    pub fn new(location: String) -> (database: Self)
        ensures
            database@ == located_at(location@),
    {
        Database { location, tmp_location: None }
    }

    /// Where the live file lies. It is never opened for a query.
    pub fn location(&self) -> (location: &str)
        ensures
            location@ == self@.location,
    {
        self.location.as_str()
    }

    /// Where the snapshot lies, once one was taken: the only file that
    /// queries run against, a snapshot of this source in the temporary
    /// area and never the live file.
    pub fn snapshot_location(&self) -> (snapshot: Option<&str>)
        ensures
            text_of_slice(snapshot) == self@.snapshot_location,
            is_consistent(Source::Qutebrowser, self@),
    {
        proof {
            use_type_invariant(self);
        }
        match &self.tmp_location {
            Some(path) => Some(path.as_str()),
            None => None,
        }
    }
}

/// The directory that holds the store: the one that overrides the default
/// where one is given, else the default under the home directory; none
/// where neither is known.
pub open spec fn data_directory_of(data_dir: Option<Seq<char>>, home: Option<Seq<char>>) -> Option<
    Seq<char>,
> {
    match data_dir {
        Some(directory) => Some(directory),
        None => match home {
            Some(home) => Some(joined(home, ".local/share/qutebrowser"@)),
            None => None,
        },
    }
}

/// The path of the store's file.
pub open spec fn database_path_of(data_dir: Option<Seq<char>>, home: Option<Seq<char>>) -> Option<
    Seq<char>,
> {
    match data_directory_of(data_dir, home) {
        Some(directory) => Some(joined(directory, "history.sqlite"@)),
        None => None,
    }
}

/// The path where the store's file is expected, from the directory that
/// overrides the default, if any, and the home directory, if known.
pub fn database_path(data_dir: Option<&str>, home: Option<&str>) -> (path: Option<String>)
    ensures
        text_of(path) == database_path_of(text_of_slice(data_dir), text_of_slice(home)),
{
    match data_dir {
        Some(directory) => Some(join(directory, "history.sqlite")),
        None => match home {
            Some(home) => {
                let directory = join(home, ".local/share/qutebrowser");
                Some(join(directory.as_str(), "history.sqlite"))
            },
            None => None,
        },
    }
}

/// The store at `path`, if the file is present there.
pub fn locate_database(path: String, present: bool) -> (located: Option<Database>)
    ensures
        present <==> located is Some,
        present ==> located->0@ == located_at(path@),
{
    if present {
        Some(Database::new(path))
    } else {
        None
    }
}

/// The destination for a snapshot of `database` under `token`: the
/// snapshot path of the token, unless the store has a snapshot already, the
/// token cannot stand in a file name, or the path is the live file.
pub fn destination_for(database: &Database, token: &str) -> (destination: Result<
    String,
    SnapshotError,
>)
    ensures
        destination_view(destination) == destination_of(
            Source::Qutebrowser,
            database@,
            snapshot_path_of(Source::Qutebrowser, token@),
        ),
{
    let path = snapshot_path(Source::Qutebrowser, token);
    if database.tmp_location.is_some() {
        Err(SnapshotError::AlreadyTaken)
    } else if !names_snapshot(Source::Qutebrowser, path.as_str()) {
        Err(SnapshotError::Misplaced)
    } else if same_text(path.as_str(), database.location.as_str()) {
        Err(SnapshotError::CollidesWithSource)
    } else {
        Ok(path)
    }
}

/// The destination for a snapshot of `database` under a token drawn for
/// it; the token is drawn anew with every call. It fails only for a store
/// that has a snapshot, or whose live file lies where the snapshot would.
pub fn snapshot_destination(database: &Database) -> (destination: Result<String, SnapshotError>)
    ensures
        exists|token: Seq<char>|
            is_token(token) && destination_view(destination) == destination_of(
                Source::Qutebrowser,
                database@,
                #[trigger] snapshot_path_of(Source::Qutebrowser, token),
            ),
        destination matches Err(error) ==> {
            ||| error == SnapshotError::AlreadyTaken && database@.snapshot_location is Some
            ||| error == SnapshotError::CollidesWithSource && is_snapshot_of(
                Source::Qutebrowser,
                database@.location,
            )
        },
{
    let token = fresh_token();
    proof {
        lemma_token_is_name_part(token@);
    }
    destination_for(database, token.as_str())
}

/// Records the snapshot of `database` at `destination`, where `copied` says
/// that the live file was copied there. On any failure the store stays as
/// it was.
pub fn copy_database(database: &mut Database, destination: String, copied: bool) -> (r: Result<
    (),
    SnapshotError,
>)
    ensures
        r == copy_outcome(Source::Qutebrowser, old(database)@, destination@, copied),
        final(database)@ == after_copy(Source::Qutebrowser, old(database)@, destination@, copied),
{
    if database.tmp_location.is_some() {
        Err(SnapshotError::AlreadyTaken)
    } else if !names_snapshot(Source::Qutebrowser, destination.as_str()) {
        Err(SnapshotError::Misplaced)
    } else if same_text(destination.as_str(), database.location.as_str()) {
        Err(SnapshotError::CollidesWithSource)
    } else if !copied {
        Err(SnapshotError::CopyFailed)
    } else {
        database.tmp_location = Some(destination);
        Ok(())
    }
}

/// The one statement that is run against a snapshot. Its columns are, in
/// this order: the title, the URL, the access time, the redirect flag. None
/// of them is optional.
pub fn history_query() -> (statement: &'static str)
    ensures
        statement@ == "SELECT title, url, atime, redirect FROM History"@,
{
    "SELECT title, url, atime, redirect FROM History"
}

/// The entry that a row at `index` decodes to, or the first of its columns
/// that does not match the schema.
pub open spec fn entry_of(index: usize, row: Seq<CellView>) -> Result<
    HistoryEntryView,
    SchemaViolation,
> {
    match text_at(row, 0) {
        Err(kind) => Err(SchemaViolation { row: index, column: 0, kind }),
        Ok(title) => match text_at(row, 1) {
            Err(kind) => Err(SchemaViolation { row: index, column: 1, kind }),
            Ok(url) => match unsigned_at(row, 2) {
                Err(kind) => Err(SchemaViolation { row: index, column: 2, kind }),
                Ok(access_time) => match flag_at(row, 3) {
                    Err(kind) => Err(SchemaViolation { row: index, column: 3, kind }),
                    Ok(redirect) => Ok(HistoryEntryView { url, title, access_time, redirect }),
                },
            },
        },
    }
}

/// A row as the schema declares it: text for the title and the URL, an
/// integer that 32 bits without a sign hold for the access time, and an
/// integer for the redirect flag.
pub open spec fn matches_schema(row: Seq<CellView>) -> bool {
    &&& row.len() >= 4
    &&& row[0] is Text
    &&& row[1] is Text
    &&& row[2] matches CellView::Integer(time) && 0 <= time <= u32::MAX
    &&& row[3] is Integer
}

/// A row that matches the schema decodes, and each field of its entry is
/// what the row stores.
pub proof fn lemma_matching_row_decodes(index: usize, row: Seq<CellView>)
    requires
        matches_schema(row),
    ensures
        entry_of(index, row) matches Ok(entry) && {
            &&& row[0] == CellView::Text(entry.title)
            &&& row[1] == CellView::Text(entry.url)
            &&& row[2] == CellView::Integer(entry.access_time as i64)
            &&& row[3] matches CellView::Integer(flag) && entry.redirect == (flag != 0)
        },
{
}

/// Decodes the row at `index` of a result.
pub fn decode_entry(index: usize, row: &Vec<Cell>) -> (r: Result<HistoryEntry, SchemaViolation>)
    ensures
        match r {
            Ok(entry) => entry_of(index, row_view(row@)) == Ok::<HistoryEntryView, SchemaViolation>(
                entry@,
            ),
            Err(violation) => entry_of(index, row_view(row@)) == Err::<
                HistoryEntryView,
                SchemaViolation,
            >(violation) && violation.row == index,
        },
{
    let title = match read_text(row, 0) {
        Ok(title) => title,
        Err(kind) => {
            return Err(SchemaViolation { row: index, column: 0, kind });
        },
    };
    let url = match read_text(row, 1) {
        Ok(url) => url,
        Err(kind) => {
            return Err(SchemaViolation { row: index, column: 1, kind });
        },
    };
    let access_time = match read_unsigned(row, 2) {
        Ok(time) => time,
        Err(kind) => {
            return Err(SchemaViolation { row: index, column: 2, kind });
        },
    };
    let redirect = match read_flag(row, 3) {
        Ok(flag) => flag,
        Err(kind) => {
            return Err(SchemaViolation { row: index, column: 3, kind });
        },
    };
    Ok(HistoryEntry { url, title, access_time, redirect })
}

/// The views of the entries of a vector.
pub open spec fn entry_views(entries: Seq<HistoryEntry>) -> Seq<HistoryEntryView> {
    entries.map_values(|e: HistoryEntry| e@)
}

/// Turns the rows that the query gave on the snapshot of `database` into
/// its history: one entry for each row, in the order of the rows. The
/// first row that does not match the schema fails the whole read; a store
/// without a snapshot is not read at all.
pub fn get_history(database: Database, rows: &Vec<Vec<Cell>>) -> (r: Result<History, ReadError>)
    ensures
        match r {
            Ok(history) => {
                &&& database@.snapshot_location is Some
                &&& history.entries@.len() == rows@.len()
                &&& forall|i: int|
                    0 <= i < rows@.len() ==> entry_of(i as usize, #[trigger] rows_view(rows@)[i])
                        == Ok::<HistoryEntryView, SchemaViolation>(history.entries@[i]@)
            },
            Err(ReadError::NotSnapshotted) => database@.snapshot_location is None,
            Err(ReadError::Schema(violation)) => {
                &&& database@.snapshot_location is Some
                &&& violation.row < rows@.len()
                &&& entry_of(violation.row, rows_view(rows@)[violation.row as int]) == Err::<
                    HistoryEntryView,
                    SchemaViolation,
                >(violation)
                &&& forall|i: int|
                    0 <= i < violation.row ==> entry_of(
                        i as usize,
                        #[trigger] rows_view(rows@)[i],
                    ) is Ok
            },
        },
        database@.snapshot_location is Some && (forall|i: int|
            0 <= i < rows@.len() ==> matches_schema(#[trigger] rows_view(rows@)[i])) ==> r is Ok,
{
    if database.tmp_location.is_none() {
        return Err(ReadError::NotSnapshotted);
    }
    let mut entries: Vec<HistoryEntry> = Vec::new();
    let mut i: usize = 0;
    while i < rows.len()
        invariant
            i <= rows.len(),
            entries@.len() == i,
            database@.snapshot_location is Some,
            forall|j: int|
                0 <= j < i ==> entry_of(j as usize, #[trigger] rows_view(rows@)[j]) == Ok::<
                    HistoryEntryView,
                    SchemaViolation,
                >(entries@[j]@),
        decreases rows.len() - i,
    {
        match decode_entry(i, &rows[i]) {
            Ok(entry) => {
                entries.push(entry);
            },
            Err(violation) => {
                proof {
                    if matches_schema(rows_view(rows@)[i as int]) {
                        lemma_matching_row_decodes(i, rows_view(rows@)[i as int]);
                    }
                }
                return Err(ReadError::Schema(violation));
            },
        }
        i = i + 1;
    }
    Ok(History { entries })
}

/// The unified record of an entry: its URL and its title, which is always
/// there.
pub open spec fn unified_of(entry: HistoryEntryView) -> crate::HistoryView {
    crate::HistoryView { url: entry.url, title: Some(entry.title) }
}

impl HistoryEntry {
    /// The unified record of this entry: the URL as it is, and the title as
    /// one that is there.
    pub fn to_unified(&self) -> (unified: crate::History)
        ensures
            unified@ == unified_of(self@),
    {
        crate::History {
            url: String::from_str(self.url.as_str()),
            title: Some(String::from_str(self.title.as_str())),
        }
    }
}

} // verus!
