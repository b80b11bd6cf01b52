//! Firefox: profiles under `<home>/.mozilla/firefox`, each with its history
//! in the table `moz_places` of `places.sqlite`.

use vstd::prelude::*;
use vstd::string::*;

use crate::calendar::{
    calendar_of, decode_visit_time, millis_of, utc_calendar, visit_time_of, VisitTime,
};
use crate::path::{join, joined};
use crate::snapshot::{
    after_copy, copy_outcome, destination_of, destination_view, fresh_token, is_consistent,
    is_snapshot_of, is_token, lemma_token_is_name_part, located_at, names_snapshot, snapshot_path,
    snapshot_path_of, DatabaseView, SnapshotError, Source,
};
use crate::store::{
    optional_integer_at, optional_text_at, read_optional_integer, read_optional_text, read_text,
    row_view, rows_view, text_at, Cell, CellView, ReadError, SchemaViolation,
};
use crate::text::{same_text, starts_with, text_of, text_of_slice};

verus! {

/// One browsing profile: the name the browser gave it and its directory.
#[derive(Debug)]
pub struct FirefoxProfile {
    pub name: String,
    pub path: String,
}

/// A `FirefoxProfile` with its strings as sequences of characters.
pub ghost struct ProfileView {
    pub name: Seq<char>,
    pub path: Seq<char>,
}

impl View for FirefoxProfile {
    type V = ProfileView;

    open spec fn view(&self) -> ProfileView {
        ProfileView { name: self.name@, path: self.path@ }
    }
}

/// A directory that may be a profile: its path relative to the browser's
/// root directory, and whether the history file was found in it.
#[derive(Debug)]
pub struct ProfileCandidate {
    pub name: String,
    pub has_history_file: bool,
}

/// A `ProfileCandidate` with its name as a sequence of characters.
pub ghost struct CandidateView {
    pub name: Seq<char>,
    pub has_history_file: bool,
}

impl View for ProfileCandidate {
    type V = CandidateView;

    open spec fn view(&self) -> CandidateView {
        CandidateView { name: self.name@, has_history_file: self.has_history_file }
    }
}

/// The views of the candidates of a vector.
pub open spec fn candidate_views(candidates: Seq<ProfileCandidate>) -> Seq<CandidateView> {
    candidates.map_values(|c: ProfileCandidate| c@)
}

/// The views of the profiles of a vector.
pub open spec fn profile_views(profiles: Seq<FirefoxProfile>) -> Seq<ProfileView> {
    profiles.map_values(|p: FirefoxProfile| p@)
}

/// The browser's root directory under a home directory.
pub open spec fn root_directory_of(home: Seq<char>) -> Seq<char> {
    joined(joined(home, ".mozilla"@), "firefox"@)
}

/// The profile registry under a root directory.
pub open spec fn registry_path_of(root: Seq<char>) -> Seq<char> {
    joined(root, "profiles.ini"@)
}

/// The history file of a profile directory.
pub open spec fn history_file_of(profile_directory: Seq<char>) -> Seq<char> {
    joined(profile_directory, "places.sqlite"@)
}

/// A directory of the root may be a profile unless its name marks it as
/// hidden or is one of the directories that the browser keeps for itself.
pub open spec fn is_profile_directory_name(name: Seq<char>) -> bool {
    &&& !"."@.is_prefix_of(name)
    &&& name != "Crash Reports"@
    &&& name != "Pending Pings"@
}

/// The profile that a candidate of `root` stands for.
pub open spec fn profile_of(root: Seq<char>, candidate: CandidateView) -> ProfileView {
    ProfileView { name: candidate.name, path: joined(root, candidate.name) }
}

/// The candidates that a scan of the root directory accepts.
pub open spec fn scan_accepts() -> spec_fn(CandidateView) -> bool {
    |c: CandidateView| is_profile_directory_name(c.name) && c.has_history_file
}

/// The candidates that hold a history file.
pub open spec fn holds_history() -> spec_fn(CandidateView) -> bool {
    |c: CandidateView| c.has_history_file
}

/// The profiles that a scan of `root` finds among its directories.
pub open spec fn scanned_profiles(root: Seq<char>, candidates: Seq<CandidateView>) -> Seq<
    ProfileView,
> {
    candidates.filter(scan_accepts()).map_values(|c: CandidateView| profile_of(root, c))
}

/// The profiles that the registry of `root` names and that are there.
pub open spec fn registered_profiles(root: Seq<char>, candidates: Seq<CandidateView>) -> Seq<
    ProfileView,
> {
    candidates.filter(holds_history()).map_values(|c: CandidateView| profile_of(root, c))
}

/// The browser's root directory under a home directory.
pub fn root_directory(home: &str) -> (root: String)
    ensures
        root@ == root_directory_of(home@),
{
    let mozilla = join(home, ".mozilla");
    join(mozilla.as_str(), "firefox")
}

/// The profile registry under a root directory.
pub fn registry_path(root: &str) -> (path: String)
    ensures
        path@ == registry_path_of(root@),
{
    join(root, "profiles.ini")
}

/// The history file of the profile at `profile`, a path relative to `root`.
pub fn history_file_path(root: &str, profile: &str) -> (path: String)
    ensures
        path@ == history_file_of(joined(root@, profile@)),
{
    let directory = join(root, profile);
    join(directory.as_str(), "places.sqlite")
}

/// Whether a directory of the root may be a profile, by its name.
pub fn names_profile_directory(name: &str) -> (b: bool)
    ensures
        b == is_profile_directory_name(name@),
{
    !starts_with(name, ".") && !same_text(name, "Crash Reports") && !same_text(
        name,
        "Pending Pings",
    )
}

impl FirefoxProfile {
    /// A profile by its name and its directory.
    pub fn new(name: String, path: String) -> (profile: Self)
        ensures
            profile.name == name,
            profile.path == path,
    {
        Self { name, path }
    }

    /// The profiles among the directories of `root`: those that are not
    /// hidden, not kept by the browser for itself, and hold a history file.
    /// Each takes its directory's name; the order of the directories stays.
    pub fn find_all(root: &str, candidates: &Vec<ProfileCandidate>) -> (profiles: Vec<Self>)
        ensures
            profile_views(profiles@) == scanned_profiles(root@, candidate_views(candidates@)),
    {
        let ghost views = candidate_views(candidates@);
        let mut profiles: Vec<FirefoxProfile> = Vec::new();
        let mut i: usize = 0;
        while i < candidates.len()
            invariant
                i <= candidates.len(),
                views == candidate_views(candidates@),
                profile_views(profiles@) == scanned_profiles(root@, views.take(i as int)),
            decreases candidates.len() - i,
        {
            let candidate = &candidates[i];
            assert(views.take(i + 1) =~= views.take(i as int).push(views[i as int]));
            proof {
                Seq::lemma_filter_push(views.take(i as int), views[i as int], scan_accepts());
            }
            if names_profile_directory(candidate.name.as_str()) && candidate.has_history_file {
                let path = join(root, candidate.name.as_str());
                profiles.push(FirefoxProfile::new(String::from_str(candidate.name.as_str()), path));
                assert(scanned_profiles(root@, views.take(i + 1)) =~= scanned_profiles(
                    root@,
                    views.take(i as int),
                ).push(profile_of(root@, candidate@)));
            }
            i = i + 1;
        }
        assert(views.take(i as int) =~= views);
        profiles
    }

    /// The profiles that the registry names, each a path relative to
    /// `root`, as far as their history file is there. Each takes the
    /// relative path as its name; the order of the registry stays.
    pub fn from_registry(root: &str, candidates: &Vec<ProfileCandidate>) -> (profiles: Vec<Self>)
        ensures
            profile_views(profiles@) == registered_profiles(root@, candidate_views(candidates@)),
    {
        let ghost views = candidate_views(candidates@);
        let mut profiles: Vec<FirefoxProfile> = Vec::new();
        let mut i: usize = 0;
        while i < candidates.len()
            invariant
                i <= candidates.len(),
                views == candidate_views(candidates@),
                profile_views(profiles@) == registered_profiles(root@, views.take(i as int)),
            decreases candidates.len() - i,
        {
            let candidate = &candidates[i];
            assert(views.take(i + 1) =~= views.take(i as int).push(views[i as int]));
            proof {
                Seq::lemma_filter_push(views.take(i as int), views[i as int], holds_history());
            }
            if candidate.has_history_file {
                let path = join(root, candidate.name.as_str());
                profiles.push(FirefoxProfile::new(String::from_str(candidate.name.as_str()), path));
                assert(registered_profiles(root@, views.take(i + 1)) =~= registered_profiles(
                    root@,
                    views.take(i as int),
                ).push(profile_of(root@, candidate@)));
            }
            i = i + 1;
        }
        assert(views.take(i as int) =~= views);
        profiles
    }
}

/// Whose profiles are looked for.
#[derive(Debug)]
pub enum Scope {
    CurrentUser,
    User(String),
    System,
}

/// A reference to one history store: the live file, and its snapshot once
/// one was taken. A snapshot is never the live file itself.
#[derive(Debug)]
pub struct Database {
    location: String,
    tmp_location: Option<String>,
}

impl View for Database {
    type V = DatabaseView;

    closed spec fn view(&self) -> DatabaseView {
        DatabaseView { location: self.location@, snapshot_location: text_of(self.tmp_location) }
    }
}

impl Database {
    #[verifier::type_invariant]
    spec fn consistent(self) -> bool {
        is_consistent(Source::Firefox, self@)
    }

    /// The store whose live file is at `location`, without a snapshot.
    pub fn new(location: String) -> (database: Self)
        ensures
            database@ == located_at(location@),
    {
        Database { location, tmp_location: None }
    }

    /// Where the live file lies. It is never opened for a query.
    pub fn location(&self) -> (location: &str)
        ensures
            location@ == self@.location,
    {
        self.location.as_str()
    }

    /// Where the snapshot lies, once one was taken: the only file that
    /// queries run against, a snapshot of this source in the temporary
    /// area and never the live file.
    pub fn snapshot_location(&self) -> (snapshot: Option<&str>)
        ensures
            text_of_slice(snapshot) == self@.snapshot_location,
            is_consistent(Source::Firefox, self@),
    {
        proof {
            use_type_invariant(self);
        }
        match &self.tmp_location {
            Some(path) => Some(path.as_str()),
            None => None,
        }
    }
}

/// The views of the stores of a vector.
pub open spec fn database_views(databases: Seq<Database>) -> Seq<DatabaseView> {
    databases.map_values(|d: Database| d@)
}

/// The stores of a sequence of profiles: for each its history file, not
/// yet copied.
pub open spec fn databases_of(profiles: Seq<ProfileView>) -> Seq<DatabaseView> {
    profiles.map_values(|p: ProfileView| located_at(history_file_of(p.path)))
}

/// The history stores of the profiles that were found, one for each and in
/// their order; none at all where the root directory could not be read and
/// so no profiles are given. Every scope stands for the calling user.
pub fn locate_databases(scope: Scope, profiles: Option<Vec<FirefoxProfile>>) -> (located: Option<
    Vec<Database>,
>)
    ensures
        profiles is None <==> located is None,
        profiles matches Some(found) ==> database_views(located->0@) == databases_of(
            profile_views(found@),
        ),
{
    let found = match profiles {
        Some(found) => found,
        None => {
            return None;
        },
    };
    let mut databases: Vec<Database> = Vec::new();
    let mut i: usize = 0;
    while i < found.len()
        invariant
            i <= found.len(),
            databases@.len() == i,
            forall|j: int|
                0 <= j < i ==> (#[trigger] databases@[j])@ == located_at(
                    history_file_of(found@[j]@.path),
                ),
        decreases found.len() - i,
    {
        databases.push(Database::new(join(found[i].path.as_str(), "places.sqlite")));
        i = i + 1;
    }
    Some(databases)
}

/// The destination for a snapshot of `database` under `token`: the
/// snapshot path of the token, unless the store has a snapshot already, the
/// token cannot stand in a file name, or the path is the live file.
pub fn destination_for(database: &Database, token: &str) -> (destination: Result<
    String,
    SnapshotError,
>)
    ensures
        destination_view(destination) == destination_of(
            Source::Firefox,
            database@,
            snapshot_path_of(Source::Firefox, token@),
        ),
{
    let path = snapshot_path(Source::Firefox, token);
    if database.tmp_location.is_some() {
        Err(SnapshotError::AlreadyTaken)
    } else if !names_snapshot(Source::Firefox, path.as_str()) {
        Err(SnapshotError::Misplaced)
    } else if same_text(path.as_str(), database.location.as_str()) {
        Err(SnapshotError::CollidesWithSource)
    } else {
        Ok(path)
    }
}

/// The destination for a snapshot of `database` under a token drawn for
/// it; the token is drawn anew with every call. It fails only for a store
/// that has a snapshot, or whose live file lies where the snapshot would.
pub fn snapshot_destination(database: &Database) -> (destination: Result<String, SnapshotError>)
    ensures
        exists|token: Seq<char>|
            is_token(token) && destination_view(destination) == destination_of(
                Source::Firefox,
                database@,
                #[trigger] snapshot_path_of(Source::Firefox, token),
            ),
        destination matches Err(error) ==> {
            ||| error == SnapshotError::AlreadyTaken && database@.snapshot_location is Some
            ||| error == SnapshotError::CollidesWithSource && is_snapshot_of(
                Source::Firefox,
                database@.location,
            )
        },
{
    let token = fresh_token();
    proof {
        lemma_token_is_name_part(token@);
    }
    destination_for(database, token.as_str())
}

/// Records the snapshot of `database` at `destination`, where `copied` says
/// that the live file was copied there. On any failure the store stays as
/// it was.
pub fn copy_database(database: &mut Database, destination: String, copied: bool) -> (r: Result<
    (),
    SnapshotError,
>)
    ensures
        r == copy_outcome(Source::Firefox, old(database)@, destination@, copied),
        final(database)@ == after_copy(Source::Firefox, old(database)@, destination@, copied),
{
    if database.tmp_location.is_some() {
        Err(SnapshotError::AlreadyTaken)
    } else if !names_snapshot(Source::Firefox, destination.as_str()) {
        Err(SnapshotError::Misplaced)
    } else if same_text(destination.as_str(), database.location.as_str()) {
        Err(SnapshotError::CollidesWithSource)
    } else if !copied {
        Err(SnapshotError::CopyFailed)
    } else {
        database.tmp_location = Some(destination);
        Ok(())
    }
}

/// The history of one store.
#[derive(Debug)]
pub struct History {
    pub entries: Vec<HistoryEntry>,
}

/// One row of `moz_places`.
#[derive(Debug)]
pub struct HistoryEntry {
    pub url: String,
    pub title: Option<String>,
    pub last_visit_date: Option<VisitTime>,
    pub description: Option<String>,
}

/// A `HistoryEntry` with its strings as sequences of characters.
pub ghost struct HistoryEntryView {
    pub url: Seq<char>,
    pub title: Option<Seq<char>>,
    pub last_visit_date: Option<VisitTime>,
    pub description: Option<Seq<char>>,
}

impl View for HistoryEntry {
    type V = HistoryEntryView;

    open spec fn view(&self) -> HistoryEntryView {
        HistoryEntryView {
            url: self.url@,
            title: text_of(self.title),
            last_visit_date: self.last_visit_date,
            description: text_of(self.description),
        }
    }
}

/// The one statement that is run against a snapshot. Its columns are, in
/// this order: the URL, the optional title, the optional time of the last
/// visit in microseconds from the Unix epoch, the optional description.
pub fn history_query() -> (statement: &'static str)
    ensures
        statement@ == "SELECT url, title, last_visit_date, description FROM moz_places"@,
{
    "SELECT url, title, last_visit_date, description FROM moz_places"
}

/// The entry that a row at `index` decodes to, or the first of its columns
/// that does not match the schema.
pub open spec fn entry_of(index: usize, row: Seq<CellView>) -> Result<
    HistoryEntryView,
    SchemaViolation,
> {
    match text_at(row, 0) {
        Err(kind) => Err(SchemaViolation { row: index, column: 0, kind }),
        Ok(url) => match optional_text_at(row, 1) {
            Err(kind) => Err(SchemaViolation { row: index, column: 1, kind }),
            Ok(title) => match optional_integer_at(row, 2) {
                Err(kind) => Err(SchemaViolation { row: index, column: 2, kind }),
                Ok(stored) => match visit_time_of(stored, calendar_of(stored)) {
                    Err(kind) => Err(SchemaViolation { row: index, column: 2, kind }),
                    Ok(last_visit_date) => match optional_text_at(row, 3) {
                        Err(kind) => Err(SchemaViolation { row: index, column: 3, kind }),
                        Ok(description) => Ok(
                            HistoryEntryView { url, title, last_visit_date, description },
                        ),
                    },
                },
            },
        },
    }
}

/// A last-visit time lies as many milliseconds from the epoch as its row
/// stores, cut from microseconds.
pub open spec fn keeps_time(entry: HistoryEntryView, row: Seq<CellView>) -> bool {
    entry.last_visit_date matches Some(time) ==> {
        &&& 2 < row.len()
        &&& row[2] matches CellView::Integer(micros)
        &&& time.epoch_millis == millis_of(micros)
    }
}

/// A row as the schema declares it: text for the URL, text or nothing for
/// the title and the description, and for the last visit nothing or an
/// integer that the calendar can hold.
pub open spec fn matches_schema(row: Seq<CellView>) -> bool {
    &&& row.len() >= 4
    &&& row[0] is Text
    &&& (row[1] is Null || row[1] is Text)
    &&& (row[2] is Null || (row[2] matches CellView::Integer(micros) && utc_calendar(
        millis_of(micros),
    ) is Some))
    &&& (row[3] is Null || row[3] is Text)
}

/// The text of a cell, where it is one.
pub open spec fn stored_text(cell: CellView) -> Option<Seq<char>> {
    match cell {
        CellView::Text(s) => Some(s),
        _ => None,
    }
}

/// A row that matches the schema decodes, and each field of its entry is
/// what the row stores: the required URL, every optional value that is
/// there, nothing for each that is not, and the last visit read in the
/// calendar from the stored number, never from a made-up one.
pub proof fn lemma_matching_row_decodes(index: usize, row: Seq<CellView>)
    requires
        matches_schema(row),
    ensures
        entry_of(index, row) matches Ok(entry) && {
            &&& Some(entry.url) == stored_text(row[0])
            &&& entry.title == stored_text(row[1])
            &&& entry.description == stored_text(row[3])
            &&& row[2] is Null ==> entry.last_visit_date is None
            &&& row[2] matches CellView::Integer(micros) ==> entry.last_visit_date == utc_calendar(
                millis_of(micros),
            )
        },
{
}

/// Decodes the row at `index` of a result.
pub fn decode_entry(index: usize, row: &Vec<Cell>) -> (r: Result<HistoryEntry, SchemaViolation>)
    ensures
        match r {
            Ok(entry) => entry_of(index, row_view(row@)) == Ok::<HistoryEntryView, SchemaViolation>(
                entry@,
            ) && keeps_time(entry@, row_view(row@)),
            Err(violation) => entry_of(index, row_view(row@)) == Err::<
                HistoryEntryView,
                SchemaViolation,
            >(violation) && violation.row == index,
        },
{
    let url = match read_text(row, 0) {
        Ok(url) => url,
        Err(kind) => {
            return Err(SchemaViolation { row: index, column: 0, kind });
        },
    };
    let title = match read_optional_text(row, 1) {
        Ok(title) => title,
        Err(kind) => {
            return Err(SchemaViolation { row: index, column: 1, kind });
        },
    };
    let stored = match read_optional_integer(row, 2) {
        Ok(stored) => stored,
        Err(kind) => {
            return Err(SchemaViolation { row: index, column: 2, kind });
        },
    };
    let last_visit_date = match decode_visit_time(stored) {
        Ok(time) => time,
        Err(kind) => {
            return Err(SchemaViolation { row: index, column: 2, kind });
        },
    };
    let description = match read_optional_text(row, 3) {
        Ok(description) => description,
        Err(kind) => {
            return Err(SchemaViolation { row: index, column: 3, kind });
        },
    };
    Ok(HistoryEntry { url, title, last_visit_date, description })
}

/// The views of the entries of a vector.
pub open spec fn entry_views(entries: Seq<HistoryEntry>) -> Seq<HistoryEntryView> {
    entries.map_values(|e: HistoryEntry| e@)
}

/// Turns the rows that the query gave on the snapshot of `database` into
/// its history: one entry for each row, in the order of the rows. The
/// first row that does not match the schema fails the whole read; a store
/// without a snapshot is not read at all.
pub fn get_history(database: Database, rows: &Vec<Vec<Cell>>) -> (r: Result<History, ReadError>)
    ensures
        match r {
            Ok(history) => {
                &&& database@.snapshot_location is Some
                &&& history.entries@.len() == rows@.len()
                &&& forall|i: int|
                    0 <= i < rows@.len() ==> {
                        &&& entry_of(i as usize, #[trigger] rows_view(rows@)[i]) == Ok::<
                            HistoryEntryView,
                            SchemaViolation,
                        >(history.entries@[i]@)
                        &&& keeps_time(history.entries@[i]@, rows_view(rows@)[i])
                    }
            },
            Err(ReadError::NotSnapshotted) => database@.snapshot_location is None,
            Err(ReadError::Schema(violation)) => {
                &&& database@.snapshot_location is Some
                &&& violation.row < rows@.len()
                &&& entry_of(violation.row, rows_view(rows@)[violation.row as int]) == Err::<
                    HistoryEntryView,
                    SchemaViolation,
                >(violation)
                &&& forall|i: int|
                    0 <= i < violation.row ==> entry_of(
                        i as usize,
                        #[trigger] rows_view(rows@)[i],
                    ) is Ok
            },
        },
        database@.snapshot_location is Some && (forall|i: int|
            0 <= i < rows@.len() ==> matches_schema(#[trigger] rows_view(rows@)[i])) ==> r is Ok,
{
    if database.tmp_location.is_none() {
        return Err(ReadError::NotSnapshotted);
    }
    let mut entries: Vec<HistoryEntry> = Vec::new();
    let mut i: usize = 0;
    while i < rows.len()
        invariant
            i <= rows.len(),
            entries@.len() == i,
            database@.snapshot_location is Some,
            forall|j: int|
                0 <= j < i ==> {
                    &&& entry_of(j as usize, #[trigger] rows_view(rows@)[j]) == Ok::<
                        HistoryEntryView,
                        SchemaViolation,
                    >(entries@[j]@)
                    &&& keeps_time(entries@[j]@, rows_view(rows@)[j])
                },
        decreases rows.len() - i,
    {
        match decode_entry(i, &rows[i]) {
            Ok(entry) => {
                entries.push(entry);
            },
            Err(violation) => {
                proof {
                    if matches_schema(rows_view(rows@)[i as int]) {
                        lemma_matching_row_decodes(i, rows_view(rows@)[i as int]);
                    }
                }
                return Err(ReadError::Schema(violation));
            },
        }
        i = i + 1;
    }
    Ok(History { entries })
}

/// The unified record of an entry: its URL, and its title where it has one.
pub open spec fn unified_of(entry: HistoryEntryView) -> crate::HistoryView {
    crate::HistoryView { url: entry.url, title: entry.title }
}

impl HistoryEntry {
    /// The unified record of this entry: the URL as it is, and the title
    /// where there is one.
    pub fn to_unified(&self) -> (unified: crate::History)
        ensures
            unified@ == unified_of(self@),
    {
        let title = match &self.title {
            Some(title) => Some(String::from_str(title.as_str())),
            None => None,
        };
        crate::History { url: String::from_str(self.url.as_str()), title }
    }
}

} // verus!
