//! Where snapshots go: one uniquely named file per copy in the shared
//! temporary area, namespaced by source.

use vstd::prelude::*;
use vstd::string::*;

use crate::text::starts_with;

verus! {

/// The browsers whose history stores are read.
#[derive(Debug, Clone, Copy, PartialEq, Eq, Structural)]
pub enum Source {
    Qutebrowser,
    Firefox,
}

/// The name of a source inside a snapshot's file name.
pub open spec fn source_label(source: Source) -> Seq<char> {
    match source {
        Source::Qutebrowser => "qutebrowser"@,
        Source::Firefox => "firefox"@,
    }
}

/// What every snapshot path of `source` begins with.
pub open spec fn snapshot_head(source: Source) -> Seq<char> {
    "/tmp/browser-history-"@ + source_label(source) + "-"@
}

/// The path of the snapshot that `source` takes under `token`.
pub open spec fn snapshot_path_of(source: Source, token: Seq<char>) -> Seq<char> {
    snapshot_head(source) + token + ".db"@
}

/// A character of a drawn token: a lower-case hexadecimal digit or a hyphen.
pub open spec fn is_token_char(c: char) -> bool {
    ('0' <= c && c <= '9') || ('a' <= c && c <= 'f') || c == '-'
}

/// The shape of every drawn token: 36 characters, each a token character.
pub open spec fn is_token(token: Seq<char>) -> bool {
    &&& token.len() == 36
    &&& forall|i: int| 0 <= i < 36 ==> is_token_char(#[trigger] token[i])
}

/// A token may stand in a file name if it holds no path separator.
pub open spec fn is_name_part(token: Seq<char>) -> bool {
    forall|i: int| 0 <= i < token.len() ==> #[trigger] token[i] != '/'
}

/// A path is a snapshot of `source` if it is its snapshot path under some
/// token that may stand in a file name.
pub open spec fn is_snapshot_of(source: Source, path: Seq<char>) -> bool {
    exists|token: Seq<char>|
        is_name_part(token) && path == #[trigger] snapshot_path_of(source, token)
}

/// What every snapshot path of `source` begins with.
fn snapshot_head_text(source: Source) -> (out: String)
    ensures
        out@ == snapshot_head(source),
{
    let mut out = String::from_str("/tmp/browser-history-");
    match source {
        Source::Qutebrowser => out.append("qutebrowser"),
        Source::Firefox => out.append("firefox"),
    }
    out.append("-");
    out
}

/// Builds the snapshot path of `source` under `token`.
pub fn snapshot_path(source: Source, token: &str) -> (out: String)
    ensures
        out@ == snapshot_path_of(source, token@),
{
    let mut out = snapshot_head_text(source);
    out.append(token);
    out.append(".db");
    out
}

/// The parts of a snapshot path: the head of its source, the token, and the
/// extension.
pub proof fn lemma_snapshot_shape(source: Source, token: Seq<char>)
    ensures
        ({
            let path = snapshot_path_of(source, token);
            let head = snapshot_head(source);
            &&& path.len() == head.len() + token.len() + 3
            &&& head.is_prefix_of(path)
            &&& path.subrange(head.len() as int, path.len() - 3) == token
            &&& path[path.len() - 3] == '.'
            &&& path[path.len() - 2] == 'd'
            &&& path[path.len() - 1] == 'b'
        }),
{
    reveal_strlit(".db");
}

/// Whether `path` is a snapshot of `source`.
pub fn names_snapshot(source: Source, path: &str) -> (b: bool)
    ensures
        b == is_snapshot_of(source, path@),
{
    let head = snapshot_head_text(source);
    let n: usize = path.unicode_len();
    let h: usize = head.as_str().unicode_len();
    proof {
        assert forall|token: Seq<char>| path@ == snapshot_path_of(source, token) implies {
            &&& head@.is_prefix_of(path@)
            &&& n >= h + 3
            &&& path@[n - 3] == '.'
            &&& path@[n - 2] == 'd'
            &&& path@[n - 1] == 'b'
            &&& token == path@.subrange(h as int, n - 3)
        } by {
            lemma_snapshot_shape(source, token);
        }
    }
    if !starts_with(path, head.as_str()) {
        return false;
    }
    if n - h < 3 {
        return false;
    }
    if path.get_char(n - 3) != '.' || path.get_char(n - 2) != 'd' || path.get_char(n - 1) != 'b' {
        return false;
    }
    let ghost token = path@.subrange(h as int, n - 3);
    let mut i: usize = h;
    while i < n - 3
        invariant
            h <= i <= n - 3,
            n == path@.len(),
            token == path@.subrange(h as int, n - 3),
            forall|j: int| 0 <= j < i - h ==> #[trigger] token[j] != '/',
            forall|other: Seq<char>|
                path@ == snapshot_path_of(source, other) ==> other == path@.subrange(
                    h as int,
                    n - 3,
                ),
        decreases n - i,
    {
        if path.get_char(i) == '/' {
            assert(token[i - h] == '/');
            return false;
        }
        i = i + 1;
    }
    proof {
        reveal_strlit(".db");
        assert(path@ =~= snapshot_path_of(source, token));
    }
    true
}

/// A random version-4 UUID from `uuid::Uuid::new_v4`, in the text form of
/// its `Display`: hyphenated lower-case hexadecimal, 36 characters. Which
/// token comes back is not stated; two calls may or may not differ.
#[verifier::external_body]
pub(crate) fn fresh_token() -> (out: String)
    ensures
        is_token(out@),
{
    uuid::Uuid::new_v4().to_string()
}

/// The path for a new snapshot of `source`, under a token drawn for it.
pub fn fresh_snapshot_path(source: Source) -> (out: String)
    ensures
        exists|token: Seq<char>|
            is_token(token) && out@ == #[trigger] snapshot_path_of(source, token),
        is_snapshot_of(source, out@),
{
    let token = fresh_token();
    proof {
        lemma_token_is_name_part(token@);
    }
    snapshot_path(source, token.as_str())
}

/// A drawn token may stand in a file name.
pub proof fn lemma_token_is_name_part(token: Seq<char>)
    requires
        is_token(token),
    ensures
        is_name_part(token),
{
    assert forall|i: int| 0 <= i < token.len() implies #[trigger] token[i] != '/' by {
        assert(is_token_char(token[i]));
    }
}

/// Two snapshot paths collide only if both the source and the token are the
/// same: different tokens, or different sources, give different paths.
pub proof fn lemma_snapshot_paths_distinct(
    source_a: Source,
    token_a: Seq<char>,
    source_b: Source,
    token_b: Seq<char>,
)
    requires
        source_a != source_b || token_a != token_b,
    ensures
        snapshot_path_of(source_a, token_a) != snapshot_path_of(source_b, token_b),
{
    reveal_strlit("/tmp/browser-history-");
    reveal_strlit("qutebrowser");
    reveal_strlit("firefox");
    let left = snapshot_path_of(source_a, token_a);
    let right = snapshot_path_of(source_b, token_b);
    let head = "/tmp/browser-history-"@;
    if source_a != source_b {
        assert(right[head.len() as int] == source_label(source_b)[0]);
    } else if left == right {
        lemma_snapshot_shape(source_a, token_a);
        lemma_snapshot_shape(source_b, token_b);
    }
}

/// The snapshots of different sources never collide, whatever their tokens.
pub proof fn lemma_sources_apart(
    source_a: Source,
    path_a: Seq<char>,
    source_b: Source,
    path_b: Seq<char>,
)
    requires
        source_a != source_b,
        is_snapshot_of(source_a, path_a),
        is_snapshot_of(source_b, path_b),
    ensures
        path_a != path_b,
{
    let token_a = choose|token: Seq<char>|
        is_name_part(token) && path_a == #[trigger] snapshot_path_of(source_a, token);
    let token_b = choose|token: Seq<char>|
        is_name_part(token) && path_b == #[trigger] snapshot_path_of(source_b, token);
    lemma_snapshot_paths_distinct(source_a, token_a, source_b, token_b);
}

/// A snapshot lies directly in the temporary area: behind `/tmp/` its path
/// holds no further separator.
pub proof fn lemma_snapshot_in_temporary_area(source: Source, path: Seq<char>)
    requires
        is_snapshot_of(source, path),
    ensures
        "/tmp/"@.is_prefix_of(path),
        forall|i: int| 5 <= i < path.len() ==> path[i] != '/',
{
    reveal_strlit("/tmp/browser-history-");
    reveal_strlit("/tmp/");
    reveal_strlit("qutebrowser");
    reveal_strlit("firefox");
    reveal_strlit("-");
    reveal_strlit(".db");
    let token = choose|token: Seq<char>|
        is_name_part(token) && path == #[trigger] snapshot_path_of(source, token);
    lemma_snapshot_shape(source, token);
    assert forall|i: int| 5 <= i < path.len() implies path[i] != '/' by {
        if snapshot_head(source).len() <= i < path.len() - 3 {
            assert(path[i] == token[i - snapshot_head(source).len()]);
        }
    }
}

/// What is known of a history store: where the live file lies, and where
/// its snapshot lies once one was taken.
pub ghost struct DatabaseView {
    pub location: Seq<char>,
    pub snapshot_location: Option<Seq<char>>,
}

/// A store of `source` is consistent if its snapshot, where it has one, is
/// a snapshot of that source and not the live file itself.
pub open spec fn is_consistent(source: Source, database: DatabaseView) -> bool {
    database.snapshot_location matches Some(snapshot) ==> {
        &&& snapshot != database.location
        &&& is_snapshot_of(source, snapshot)
    }
}

/// Why a snapshot was not taken.
#[derive(Debug, Clone, Copy, PartialEq, Eq, Structural)]
pub enum SnapshotError {
    /// The store has a snapshot already.
    AlreadyTaken,
    /// The destination is no snapshot path of the store's source.
    Misplaced,
    /// The destination is the live file itself, which is never written.
    CollidesWithSource,
    /// The live file could not be read, or the destination not written.
    CopyFailed,
}

/// The destination that a store of `source` is copied to under `path`:
/// `path` itself, unless the store has a snapshot already, `path` is no
/// snapshot of the source, or it is the live file.
pub open spec fn destination_of(source: Source, database: DatabaseView, path: Seq<char>) -> Result<
    Seq<char>,
    SnapshotError,
> {
    if database.snapshot_location is Some {
        Err(SnapshotError::AlreadyTaken)
    } else if !is_snapshot_of(source, path) {
        Err(SnapshotError::Misplaced)
    } else if path == database.location {
        Err(SnapshotError::CollidesWithSource)
    } else {
        Ok(path)
    }
}

/// A destination or the reason why there is none, with the path as a
/// sequence of characters.
pub open spec fn destination_view(destination: Result<String, SnapshotError>) -> Result<
    Seq<char>,
    SnapshotError,
> {
    match destination {
        Ok(path) => Ok(path@),
        Err(error) => Err(error),
    }
}

/// How an attempt to snapshot a store of `source` ends, given the
/// destination and whether the file was copied there.
pub open spec fn copy_outcome(
    source: Source,
    database: DatabaseView,
    destination: Seq<char>,
    copied: bool,
) -> Result<(), SnapshotError> {
    match destination_of(source, database, destination) {
        Err(error) => Err(error),
        Ok(_) => if copied {
            Ok(())
        } else {
            Err(SnapshotError::CopyFailed)
        },
    }
}

/// The store after an attempt to snapshot it: with the destination as its
/// snapshot where the attempt succeeded, and as it was where it failed.
pub open spec fn after_copy(
    source: Source,
    database: DatabaseView,
    destination: Seq<char>,
    copied: bool,
) -> DatabaseView {
    if copy_outcome(source, database, destination, copied) is Ok {
        DatabaseView { location: database.location, snapshot_location: Some(destination) }
    } else {
        database
    }
}

/// A store that was only located: its live file is known, a snapshot is not
/// taken yet.
pub open spec fn located_at(location: Seq<char>) -> DatabaseView {
    DatabaseView { location, snapshot_location: None }
}

/// After a snapshot succeeds the store has one: it is the destination, it
/// is a snapshot of the store's source, it is not the live file, and the
/// live file is where it was.
pub proof fn lemma_snapshot_set_apart(
    source: Source,
    database: DatabaseView,
    destination: Seq<char>,
    copied: bool,
)
    requires
        copy_outcome(source, database, destination, copied) is Ok,
    ensures
        after_copy(source, database, destination, copied).snapshot_location == Some(destination),
        after_copy(source, database, destination, copied).snapshot_location != Some(
            database.location,
        ),
        after_copy(source, database, destination, copied).location == database.location,
        is_consistent(source, after_copy(source, database, destination, copied)),
{
}

/// A snapshot that fails leaves the store as it was.
pub proof fn lemma_failed_snapshot_changes_nothing(
    source: Source,
    database: DatabaseView,
    destination: Seq<char>,
    copied: bool,
)
    requires
        copy_outcome(source, database, destination, copied) is Err,
    ensures
        after_copy(source, database, destination, copied) == database,
{
}

/// Two consistent stores of different sources never share a snapshot.
pub proof fn lemma_stores_of_different_sources_apart(
    source_a: Source,
    store_a: DatabaseView,
    source_b: Source,
    store_b: DatabaseView,
)
    requires
        source_a != source_b,
        is_consistent(source_a, store_a),
        is_consistent(source_b, store_b),
        store_a.snapshot_location is Some,
    ensures
        store_a.snapshot_location != store_b.snapshot_location,
{
    if store_b.snapshot_location is Some {
        lemma_sources_apart(
            source_a,
            store_a.snapshot_location->0,
            source_b,
            store_b.snapshot_location->0,
        );
    }
}

} // verus!
