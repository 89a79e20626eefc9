//! The persistent store, backed by an embedded SQLite database through the
//! `rusqlite` crate.
//!
//! The store's contents are modelled by five named projections of the
//! connection: the commit-row table (see the rows module), the single
//! indexing-state record, the incremental-indexing watermark, the list of
//! memories (notes) and the list of metrics events.  Every wrapper below
//! states over those names what its SQL does; the SQL itself is one
//! statement per wrapper, shown in the body.

use vstd::prelude::*;

use crate::rows::{RowMap, rows_insert, spec_co_change, spec_commit_count, spec_coupled_with,
    spec_shared_commits};
use crate::risk::RawCoupledFileStats;
use crate::text::{spec_lower, spec_contains_seq};
use crate::types::{Memory, MetricsSummary};

verus! {

/// The `rusqlite` connection type, opaque to the verifier.
#[verifier::external_type_specification]
#[verifier::external_body]
pub struct ExConnection(rusqlite::Connection);

/// Errors surfaced by the library: a store failure or a version-control
/// failure, each carrying the underlying message.
#[derive(Debug)]
pub enum EngramError {
    Store(String),
    Vcs(String),
}

/// The persisted indexing-state record.
#[derive(Debug, Clone)]
pub struct IndexingState {
    pub head_commit: String,
    pub resume_oid: Option<String>,
    pub commits_indexed: u32,
    pub strategy: String,
    pub is_complete: bool,
    pub last_updated: i64,
    /// The file being analyzed, set for the path-filtered strategy.  It
    /// detects a later call that targets a different file, which must walk
    /// afresh instead of resuming another file's cursor.
    pub target_path: Option<String>,
}

/// Mathematical value of an indexing-state record.
pub struct StateModel {
    pub head_commit: Seq<char>,
    pub resume_oid: Option<Seq<char>>,
    pub commits_indexed: int,
    pub strategy: Seq<char>,
    pub is_complete: bool,
    pub last_updated: int,
    pub target_path: Option<Seq<char>>,
}

/// Mathematical value of a memory row.
pub struct MemoryModel {
    pub id: int,
    pub file_path: Seq<char>,
    pub symbol_name: Option<Seq<char>>,
    pub content: Seq<char>,
    pub created_at: Seq<char>,
}

/// Mathematical value of a metrics event row.
pub struct EventModel {
    pub event_type: Seq<char>,
    pub file_path: Option<Seq<char>>,
    pub coupled_files_count: int,
    pub critical_count: int,
    pub high_count: int,
    pub medium_count: int,
    pub low_count: int,
    pub test_files_found: int,
    pub test_intents_total: int,
    pub commit_count: int,
    pub analysis_time_ms: int,
    pub note_id: Option<int>,
    pub repo_root: Seq<char>,
}

/// The view of an optional string.
pub open spec fn opt_view(o: Option<String>) -> Option<Seq<char>> {
    match o {
        Some(s) => Some(s@),
        None => None,
    }
}

impl View for IndexingState {
    type V = StateModel;

    open spec fn view(&self) -> StateModel {
        StateModel {
            head_commit: self.head_commit@,
            resume_oid: opt_view(self.resume_oid),
            commits_indexed: self.commits_indexed as int,
            strategy: self.strategy@,
            is_complete: self.is_complete,
            last_updated: self.last_updated as int,
            target_path: opt_view(self.target_path),
        }
    }
}

impl View for Memory {
    type V = MemoryModel;

    open spec fn view(&self) -> MemoryModel {
        MemoryModel {
            id: self.id as int,
            file_path: self.file_path@,
            symbol_name: opt_view(self.symbol_name),
            content: self.content@,
            created_at: self.created_at@,
        }
    }
}

/// The embedded database holding all persistent state.
pub struct Database {
    conn: rusqlite::Connection,
}

/// The commit-row table held by the store.
pub uninterp spec fn db_rows(db: Database) -> RowMap;

/// The indexing-state record held by the store.
pub uninterp spec fn db_state(db: Database) -> Option<StateModel>;

/// The incremental-indexing watermark held by the store.
pub uninterp spec fn db_watermark(db: Database) -> Option<Seq<char>>;

/// The memories held by the store, in insertion order.
pub uninterp spec fn db_memories(db: Database) -> Seq<MemoryModel>;

/// The metrics events held by the store, in insertion order.
pub uninterp spec fn db_events(db: Database) -> Seq<EventModel>;

/// SQLite `LIKE '%q%'` containment: ASCII-case-insensitive substring.
pub open spec fn spec_like_contains(hay: Seq<char>, needle: Seq<char>) -> bool {
    spec_contains_seq(
        hay.map_values(|c: char| spec_lower(c)),
        needle.map_values(|c: char| spec_lower(c)),
    )
}

/// The text holds no NUL character.
pub open spec fn spec_nul_free(s: Seq<char>) -> bool {
    forall|i: int| 0 <= i < s.len() ==> #[trigger] s[i] != '\0'
}

/// The text up to (excluding) its first NUL character — all of it when
/// there is none.  The store's pattern matcher scans text NUL-terminated,
/// so this prefix is what takes part in a `LIKE` match.
pub open spec fn spec_before_nul(s: Seq<char>) -> Seq<char>
    decreases s.len(),
{
    if s.len() == 0 {
        s
    } else if s[0] == '\0' {
        Seq::empty()
    } else {
        seq![s[0]] + spec_before_nul(s.skip(1))
    }
}

/// The query holds no SQL `LIKE` wildcard.
pub open spec fn spec_no_wildcard(q: Seq<char>) -> bool {
    forall|i: int| 0 <= i < q.len() ==> q[i] != '%' && #[trigger] q[i] != '_'
}

/// Rows lie between the old table and the old table with the commit fully
/// inserted: old rows are intact, and any new row belongs to the commit.
pub open spec fn rows_partial_insert(
    old_m: RowMap,
    new_m: RowMap,
    commit: Seq<char>,
    files: Seq<Seq<char>>,
    ts: int,
) -> bool {
    &&& forall|k: (Seq<char>, Seq<char>)| #[trigger]
        old_m.contains_key(k) ==> new_m.contains_key(k) && new_m[k] == old_m[k]
    &&& forall|k: (Seq<char>, Seq<char>)| #[trigger]
        new_m.contains_key(k) && !old_m.contains_key(k) ==> k.0 == commit && files.contains(k.1)
            && new_m[k] == ts
}

/// The memories matching a file path.
pub open spec fn spec_memories_for(ms: Seq<MemoryModel>, file: Seq<char>) -> Seq<MemoryModel> {
    ms.filter(|m: MemoryModel| m.file_path == file)
}

/// The schema, created on open; every statement is `IF NOT EXISTS`, so
/// opening an existing store is a no-op.
const SCHEMA: &'static str = "PRAGMA journal_mode=WAL; PRAGMA busy_timeout=5000; CREATE TABLE IF NOT EXISTS temporal_index (commit_hash TEXT NOT NULL, file_path TEXT NOT NULL, commit_timestamp INTEGER NOT NULL DEFAULT 0, PRIMARY KEY (commit_hash, file_path)); CREATE INDEX IF NOT EXISTS idx_temporal_file ON temporal_index(file_path); CREATE TABLE IF NOT EXISTS indexing_state (id INTEGER PRIMARY KEY CHECK (id = 1), head_commit TEXT NOT NULL, resume_oid TEXT, commits_indexed INTEGER NOT NULL DEFAULT 0, strategy TEXT NOT NULL DEFAULT 'global', is_complete INTEGER NOT NULL DEFAULT 0, last_updated INTEGER NOT NULL DEFAULT 0, target_path TEXT); CREATE TABLE IF NOT EXISTS watermark (id INTEGER PRIMARY KEY CHECK (id = 1), commit_hash TEXT NOT NULL); CREATE TABLE IF NOT EXISTS memories (id INTEGER PRIMARY KEY AUTOINCREMENT, file_path TEXT NOT NULL, symbol_name TEXT, content TEXT NOT NULL, created_at DATETIME DEFAULT CURRENT_TIMESTAMP); CREATE INDEX IF NOT EXISTS idx_memories_file ON memories(file_path); CREATE TABLE IF NOT EXISTS metrics_events (id INTEGER PRIMARY KEY AUTOINCREMENT, event_type TEXT NOT NULL, timestamp DATETIME DEFAULT CURRENT_TIMESTAMP, file_path TEXT, coupled_files_count INTEGER DEFAULT 0, critical_count INTEGER DEFAULT 0, high_count INTEGER DEFAULT 0, medium_count INTEGER DEFAULT 0, low_count INTEGER DEFAULT 0, test_files_found INTEGER DEFAULT 0, test_intents_total INTEGER DEFAULT 0, commit_count INTEGER DEFAULT 0, analysis_time_ms INTEGER DEFAULT 0, note_id INTEGER, repo_root TEXT NOT NULL); CREATE INDEX IF NOT EXISTS idx_metrics_event_type ON metrics_events(event_type); CREATE INDEX IF NOT EXISTS idx_metrics_repo ON metrics_events(repo_root);";

/// All five projections agree between two database values.
pub open spec fn db_unchanged(a: Database, b: Database) -> bool {
    &&& db_rows(a) == db_rows(b)
    &&& db_state(a) == db_state(b)
    &&& db_watermark(a) == db_watermark(b)
    &&& db_memories(a) == db_memories(b)
    &&& db_events(a) == db_events(b)
}

impl Database {
    /// Relies on `rusqlite::Connection::open` and `execute_batch`: opens or
    /// creates the store at `path` and ensures the schema exists.  The
    /// contents are whatever the file holds, so nothing is promised of them.
    #[verifier::external_body]
    pub fn open(path: &str) -> (r: Result<Database, EngramError>)
    {
        let conn = rusqlite::Connection::open(path).map_err(|e| EngramError::Store(e.to_string()))?;
        conn.execute_batch(SCHEMA).map_err(|e| EngramError::Store(e.to_string()))?;
        Ok(Database { conn })
    }

    /// Relies on `rusqlite::Connection::open_in_memory`: a fresh store with
    /// nothing in any table.
    #[verifier::external_body]
    pub fn in_memory() -> (r: Result<Database, EngramError>)
        ensures
            r matches Ok(db) ==> db_rows(db) == RowMap::empty() && db_state(db) is None
                && db_watermark(db) is None && db_memories(db) == Seq::<MemoryModel>::empty()
                && db_events(db) == Seq::<EventModel>::empty(),
    {
        let conn = rusqlite::Connection::open_in_memory().map_err(|e| EngramError::Store(e.to_string()))?;
        conn.execute_batch(SCHEMA).map_err(|e| EngramError::Store(e.to_string()))?;
        Ok(Database { conn })
    }

    /// Relies on `execute_batch("BEGIN")`: opens a transaction; the visible
    /// contents do not change.
    #[verifier::external_body]
    pub fn begin_transaction(&mut self) -> (r: Result<(), EngramError>)
        ensures
            db_unchanged(*old(self), *final(self)),
    {
        self.conn.execute_batch("BEGIN").map_err(|e| EngramError::Store(e.to_string()))
    }

    /// Relies on `execute_batch("COMMIT")`: closes the transaction, making
    /// it durable; the contents seen through this connection do not change.
    #[verifier::external_body]
    pub fn commit_transaction(&mut self) -> (r: Result<(), EngramError>)
        ensures
            db_unchanged(*old(self), *final(self)),
    {
        self.conn.execute_batch("COMMIT").map_err(|e| EngramError::Store(e.to_string()))
    }

    /// Relies on `INSERT OR IGNORE` under the `(commit_hash, file_path)`
    /// primary key: inserting a commit's files adds exactly the missing
    /// pairs; present pairs keep their timestamp.  On an error part of the
    /// commit may be inserted, but never anything else.
    #[verifier::external_body]
    pub fn insert_commit(&mut self, commit_hash: &str, files: &Vec<String>, timestamp: i64)
        -> (r: Result<(), EngramError>)
        ensures
            r is Ok ==> db_rows(*final(self)) == rows_insert(
                db_rows(*old(self)),
                commit_hash@,
                files@.map_values(|s: String| s@),
                timestamp as int,
            ),
            r is Err ==> rows_partial_insert(
                db_rows(*old(self)),
                db_rows(*final(self)),
                commit_hash@,
                files@.map_values(|s: String| s@),
                timestamp as int,
            ),
            db_state(*final(self)) == db_state(*old(self)),
            db_watermark(*final(self)) == db_watermark(*old(self)),
            db_memories(*final(self)) == db_memories(*old(self)),
            db_events(*final(self)) == db_events(*old(self)),
    {
        let mut stmt = self.conn.prepare("INSERT OR IGNORE INTO temporal_index (commit_hash, file_path, commit_timestamp) VALUES (?1, ?2, ?3)").map_err(|e| EngramError::Store(e.to_string()))?;
        for file in files {
            stmt.execute((commit_hash, file, timestamp)).map_err(|e| EngramError::Store(e.to_string()))?;
        }
        Ok(())
    }

    /// Relies on `SELECT COUNT(DISTINCT a.commit_hash)` over the self-join
    /// of the row table: the number of commits containing both files.
    #[verifier::external_body]
    pub fn co_change_count(&self, file_a: &str, file_b: &str) -> (r: Result<u32, EngramError>)
        ensures
            r matches Ok(n) ==> n as nat == spec_co_change(db_rows(*self), file_a@, file_b@),
    {
        let mut stmt = self.conn.prepare("SELECT COUNT(DISTINCT a.commit_hash) FROM temporal_index a JOIN temporal_index b ON a.commit_hash = b.commit_hash WHERE a.file_path = ?1 AND b.file_path = ?2").map_err(|e| EngramError::Store(e.to_string()))?;
        stmt.query_row((file_a, file_b), |row| row.get(0)).map_err(|e| EngramError::Store(e.to_string()))
    }

    /// Relies on `SELECT COUNT(DISTINCT commit_hash)`: the number of
    /// commits touching the file.
    #[verifier::external_body]
    pub fn commit_count(&self, file_path: &str) -> (r: Result<u32, EngramError>)
        ensures
            r matches Ok(n) ==> n as nat == spec_commit_count(db_rows(*self), file_path@),
    {
        let mut stmt = self.conn.prepare("SELECT COUNT(DISTINCT commit_hash) FROM temporal_index WHERE file_path = ?1").map_err(|e| EngramError::Store(e.to_string()))?;
        stmt.query_row((file_path,), |row| row.get(0)).map_err(|e| EngramError::Store(e.to_string()))
    }

    /// Relies on `COALESCE(MIN(..), 0), COALESCE(MAX(..), 0)`: the oldest
    /// and newest timestamp over all rows, `(0, 0)` for an empty table.
    #[verifier::external_body]
    pub fn commit_time_range(&self) -> (r: Result<(i64, i64), EngramError>)
        ensures
            r matches Ok(t) ==> ({
                let m = db_rows(*self);
                &&& (m.dom() =~= Set::<(Seq<char>, Seq<char>)>::empty() ==> t.0 == 0 && t.1
                    == 0)
                &&& (!(m.dom() =~= Set::<(Seq<char>, Seq<char>)>::empty()) ==> {
                    &&& exists|k: (Seq<char>, Seq<char>)| #[trigger] m.contains_key(k) && m[k]
                        == t.0
                    &&& exists|k: (Seq<char>, Seq<char>)| #[trigger] m.contains_key(k) && m[k]
                        == t.1
                    &&& forall|k: (Seq<char>, Seq<char>)| #[trigger] m.contains_key(k) ==> t.0
                        <= m[k] <= t.1
                })
            }),
    {
        let mut stmt = self.conn.prepare("SELECT COALESCE(MIN(commit_timestamp), 0), COALESCE(MAX(commit_timestamp), 0) FROM temporal_index").map_err(|e| EngramError::Store(e.to_string()))?;
        stmt.query_row([], |row| Ok((row.get(0)?, row.get(1)?))).map_err(|e| EngramError::Store(e.to_string()))
    }

    /// Relies on the grouped self-join `SELECT b.file_path, COUNT(DISTINCT
    /// a.commit_hash) .. GROUP BY b.file_path ORDER BY cnt DESC`: every
    /// file that ever shared a commit with `file_path`, once each, with its
    /// co-change count, sorted by non-increasing count.
    #[verifier::external_body]
    pub fn coupled_files(&self, file_path: &str) -> (r: Result<Vec<(String, u32)>, EngramError>)
        ensures
            r matches Ok(v) ==> ({
                let m = db_rows(*self);
                &&& forall|i: int|
                    0 <= i < v@.len() ==> spec_coupled_with(m, file_path@).contains(
                        #[trigger] v@[i].0@,
                    )
                &&& forall|b: Seq<char>| #[trigger]
                    spec_coupled_with(m, file_path@).contains(b) ==> exists|i: int|
                        0 <= i < v@.len() && #[trigger] v@[i].0@ == b
                &&& forall|i: int, j: int|
                    0 <= i < j < v@.len() ==> #[trigger] v@[i].0@ != #[trigger] v@[j].0@
                &&& forall|i: int|
                    0 <= i < v@.len() ==> #[trigger] v@[i].1 as nat == spec_co_change(
                        m,
                        file_path@,
                        v@[i].0@,
                    )
                &&& forall|i: int, j: int|
                    0 <= i <= j < v@.len() ==> #[trigger] v@[i].1 >= #[trigger] v@[j].1
            }),
    {
        let mut stmt = self.conn.prepare("SELECT b.file_path, COUNT(DISTINCT a.commit_hash) as cnt FROM temporal_index a JOIN temporal_index b ON a.commit_hash = b.commit_hash WHERE a.file_path = ?1 AND b.file_path != ?1 GROUP BY b.file_path ORDER BY cnt DESC").map_err(|e| EngramError::Store(e.to_string()))?;
        let rows = stmt.query_map((file_path,), |row| Ok((row.get(0)?, row.get(1)?))).map_err(|e| EngramError::Store(e.to_string()))?;
        rows.collect::<Result<Vec<_>, _>>().map_err(|e| EngramError::Store(e.to_string()))
    }

    /// Relies on the same grouped self-join extended with a per-file total
    /// and `MAX(b.commit_timestamp)`: for every coupled file, its co-change
    /// count with the target, its total commit count anywhere, and the
    /// newest timestamp among the shared commits' rows, sorted by
    /// non-increasing co-change count.  A co-change count is a count over
    /// a subset of the target's commits, so it never exceeds the target's
    /// own commit count.
    #[verifier::external_body]
    pub fn coupled_files_with_stats(&self, file_path: &str)
        -> (r: Result<Vec<RawCoupledFileStats>, EngramError>)
        ensures
            r matches Ok(v) ==> ({
                let m = db_rows(*self);
                &&& forall|i: int|
                    0 <= i < v@.len() ==> spec_coupled_with(m, file_path@).contains(
                        #[trigger] v@[i].path@,
                    )
                &&& forall|b: Seq<char>| #[trigger]
                    spec_coupled_with(m, file_path@).contains(b) ==> exists|i: int|
                        0 <= i < v@.len() && #[trigger] v@[i].path@ == b
                &&& forall|i: int, j: int|
                    0 <= i < j < v@.len() ==> #[trigger] v@[i].path@ != #[trigger] v@[j].path@
                &&& forall|i: int|
                    0 <= i < v@.len() ==> #[trigger] v@[i].co_change_count as nat
                        == spec_co_change(m, file_path@, v@[i].path@)
                &&& forall|i: int|
                    0 <= i < v@.len() ==> #[trigger] v@[i].co_change_count as nat
                        <= spec_commit_count(m, file_path@)
                &&& forall|i: int|
                    0 <= i < v@.len() ==> #[trigger] v@[i].total_commits as nat
                        == spec_commit_count(m, v@[i].path@)
                &&& forall|i: int|
                    #![trigger v@[i].last_timestamp]
                    0 <= i < v@.len() ==> exists|c: Seq<char>|
                        #[trigger] spec_shared_commits(m, file_path@, v@[i].path@).contains(c)
                            && m[(c, v@[i].path@)] == v@[i].last_timestamp
                &&& forall|i: int, c: Seq<char>|
                    0 <= i < v@.len() && #[trigger] spec_shared_commits(
                        m,
                        file_path@,
                        v@[i].path@,
                    ).contains(c) ==> m[(c, v@[i].path@)] <= v@[i].last_timestamp
                &&& forall|i: int, j: int|
                    0 <= i <= j < v@.len() ==> #[trigger] v@[i].co_change_count >= #[trigger] v@[
                        j
                    ].co_change_count
            }),
    {
        let mut stmt = self.conn.prepare("SELECT b.file_path, COUNT(DISTINCT a.commit_hash) as co_change_count, (SELECT COUNT(DISTINCT commit_hash) FROM temporal_index WHERE file_path = b.file_path) as total_commits, MAX(b.commit_timestamp) as last_timestamp FROM temporal_index a JOIN temporal_index b ON a.commit_hash = b.commit_hash WHERE a.file_path = ?1 AND b.file_path != ?1 GROUP BY b.file_path ORDER BY co_change_count DESC").map_err(|e| EngramError::Store(e.to_string()))?;
        let rows = stmt.query_map((file_path,), |row| Ok(RawCoupledFileStats { path: row.get(0)?, co_change_count: row.get(1)?, total_commits: row.get(2)?, last_timestamp: row.get(3)? })).map_err(|e| EngramError::Store(e.to_string()))?;
        rows.collect::<Result<Vec<_>, _>>().map_err(|e| EngramError::Store(e.to_string()))
    }

    /// Relies on `SELECT .. FROM indexing_state WHERE id = 1`: the stored
    /// record, or `None` when none was ever written.
    #[verifier::external_body]
    pub fn get_indexing_state(&self) -> (r: Result<Option<IndexingState>, EngramError>)
        ensures
            r matches Ok(o) ==> ({
                &&& o is None <==> db_state(*self) is None
                &&& o matches Some(st) ==> db_state(*self) == Some(st@)
            }),
    {
        let mut stmt = self.conn.prepare("SELECT head_commit, resume_oid, commits_indexed, strategy, is_complete, last_updated, target_path FROM indexing_state WHERE id = 1").map_err(|e| EngramError::Store(e.to_string()))?;
        let result = stmt.query_row([], |row| Ok(IndexingState { head_commit: row.get(0)?, resume_oid: row.get(1)?, commits_indexed: row.get(2)?, strategy: row.get(3)?, is_complete: row.get::<_, i32>(4)? != 0, last_updated: row.get(5)?, target_path: row.get(6)? }));
        match result {
            Ok(state) => Ok(Some(state)),
            Err(rusqlite::Error::QueryReturnedNoRows) => Ok(None),
            Err(e) => Err(EngramError::Store(e.to_string())),
        }
    }

    /// Relies on `INSERT OR REPLACE INTO indexing_state .. VALUES (1, ..)`:
    /// overwrites the single record; on an error the old record stands.
    #[verifier::external_body]
    pub fn set_indexing_state(&mut self, state: &IndexingState) -> (r: Result<(), EngramError>)
        ensures
            r is Ok ==> db_state(*final(self)) == Some(state@),
            r is Err ==> db_state(*final(self)) == db_state(*old(self)),
            db_rows(*final(self)) == db_rows(*old(self)),
            db_watermark(*final(self)) == db_watermark(*old(self)),
            db_memories(*final(self)) == db_memories(*old(self)),
            db_events(*final(self)) == db_events(*old(self)),
    {
        self.conn.execute(
            "INSERT OR REPLACE INTO indexing_state (id, head_commit, resume_oid, commits_indexed, strategy, is_complete, last_updated, target_path) VALUES (1, ?1, ?2, ?3, ?4, ?5, ?6, ?7)",
            (&state.head_commit, &state.resume_oid, state.commits_indexed, &state.strategy, state.is_complete as i32, state.last_updated, &state.target_path),
        ).map_err(|e| EngramError::Store(e.to_string()))?;
        Ok(())
    }

    /// Relies on `SELECT COUNT(*) FROM indexing_state WHERE id = 1`: true
    /// when no indexing-state record exists yet.
    #[verifier::external_body]
    pub fn is_first_index_call(&self) -> (r: Result<bool, EngramError>)
        ensures
            r matches Ok(b) ==> b == (db_state(*self) is None),
    {
        let mut stmt = self.conn.prepare("SELECT COUNT(*) FROM indexing_state WHERE id = 1").map_err(|e| EngramError::Store(e.to_string()))?;
        let count: i32 = stmt.query_row([], |row| row.get(0)).map_err(|e| EngramError::Store(e.to_string()))?;
        Ok(count == 0)
    }

    /// Relies on `SELECT commit_hash FROM watermark WHERE id = 1`: the
    /// stored watermark, or `None`.
    #[verifier::external_body]
    pub fn get_watermark(&self) -> (r: Result<Option<String>, EngramError>)
        ensures
            r matches Ok(o) ==> opt_view(o) == db_watermark(*self),
    {
        let mut stmt = self.conn.prepare("SELECT commit_hash FROM watermark WHERE id = 1").map_err(|e| EngramError::Store(e.to_string()))?;
        match stmt.query_row([], |row| row.get(0)) {
            Ok(h) => Ok(Some(h)),
            Err(rusqlite::Error::QueryReturnedNoRows) => Ok(None),
            Err(e) => Err(EngramError::Store(e.to_string())),
        }
    }

    /// Relies on `INSERT OR REPLACE INTO watermark`: overwrites the single
    /// watermark row; on an error the old value stands.
    #[verifier::external_body]
    pub fn set_watermark(&mut self, commit_hash: &str) -> (r: Result<(), EngramError>)
        ensures
            r is Ok ==> db_watermark(*final(self)) == Some(commit_hash@),
            r is Err ==> db_watermark(*final(self)) == db_watermark(*old(self)),
            db_rows(*final(self)) == db_rows(*old(self)),
            db_state(*final(self)) == db_state(*old(self)),
            db_memories(*final(self)) == db_memories(*old(self)),
            db_events(*final(self)) == db_events(*old(self)),
    {
        self.conn.execute("INSERT OR REPLACE INTO watermark (id, commit_hash) VALUES (1, ?1)", (commit_hash,))
            .map_err(|e| EngramError::Store(e.to_string()))?;
        Ok(())
    }

    /// Relies on `INSERT INTO memories` and `last_insert_rowid`: appends
    /// one memory whose id is larger than every stored id; `created_at` is
    /// filled by the store's clock, so only its existence is stated.
    #[verifier::external_body]
    pub fn add_memory(&mut self, file_path: &str, symbol_name: Option<&str>, content: &str)
        -> (r: Result<i64, EngramError>)
        ensures
            r matches Ok(id) ==> ({
                &&& id >= 1
                &&& forall|i: int|
                    0 <= i < db_memories(*old(self)).len() ==> #[trigger] db_memories(*old(self))[i].id < id
                &&& db_memories(*final(self)).len() == db_memories(*old(self)).len() + 1
                &&& db_memories(*final(self)).drop_last() == db_memories(*old(self))
                &&& ({
                    let added = db_memories(*final(self)).last();
                    &&& added.id == id as int
                    &&& added.file_path == file_path@
                    &&& added.symbol_name == (match symbol_name {
                        Some(s) => Some(s@),
                        None => None,
                    })
                    &&& added.content == content@
                })
            }),
            r is Err ==> db_memories(*final(self)) == db_memories(*old(self)),
            db_rows(*final(self)) == db_rows(*old(self)),
            db_state(*final(self)) == db_state(*old(self)),
            db_watermark(*final(self)) == db_watermark(*old(self)),
            db_events(*final(self)) == db_events(*old(self)),
    {
        self.conn.execute("INSERT INTO memories (file_path, symbol_name, content) VALUES (?1, ?2, ?3)", (file_path, symbol_name, content))
            .map_err(|e| EngramError::Store(e.to_string()))?;
        Ok(self.conn.last_insert_rowid())
    }

    /// Relies on `SELECT .. FROM memories WHERE file_path = ?1`: exactly
    /// the memories stored for that file (the `ORDER BY created_at DESC`
    /// leaves same-second entries in an unspecified order, so only the
    /// collection is stated).
    #[verifier::external_body]
    pub fn memories_for_file(&self, file_path: &str) -> (r: Result<Vec<Memory>, EngramError>)
        ensures
            r matches Ok(v) ==> v@.map_values(|m: Memory| m@).to_multiset()
                == spec_memories_for(db_memories(*self), file_path@).to_multiset(),
    {
        let mut stmt = self.conn.prepare("SELECT id, file_path, symbol_name, content, created_at FROM memories WHERE file_path = ?1 ORDER BY created_at DESC").map_err(|e| EngramError::Store(e.to_string()))?;
        let rows = stmt.query_map((file_path,), |row| Ok(Memory { id: row.get(0)?, file_path: row.get(1)?, symbol_name: row.get(2)?, content: row.get(3)?, created_at: row.get(4)? })).map_err(|e| EngramError::Store(e.to_string()))?;
        rows.collect::<Result<Vec<_>, _>>().map_err(|e| EngramError::Store(e.to_string()))
    }

    /// Relies on `LIKE '%query%'` over content and path.  The engine's
    /// pattern matcher scans text NUL-terminated, so a stored text takes
    /// part only by its prefix before any embedded NUL, and a query
    /// holding a NUL truncates the pattern; hence the match is stated
    /// over those prefixes, for a query free of SQL wildcards and NULs:
    /// exactly the memories whose content or path prefix contains the
    /// query, ASCII-case-insensitively.
    #[verifier::external_body]
    pub fn search_memories(&self, query: &str) -> (r: Result<Vec<Memory>, EngramError>)
        ensures
            r matches Ok(v) ==> (spec_no_wildcard(query@) && spec_nul_free(query@))
                ==> v@.map_values(|m: Memory| m@).to_multiset() == db_memories(*self).filter(
                |m: MemoryModel| spec_like_contains(spec_before_nul(m.content), query@)
                    || spec_like_contains(spec_before_nul(m.file_path), query@),
            ).to_multiset(),
    {
        let pattern = format!("%{query}%");
        let mut stmt = self.conn.prepare("SELECT id, file_path, symbol_name, content, created_at FROM memories WHERE content LIKE ?1 OR file_path LIKE ?1 ORDER BY created_at DESC").map_err(|e| EngramError::Store(e.to_string()))?;
        let rows = stmt.query_map((pattern,), |row| Ok(Memory { id: row.get(0)?, file_path: row.get(1)?, symbol_name: row.get(2)?, content: row.get(3)?, created_at: row.get(4)? })).map_err(|e| EngramError::Store(e.to_string()))?;
        rows.collect::<Result<Vec<_>, _>>().map_err(|e| EngramError::Store(e.to_string()))
    }

    /// Relies on `SELECT .. FROM memories`: all stored memories (ordered by
    /// `created_at DESC`, which is unspecified within a second, so only the
    /// collection is stated).
    #[verifier::external_body]
    pub fn all_memories(&self) -> (r: Result<Vec<Memory>, EngramError>)
        ensures
            r matches Ok(v) ==> v@.map_values(|m: Memory| m@).to_multiset()
                == db_memories(*self).to_multiset(),
    {
        let mut stmt = self.conn.prepare("SELECT id, file_path, symbol_name, content, created_at FROM memories ORDER BY created_at DESC").map_err(|e| EngramError::Store(e.to_string()))?;
        let rows = stmt.query_map([], |row| Ok(Memory { id: row.get(0)?, file_path: row.get(1)?, symbol_name: row.get(2)?, content: row.get(3)?, created_at: row.get(4)? })).map_err(|e| EngramError::Store(e.to_string()))?;
        rows.collect::<Result<Vec<_>, _>>().map_err(|e| EngramError::Store(e.to_string()))
    }

    /// All memories, optionally narrowed to one file.
    pub fn list_memories(&self, file_path: Option<&str>) -> (r: Result<Vec<Memory>, EngramError>)
        ensures
            r matches Ok(v) ==> ({
                match file_path {
                    Some(p) => v@.map_values(|m: Memory| m@).to_multiset() == spec_memories_for(
                        db_memories(*self),
                        p@,
                    ).to_multiset(),
                    None => v@.map_values(|m: Memory| m@).to_multiset()
                        == db_memories(*self).to_multiset(),
                }
            }),
    {
        match file_path {
            Some(path) => self.memories_for_file(path),
            None => self.all_memories(),
        }
    }

    /// Relies on `INSERT INTO metrics_events`: appends one event with the
    /// given fields (the analysis time saturates at the column's 64-bit
    /// signed ceiling); on an error nothing is appended.
    #[verifier::external_body]
    #[allow(clippy::too_many_arguments)]
    pub fn insert_metrics_event(
        &mut self,
        event_type: &str,
        file_path: Option<&str>,
        coupled_files_count: u32,
        critical_count: u32,
        high_count: u32,
        medium_count: u32,
        low_count: u32,
        test_files_found: u32,
        test_intents_total: u32,
        commit_count: u32,
        analysis_time_ms: u64,
        note_id: Option<i64>,
        repo_root: &str,
    ) -> (r: Result<(), EngramError>)
        ensures
            r is Ok ==> db_events(*final(self)) == db_events(*old(self)).push(
                (EventModel {
                    event_type: event_type@,
                    file_path: match file_path {
                        Some(p) => Some(p@),
                        None => None,
                    },
                    coupled_files_count: coupled_files_count as int,
                    critical_count: critical_count as int,
                    high_count: high_count as int,
                    medium_count: medium_count as int,
                    low_count: low_count as int,
                    test_files_found: test_files_found as int,
                    test_intents_total: test_intents_total as int,
                    commit_count: commit_count as int,
                    analysis_time_ms: if analysis_time_ms <= i64::MAX {
                        analysis_time_ms as int
                    } else {
                        i64::MAX as int
                    },
                    note_id: match note_id {
                        Some(n) => Some(n as int),
                        None => None,
                    },
                    repo_root: repo_root@,
                }),
            ),
            r is Err ==> db_events(*final(self)) == db_events(*old(self)),
            db_rows(*final(self)) == db_rows(*old(self)),
            db_state(*final(self)) == db_state(*old(self)),
            db_watermark(*final(self)) == db_watermark(*old(self)),
            db_memories(*final(self)) == db_memories(*old(self)),
    {
        self.conn.execute(
            "INSERT INTO metrics_events (event_type, file_path, coupled_files_count, critical_count, high_count, medium_count, low_count, test_files_found, test_intents_total, commit_count, analysis_time_ms, note_id, repo_root) VALUES (?1, ?2, ?3, ?4, ?5, ?6, ?7, ?8, ?9, ?10, ?11, ?12, ?13)",
            (event_type, file_path, coupled_files_count, critical_count, high_count, medium_count, low_count, test_files_found, test_intents_total, commit_count, i64::try_from(analysis_time_ms).unwrap_or(i64::MAX), note_id, repo_root),
        ).map_err(|e| EngramError::Store(e.to_string()))?;
        Ok(())
    }

    /// Relies on filtered aggregates over `metrics_events`: the twelve
    /// counters of the summary, in field order, with the average cast to
    /// an integer by the store (truncation toward zero).  Sums and the
    /// average are clamped at zero in the query, so every value is
    /// non-negative even over a store file that arrived with negative
    /// counters; counts and sums are exact while the true value is
    /// non-negative and fits a 64-bit integer, and the floating-point
    /// average is stated only where it is exact.
    #[verifier::external_body]
    fn metrics_row(&self, repo_root: &str) -> (r: Result<Vec<i64>, EngramError>)
        ensures
            r matches Ok(v) ==> v@.len() == 12 && spec_summary_vals_ok(
                db_events(*self),
                repo_root@,
                v@,
            ),
    {
        let mut stmt = self.conn.prepare("SELECT COUNT(*) FILTER (WHERE event_type = 'analysis'), COUNT(*) FILTER (WHERE event_type = 'add_note'), COUNT(*) FILTER (WHERE event_type = 'search_notes'), COUNT(*) FILTER (WHERE event_type = 'list_notes'), MAX(0, COALESCE(SUM(coupled_files_count), 0)), MAX(0, COALESCE(SUM(critical_count), 0)), MAX(0, COALESCE(SUM(high_count), 0)), MAX(0, COALESCE(SUM(medium_count), 0)), MAX(0, COALESCE(SUM(low_count), 0)), MAX(0, COALESCE(SUM(test_files_found), 0)), MAX(0, COALESCE(SUM(test_intents_total), 0)), MAX(0, CAST(COALESCE(AVG(analysis_time_ms) FILTER (WHERE event_type = 'analysis'), 0) AS INTEGER)) FROM metrics_events WHERE repo_root = ?1").map_err(|e| EngramError::Store(e.to_string()))?;
        stmt.query_row((repo_root,), |row| { let mut v: Vec<i64> = Vec::new(); for i in 0..12 { v.push(row.get(i)?); } Ok(v) }).map_err(|e| EngramError::Store(e.to_string()))
    }

    /// Aggregated metrics for one repository, assembled from the store's
    /// counters.
    pub fn get_metrics_summary(&self, repo_root: &str) -> (r: Result<MetricsSummary, EngramError>)
        ensures
            r matches Ok(s) ==> spec_summary_ok(db_events(*self), repo_root@, s),
    {
        let v = match self.metrics_row(repo_root) {
            Ok(v) => v,
            Err(e) => {
                return Err(e);
            },
        };
        let summary = MetricsSummary {
            total_analyses: to_u32(v[0]),
            notes_created: to_u32(v[1]),
            searches_performed: to_u32(v[2]),
            lists_performed: to_u32(v[3]),
            total_coupled_files: to_u32(v[4]),
            critical_risk_count: to_u32(v[5]),
            high_risk_count: to_u32(v[6]),
            medium_risk_count: to_u32(v[7]),
            low_risk_count: to_u32(v[8]),
            test_files_found: to_u32(v[9]),
            test_intents_extracted: to_u32(v[10]),
            avg_analysis_time_ms: to_u64(v[11]),
        };
        Ok(summary)
    }
}

/// A non-negative count narrowed to a counter, saturating above.
fn to_u32(n: i64) -> (r: u32)
    ensures
        0 <= n <= u32::MAX ==> r == n,
{
    if n < 0 {
        0
    } else if n > u32::MAX as i64 {
        u32::MAX
    } else {
        n as u32
    }
}

/// A non-negative count widened to a 64-bit counter.
fn to_u64(n: i64) -> (r: u64)
    ensures
        n >= 0 ==> r == n,
{
    if n < 0 {
        0
    } else {
        n as u64
    }
}

/// The events recorded for one repository.
pub open spec fn spec_repo_events(evs: Seq<EventModel>, root: Seq<char>) -> Seq<EventModel> {
    evs.filter(|e: EventModel| e.repo_root == root)
}

/// The events of one type recorded for one repository.
pub open spec fn spec_repo_events_of(
    evs: Seq<EventModel>,
    root: Seq<char>,
    ty: Seq<char>,
) -> Seq<EventModel> {
    evs.filter(|e: EventModel| e.repo_root == root && e.event_type == ty)
}

/// Sum of one counter over a sequence of events.
pub open spec fn spec_sum_events(evs: Seq<EventModel>, f: spec_fn(EventModel) -> int) -> int
    decreases evs.len(),
{
    if evs.len() == 0 {
        0
    } else {
        spec_sum_events(evs.drop_last(), f) + f(evs.last())
    }
}

/// What the summary row promises, value by value: counts and sums are
/// non-negative and exact while they fit a 64-bit integer, and the
/// truncated average is stated only where the division is exact and small
/// enough for the store's floating-point average to be exact.
pub open spec fn spec_summary_vals_ok(
    evs: Seq<EventModel>,
    root: Seq<char>,
    v: Seq<i64>,
) -> bool {
    let repo = spec_repo_events(evs, root);
    let analyses = spec_repo_events_of(evs, root, "analysis"@).len() as int;
    let total_time = spec_sum_events(
        spec_repo_events_of(evs, root, "analysis"@),
        |e: EventModel| e.analysis_time_ms,
    );
    &&& v.len() == 12
    &&& forall|i: int| 0 <= i < 12 ==> #[trigger] v[i] >= 0
    &&& analyses <= i64::MAX ==> v[0] == analyses
    &&& spec_repo_events_of(evs, root, "add_note"@).len() <= i64::MAX ==> v[1]
        == spec_repo_events_of(evs, root, "add_note"@).len()
    &&& spec_repo_events_of(evs, root, "search_notes"@).len() <= i64::MAX ==> v[2]
        == spec_repo_events_of(evs, root, "search_notes"@).len()
    &&& spec_repo_events_of(evs, root, "list_notes"@).len() <= i64::MAX ==> v[3]
        == spec_repo_events_of(evs, root, "list_notes"@).len()
    &&& ({
        let n = spec_sum_events(repo, |e: EventModel| e.coupled_files_count);
        0 <= n <= i64::MAX ==> v[4] == n
    })
    &&& ({
        let n = spec_sum_events(repo, |e: EventModel| e.critical_count);
        0 <= n <= i64::MAX ==> v[5] == n
    })
    &&& ({
        let n = spec_sum_events(repo, |e: EventModel| e.high_count);
        0 <= n <= i64::MAX ==> v[6] == n
    })
    &&& ({
        let n = spec_sum_events(repo, |e: EventModel| e.medium_count);
        0 <= n <= i64::MAX ==> v[7] == n
    })
    &&& ({
        let n = spec_sum_events(repo, |e: EventModel| e.low_count);
        0 <= n <= i64::MAX ==> v[8] == n
    })
    &&& ({
        let n = spec_sum_events(repo, |e: EventModel| e.test_files_found);
        0 <= n <= i64::MAX ==> v[9] == n
    })
    &&& ({
        let n = spec_sum_events(repo, |e: EventModel| e.test_intents_total);
        0 <= n <= i64::MAX ==> v[10] == n
    })
    &&& analyses == 0 ==> v[11] == 0
    &&& (analyses > 0 && total_time % analyses == 0 && 0 <= total_time < 0x20000000000000)
        ==> v[11] == total_time / analyses
}

/// What the summary query promises: each counter equals the corresponding
/// count or sum where that value fits its field, and the average equals
/// the integer quotient where the division is exact and small enough for
/// the store's floating-point average to be exact.
pub open spec fn spec_summary_ok(
    evs: Seq<EventModel>,
    root: Seq<char>,
    s: MetricsSummary,
) -> bool {
    let repo = spec_repo_events(evs, root);
    let analyses = spec_repo_events_of(evs, root, "analysis"@).len() as int;
    let total_time = spec_sum_events(
        spec_repo_events_of(evs, root, "analysis"@),
        |e: EventModel| e.analysis_time_ms,
    );
    &&& analyses <= u32::MAX ==> s.total_analyses == analyses
    &&& spec_repo_events_of(evs, root, "add_note"@).len() <= u32::MAX ==> s.notes_created
        == spec_repo_events_of(evs, root, "add_note"@).len()
    &&& spec_repo_events_of(evs, root, "search_notes"@).len() <= u32::MAX
        ==> s.searches_performed == spec_repo_events_of(evs, root, "search_notes"@).len()
    &&& spec_repo_events_of(evs, root, "list_notes"@).len() <= u32::MAX ==> s.lists_performed
        == spec_repo_events_of(evs, root, "list_notes"@).len()
    &&& ({
        let n = spec_sum_events(repo, |e: EventModel| e.coupled_files_count);
        0 <= n <= u32::MAX ==> s.total_coupled_files == n
    })
    &&& ({
        let n = spec_sum_events(repo, |e: EventModel| e.critical_count);
        0 <= n <= u32::MAX ==> s.critical_risk_count == n
    })
    &&& ({
        let n = spec_sum_events(repo, |e: EventModel| e.high_count);
        0 <= n <= u32::MAX ==> s.high_risk_count == n
    })
    &&& ({
        let n = spec_sum_events(repo, |e: EventModel| e.medium_count);
        0 <= n <= u32::MAX ==> s.medium_risk_count == n
    })
    &&& ({
        let n = spec_sum_events(repo, |e: EventModel| e.low_count);
        0 <= n <= u32::MAX ==> s.low_risk_count == n
    })
    &&& ({
        let n = spec_sum_events(repo, |e: EventModel| e.test_files_found);
        0 <= n <= u32::MAX ==> s.test_files_found == n
    })
    &&& ({
        let n = spec_sum_events(repo, |e: EventModel| e.test_intents_total);
        0 <= n <= u32::MAX ==> s.test_intents_extracted == n
    })
    &&& analyses == 0 ==> s.avg_analysis_time_ms == 0
    &&& (analyses > 0 && total_time % analyses == 0 && 0 <= total_time < 0x20000000000000)
        ==> s.avg_analysis_time_ms == total_time / analyses
}

} // verus!
