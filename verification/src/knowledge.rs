//! Notes ("memories") attached to files and symbols.

use vstd::prelude::*;

use crate::store::{Database, EngramError, db_events, db_memories, db_rows, db_state,
    db_watermark, spec_before_nul, spec_like_contains, spec_memories_for, spec_no_wildcard,
    spec_nul_free};
use crate::types::{AddNoteResponse, CoupledFile, ListNotesResponse, Memory, SearchNotesResponse};

verus! {

/// Adds a note for a file, optionally scoped to a symbol.  The store gains
/// exactly one memory, with a fresh id, and the answer echoes it.
pub fn add_note(
    db: &mut Database,
    file_path: &str,
    symbol_name: Option<&str>,
    content: &str,
) -> (r: Result<AddNoteResponse, EngramError>)
    ensures
        db_rows(*final(db)) == db_rows(*old(db)),
        db_state(*final(db)) == db_state(*old(db)),
        db_watermark(*final(db)) == db_watermark(*old(db)),
        db_events(*final(db)) == db_events(*old(db)),
        r matches Ok(resp) ==> ({
            &&& resp.id >= 1
            &&& resp.file_path@ == file_path@
            &&& resp.content@ == content@
            &&& db_memories(*final(db)).len() == db_memories(*old(db)).len() + 1
            &&& db_memories(*final(db)).drop_last() == db_memories(*old(db))
            &&& db_memories(*final(db)).last().id == resp.id as int
            &&& db_memories(*final(db)).last().file_path == file_path@
            &&& db_memories(*final(db)).last().content == content@
        }),
        r is Err ==> db_memories(*final(db)) == db_memories(*old(db)),
{
    let id = match db.add_memory(file_path, symbol_name, content) {
        Ok(i) => i,
        Err(e) => {
            return Err(e);
        },
    };
    Ok(AddNoteResponse { id, file_path: file_path.to_owned(), content: content.to_owned() })
}

/// Searches notes by content or path substring (ASCII-case-insensitive);
/// the answer echoes the query and, for a query without SQL wildcards or
/// NULs, holds exactly the notes matched on their texts' prefixes before
/// any embedded NUL (the store's matcher scans NUL-terminated).
pub fn search_notes(db: &Database, query: &str) -> (r: Result<SearchNotesResponse, EngramError>)
    ensures
        r matches Ok(resp) ==> ({
            &&& resp.query@ == query@
            &&& (spec_no_wildcard(query@) && spec_nul_free(query@))
                ==> resp.memories@.map_values(|m: Memory| m@).to_multiset() == db_memories(
                *db,
            ).filter(
                |m: crate::store::MemoryModel| spec_like_contains(
                    spec_before_nul(m.content),
                    query@,
                ) || spec_like_contains(spec_before_nul(m.file_path), query@),
            ).to_multiset()
        }),
{
    let memories = match db.search_memories(query) {
        Ok(m) => m,
        Err(e) => {
            return Err(e);
        },
    };
    Ok(SearchNotesResponse { query: query.to_owned(), memories })
}

/// Lists notes, optionally narrowed to one file; the answer echoes the
/// filter and holds exactly the selected notes.
pub fn list_notes(db: &Database, file_path: Option<&str>) -> (r: Result<
    ListNotesResponse,
    EngramError,
>)
    ensures
        r matches Ok(resp) ==> ({
            &&& (match file_path {
                Some(p) => resp.file_path matches Some(fp) && fp@ == p@
                    && resp.memories@.map_values(|m: Memory| m@).to_multiset()
                    == spec_memories_for(db_memories(*db), p@).to_multiset(),
                None => resp.file_path is None && resp.memories@.map_values(
                    |m: Memory| m@,
                ).to_multiset() == db_memories(*db).to_multiset(),
            })
        }),
{
    let memories = match db.list_memories(file_path) {
        Ok(m) => m,
        Err(e) => {
            return Err(e);
        },
    };
    let echoed: Option<String> = match file_path {
        Some(p) => Some(p.to_owned()),
        None => None,
    };
    Ok(ListNotesResponse { file_path: echoed, memories })
}

/// Two coupled-file entries that agree on everything but the memories.
pub open spec fn spec_same_but_memories(a: CoupledFile, b: CoupledFile) -> bool {
    &&& a.path@ == b.path@
    &&& a.coupling_score == b.coupling_score
    &&& a.co_change_count == b.co_change_count
    &&& a.risk_score == b.risk_score
    &&& a.test_intents@ == b.test_intents@
}

/// Fills each coupled file's memories from the store; entries whose lookup
/// fails keep what they had.  Nothing else about any entry changes.
pub fn enrich_with_memories(db: &Database, coupled_files: &mut Vec<CoupledFile>)
    ensures
        final(coupled_files)@.len() == old(coupled_files)@.len(),
        forall|i: int|
            0 <= i < final(coupled_files)@.len() ==> spec_same_but_memories(
                #[trigger] final(coupled_files)@[i],
                old(coupled_files)@[i],
            ),
        forall|i: int|
            #![trigger final(coupled_files)@[i].memories]
            0 <= i < final(coupled_files)@.len() ==> (final(coupled_files)@[i].memories@.map_values(
                |m: Memory| m@,
            ).to_multiset() == spec_memories_for(
                db_memories(*db),
                final(coupled_files)@[i].path@,
            ).to_multiset() || final(coupled_files)@[i].memories@ == old(coupled_files)@[i].memories@),
{
    let n: usize = coupled_files.len();
    let mut i: usize = 0;
    while i < n
        invariant
            0 <= i <= n,
            n == coupled_files@.len(),
            n == old(coupled_files)@.len(),
            forall|j: int|
                0 <= j < n ==> spec_same_but_memories(
                    #[trigger] coupled_files@[j],
                    old(coupled_files)@[j],
                ),
            forall|j: int|
                i <= j < n ==> #[trigger] coupled_files@[j].memories@ == old(coupled_files)@[j].memories@,
            forall|j: int|
                #![trigger coupled_files@[j].memories]
                0 <= j < i ==> (coupled_files@[j].memories@.map_values(
                    |m: Memory| m@,
                ).to_multiset() == spec_memories_for(
                    db_memories(*db),
                    coupled_files@[j].path@,
                ).to_multiset() || coupled_files@[j].memories@ == old(coupled_files)@[j].memories@),
        decreases n - i,
    {
        let ghost before = coupled_files@;
        let mut entry = coupled_files.remove(i);
        match db.memories_for_file(entry.path.as_str()) {
            Ok(m) => {
                entry.memories = m;
            },
            Err(_) => {},
        }
        coupled_files.insert(i, entry);
        assert forall|j: int| 0 <= j < n implies #[trigger] coupled_files@[j]
            == (if j == i {
            coupled_files@[i as int]
        } else {
            before[j]
        }) by {
            if j < i {
                assert(coupled_files@[j] == before.remove(i as int).insert(
                    i as int,
                    coupled_files@[i as int],
                )[j]);
            }
        }
        i = i + 1;
    }
}

} // verus!
