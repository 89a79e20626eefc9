//! Scores in these fixtures are fixed-point fractions of 10000.

use engram_core::knowledge::{add_note, enrich_with_memories, list_notes, search_notes};
use engram_core::store::Database;
use engram_core::types::CoupledFile;

#[test]
fn test_add_note_response() {
    let mut db = Database::in_memory().unwrap();
    let resp = add_note(&mut db, "src/Auth.ts", Some("login"), "Handles OAuth flow").unwrap();

    assert!(resp.id > 0);
    assert_eq!(resp.file_path, "src/Auth.ts");
    assert_eq!(resp.content, "Handles OAuth flow");
}

#[test]
fn test_enrich_coupled_files() {
    let mut db = Database::in_memory().unwrap();
    db.add_memory("src/Session.ts", None, "Session note").unwrap();

    let mut files = vec![
        CoupledFile {
            path: "src/Session.ts".to_string(),
            coupling_score: 9000,
            co_change_count: 48,
            risk_score: 8900,
            memories: Vec::new(),
            test_intents: Vec::new(),
        },
        CoupledFile {
            path: "src/Utils.ts".to_string(),
            coupling_score: 1000,
            co_change_count: 1,
            risk_score: 2000,
            memories: Vec::new(),
            test_intents: Vec::new(),
        },
    ];

    enrich_with_memories(&db, &mut files);

    assert_eq!(files[0].memories.len(), 1);
    assert_eq!(files[0].memories[0].content, "Session note");
    assert!(files[1].memories.is_empty());
}

#[test]
fn test_search_notes_echoes_query() {
    let mut db = Database::in_memory().unwrap();
    add_note(&mut db, "src/Auth.ts", None, "Uses JWT for authentication").unwrap();
    add_note(&mut db, "src/Session.ts", None, "Session persistence layer").unwrap();

    let resp = search_notes(&db, "JWT").unwrap();
    assert_eq!(resp.query, "JWT");
    assert_eq!(resp.memories.len(), 1);
    assert_eq!(resp.memories[0].file_path, "src/Auth.ts");
}

#[test]
fn test_list_notes_filter() {
    let mut db = Database::in_memory().unwrap();
    add_note(&mut db, "src/A.ts", None, "Note A").unwrap();
    add_note(&mut db, "src/B.ts", None, "Note B").unwrap();

    let all = list_notes(&db, None).unwrap();
    assert!(all.file_path.is_none());
    assert_eq!(all.memories.len(), 2);

    let one = list_notes(&db, Some("src/B.ts")).unwrap();
    assert_eq!(one.file_path.as_deref(), Some("src/B.ts"));
    assert_eq!(one.memories.len(), 1);
    assert_eq!(one.memories[0].content, "Note B");
}
