use loom_server::migrate::{
    error_action, full_text_statements, migration_step, sql_statements, step_statements, ErrorAction, ErrorPolicy,
    MigrationStep, MIGRATION_COUNT, THREAD_STORE_MIGRATION_COUNT,
};

const FTS_SCRIPT: &str = "CREATE VIRTUAL TABLE IF NOT EXISTS thread_fts USING fts5(id, title);\n\
CREATE TRIGGER thread_fts_ai AFTER INSERT ON threads BEGIN\n  INSERT INTO thread_fts(id, title) VALUES (new.id, new.title);\nEND;\n\
-- keep the index in step\nCREATE TRIGGER thread_fts_ad AFTER DELETE ON threads BEGIN\n  DELETE FROM thread_fts WHERE id = old.id;\nEND;\n";

#[test]
fn statements_are_cut_at_semicolons_and_blank_pieces_dropped() {
    let s = sql_statements("CREATE TABLE a (x TEXT);\n\n  ;CREATE INDEX i ON a(x);\n");
    assert_eq!(s, vec!["CREATE TABLE a (x TEXT)".to_string(), "CREATE INDEX i ON a(x)".to_string()]);
    let kept = sql_statements("ALTER TABLE a ADD COLUMN y;\n ALTER TABLE a ADD COLUMN z");
    assert_eq!(kept, vec!["ALTER TABLE a ADD COLUMN y".to_string(), "\n ALTER TABLE a ADD COLUMN z".to_string()]);
    assert!(sql_statements("").is_empty());
    assert!(sql_statements(" ;\n;\t").is_empty());
}

#[test]
fn full_text_script_is_cut_into_table_and_triggers() {
    let f = full_text_statements(FTS_SCRIPT).expect("the script has a table");
    assert_eq!(f.table, "CREATE VIRTUAL TABLE IF NOT EXISTS thread_fts USING fts5(id, title);");
    assert_eq!(
        f.triggers,
        vec![
            "CREATE TRIGGER thread_fts_ai AFTER INSERT ON threads BEGIN\n  INSERT INTO thread_fts(id, title) VALUES (new.id, new.title); END;".to_string(),
            "-- keep the index in step\nCREATE TRIGGER thread_fts_ad AFTER DELETE ON threads BEGIN\n  DELETE FROM thread_fts WHERE id = old.id; END;".to_string(),
        ]
    );
    assert!(full_text_statements("CREATE TABLE t (a)").is_none());
    let no_triggers = full_text_statements("  CREATE TABLE t (a);\n-- nothing else\nEND;").unwrap();
    assert_eq!(no_triggers.table, "CREATE TABLE t (a);");
    assert!(no_triggers.triggers.is_empty());
}

#[test]
fn errors_are_judged_by_policy() {
    assert_eq!(error_action(ErrorPolicy::Strict, "table threads already exists"), ErrorAction::Abort);
    assert_eq!(error_action(ErrorPolicy::Tolerant, "duplicate column name: visibility"), ErrorAction::Ignore);
    assert_eq!(error_action(ErrorPolicy::Tolerant, "index idx already exists"), ErrorAction::Ignore);
    assert_eq!(error_action(ErrorPolicy::Tolerant, "no such table: repos"), ErrorAction::Abort);
    assert_eq!(error_action(ErrorPolicy::FullTextTable, "table thread_fts already exists"), ErrorAction::Ignore);
    assert_eq!(error_action(ErrorPolicy::FullTextTable, "no such module: fts5"), ErrorAction::Warn);
    assert_eq!(error_action(ErrorPolicy::FullTextTrigger, "trigger thread_fts_ai exists"), ErrorAction::Ignore);
    assert_eq!(error_action(ErrorPolicy::FullTextTrigger, "no such table: thread_fts"), ErrorAction::Warn);
}

#[test]
fn migrations_are_numbered_with_their_steps() {
    assert_eq!(migration_step(0), None);
    assert_eq!(migration_step(1), Some(MigrationStep::Whole(ErrorPolicy::Strict)));
    assert_eq!(migration_step(2), Some(MigrationStep::Whole(ErrorPolicy::Tolerant)));
    assert_eq!(migration_step(3), Some(MigrationStep::Whole(ErrorPolicy::Tolerant)));
    assert_eq!(migration_step(4), Some(MigrationStep::Statements));
    assert_eq!(migration_step(5), Some(MigrationStep::FullText));
    for n in 6..=MIGRATION_COUNT {
        assert_eq!(migration_step(n), Some(MigrationStep::Statements));
    }
    assert_eq!(migration_step(MIGRATION_COUNT + 1), None);
    assert!(THREAD_STORE_MIGRATION_COUNT < MIGRATION_COUNT);
}

#[test]
fn steps_plan_their_statements() {
    let whole = step_statements(MigrationStep::Whole(ErrorPolicy::Strict), "CREATE TABLE a (x);\nCREATE TABLE b (y);");
    assert_eq!(whole, vec![("CREATE TABLE a (x);\nCREATE TABLE b (y);".to_string(), ErrorPolicy::Strict)]);
    let split = step_statements(MigrationStep::Statements, "CREATE TABLE a (x);CREATE TABLE b (y);");
    assert_eq!(
        split,
        vec![
            ("CREATE TABLE a (x)".to_string(), ErrorPolicy::Tolerant),
            ("CREATE TABLE b (y)".to_string(), ErrorPolicy::Tolerant),
        ]
    );
    let fts = step_statements(MigrationStep::FullText, FTS_SCRIPT);
    assert_eq!(fts.len(), 3);
    assert_eq!(fts[0].1, ErrorPolicy::FullTextTable);
    assert!(fts[1..].iter().all(|(s, p)| *p == ErrorPolicy::FullTextTrigger && s.ends_with(" END;")));
    assert!(step_statements(MigrationStep::FullText, "nothing here").is_empty());
}

#[test]
fn rerunning_passes_over_existing_objects() {
    let existing = "table repos already exists";
    for n in 2..=MIGRATION_COUNT {
        let step = migration_step(n).unwrap();
        for (_, policy) in step_statements(step, FTS_SCRIPT) {
            assert_eq!(error_action(policy, existing), ErrorAction::Ignore);
        }
    }
}
