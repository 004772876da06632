use skills_hub::commands::database::{
    export_cancelled, import_cancelled, no_file_selected, overview_of,
    backup_file_name, db_maintenance, db_overview, db_reset, db_table_data, epoch_days_to_ymd,
    format_local_timestamp, format_size, integrity_report, is_sqlite_database, local_timestamp,
    table_display_name, validate_import,
};
use skills_hub::db::{Database, SqlParam};
use skills_hub::error::AppError;
use skills_hub::json::JsonValue;
use skills_hub::models::Prompt;
use skills_hub::repositories::maintenance::{DatabaseOverview, ToolAdapterDefault};
use skills_hub::repositories::{MaintenanceRepository, PromptsRepository};
use skills_hub::repositories::table_query::total_pages;
use skills_hub::services::prompts::create_prompt;

#[test]
fn display_names_of_known_and_unknown_tables() {
    assert_eq!(table_display_name("skills"), "Skills");
    assert_eq!(table_display_name("skill_targets"), "Sync Targets");
    assert_eq!(table_display_name("skill_scope_preference"), "Scope Preferences");
    assert_eq!(table_display_name("prompt_file_links"), "Prompt File Links");
    assert_eq!(table_display_name("something_else"), "something_else");
}

#[test]
fn sizes_below_a_kibibyte_are_whole_bytes() {
    assert_eq!(format_size(0), "0 B");
    assert_eq!(format_size(512), "512 B");
    assert_eq!(format_size(1023), "1023 B");
    assert_eq!(format_size(-5), "-5 B");
}

#[test]
fn sizes_in_kibibytes_and_mebibytes() {
    assert_eq!(format_size(1024), "1.0 KB");
    assert_eq!(format_size(1536), "1.5 KB");
    assert_eq!(format_size(1048575), "1024.0 KB");
    assert_eq!(format_size(1048576), "1.0 MB");
    assert_eq!(format_size(3 * 1048576 + 524288), "3.5 MB");
    assert_eq!(format_size(1280), format!("{:.1} KB", 1.25f64));
    assert_eq!(format_size(1310720), format!("{:.1} MB", 1.25f64));
}

#[test]
fn sizes_round_as_floating_point_formatting_does() {
    let mut samples: Vec<i64> = Vec::new();
    let mut b: i64 = 1000;
    while b < 1_200_000 {
        samples.push(b);
        b += 37;
    }
    for k in 1..2000i64 {
        samples.push(k * 1024 + 512 / 5 * 5);
        samples.push(k * 1024 + 256);
        samples.push(k * 1024 + 1280 - 1024);
        samples.push(k * 1048576 + 52428);
        samples.push(k * 1048576 + 52429);
        samples.push(k * 1048576 + 262144);
        samples.push(k * 1048576 + 786432);
    }
    samples.push(i64::MAX);
    samples.push(i64::MAX - 1);
    samples.push((1i64 << 53) + 1);
    samples.push((1i64 << 60) + 3);
    for &b in &samples {
        let expected = if b < 1024 {
            format!("{} B", b)
        } else if b < 1024 * 1024 {
            format!("{:.1} KB", b as f64 / 1024.0)
        } else {
            format!("{:.1} MB", b as f64 / (1024.0 * 1024.0))
        };
        assert_eq!(format_size(b), expected, "bytes = {}", b);
    }
}

#[test]
fn epoch_days_give_calendar_dates() {
    assert_eq!(epoch_days_to_ymd(0), (1970, 1, 1));
    assert_eq!(epoch_days_to_ymd(31), (1970, 2, 1));
    assert_eq!(epoch_days_to_ymd(59), (1970, 3, 1));
    assert_eq!(epoch_days_to_ymd(10957), (2000, 1, 1));
    assert_eq!(epoch_days_to_ymd(11016), (2000, 2, 29));
    assert_eq!(epoch_days_to_ymd(19723), (2024, 1, 1));
    assert_eq!(epoch_days_to_ymd(19782), (2024, 2, 29));
    assert_eq!(epoch_days_to_ymd(19783), (2024, 3, 1));
    assert_eq!(epoch_days_to_ymd(47540), (2100, 2, 28));
    assert_eq!(epoch_days_to_ymd(47541), (2100, 3, 1));
}

#[test]
fn timestamps_are_zero_padded() {
    assert_eq!(format_local_timestamp(0), "19700101_000000");
    assert_eq!(format_local_timestamp(1_700_000_000), "20231114_221320");
    assert_eq!(format_local_timestamp(951_782_400 + 3_661), "20000229_010101");
    let now = local_timestamp();
    assert_eq!(now.len(), 15);
    assert_eq!(&now[8..9], "_");
    assert!(now[..8].chars().all(|c| c.is_ascii_digit()));
}

#[test]
fn backup_names_carry_the_timestamp() {
    assert_eq!(backup_file_name("20240101_120000"), "skills_hub_backup_20240101_120000.db");
}

#[test]
fn integrity_reports_join_lines() {
    let ok = integrity_report(&vec!["ok".to_string()]);
    assert!(ok.ok);
    assert_eq!(ok.message, "ok");
    assert_eq!(ok.integrity_result.as_deref(), Some("ok"));
    let bad = integrity_report(&vec!["row 1 missing".to_string(), "row 2 missing".to_string()]);
    assert!(!bad.ok);
    assert_eq!(bad.message, "row 1 missing, row 2 missing");
}

#[test]
fn maintenance_actions_report_their_messages() {
    let db = Database::new_in_memory().unwrap();
    let cases = [
        ("vacuum", "VACUUM completed"),
        ("analyze", "ANALYZE completed"),
        ("clear_cache", "Cache cleared"),
        ("clear_discovered", "Discovered skills cleared"),
        ("wal_checkpoint", "WAL checkpoint completed"),
        ("reindex", "REINDEX completed"),
        ("optimize", "PRAGMA optimize completed"),
        ("clear_usage", "Usage records cleared"),
    ];
    for (action, message) in cases {
        let result = db_maintenance(&db, action).unwrap();
        assert!(result.ok);
        assert_eq!(result.action, action);
        assert_eq!(result.message, message);
        assert!(result.integrity_result.is_none());
    }
    let check = db_maintenance(&db, "integrity_check").unwrap();
    assert!(check.ok);
    assert_eq!(check.message, "ok");
}

#[test]
fn unknown_maintenance_action_is_invalid_input() {
    let db = Database::new_in_memory().unwrap();
    match db_maintenance(&db, "defrag") {
        Err(AppError::InvalidInput(m)) => assert_eq!(m, "unknown maintenance action: defrag"),
        other => panic!("unexpected result {:?}", other),
    }
}

fn one_adapter() -> Vec<(String, ToolAdapterDefault)> {
    vec![(
        "cursor".to_string(),
        ToolAdapterDefault {
            display_name: "Cursor".to_string(),
            skills_dir: "~/.cursor/skills".to_string(),
            detect_dir: "~/.cursor".to_string(),
            project_skills_dir: Some(".cursor/skills".to_string()),
            supports_symlink: true,
            supports_junction: false,
            force_copy: false,
            supports_project_scope: Some(true),
        },
    )]
}

#[test]
fn reset_needs_the_confirmation_text() {
    let db = Database::new_in_memory().unwrap();
    match db_reset(&db, "yes", &one_adapter()) {
        Err(AppError::InvalidInput(m)) => assert_eq!(m, "confirmation text must be 'RESET'"),
        other => panic!("unexpected result {:?}", other),
    }
    let ok = db_reset(&db, "RESET", &one_adapter()).unwrap();
    assert!(ok.ok);
    assert_eq!(ok.message, "database has been reset");
    assert!(db_reset(&db, "reset", &one_adapter()).unwrap().ok);
}

#[test]
fn reset_keeps_prompts_and_seeds_adapters() {
    let db = Database::new_in_memory().unwrap();
    create_prompt(&db, "kept".to_string(), "body".to_string(), [7; 16]).unwrap();
    db.execute(
        "INSERT INTO settings (key, value) VALUES (?1, ?2)",
        &[SqlParam::Text("theme".to_string()), SqlParam::Text("dark".to_string())],
    )
    .unwrap();
    db_reset(&db, "RESET", &one_adapter()).unwrap();
    let settings = db_table_data(&db, "settings", None, None, None, None, None).unwrap();
    assert_eq!(settings.total, 0);
    let prompts = db_table_data(&db, "prompts", None, None, None, None, None).unwrap();
    assert_eq!(prompts.total, 1);
    let adapters = db_table_data(&db, "tool_adapter_configs", None, None, None, None, None).unwrap();
    assert_eq!(adapters.total, 1);
}

fn text_field<'a>(row: &'a JsonValue, key: &str) -> Option<&'a str> {
    match row {
        JsonValue::Object(members) => members.iter().find(|(k, _)| k == key).and_then(|(_, v)| match v {
            JsonValue::String(s) => Some(s.as_str()),
            _ => None,
        }),
        _ => None,
    }
}

#[test]
fn table_data_pages_filters_and_sorts() {
    let db = Database::new_in_memory().unwrap();
    for (i, name) in ["alpha", "beta", "gamma", "delta", "alphabet"].into_iter().enumerate() {
        create_prompt(&db, name.to_string(), format!("{} body", name), [i as u8; 16]).unwrap();
    }
    let all = db_table_data(&db, "prompts", None, None, Some("name"), Some("asc"), None).unwrap();
    assert_eq!(all.display_name, "Prompts");
    assert_eq!(all.total, 5);
    assert_eq!(all.page, 1);
    assert_eq!(all.page_size, 50);
    assert_eq!(all.total_pages, 1);
    let names: Vec<&str> = all.rows.iter().map(|r| text_field(r, "name").unwrap()).collect();
    assert_eq!(names, vec!["alpha", "alphabet", "beta", "delta", "gamma"]);

    let desc = db_table_data(&db, "prompts", Some(2), Some(2), Some("name"), Some("desc"), None).unwrap();
    assert_eq!(desc.total_pages, 3);
    let names: Vec<&str> = desc.rows.iter().map(|r| text_field(r, "name").unwrap()).collect();
    assert_eq!(names, vec!["beta", "alphabet"]);

    let upper = db_table_data(&db, "prompts", Some(2), Some(2), Some("name"), Some("DESC"), None).unwrap();
    let names: Vec<&str> = upper.rows.iter().map(|r| text_field(r, "name").unwrap()).collect();
    assert_eq!(names, vec!["beta", "delta"]);

    let unknown_column = db_table_data(&db, "prompts", None, None, Some("nope"), Some("desc"), None).unwrap();
    assert_eq!(unknown_column.rows.len(), 5);

    let filtered = db_table_data(&db, "prompts", Some(0), Some(500), None, None, Some("alpha")).unwrap();
    assert_eq!(filtered.page, 1);
    assert_eq!(filtered.page_size, 200);
    assert_eq!(filtered.total, 2);
    assert_eq!(filtered.rows.len(), 2);
}

#[test]
fn table_data_refuses_unknown_tables() {
    let db = Database::new_in_memory().unwrap();
    match db_table_data(&db, "nope; DROP TABLE prompts", None, None, None, None, None) {
        Err(AppError::InvalidInput(m)) => {
            assert_eq!(m, "Invalid table name: nope; DROP TABLE prompts")
        }
        other => panic!("unexpected result {:?}", other),
    }
}

#[test]
fn page_counts_round_up() {
    assert_eq!(total_pages(0, 50), 0);
    assert_eq!(total_pages(1, 50), 1);
    assert_eq!(total_pages(50, 50), 1);
    assert_eq!(total_pages(51, 50), 2);
    assert_eq!(total_pages(5, 2), 3);
}

#[test]
fn overview_lists_every_table_with_its_display_name() {
    let db = Database::new_in_memory().unwrap();
    let overview = db_overview(&db, "/data/skills_hub.db", 2048, 1_700_000_000_000).unwrap();
    assert_eq!(overview.db_path, "/data/skills_hub.db");
    assert_eq!(overview.file_size_human, "2.0 KB");
    assert_eq!(overview.last_modified, 1_700_000_000_000);
    assert_eq!(overview.tables.len(), 14);
    for table in &overview.tables {
        assert_eq!(table.display_name, table_display_name(&table.table_name));
        assert_eq!(table.row_count, 0);
    }
    assert_eq!(overview.free_size, overview.freelist_count * overview.page_size);
    assert_eq!(overview.free_size_human, format_size(overview.free_size));
}

#[test]
fn only_sqlite_files_can_be_imported() {
    let mut header = b"SQLite format 3\0".to_vec();
    header.extend_from_slice(&[0u8; 84]);
    assert!(is_sqlite_database(&header));
    assert!(validate_import(&header).is_ok());
    assert!(!is_sqlite_database(b"SQLite format 3"));
    match validate_import(b"PK\x03\x04 not a database at all") {
        Err(AppError::InvalidInput(m)) => {
            assert_eq!(m, "Selected file is not a valid SQLite database")
        }
        other => panic!("unexpected result {:?}", other),
    }
}

#[test]
fn filters_search_columns_declared_as_text_in_any_case() {
    let db = Database::new_in_memory().unwrap();
    db.execute_batch("CREATE TABLE notes (body text, label VARCHAR(10), n INTEGER, extra)").unwrap();
    db.execute(
        "INSERT INTO notes (body, label, n, extra) VALUES (?1, ?2, ?3, ?4)",
        &[
            SqlParam::Text("needle in body".to_string()),
            SqlParam::Text("other".to_string()),
            SqlParam::Integer(1),
            SqlParam::Null,
        ],
    )
    .unwrap();
    db.execute(
        "INSERT INTO notes (body, label, n, extra) VALUES (?1, ?2, ?3, ?4)",
        &[
            SqlParam::Text("plain".to_string()),
            SqlParam::Text("needle in label".to_string()),
            SqlParam::Integer(2),
            SqlParam::Text("needle in untyped".to_string()),
        ],
    )
    .unwrap();
    let found = db_table_data(&db, "notes", None, None, None, None, Some("needle")).unwrap();
    assert_eq!(found.display_name, "notes");
    assert_eq!(found.total, 2);
    let none = db_table_data(&db, "notes", None, None, None, None, Some("in label")).unwrap();
    assert_eq!(none.total, 0);
    let everything = db_table_data(&db, "notes", None, None, None, None, Some("")).unwrap();
    assert_eq!(everything.total, 2);
}

#[test]
fn page_two_of_a_descending_sort() {
    let db = Database::new_in_memory().unwrap();
    for (id, n) in [("p1", "a"), ("p2", "b"), ("p3", "c")] {
        PromptsRepository::new(&db)
            .create(&Prompt { id: id.into(), name: n.into(), content: "x".into(), created_at: 1, updated_at: 1 })
            .unwrap();
    }
    let r = MaintenanceRepository::new(&db)
        .get_table_data("prompts", 2, 2, Some("name"), Some("desc"), None)
        .unwrap();
    assert_eq!(r.total, 3);
    assert_eq!(r.total_pages, 2);
    assert_eq!(r.page, 2);
    assert_eq!(r.page_size, 2);
    assert_eq!(r.rows.len(), 1);
    assert_eq!(text_field(&r.rows[0], "id"), Some("p1"));
    assert_eq!(text_field(&r.rows[0], "name"), Some("a"));
    assert_eq!(r.table, "prompts");
    let names: Vec<&str> = r.columns.iter().map(|c| c.name.as_str()).collect();
    assert_eq!(names, vec!["id", "name", "content", "created_at", "updated_at"]);
}

#[test]
fn overview_records_are_built_from_the_statistics() {
    let overview = DatabaseOverview { tables: vec![("skills".to_string(), 3), ("custom".to_string(), 7)] };
    let d = overview_of("/db.sqlite", 1536, 42, ("3.45.0".to_string(), 4096, 10, 2), &overview);
    assert_eq!(d.db_path, "/db.sqlite");
    assert_eq!(d.file_size_human, "1.5 KB");
    assert_eq!(d.last_modified, 42);
    assert_eq!(d.sqlite_version, "3.45.0");
    assert_eq!(d.free_size, 8192);
    assert_eq!(d.free_size_human, "8.0 KB");
    assert_eq!(d.tables.len(), 2);
    assert_eq!(d.tables[0].display_name, "Skills");
    assert_eq!(d.tables[0].row_count, 3);
    assert_eq!(d.tables[1].display_name, "custom");
    assert_eq!(d.tables[1].row_count, 7);
}

#[test]
fn dialog_answers() {
    assert!(!import_cancelled().ok);
    assert_eq!(import_cancelled().message, "Import cancelled");
    assert_eq!(export_cancelled().message, "Export cancelled");
    assert_eq!(no_file_selected().message, "No file selected");
}

#[test]
fn stored_adapters_are_found_by_tool_key() {
    let db = Database::new_in_memory().unwrap();
    let repo = MaintenanceRepository::new(&db);
    assert!(repo.tool_adapter("cursor").unwrap().is_none());
    repo.reset(&one_adapter()).unwrap();
    let found = repo.tool_adapter("cursor").unwrap().unwrap();
    assert_eq!(found.display_name, "Cursor");
    assert_eq!(found.skills_dir, "~/.cursor/skills");
    assert_eq!(found.project_skills_dir.as_deref(), Some(".cursor/skills"));
    assert!(found.supports_symlink);
    assert!(!found.supports_junction);
    assert!(!found.force_copy);
    assert_eq!(found.supports_project_scope, Some(true));
    assert!(repo.tool_adapter("notepad").unwrap().is_none());
}

#[test]
fn text_that_is_not_utf8_fails_the_query_instead_of_panicking() {
    let db = Database::new_in_memory().unwrap();
    db.execute("INSERT INTO settings (key, value) VALUES ('k', CAST(x'ff' AS TEXT))", &[]).unwrap();
    match db.query("SELECT value FROM settings", &[]) {
        Err(AppError::DatabaseError(_)) => {}
        other => panic!("unexpected result {:?}", other.map(|rows| rows.len())),
    }
    assert!(db_table_data(&db, "settings", None, None, None, None, None).is_err());
}
