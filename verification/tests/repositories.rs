use skills_hub::db::Database;
use skills_hub::models::{Prompt, PromptFileLink};
use skills_hub::repositories::{MaintenanceRepository, PromptFileLinksRepository, PromptsRepository};

fn prompt(id: &str, name: &str, updated_at: i64) -> Prompt {
    Prompt {
        id: id.to_string(),
        name: name.to_string(),
        content: format!("{} content", name),
        created_at: 1,
        updated_at,
    }
}

fn link(id: &str, prompt_id: &str, path: &str) -> PromptFileLink {
    PromptFileLink {
        id: id.to_string(),
        prompt_id: prompt_id.to_string(),
        file_path: path.to_string(),
        write_back_enabled: true,
        content_hash: Some("abc".to_string()),
        exists_on_disk: true,
        last_synced_at: None,
        created_at: 5,
        updated_at: 5,
    }
}

#[test]
fn prompts_are_stored_listed_and_deleted() {
    let db = Database::new_in_memory().unwrap();
    let repo = PromptsRepository::new(&db);
    repo.create(&prompt("p1", "older", 10)).unwrap();
    repo.create(&prompt("p2", "newer", 20)).unwrap();
    let listed = repo.list().unwrap();
    assert_eq!(listed.iter().map(|p| p.id.as_str()).collect::<Vec<_>>(), vec!["p2", "p1"]);
    let got = repo.get("p1").unwrap().unwrap();
    assert_eq!(got.name, "older");
    assert_eq!(got.content, "older content");
    assert_eq!(got.updated_at, 10);
    repo.update("p1", "renamed", "new text").unwrap();
    let updated = repo.get("p1").unwrap().unwrap();
    assert_eq!(updated.name, "renamed");
    assert_eq!(updated.content, "new text");
    assert!(updated.updated_at >= 10);
    repo.update_content("p1", "only text").unwrap();
    assert_eq!(repo.get("p1").unwrap().unwrap().content, "only text");
    repo.delete("p1").unwrap();
    assert!(repo.get("p1").unwrap().is_none());
    repo.delete("p1").unwrap();
}

#[test]
fn links_are_found_by_prompt_id_and_path() {
    let db = Database::new_in_memory().unwrap();
    PromptsRepository::new(&db).create(&prompt("p1", "a", 1)).unwrap();
    let repo = PromptFileLinksRepository::new(&db);
    repo.create(&link("l1", "p1", "/notes/a.md")).unwrap();
    repo.create(&link("l2", "p1", "/notes/b.md")).unwrap();
    assert_eq!(repo.list_by_prompt("p1").unwrap().len(), 2);
    assert!(repo.list_by_prompt("p9").unwrap().is_empty());
    let by_path = repo.get_by_file_path("/notes/b.md").unwrap().unwrap();
    assert_eq!(by_path.id, "l2");
    assert!(by_path.write_back_enabled);
    assert_eq!(by_path.content_hash.as_deref(), Some("abc"));
    assert!(repo.get_by_file_path("/notes/c.md").unwrap().is_none());
    repo.update_sync_state("l1", Some("def"), false, Some(99)).unwrap();
    let l1 = repo.get("l1").unwrap().unwrap();
    assert_eq!(l1.content_hash.as_deref(), Some("def"));
    assert!(!l1.exists_on_disk);
    assert_eq!(l1.last_synced_at, Some(99));
    repo.delete("l1").unwrap();
    assert!(repo.get("l1").unwrap().is_none());
}

#[test]
fn maintenance_statistics_and_tables() {
    let db = Database::new_in_memory().unwrap();
    let repo = MaintenanceRepository::new(&db);
    let names = repo.get_table_names().unwrap();
    assert_eq!(names.len(), 14);
    let mut sorted = names.clone();
    sorted.sort();
    assert_eq!(names, sorted);
    assert!(repo.table_exists("prompts").unwrap());
    assert!(!repo.table_exists("nope").unwrap());
    assert_eq!(repo.get_table_count("prompts").unwrap(), 0);
    let (version, page_size, page_count, freelist) = repo.get_database_stats().unwrap();
    assert!(version.starts_with('3'));
    assert!(page_size > 0);
    assert!(page_count >= 0);
    assert!(freelist >= 0);
    repo.clear_cache().unwrap();
    repo.clear_discovered().unwrap();
    let overview = repo.get_overview().unwrap();
    assert!(overview.tables.iter().all(|(_, count)| *count == 0));
}
