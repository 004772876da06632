use skills_hub::db::Database;
use skills_hub::repositories::MaintenanceRepository;

#[test]
fn test_maintenance_operations() {
    let db = Database::new_in_memory().unwrap();
    let repo = MaintenanceRepository::new(&db);

    repo.analyze().unwrap();
    repo.vacuum().unwrap();
    repo.wal_checkpoint().unwrap();
    repo.reindex().unwrap();
    repo.optimize().unwrap();
    repo.clear_usage().unwrap();

    let results = repo.integrity_check().unwrap();
    assert_eq!(results, vec!["ok"]);
}

#[test]
fn test_get_overview() {
    let db = Database::new_in_memory().unwrap();
    let repo = MaintenanceRepository::new(&db);

    let overview = repo.get_overview().unwrap();
    assert_eq!(overview.tables.len(), 14);
}

#[test]
fn test_invalid_table_name() {
    let db = Database::new_in_memory().unwrap();
    let repo = MaintenanceRepository::new(&db);

    let result = repo.get_table_count("invalid_table");
    assert!(result.is_err());
}
