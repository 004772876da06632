use skills_hub::json::{JsonNumber, JsonValue};
use skills_hub::services::managed_skills::{tally_bulk_sync, BulkSyncOutcome, BulkSyncTally};

#[test]
fn bulk_sync_counts_every_outcome_once() {
    let outcomes = vec![
        BulkSyncOutcome::Synced,
        BulkSyncOutcome::MissingSkill,
        BulkSyncOutcome::Failed("Writer".to_string(), "permission denied".to_string()),
        BulkSyncOutcome::DisabledSkill,
        BulkSyncOutcome::Synced,
        BulkSyncOutcome::UnknownTool,
        BulkSyncOutcome::Failed("Linter".to_string(), "disk full".to_string()),
    ];
    let tally = tally_bulk_sync(&outcomes);
    assert_eq!(tally.synced, 2);
    assert_eq!(tally.skipped, 3);
    assert_eq!(tally.errors, vec!["Writer: permission denied", "Linter: disk full"]);
    assert_eq!(tally.synced + tally.skipped + tally.errors.len(), outcomes.len());
}

#[test]
fn bulk_sync_summary_as_json() {
    let mut tally = BulkSyncTally::new();
    tally.record(&BulkSyncOutcome::Synced);
    tally.record(&BulkSyncOutcome::Failed("Writer".to_string(), "boom".to_string()));
    match tally.to_json() {
        JsonValue::Object(members) => {
            assert_eq!(members.len(), 3);
            assert_eq!(members[0].0, "synced");
            assert!(matches!(members[0].1, JsonValue::Number(JsonNumber::Unsigned(1))));
            assert_eq!(members[1].0, "skipped");
            assert!(matches!(members[1].1, JsonValue::Number(JsonNumber::Unsigned(0))));
            assert_eq!(members[2].0, "errors");
            match &members[2].1 {
                JsonValue::Array(items) => {
                    assert_eq!(items.len(), 1);
                    assert!(matches!(&items[0], JsonValue::String(s) if s == "Writer: boom"));
                }
                other => panic!("not an array: {:?}", other),
            }
        }
        other => panic!("not an object: {:?}", other),
    }
    assert!(tally_bulk_sync(&Vec::new()).errors.is_empty());
}
