use skills_hub::commands::sync::{
    effective_scope, entries_to_clear, plan_skill_sync, plan_suite_sync, project_for_scope,
    require_adapter, safe_sync_target_path, skill_sync_target, suite_sync_targets, sync_mode, sync_name,
};
use skills_hub::repositories::maintenance::ToolAdapterDefault;
use skills_hub::error::AppError;
use skills_hub::path_safety::{safe_child_path, safe_dir_name_with_fallback};
use std::path::Path;

#[test]
fn safe_sync_target_path_sanitizes_windows_invalid_name_chars() {
    let base = "/tmp/agentkit_sync_target_path_test";

    let target = safe_sync_target_path(
        base,
        "tasteskill: Anti-Slop/Frontend Skill",
        "skill",
        "skill name",
    )
    .unwrap();

    assert_eq!(
        Path::new(&target).file_name().unwrap().to_string_lossy(),
        "tasteskill- Anti-Slop-Frontend Skill"
    );
    assert!(Path::new(&target).starts_with(Path::new(base)));
}

#[test]
fn safe_sync_target_path_uses_custom_fallback() {
    let base = "/tmp/agentkit_sync_suite_path_test";

    let target = safe_sync_target_path(base, "...", "suite", "suite name").unwrap();

    assert_eq!(Path::new(&target).file_name().unwrap().to_string_lossy(), "suite");
    assert!(Path::new(&target).starts_with(Path::new(base)));
}

#[test]
fn directory_names_lose_reserved_characters_and_trailing_dots() {
    assert_eq!(safe_dir_name_with_fallback(Some("  my skill  "), "skill"), "my skill");
    assert_eq!(safe_dir_name_with_fallback(Some("a<b>c|d?e*f\"g\\h"), "skill"), "a-b-c-d-e-f-g-h");
    assert_eq!(safe_dir_name_with_fallback(Some("notes. . "), "skill"), "notes");
    assert_eq!(safe_dir_name_with_fallback(Some("tab\u{1}name"), "skill"), "tab-name");
    assert_eq!(safe_dir_name_with_fallback(Some(".."), "skill"), "skill");
    assert_eq!(safe_dir_name_with_fallback(Some("   "), "skill"), "skill");
    assert_eq!(safe_dir_name_with_fallback(None, "suite"), "suite");
    assert_eq!(safe_dir_name_with_fallback(Some("..hidden"), "skill"), "..hidden");
}

#[test]
fn child_paths_join_below_the_base() {
    assert_eq!(safe_child_path("/base", "name", "skill name").unwrap(), "/base/name");
    assert_eq!(safe_child_path("/base/", "name", "skill name").unwrap(), "/base/name");
    assert_eq!(safe_child_path("", "name", "skill name").unwrap(), "name");
    assert_eq!(
        safe_child_path("/base", "../escape", "skill name").unwrap_err(),
        "invalid skill name: ../escape"
    );
    assert_eq!(safe_child_path("/base", "..", "suite name").unwrap_err(), "invalid suite name: ..");
    assert_eq!(safe_child_path("/base", "", "skill name").unwrap_err(), "invalid skill name: ");
}

#[test]
fn an_unusable_fallback_is_a_path_error() {
    assert_eq!(safe_sync_target_path("/base", "///", "a/b", "skill name").unwrap(), "/base/---");
    match safe_sync_target_path("/base", " ", "a/b", "skill name") {
        Err(AppError::PathError(m)) => assert_eq!(m, "invalid skill name: a/b"),
        other => panic!("unexpected result {:?}", other),
    }
    match safe_sync_target_path("/base", "", "..", "skill name") {
        Err(AppError::PathError(m)) => assert_eq!(m, "invalid skill name: .."),
        other => panic!("unexpected result {:?}", other),
    }
}

#[test]
fn scope_defaults_to_global() {
    assert_eq!(effective_scope(None), "global");
    assert_eq!(effective_scope(Some("project".to_string())), "project");
}

#[test]
fn project_scope_needs_a_project_path() {
    assert_eq!(project_for_scope("global", Some("/work/app")).unwrap(), None);
    assert_eq!(project_for_scope("global", None).unwrap(), None);
    assert_eq!(project_for_scope("project", Some("/work/app")).unwrap(), Some("/work/app".to_string()));
    match project_for_scope("project", None) {
        Err(AppError::InvalidInput(m)) => assert_eq!(m, "project_path required for project scope"),
        other => panic!("unexpected result {:?}", other),
    }
}

#[test]
fn unknown_tools_are_refused() {
    assert_eq!(require_adapter(Some(7), "cursor").unwrap(), 7);
    match require_adapter::<u8>(None, "notepad") {
        Err(AppError::InvalidInput(m)) => assert_eq!(m, "unknown tool: notepad"),
        other => panic!("unexpected result {:?}", other),
    }
}

#[test]
fn synced_names_and_modes() {
    assert_eq!(sync_name(Some("mine".to_string()), Some("dir".to_string()), "skill"), "mine");
    assert_eq!(sync_name(None, Some("dir".to_string()), "skill"), "dir");
    assert_eq!(sync_name(None, None, "suite"), "suite");
    assert_eq!(sync_mode(true), "copy");
    assert_eq!(sync_mode(false), "auto");
}

fn adapter(force_copy: bool) -> ToolAdapterDefault {
    ToolAdapterDefault {
        display_name: "Cursor".to_string(),
        skills_dir: "/home/ada/.cursor/skills".to_string(),
        detect_dir: "/home/ada/.cursor".to_string(),
        project_skills_dir: Some(".cursor/skills".to_string()),
        supports_symlink: true,
        supports_junction: false,
        force_copy,
        supports_project_scope: Some(true),
    }
}

#[test]
fn skill_sync_plans() {
    let a = adapter(false);
    let plan = plan_skill_sync(Some(&a), "cursor", None, None, "/skills", None, Some("writer: v2"), None).unwrap();
    assert_eq!(plan.scope, "global");
    assert_eq!(plan.target_path, "/skills/writer- v2");
    assert_eq!(plan.mode, "auto");
    assert_eq!(plan.project_path, None);
    assert!(plan.overwrite);
    let target = skill_sync_target(&plan, "skill-1", "cursor", [0; 16], 1700);
    assert_eq!(target.id, "00000000-0000-4000-8000-000000000000");
    assert_eq!(target.skill_id, "skill-1");
    assert_eq!(target.tool, "cursor");
    assert_eq!(target.scope, "global");
    assert_eq!(target.target_path, "/skills/writer- v2");
    assert_eq!(target.mode, "auto");
    assert_eq!(target.status, "ok");
    assert_eq!(target.synced_at, Some(1700));
    assert_eq!(target.suite_skill_id, None);
    let copy = adapter(true);
    let plan = plan_skill_sync(Some(&copy), "cursor", Some("project"), Some("/work/app"), "/work/app/.cursor/skills", Some("mine"), Some("dir"), Some(false)).unwrap();
    assert_eq!(plan.scope, "project");
    assert_eq!(plan.project_path.as_deref(), Some("/work/app"));
    assert_eq!(plan.target_path, "/work/app/.cursor/skills/mine");
    assert_eq!(plan.mode, "copy");
    assert!(!plan.overwrite);
    let fallback = plan_skill_sync(Some(&a), "cursor", None, None, "/skills", None, None, None).unwrap();
    assert_eq!(fallback.target_path, "/skills/skill");
    match plan_skill_sync(None, "notepad", None, None, "/skills", None, None, None) {
        Err(AppError::InvalidInput(m)) => assert_eq!(m, "unknown tool: notepad"),
        other => panic!("unexpected result {:?}", other),
    }
    match plan_skill_sync(Some(&a), "cursor", Some("project"), None, "/skills", None, None, None) {
        Err(AppError::InvalidInput(m)) => assert_eq!(m, "project_path required for project scope"),
        other => panic!("unexpected result {:?}", other),
    }
}

#[test]
fn suite_sync_plans_one_step_per_sub_skill_then_the_suite() {
    let entries = vec![
        ("alpha".to_string(), true, true),
        ("notes.txt".to_string(), false, false),
        ("empty".to_string(), true, false),
        ("beta:x".to_string(), true, true),
    ];
    let plan = plan_suite_sync(
        Some(&adapter(true)), "cursor", None, None, "/skills", "/src/My Suite", true, None, Some("My Suite"), None, &entries,
    )
    .unwrap();
    assert_eq!(plan.scope, "global");
    assert!(plan.overwrite);
    let got: Vec<(&str, &str, &str)> =
        plan.steps.iter().map(|s| (s.name.as_str(), s.target_path.as_str(), s.mode.as_str())).collect();
    assert_eq!(
        got,
        vec![
            ("alpha", "/skills/alpha", "copy"),
            ("beta:x", "/skills/beta-x", "copy"),
            ("My Suite", "/skills/My Suite", "suite"),
        ]
    );
    let randoms = vec![[0u8; 16], [0xffu8; 16], [0u8; 16]];
    let targets = suite_sync_targets(&plan, "suite-1", "cursor", &randoms, 42);
    assert_eq!(targets.len(), 3);
    assert_eq!(targets[0].suite_skill_id.as_deref(), Some("suite-1"));
    assert_eq!(targets[1].id, "ffffffff-ffff-4fff-bfff-ffffffffffff");
    assert_eq!(targets[1].target_path, "/skills/beta-x");
    assert_eq!(targets[1].mode, "copy");
    assert_eq!(targets[2].mode, "suite");
    assert_eq!(targets[2].suite_skill_id, None);
    assert!(targets.iter().all(|t| t.status == "ok" && t.synced_at == Some(42) && t.skill_id == "suite-1"));
    let only_suite = plan_suite_sync(
        Some(&adapter(false)), "cursor", None, None, "/skills", "/", true, Some("..."), None, Some(false), &Vec::new(),
    )
    .unwrap();
    assert_eq!(only_suite.steps.len(), 1);
    assert_eq!(only_suite.steps[0].target_path, "/skills/suite");
    assert!(!only_suite.overwrite);
    let unnamed = plan_suite_sync(Some(&adapter(false)), "cursor", None, None, "/skills", "/", true, None, None, None, &Vec::new())
        .unwrap();
    assert_eq!(unnamed.steps[0].name, "suite");
    match plan_suite_sync(None, "x", None, None, "/skills", "/nope", false, None, None, None, &entries) {
        Err(AppError::InvalidInput(m)) => assert_eq!(m, "unknown tool: x"),
        other => panic!("unexpected result {:?}", other),
    }
    match plan_suite_sync(Some(&adapter(false)), "cursor", Some("project"), None, "/skills", "/nope", false, None, None, None, &entries) {
        Err(AppError::InvalidInput(m)) => assert_eq!(m, "project_path required for project scope"),
        other => panic!("unexpected result {:?}", other),
    }
    match plan_suite_sync(Some(&adapter(false)), "cursor", None, None, "/skills", "/nope", false, None, None, None, &entries) {
        Err(AppError::InvalidInput(m)) => assert_eq!(m, "source is not a directory: /nope"),
        other => panic!("unexpected result {:?}", other),
    }
}

#[test]
fn clearing_removes_only_real_skill_directories() {
    let entries = vec![
        ("keep-file".to_string(), false, false, true),
        ("skill-a".to_string(), true, false, true),
        ("linked".to_string(), false, true, true),
        ("no-md".to_string(), true, false, false),
        ("skill-b".to_string(), true, false, true),
    ];
    let a = adapter(false);
    assert_eq!(entries_to_clear(Some(&a), "cursor", &entries).unwrap(), vec!["skill-a", "skill-b"]);
    assert!(entries_to_clear(Some(&a), "cursor", &Vec::new()).unwrap().is_empty());
    match entries_to_clear(None, "notepad", &entries) {
        Err(AppError::InvalidInput(m)) => assert_eq!(m, "unknown tool: notepad"),
        other => panic!("unexpected result {:?}", other),
    }
}
