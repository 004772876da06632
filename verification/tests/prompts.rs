use skills_hub::db::Database;
use skills_hub::error::AppError;
use skills_hub::services::prompts::{
    check_write_back_conflict, copy_name, create_prompt, create_prompt_file_link, delete_prompt,
    duplicate_prompt, hash_bytes, hash_content, import_name, import_prompt_file, list_prompts,
    record_write_back, refresh_prompt_file_link, to_hex_lower, unlink_prompt_file, update_prompt,
    write_prompt_to_file,
};

fn seed(n: u8) -> [u8; 16] {
    [n; 16]
}

#[test]
fn prompt_dto_includes_an_empty_file_links_array() {
    let db = Database::new_in_memory().unwrap();
    let prompt = create_prompt(&db, "prompt".to_string(), "content".to_string(), seed(1)).unwrap();

    assert!(prompt.file_links.is_empty());
    assert!(list_prompts(&db).unwrap()[0].file_links.is_empty());
}

#[test]
fn imported_prompt_dto_includes_its_file_link() {
    let db = Database::new_in_memory().unwrap();
    let path = "/tmp/prompts-test/prompt.md".to_string();
    let file_contents = "from file".to_string();

    let prompt = import_prompt_file(&db, path.clone(), file_contents, None, seed(101), seed(102)).unwrap();

    assert_eq!(prompt.file_links.len(), 1);
    assert_eq!(prompt.file_links[0].file_path, path);
    assert_eq!(prompt.prompt.name, "prompt");
}

#[test]
fn prompt_edits_stay_in_database_until_write_back() {
    let db = Database::new_in_memory().unwrap();
    let path = "/tmp/prompts-test/prompt.md".to_string();
    let prompt_file = b"from file".to_vec();
    let write_back_path = "/tmp/prompts-test/write-back.md".to_string();
    let mut write_back_file: Option<Vec<u8>> = None;

    let prompt = import_prompt_file(
        &db,
        path,
        String::from_utf8(prompt_file.clone()).unwrap(),
        None,
        seed(103),
        seed(104),
    )
    .unwrap();
    let link = create_prompt_file_link(
        &db,
        &prompt.prompt.id,
        write_back_path,
        Some(true),
        write_back_file.as_deref(),
        seed(105),
    )
    .unwrap();
    let updated = update_prompt(
        &db,
        &prompt.prompt.id,
        "renamed".to_string(),
        "database only".to_string(),
    )
    .unwrap();

    assert_eq!(String::from_utf8(prompt_file).unwrap(), "from file");
    let plan = write_prompt_to_file(&db, &link.id, None, write_back_file.as_deref()).unwrap();
    write_back_file = Some(plan.content.as_bytes().to_vec());
    record_write_back(&db, &link.id, &plan.content).unwrap();
    assert_eq!(
        String::from_utf8(write_back_file.unwrap()).unwrap(),
        updated.prompt.content
    );
}

#[test]
fn write_back_detects_external_file_changes() {
    let db = Database::new_in_memory().unwrap();
    let path = "/tmp/prompts-test/prompt.md".to_string();
    let mut file = b"original".to_vec();
    let prompt = create_prompt(&db, "prompt".to_string(), "database".to_string(), seed(2)).unwrap();
    let link = create_prompt_file_link(&db, &prompt.prompt.id, path, Some(true), Some(&file), seed(3)).unwrap();
    file = b"external".to_vec();

    assert!(write_prompt_to_file(&db, &link.id, None, Some(&file)).is_err());
    let plan = write_prompt_to_file(&db, &link.id, Some(true), Some(&file)).unwrap();
    file = plan.content.as_bytes().to_vec();
    record_write_back(&db, &link.id, &plan.content).unwrap();
    assert_eq!(String::from_utf8(file).unwrap(), "database");
}

#[test]
fn sha256_hex_of_known_inputs() {
    assert_eq!(
        hash_bytes(b""),
        "e3b0c44298fc1c149afbf4c8996fb92427ae41e4649b934ca495991b7852b855"
    );
    assert_eq!(
        hash_content("abc"),
        "ba7816bf8f01cfea414140de5dae2223b00361a396177a9cb410ff61f20015ad"
    );
    assert_eq!(to_hex_lower(&[0x00, 0x0f, 0xa5, 0xff]), "000fa5ff");
}

#[test]
fn unchanged_file_is_not_a_conflict() {
    let db = Database::new_in_memory().unwrap();
    let prompt = create_prompt(&db, "p".to_string(), "c".to_string(), seed(4)).unwrap();
    let on_disk = b"same bytes".to_vec();
    let link = create_prompt_file_link(&db, &prompt.prompt.id, "f.md".to_string(), Some(true), Some(&on_disk), seed(5)).unwrap();
    assert!(link.exists_on_disk);
    assert_eq!(link.content_hash.as_deref(), Some(hash_bytes(&on_disk).as_str()));
    assert!(check_write_back_conflict(&link, None, Some(&on_disk)).is_ok());
    assert!(check_write_back_conflict(&link, None, None).is_ok());
    let changed = b"other bytes".to_vec();
    match check_write_back_conflict(&link, None, Some(&changed)) {
        Err(AppError::InvalidInput(m)) => assert_eq!(m, "prompt file conflict: f.md"),
        other => panic!("unexpected {:?}", other),
    }
    assert!(check_write_back_conflict(&link, Some(true), Some(&changed)).is_ok());
}

#[test]
fn write_back_refused_when_disabled() {
    let db = Database::new_in_memory().unwrap();
    let prompt = create_prompt(&db, "p".to_string(), "c".to_string(), seed(6)).unwrap();
    let link = create_prompt_file_link(&db, &prompt.prompt.id, "f.md".to_string(), None, None, seed(7)).unwrap();
    assert!(!link.write_back_enabled);
    assert!(!link.exists_on_disk);
    assert_eq!(link.content_hash, None);
    match write_prompt_to_file(&db, &link.id, None, None) {
        Err(AppError::InvalidInput(m)) => {
            assert_eq!(m, format!("write-back is disabled for prompt file link: {}", link.id))
        }
        other => panic!("unexpected {:?}", other.map(|w| w.content)),
    }
}

#[test]
fn missing_prompt_and_link_are_not_found() {
    let db = Database::new_in_memory().unwrap();
    match update_prompt(&db, "nope", "n".to_string(), "c".to_string()) {
        Err(AppError::NotFound(m)) => assert_eq!(m, "prompt not found: nope"),
        other => panic!("unexpected {:?}", other.map(|d| d.prompt.id)),
    }
    match delete_prompt(&db, "nope") {
        Err(AppError::NotFound(m)) => assert_eq!(m, "prompt not found: nope"),
        other => panic!("unexpected {:?}", other),
    }
    match unlink_prompt_file(&db, "gone") {
        Err(AppError::NotFound(m)) => assert_eq!(m, "prompt file link not found: gone"),
        other => panic!("unexpected {:?}", other),
    }
    match create_prompt_file_link(&db, "nope", "x.md".to_string(), None, None, seed(8)) {
        Err(AppError::NotFound(m)) => assert_eq!(m, "prompt not found: nope"),
        other => panic!("unexpected {:?}", other.map(|l| l.id)),
    }
}

#[test]
fn duplicate_and_delete_prompt() {
    let db = Database::new_in_memory().unwrap();
    let prompt = create_prompt(&db, "Greeting".to_string(), "Hello".to_string(), seed(9)).unwrap();
    assert_eq!(prompt.prompt.id, "09090909-0909-4909-8909-090909090909");
    assert_eq!(prompt.prompt.created_at, prompt.prompt.updated_at);
    let copy = duplicate_prompt(&db, &prompt.prompt.id, None, seed(10)).unwrap();
    assert_eq!(copy.prompt.name, "Greeting Copy");
    assert_eq!(copy.prompt.content, "Hello");
    assert_ne!(copy.prompt.id, prompt.prompt.id);
    let named = duplicate_prompt(&db, &prompt.prompt.id, Some("Other".to_string()), seed(11)).unwrap();
    assert_eq!(named.prompt.name, "Other");
    assert_eq!(list_prompts(&db).unwrap().len(), 3);
    delete_prompt(&db, &prompt.prompt.id).unwrap();
    assert_eq!(list_prompts(&db).unwrap().len(), 2);
}

#[test]
fn refresh_reads_the_file_and_reports_missing_files() {
    let db = Database::new_in_memory().unwrap();
    let prompt = create_prompt(&db, "p".to_string(), "old".to_string(), seed(12)).unwrap();
    let link = create_prompt_file_link(&db, &prompt.prompt.id, "notes.md".to_string(), Some(true), Some(b"old"), seed(13)).unwrap();
    let refreshed = refresh_prompt_file_link(&db, &link.id, Some("new text".to_string())).unwrap();
    assert_eq!(refreshed.prompt.content, "new text");
    assert_eq!(refreshed.file_links.len(), 1);
    assert_eq!(refreshed.file_links[0].content_hash.as_deref(), Some(hash_content("new text").as_str()));
    assert!(refreshed.file_links[0].last_synced_at.is_some());
    match refresh_prompt_file_link(&db, &link.id, None) {
        Err(AppError::NotFound(m)) => assert_eq!(m, "prompt file not found: notes.md"),
        other => panic!("unexpected {:?}", other.map(|d| d.prompt.id)),
    }
    let after = list_prompts(&db).unwrap();
    assert!(!after[0].file_links[0].exists_on_disk);
    assert_eq!(after[0].file_links[0].content_hash, None);
}

#[test]
fn names_for_copies_and_imports() {
    assert_eq!(copy_name("A", None), "A Copy");
    assert_eq!(copy_name("A", Some("B".to_string())), "B");
    assert_eq!(import_name(None, Some("stem".to_string())), "stem");
    assert_eq!(import_name(None, None), "Untitled prompt");
    assert_eq!(import_name(Some("n".to_string()), Some("stem".to_string())), "n");
}

#[test]
fn imported_prompts_are_named_after_the_file_stem() {
    let db = Database::new_in_memory().unwrap();
    for (i, (path, name)) in [
        ("/x/prompt.md", "prompt"),
        ("/x/archive.tar.gz", "archive.tar"),
        ("/x/.env", ".env"),
        ("notes", "notes"),
        ("dir/file.", "file"),
    ]
    .into_iter()
    .enumerate()
    {
        let n = 2 * i as u8;
        let dto = import_prompt_file(&db, path.to_string(), "text".to_string(), None, seed(200 + n), seed(201 + n)).unwrap();
        assert_eq!(dto.prompt.name, name, "{}", path);
        assert_eq!(dto.prompt.content, "text");
        assert!(!dto.file_links[0].write_back_enabled);
        assert_eq!(dto.file_links[0].content_hash.as_deref(), Some(hash_content("text").as_str()));
    }
}

#[test]
fn identifiers_are_version_4_uuids_of_the_given_bytes() {
    let db = Database::new_in_memory().unwrap();
    let zero = create_prompt(&db, "a".to_string(), "b".to_string(), [0; 16]).unwrap();
    assert_eq!(zero.prompt.id, "00000000-0000-4000-8000-000000000000");
    let ones = create_prompt(&db, "c".to_string(), "d".to_string(), [0xff; 16]).unwrap();
    assert_eq!(ones.prompt.id, "ffffffff-ffff-4fff-bfff-ffffffffffff");
    let bytes = [0x12, 0x34, 0x56, 0x78, 0x9a, 0xbc, 0xde, 0xf0, 0x12, 0x34, 0x56, 0x78, 0x9a, 0xbc, 0xde, 0xf0];
    let link = create_prompt_file_link(&db, &zero.prompt.id, "z.md".to_string(), None, None, bytes).unwrap();
    assert_eq!(link.id, "12345678-9abc-4ef0-9234-56789abcdef0");
}
