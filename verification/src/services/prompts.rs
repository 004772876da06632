//! Prompts and the files they are linked to: the decisions of import, refresh
//! and write-back, and the content hashes that detect outside edits.

use vstd::prelude::*;
use crate::contracts::PromptDto;
use crate::db::{now_ms, Database};
use crate::error::{AppError, AppResult};
use crate::models::{Prompt, PromptFileLink};
use crate::repositories::{PromptFileLinksRepository, PromptsRepository};
use crate::repositories::prompts::{
    prompt_content_updated, prompt_deleted, prompt_looked_up, prompt_stored, prompt_updated,
    prompts_listed,
};
use crate::repositories::prompt_file_links::{
    link_deleted, link_looked_up, link_stored, links_listed, opt_string_view, sync_state_recorded,
};
use crate::text::{concat, string_push};
use vstd::string::StringSliceAdditionalSpecFns;
use vstd::utf8::encode_utf8;

verus! {

/// The SHA-256 digest of `data`.
pub uninterp spec fn sha256(data: Seq<u8>) -> Seq<u8>;

/// `sha2::Sha256::digest`: the SHA-256 digest of `data`, named `sha256`; a
/// SHA-256 digest is 32 bytes long.
#[verifier::external_body]
fn sha256_digest(data: &[u8]) -> (res: Vec<u8>)
    ensures
        res@ == sha256(data@),
        res@.len() == 32,
{
    <sha2::Sha256 as sha2::Digest>::digest(data).to_vec()
}


/// The lowercase hexadecimal digit of `n` (`n < 16`).
pub open spec fn hex_digit(n: nat) -> char {
    if n < 10 { (48 + n) as char } else { (87 + n) as char }
}

/// Lowercase hexadecimal rendering of `data`, two digits per byte (`{:x}`).
pub open spec fn hex_lower(data: Seq<u8>) -> Seq<char>
    decreases data.len(),
{
    if data.len() == 0 {
        Seq::empty()
    } else {
        hex_lower(data.drop_last()) + seq![hex_digit((data.last() / 16) as nat), hex_digit((data.last() % 16) as nat)]
    }
}

fn hex_char(n: u8) -> (res: char)
    requires
        n < 16,
    ensures
        res == hex_digit(n as nat),
{
    if n < 10 { (n + 48) as char } else { (n + 87) as char }
}

/// Renders `data` in lowercase hexadecimal.
pub fn to_hex_lower(data: &[u8]) -> (res: String)
    ensures
        res@ == hex_lower(data@),
        res@.len() == 2 * data@.len(),
{
    let mut s = String::new();
    let mut i: usize = 0;
    while i < data.len()
        invariant
            i <= data@.len(),
            s@ == hex_lower(data@.take(i as int)),
            s@.len() == 2 * i,
        decreases data@.len() - i,
    {
        let b = data[i];
        string_push(&mut s, hex_char(b / 16));
        string_push(&mut s, hex_char(b % 16));
        assert(data@.take(i + 1).drop_last() =~= data@.take(i as int));
        i = i + 1;
    }
    assert(data@.take(data@.len() as int) =~= data@);
    s
}

/// The 16 bytes of the version-4 UUID built from the random bytes `random`:
/// the version nibble of byte 6 set to 4 and the variant bits of byte 8 set
/// to `10`, every other bit kept.
pub open spec fn uuid_v4_bytes(random: Seq<u8>) -> Seq<u8> {
    random.update(6, (random[6] & 0x0fu8) | 0x40u8).update(8, (random[8] & 0x3fu8) | 0x80u8)
}

/// The hyphenated form of the 16 bytes `b`: lowercase hexadecimal in groups
/// of 8, 4, 4, 4 and 12 digits joined by `-`.
pub open spec fn uuid_text(b: Seq<u8>) -> Seq<char> {
    hex_lower(b.subrange(0, 4)) + "-"@ + hex_lower(b.subrange(4, 6)) + "-"@ + hex_lower(b.subrange(6, 8))
        + "-"@ + hex_lower(b.subrange(8, 10)) + "-"@ + hex_lower(b.subrange(10, 16))
}

/// The identifier of a new record made from the random bytes `random`.
pub open spec fn new_id(random: Seq<u8>) -> Seq<char> {
    uuid_text(uuid_v4_bytes(random))
}

/// `uuid::Builder::from_random_bytes(random).into_uuid().to_string()`: the
/// version-4 UUID made of `random`, its version and variant bits set, in the
/// hyphenated form that `Display` writes.
#[verifier::external_body]
pub(crate) fn uuid_from_random_bytes(random: [u8; 16]) -> (res: String)
    ensures
        res@ == new_id(random@),
{
    uuid::Builder::from_random_bytes(random).into_uuid().to_string()
}

/// The content hash of a file's bytes: SHA-256 in lowercase hexadecimal.
pub open spec fn content_hash(data: Seq<u8>) -> Seq<char> {
    hex_lower(sha256(data))
}

/// The content hash of `content`.
pub fn hash_bytes(content: &[u8]) -> (res: String)
    ensures
        res@ == content_hash(content@),
        res@.len() == 64,
{
    let digest = sha256_digest(content);
    to_hex_lower(digest.as_slice())
}

/// The content hash of the UTF-8 encoding of `content`.
pub fn hash_content(content: &str) -> (res: String)
    ensures
        res@ == content_hash(content.spec_bytes()),
        res@.len() == 64,
{
    hash_bytes(content.as_bytes())
}

/// `res` is prompt `id` as looked up in the database: the prompt, `NotFound`
/// when there is none, or the engine's error.
pub open spec fn prompt_required(db: int, id: Seq<char>, res: AppResult<Prompt>) -> bool {
    exists|r: AppResult<Option<Prompt>>| #[trigger] prompt_looked_up(db, id, r) && match r {
        Ok(Some(p)) => res == Ok::<Prompt, AppError>(p),
        Ok(None) => res matches Err(AppError::NotFound(m)) && m@ == "prompt not found: "@ + id,
        Err(e) => res == Err::<Prompt, AppError>(e),
    }
}

/// `res` is link `id` as looked up in the database: the link, `NotFound`
/// when there is none, or the engine's error.
pub open spec fn link_required(db: int, id: Seq<char>, res: AppResult<PromptFileLink>) -> bool {
    exists|r: AppResult<Option<PromptFileLink>>| #[trigger] link_looked_up(db, id, r) && match r {
        Ok(Some(l)) => res == Ok::<PromptFileLink, AppError>(l),
        Ok(None) => res matches Err(AppError::NotFound(m)) && m@ == "prompt file link not found: "@ + id,
        Err(e) => res == Err::<PromptFileLink, AppError>(e),
    }
}

/// `res` is `prompt` with the links the database lists for it, or the
/// engine's error.
pub open spec fn dto_of(db: int, prompt: Prompt, res: AppResult<PromptDto>) -> bool {
    exists|l: AppResult<Vec<PromptFileLink>>| #[trigger] links_listed(db, prompt.id@, l) && match l {
        Ok(v) => res matches Ok(d) && d.prompt == prompt && d.file_links@ == v@,
        Err(e) => res == Err::<PromptDto, AppError>(e),
    }
}

/// `res` is prompt `id` with its links, as read from the database.
pub open spec fn prompt_dto_read(db: int, id: Seq<char>, res: AppResult<PromptDto>) -> bool {
    exists|r: AppResult<Prompt>| #[trigger] prompt_required(db, id, r) && match r {
        Ok(p) => dto_of(db, p, res),
        Err(e) => res == Err::<PromptDto, AppError>(e),
    }
}

/// `res` is every prompt the database lists, each with its links, in order;
/// or the first error met.
pub open spec fn prompt_dtos_listed(db: int, res: AppResult<Vec<PromptDto>>) -> bool {
    exists|r: AppResult<Vec<Prompt>>| #[trigger] prompts_listed(db, r) && match r {
        Err(e) => res == Err::<Vec<PromptDto>, AppError>(e),
        Ok(ps) => match res {
            Ok(v) => v@.len() == ps@.len()
                && forall|i: int| 0 <= i < ps@.len() ==> #[trigger] dto_of(db, ps@[i], Ok::<PromptDto, AppError>(v@[i])),
            Err(e) => exists|j: int| 0 <= j < ps@.len() && #[trigger] dto_of(db, ps@[j], Err::<PromptDto, AppError>(e)),
        },
    }
}

/// `res` is a new prompt named `name` holding `content`, stored with the
/// identifier made from `random` and a reading of the clock, then read back
/// with its links.
pub open spec fn prompt_created(db: int, name: Seq<char>, content: Seq<char>, random: Seq<u8>, res: AppResult<PromptDto>) -> bool {
    exists|p: Prompt, s: AppResult<()>| #[trigger] prompt_stored(db, p, s) && {
        &&& p.name@ == name
        &&& p.content@ == content
        &&& p.id@ == new_id(random)
        &&& p.created_at == p.updated_at
        &&& p.created_at >= 0
        &&& match s {
            Err(e) => res == Err::<PromptDto, AppError>(e),
            Ok(()) => dto_of(db, p, res),
        }
    }
}

/// `res` is the outcome of renaming prompt `id`, which must exist, to `name`
/// with `content`, then reading it back.
pub open spec fn prompt_update_done(db: int, id: Seq<char>, name: Seq<char>, content: Seq<char>, res: AppResult<PromptDto>) -> bool {
    exists|found: AppResult<Prompt>| #[trigger] prompt_required(db, id, found) && match found {
        Err(e) => res == Err::<PromptDto, AppError>(e),
        Ok(_) => exists|u: AppResult<()>| #[trigger] prompt_updated(db, id, name, content, u) && match u {
            Err(e) => res == Err::<PromptDto, AppError>(e),
            Ok(()) => prompt_dto_read(db, id, res),
        },
    }
}

/// `res` is the outcome of deleting prompt `id`, which must exist.
pub open spec fn prompt_delete_done(db: int, id: Seq<char>, res: AppResult<()>) -> bool {
    exists|found: AppResult<Prompt>| #[trigger] prompt_required(db, id, found) && match found {
        Err(e) => res == Err::<(), AppError>(e),
        Ok(_) => prompt_deleted(db, id, res),
    }
}

/// `res` is the outcome of deleting link `id`, which must exist.
pub open spec fn link_delete_done(db: int, id: Seq<char>, res: AppResult<()>) -> bool {
    exists|found: AppResult<PromptFileLink>| #[trigger] link_required(db, id, found) && match found {
        Err(e) => res == Err::<(), AppError>(e),
        Ok(_) => link_deleted(db, id, res),
    }
}

/// A copy of `p`, field for field.
fn copy_prompt(p: &Prompt) -> (res: Prompt)
    ensures
        res == *p,
{
    Prompt {
        id: p.id.clone(),
        name: p.name.clone(),
        content: p.content.clone(),
        created_at: p.created_at,
        updated_at: p.updated_at,
    }
}

/// The prompt `id`, or `NotFound` when there is none.
pub fn require_prompt(repo: &PromptsRepository, id: &str) -> (res: AppResult<Prompt>)
    ensures
        prompt_required(repo.database().id(), id@, res),
        res matches Err(e) ==> e is DatabaseError
            || (e == AppError::NotFound(e->NotFound_0) && e->NotFound_0@ == "prompt not found: "@ + id@),
{
    let r = repo.get(id);
    assert(prompt_looked_up(repo.database().id(), id@, r));
    match r {
        Ok(Some(p)) => Ok(p),
        Ok(None) => Err(AppError::NotFound(concat("prompt not found: ", id))),
        Err(e) => Err(e),
    }
}

/// The link `id`, or `NotFound` when there is none.
pub fn require_link(repo: &PromptFileLinksRepository, id: &str) -> (res: AppResult<PromptFileLink>)
    ensures
        link_required(repo.database().id(), id@, res),
        res matches Err(e) ==> e is DatabaseError
            || (e == AppError::NotFound(e->NotFound_0) && e->NotFound_0@ == "prompt file link not found: "@ + id@),
{
    let r = repo.get(id);
    assert(link_looked_up(repo.database().id(), id@, r));
    match r {
        Ok(Some(l)) => Ok(l),
        Ok(None) => Err(AppError::NotFound(concat("prompt file link not found: ", id))),
        Err(e) => Err(e),
    }
}

/// `prompt` with the file links stored for it.
pub fn to_dto(db: &Database, prompt: Prompt) -> (res: AppResult<PromptDto>)
    ensures
        dto_of(db.id(), prompt, res),
        res matches Ok(dto) ==> dto.prompt == prompt,
        res matches Err(e) ==> e is DatabaseError,
{
    let l = PromptFileLinksRepository::new(db).list_by_prompt(prompt.id.as_str());
    assert(links_listed(db.id(), prompt.id@, l));
    match l {
        Ok(file_links) => Ok(PromptDto { prompt, file_links }),
        Err(e) => Err(e),
    }
}

/// The prompt `id` with its file links, or `NotFound`.
pub fn get_prompt_dto(db: &Database, id: &str) -> (res: AppResult<PromptDto>)
    ensures
        prompt_dto_read(db.id(), id@, res),
        res matches Err(e) ==> e is DatabaseError
            || (e == AppError::NotFound(e->NotFound_0) && e->NotFound_0@ == "prompt not found: "@ + id@),
{
    let r = require_prompt(&PromptsRepository::new(db), id);
    assert(prompt_required(db.id(), id@, r));
    match r {
        Ok(prompt) => to_dto(db, prompt),
        Err(e) => Err(e),
    }
}

/// Every prompt with its file links, most recently updated first.
pub fn list_prompts(db: &Database) -> (res: AppResult<Vec<PromptDto>>)
    ensures
        prompt_dtos_listed(db.id(), res),
        res matches Err(e) ==> e is DatabaseError,
{
    let listed = PromptsRepository::new(db).list();
    assert(prompts_listed(db.id(), listed));
    let prompts = match listed {
        Ok(ps) => ps,
        Err(e) => return Err(e),
    };
    let ghost listed_ok = Ok::<Vec<Prompt>, AppError>(prompts);
    assert(prompts_listed(db.id(), listed_ok));
    let mut out: Vec<PromptDto> = Vec::new();
    let mut i: usize = 0;
    while i < prompts.len()
        invariant
            i <= prompts@.len(),
            out@.len() == i,
            forall|j: int| 0 <= j < i ==> #[trigger] dto_of(db.id(), prompts@[j], Ok::<PromptDto, AppError>(out@[j])),
            listed_ok == Ok::<Vec<Prompt>, AppError>(prompts),
            prompts_listed(db.id(), listed_ok),
        decreases prompts@.len() - i,
    {
        let dto = to_dto(db, copy_prompt(&prompts[i]));
        let ghost dto_g = dto;
        match dto {
            Ok(d) => {
                assert(dto_g == Ok::<PromptDto, AppError>(d));
                out.push(d);
            },
            Err(e) => {
                let ghost eg = e;
                assert(dto_of(db.id(), prompts@[i as int], Err::<PromptDto, AppError>(eg)));
                assert(exists|j: int| 0 <= j < prompts@.len()
                    && #[trigger] dto_of(db.id(), prompts@[j], Err::<PromptDto, AppError>(eg)));
                assert(prompts_listed(db.id(), listed_ok));
                let res: AppResult<Vec<PromptDto>> = Err(e);
                assert(prompt_dtos_listed(db.id(), res));
                return res;
            },
        }
        i = i + 1;
    }
    let res = Ok(out);
    assert(prompt_dtos_listed(db.id(), res));
    res
}

/// Stores a new prompt whose identifier is the UUID made from the random
/// bytes `random`, stamped with the clock.
pub fn create_prompt(db: &Database, name: String, content: String, random: [u8; 16]) -> (res: AppResult<PromptDto>)
    ensures
        prompt_created(db.id(), name@, content@, random@, res),
        res matches Ok(dto) ==> {
            &&& dto.prompt.name == name
            &&& dto.prompt.content == content
            &&& dto.prompt.id@ == new_id(random@)
            &&& dto.prompt.created_at == dto.prompt.updated_at
            &&& dto.prompt.created_at >= 0
        },
        res matches Err(e) ==> e is DatabaseError,
{
    let now = now_ms();
    let prompt = Prompt { id: uuid_from_random_bytes(random), name, content, created_at: now, updated_at: now };
    let s = PromptsRepository::new(db).create(&prompt);
    assert(prompt_stored(db.id(), prompt, s));
    match s {
        Ok(()) => to_dto(db, prompt),
        Err(e) => Err(e),
    }
}

/// Renames prompt `id` and replaces its content, in the database only.
pub fn update_prompt(db: &Database, id: &str, name: String, content: String) -> (res: AppResult<PromptDto>)
    ensures
        prompt_update_done(db.id(), id@, name@, content@, res),
        res matches Err(e) ==> e is DatabaseError
            || (e == AppError::NotFound(e->NotFound_0) && e->NotFound_0@ == "prompt not found: "@ + id@),
{
    let repo = PromptsRepository::new(db);
    let found = require_prompt(&repo, id);
    assert(prompt_required(db.id(), id@, found));
    match found {
        Ok(_) => {},
        Err(e) => return Err(e),
    }
    let u = repo.update(id, name.as_str(), content.as_str());
    assert(prompt_updated(db.id(), id@, name@, content@, u));
    match u {
        Ok(()) => {},
        Err(e) => return Err(e),
    }
    get_prompt_dto(db, id)
}

/// The name of a copy: the requested one, or the source's name with ` Copy`.
pub open spec fn copy_name_of(source_name: Seq<char>, name: Option<String>) -> Seq<char> {
    match name {
        Some(n) => n@,
        None => source_name + " Copy"@,
    }
}

/// The name given to a copy of a prompt called `source_name`.
pub fn copy_name(source_name: &str, name: Option<String>) -> (res: String)
    ensures
        res@ == copy_name_of(source_name@, name),
{
    match name {
        Some(n) => n,
        None => concat(source_name, " Copy"),
    }
}

/// Stores a copy of prompt `id` under `name`, or under the source's name with
/// ` Copy`; the copy's identifier is the UUID made from `random`.
pub fn duplicate_prompt(db: &Database, id: &str, name: Option<String>, random: [u8; 16]) -> (res: AppResult<PromptDto>)
    ensures
        exists|found: AppResult<Prompt>| #[trigger] prompt_required(db.id(), id@, found) && match found {
            Err(e) => res == Err::<PromptDto, AppError>(e),
            Ok(source) => prompt_created(db.id(), copy_name_of(source.name@, name), source.content@, random@, res),
        },
        res matches Err(e) ==> e is DatabaseError
            || (e == AppError::NotFound(e->NotFound_0) && e->NotFound_0@ == "prompt not found: "@ + id@),
        res matches Ok(dto) ==> (name matches Some(n) ==> dto.prompt.name@ == n@),
        res matches Ok(dto) ==> dto.prompt.id@ == new_id(random@) && dto.prompt.created_at == dto.prompt.updated_at,
{
    let found = require_prompt(&PromptsRepository::new(db), id);
    let ghost fg = found;
    assert(prompt_required(db.id(), id@, fg));
    let source = match found {
        Ok(p) => p,
        Err(e) => return Err(e),
    };
    let ghost asked = name;
    let new_name = copy_name(source.name.as_str(), name);
    let res = create_prompt(db, new_name, source.content, random);
    assert(fg matches Ok(src) && src.name@ == source.name@);
    res
}

/// Deletes prompt `id`, which must exist.
pub fn delete_prompt(db: &Database, id: &str) -> (res: AppResult<()>)
    ensures
        prompt_delete_done(db.id(), id@, res),
        res matches Err(e) ==> e is DatabaseError
            || (e == AppError::NotFound(e->NotFound_0) && e->NotFound_0@ == "prompt not found: "@ + id@),
{
    let repo = PromptsRepository::new(db);
    let found = require_prompt(&repo, id);
    assert(prompt_required(db.id(), id@, found));
    match found {
        Ok(_) => {},
        Err(e) => return Err(e),
    }
    repo.delete(id)
}


/// The part of `p` after its last `/`.
pub open spec fn last_component(p: Seq<char>) -> Seq<char>
    decreases p.len(),
{
    if p.len() == 0 {
        p
    } else if p.last() == '/' {
        Seq::empty()
    } else {
        last_component(p.drop_last()).push(p.last())
    }
}

/// The index of the last `.` in `name`, or -1 when it has none.
pub open spec fn last_dot(name: Seq<char>) -> int
    decreases name.len(),
{
    if name.len() == 0 {
        -1
    } else if name.last() == '.' {
        name.len() - 1
    } else {
        last_dot(name.drop_last())
    }
}

/// The stem of a file name: the name before its last `.`, or the whole name
/// when it has no `.` or only a leading one.
pub open spec fn stem_of(name: Seq<char>) -> Seq<char> {
    if last_dot(name) <= 0 {
        name
    } else {
        name.take(last_dot(name))
    }
}

/// A path whose file name every platform reads alike: it holds no `\` and
/// no `:`, does not start with `//`, and ends in a name that is neither empty
/// nor `.` nor `..`.
pub open spec fn plain_path(p: Seq<char>) -> bool {
    &&& forall|i: int| 0 <= i < p.len() ==> #[trigger] p[i] != '\\' && p[i] != ':'
    &&& !(p.len() >= 2 && p[0] == '/' && p[1] == '/')
    &&& last_component(p).len() > 0
    &&& last_component(p) != "."@
    &&& last_component(p) != ".."@
}

/// `std::path::Path::file_stem` of `path`, as UTF-8: the file name without its
/// extension. For a path that every platform splits alike (`plain_path`), that
/// is the stem of the part after the last `/`; how other paths are split
/// depends on the platform's separators and prefixes, and is not stated.
#[verifier::external_body]
fn path_file_stem(path: &str) -> (res: Option<String>)
    ensures
        plain_path(path@) ==> (res is Some && res.unwrap()@ == stem_of(last_component(path@))),
{
    std::path::Path::new(path).file_stem().and_then(|value| value.to_str()).map(|value| value.to_string())
}

/// The name of an imported prompt: the requested one, else the file's stem,
/// else `Untitled prompt`.
pub open spec fn import_name_of(name: Option<String>, stem: Option<String>) -> Seq<char> {
    match name {
        Some(n) => n@,
        None => match stem {
            Some(s) => s@,
            None => "Untitled prompt"@,
        },
    }
}

/// The name given to a prompt imported from a file whose stem is `stem`.
pub fn import_name(name: Option<String>, stem: Option<String>) -> (res: String)
    ensures
        res@ == import_name_of(name, stem),
{
    match name {
        Some(n) => n,
        None => match stem {
            Some(s) => s,
            None => String::from_str("Untitled prompt"),
        },
    }
}

/// What a new link records of a file whose bytes, when it exists, are
/// `on_disk`: it exists exactly when its bytes were read, and then its content
/// hash is theirs.
pub open spec fn records_bytes(link: PromptFileLink, on_disk: Option<Seq<u8>>) -> bool {
    &&& link.exists_on_disk == (on_disk is Some)
    &&& match on_disk {
        Some(bytes) => link.content_hash matches Some(h) && h@ == content_hash(bytes),
        None => link.content_hash is None,
    }
}

/// The bytes of an optional byte slice.
pub open spec fn opt_bytes(on_disk: Option<&[u8]>) -> Option<Seq<u8>> {
    match on_disk {
        Some(b) => Some(b@),
        None => None,
    }
}

/// What a new link records of its file: it exists exactly when its bytes were
/// read, and then its content hash is theirs.
pub open spec fn records_file(link: PromptFileLink, on_disk: Option<&[u8]>) -> bool {
    records_bytes(link, opt_bytes(on_disk))
}

/// `res` is the outcome of linking prompt `prompt_id`, which must exist, to
/// the file at `file_path`: a new link with the identifier made from `random` that records
/// the file (`on_disk`), stored in the database and handed back.
pub open spec fn file_link_created(
    db: int,
    prompt_id: Seq<char>,
    file_path: String,
    write_back_enabled: Option<bool>,
    on_disk: Option<Seq<u8>>,
    random: Seq<u8>,
    res: AppResult<PromptFileLink>,
) -> bool {
    exists|found: AppResult<Prompt>| #[trigger] prompt_required(db, prompt_id, found) && match found {
        Err(e) => res == Err::<PromptFileLink, AppError>(e),
        Ok(_) => exists|l: PromptFileLink, s: AppResult<()>| #[trigger] link_stored(db, l, s) && {
            &&& l.id@ == new_id(random)
            &&& l.prompt_id@ == prompt_id
            &&& l.file_path == file_path
            &&& l.write_back_enabled == (write_back_enabled == Some(true))
            &&& records_bytes(l, on_disk)
            &&& l.last_synced_at is None
            &&& l.created_at == l.updated_at
            &&& match s {
                Err(e) => res == Err::<PromptFileLink, AppError>(e),
                Ok(()) => res == Ok::<PromptFileLink, AppError>(l),
            }
        },
    }
}

/// `res` is the outcome of importing the text `content` of the file at
/// `file_path`: a new prompt named `name` (else after some stem of the path)
/// holding the text, linked to the file with write-back off, read back with
/// its links.
pub open spec fn prompt_imported(
    db: int,
    file_path: String,
    content: Seq<char>,
    name: Option<String>,
    prompt_random: Seq<u8>,
    link_random: Seq<u8>,
    res: AppResult<PromptDto>,
) -> bool {
    exists|stem: Option<String>, c: AppResult<PromptDto>|
        #[trigger] prompt_created(db, import_name_of(name, stem), content, prompt_random, c)
        && (plain_path(file_path@) ==> (stem is Some && stem.unwrap()@ == stem_of(last_component(file_path@))))
        && match c {
            Err(e) => res == Err::<PromptDto, AppError>(e),
            Ok(d) => exists|k: AppResult<PromptFileLink>|
                #[trigger] file_link_created(db, d.prompt.id@, file_path, Some(false), Some(encode_utf8(content)), link_random, k)
                && match k {
                    Err(e) => res == Err::<PromptDto, AppError>(e),
                    Ok(_) => prompt_dto_read(db, d.prompt.id@, res),
                },
        }
}

/// `res` is the outcome of recording that `content` was written to the file
/// of link `link_id`: its hash, presence and a reading of the clock stored,
/// then the link read back.
pub open spec fn write_back_recorded(db: int, link_id: Seq<char>, content: Seq<char>, res: AppResult<PromptFileLink>) -> bool {
    exists|now: i64, u: AppResult<()>|
        #[trigger] sync_state_recorded(db, link_id, Some(content_hash(encode_utf8(content))), true, Some(now), u)
        && match u {
            Err(e) => res == Err::<PromptFileLink, AppError>(e),
            Ok(()) => link_required(db, link_id, res),
        }
}

/// A new link of prompt `prompt_id` to `file_path`; `on_disk` holds the file's
/// bytes when the file exists.
pub fn new_file_link(
    id: String,
    prompt_id: &str,
    file_path: String,
    write_back_enabled: Option<bool>,
    on_disk: Option<&[u8]>,
    now: i64,
) -> (res: PromptFileLink)
    ensures
        res.id == id,
        res.prompt_id@ == prompt_id@,
        res.file_path == file_path,
        res.write_back_enabled == (write_back_enabled == Some(true)),
        records_file(res, on_disk),
        res.last_synced_at is None,
        res.created_at == now,
        res.updated_at == now,
{
    let content_hash = match on_disk {
        Some(bytes) => Some(hash_bytes(bytes)),
        None => None,
    };
    let write_back = match write_back_enabled {
        Some(b) => b,
        None => false,
    };
    PromptFileLink {
        id,
        prompt_id: String::from_str(prompt_id),
        file_path,
        write_back_enabled: write_back,
        content_hash,
        exists_on_disk: on_disk.is_some(),
        last_synced_at: None,
        created_at: now,
        updated_at: now,
    }
}

/// Links prompt `prompt_id`, which must exist, to the file at `file_path`;
/// `on_disk` holds the file's bytes when the file exists.
pub fn create_prompt_file_link(
    db: &Database,
    prompt_id: &str,
    file_path: String,
    write_back_enabled: Option<bool>,
    on_disk: Option<&[u8]>,
    random: [u8; 16],
) -> (res: AppResult<PromptFileLink>)
    ensures
        file_link_created(db.id(), prompt_id@, file_path, write_back_enabled, opt_bytes(on_disk), random@, res),
        res matches Err(e) ==> e is DatabaseError
            || (e == AppError::NotFound(e->NotFound_0) && e->NotFound_0@ == "prompt not found: "@ + prompt_id@),
        res matches Ok(link) ==> {
            &&& link.id@ == new_id(random@)
            &&& link.prompt_id@ == prompt_id@
            &&& link.file_path == file_path
            &&& link.write_back_enabled == (write_back_enabled == Some(true))
            &&& records_file(link, on_disk)
            &&& link.last_synced_at is None
            &&& link.created_at == link.updated_at
        },
{
    let found = require_prompt(&PromptsRepository::new(db), prompt_id);
    assert(prompt_required(db.id(), prompt_id@, found));
    match found {
        Ok(_) => {},
        Err(e) => return Err(e),
    }
    let ghost path = file_path;
    let now = now_ms();
    let link = new_file_link(uuid_from_random_bytes(random), prompt_id, file_path, write_back_enabled, on_disk, now);
    let s = PromptFileLinksRepository::new(db).create(&link);
    assert(link_stored(db.id(), link, s));
    let res = match s {
        Ok(()) => Ok(link),
        Err(e) => Err(e),
    };
    assert(file_link_created(db.id(), prompt_id@, path, write_back_enabled, opt_bytes(on_disk), random@, res));
    res
}

/// Stores the text read from the file at `file_path` as a new prompt named
/// `name` (else after the file), linked to that file with write-back off. The
/// prompt's and the link's identifiers are the UUIDs made from
/// `prompt_random` and `link_random`.
pub fn import_prompt_file(
    db: &Database,
    file_path: String,
    content: String,
    name: Option<String>,
    prompt_random: [u8; 16],
    link_random: [u8; 16],
) -> (res: AppResult<PromptDto>)
    ensures
        prompt_imported(db.id(), file_path, content@, name, prompt_random@, link_random@, res),
        res matches Err(e) ==> e is DatabaseError || e is NotFound,
{
    let ghost path = file_path;
    let ghost text = content@;
    let ghost asked = name;
    let stem = path_file_stem(file_path.as_str());
    let ghost stem_g = stem;
    let prompt_name = import_name(name, stem);
    let created = create_prompt(db, prompt_name, content, prompt_random);
    assert(prompt_created(db.id(), import_name_of(asked, stem_g), text, prompt_random@, created));
    let ghost created_g = created;
    let created = match created {
        Ok(d) => d,
        Err(e) => {
            let res: AppResult<PromptDto> = Err(e);
            assert(prompt_imported(db.id(), path, text, asked, prompt_random@, link_random@, res));
            return res;
        },
    };
    let prompt_id = created.prompt.id;
    proof {
        vstd::utf8::encode_utf8_valid_utf8(text);
    }
    let bytes = created.prompt.content.as_str().as_bytes();
    assert(opt_bytes(Some(bytes)) == Some(encode_utf8(text)));
    let k = create_prompt_file_link(db, prompt_id.as_str(), file_path, Some(false), Some(bytes), link_random);
    assert(file_link_created(db.id(), prompt_id@, path, Some(false), Some(encode_utf8(text)), link_random@, k));
    match k {
        Ok(_) => {},
        Err(e) => {
            let res: AppResult<PromptDto> = Err(e);
            assert(prompt_imported(db.id(), path, text, asked, prompt_random@, link_random@, res));
            return res;
        },
    }
    let res = get_prompt_dto(db, prompt_id.as_str());
    assert(prompt_imported(db.id(), path, text, asked, prompt_random@, link_random@, res));
    res
}

/// Removes link `link_id`, which must exist.
pub fn unlink_prompt_file(db: &Database, link_id: &str) -> (res: AppResult<()>)
    ensures
        link_delete_done(db.id(), link_id@, res),
        res matches Err(e) ==> e is DatabaseError
            || (e == AppError::NotFound(e->NotFound_0) && e->NotFound_0@ == "prompt file link not found: "@ + link_id@),
{
    let repo = PromptFileLinksRepository::new(db);
    let found = require_link(&repo, link_id);
    assert(link_required(db.id(), link_id@, found));
    match found {
        Ok(_) => {},
        Err(e) => return Err(e),
    }
    repo.delete(link_id)
}

/// `res` is the outcome of reloading prompt text `c` into the prompt of
/// `link`: the prompt must be found, its content becomes `c`, the link records
/// the text's hash, presence and a reading of the clock, and the prompt is
/// read back with its links.
pub open spec fn refreshed_from(db: int, link: PromptFileLink, link_id: Seq<char>, c: Seq<char>, res: AppResult<PromptDto>) -> bool {
    exists|p: AppResult<Prompt>| #[trigger] prompt_required(db, link.prompt_id@, p) && match p {
        Err(e) => res == Err::<PromptDto, AppError>(e),
        Ok(_) => exists|u: AppResult<()>| #[trigger] prompt_content_updated(db, link.prompt_id@, c, u) && match u {
            Err(e) => res == Err::<PromptDto, AppError>(e),
            Ok(()) => exists|now: i64, v: AppResult<()>|
                #[trigger] sync_state_recorded(db, link_id, Some(content_hash(encode_utf8(c))), true, Some(now), v)
                && match v {
                    Err(e) => res == Err::<PromptDto, AppError>(e),
                    Ok(()) => prompt_dto_read(db, link.prompt_id@, res),
                },
        },
    }
}

/// `res` is the outcome of refreshing link `link_id` from its file, whose
/// text is `on_disk` (`None` when the file is gone): the link must be found;
/// a missing file is recorded on the link (no hash, absent) and reported as
/// `prompt file not found: <path>`; else the prompt takes the file's text.
pub open spec fn refresh_done(db: int, link_id: Seq<char>, on_disk: Option<Seq<char>>, res: AppResult<PromptDto>) -> bool {
    exists|found: AppResult<PromptFileLink>| #[trigger] link_required(db, link_id, found) && match found {
        Err(e) => res == Err::<PromptDto, AppError>(e),
        Ok(link) => match on_disk {
            None => exists|u: AppResult<()>| #[trigger] sync_state_recorded(db, link_id, None, false, None, u) && match u {
                Err(e) => res == Err::<PromptDto, AppError>(e),
                Ok(()) => res matches Err(AppError::NotFound(m)) && m@ == "prompt file not found: "@ + link.file_path@,
            },
            Some(c) => refreshed_from(db, link, link_id, c, res),
        },
    }
}

/// Reloads a prompt from its linked file: `on_disk` is the file's text, or
/// `None` when the file is gone, which is recorded on the link and reported.
pub fn refresh_prompt_file_link(db: &Database, link_id: &str, on_disk: Option<String>) -> (res: AppResult<PromptDto>)
    ensures
        refresh_done(db.id(), link_id@, opt_string_view(on_disk), res),
        on_disk is None ==> res is Err,
        res matches Err(e) ==> e is DatabaseError || e is NotFound,
{
    let links = PromptFileLinksRepository::new(db);
    let found = require_link(&links, link_id);
    let ghost fg = found;
    assert(link_required(db.id(), link_id@, fg));
    let link = match found {
        Ok(l) => l,
        Err(e) => return Err(e),
    };
    let content = match on_disk {
        Some(c) => c,
        None => {
            let u = links.update_sync_state(link_id, None, false, None);
            assert(sync_state_recorded(db.id(), link_id@, None, false, None, u));
            match u {
                Ok(()) => {},
                Err(e) => return Err(e),
            }
            return Err(AppError::NotFound(concat("prompt file not found: ", link.file_path.as_str())));
        },
    };
    let ghost text = content@;
    let hash = hash_content(content.as_str());
    let prompts = PromptsRepository::new(db);
    let p = require_prompt(&prompts, link.prompt_id.as_str());
    assert(prompt_required(db.id(), link.prompt_id@, p));
    match p {
        Ok(_) => {},
        Err(e) => {
            let res: AppResult<PromptDto> = Err(e);
            assert(refreshed_from(db.id(), link, link_id@, text, res));
            return res;
        },
    }
    let u = prompts.update_content(link.prompt_id.as_str(), content.as_str());
    assert(prompt_content_updated(db.id(), link.prompt_id@, text, u));
    match u {
        Ok(()) => {},
        Err(e) => {
            let res: AppResult<PromptDto> = Err(e);
            assert(refreshed_from(db.id(), link, link_id@, text, res));
            return res;
        },
    }
    let now = now_ms();
    let v = links.update_sync_state(link_id, Some(hash.as_str()), true, Some(now));
    assert(sync_state_recorded(db.id(), link_id@, Some(content_hash(encode_utf8(text))), true, Some(now), v));
    match v {
        Ok(()) => {},
        Err(e) => {
            let res: AppResult<PromptDto> = Err(e);
            assert(refreshed_from(db.id(), link, link_id@, text, res));
            return res;
        },
    }
    let res = get_prompt_dto(db, link.prompt_id.as_str());
    assert(refreshed_from(db.id(), link, link_id@, text, res));
    res
}

/// Writing back to the linked file would overwrite an edit made outside:
/// the file exists, the write is not forced, and its bytes do not hash to the
/// hash recorded on the link.
pub open spec fn write_back_conflict(link: PromptFileLink, force: Option<bool>, on_disk: Option<&[u8]>) -> bool {
    &&& on_disk is Some
    &&& force != Some(true)
    &&& !(link.content_hash matches Some(h) && h@ == content_hash(on_disk.unwrap()@))
}

/// Refuses a write-back that would overwrite an edit made outside.
pub fn check_write_back_conflict(link: &PromptFileLink, force: Option<bool>, on_disk: Option<&[u8]>) -> (res: AppResult<()>)
    ensures
        res is Ok <==> !write_back_conflict(*link, force, on_disk),
        res matches Err(e) ==> e == AppError::InvalidInput(e->InvalidInput_0)
            && e->InvalidInput_0@ == "prompt file conflict: "@ + link.file_path@,
{
    let forced = match force {
        Some(f) => f,
        None => false,
    };
    match on_disk {
        Some(bytes) => {
            if !forced {
                let current = hash_bytes(bytes);
                let same = match &link.content_hash {
                    Some(h) => crate::text::str_eq(h.as_str(), current.as_str()),
                    None => false,
                };
                if !same {
                    return Err(AppError::InvalidInput(concat("prompt file conflict: ", link.file_path.as_str())));
                }
            }
            Ok(())
        },
        None => Ok(()),
    }
}

/// `res` is what a write-back of `link`, which has write-back on, gives: the
/// prompt of the link must be found; the write is refused as a conflict
/// exactly when `write_back_conflict`; else the link and the prompt's content
/// to write.
pub open spec fn write_back_after_lookup(
    db: int,
    link: PromptFileLink,
    force: Option<bool>,
    on_disk: Option<&[u8]>,
    res: AppResult<WriteBack>,
) -> bool {
    exists|p: AppResult<Prompt>| #[trigger] prompt_required(db, link.prompt_id@, p) && match p {
        Err(e) => res == Err::<WriteBack, AppError>(e),
        Ok(prompt) => if write_back_conflict(link, force, on_disk) {
            res matches Err(AppError::InvalidInput(m)) && m@ == "prompt file conflict: "@ + link.file_path@
        } else {
            res matches Ok(w) && w.link == link && w.content == prompt.content
        },
    }
}

/// `res` is the first half of writing back link `link_id`: the link must be
/// found; `write-back is disabled` exactly when it has write-back off; else as
/// `write_back_after_lookup`.
pub open spec fn write_back_planned(
    db: int,
    link_id: Seq<char>,
    force: Option<bool>,
    on_disk: Option<&[u8]>,
    res: AppResult<WriteBack>,
) -> bool {
    exists|found: AppResult<PromptFileLink>| #[trigger] link_required(db, link_id, found) && match found {
        Err(e) => res == Err::<WriteBack, AppError>(e),
        Ok(link) => if !link.write_back_enabled {
            res matches Err(AppError::InvalidInput(m)) && m@ == "write-back is disabled for prompt file link: "@ + link_id
        } else {
            write_back_after_lookup(db, link, force, on_disk, res)
        },
    }
}

/// What to write back: the link's file and the prompt's content.
pub struct WriteBack {
    pub link: PromptFileLink,
    pub content: String,
}

/// The first half of writing a prompt to its linked file: checks that
/// write-back is on for link `link_id` and that the file (`on_disk`, its
/// bytes when it exists) holds what was last synced, unless `force`; then
/// hands back the content to write. `record_write_back` completes it.
pub fn write_prompt_to_file(db: &Database, link_id: &str, force: Option<bool>, on_disk: Option<&[u8]>) -> (res: AppResult<WriteBack>)
    ensures
        write_back_planned(db.id(), link_id@, force, on_disk, res),
        res matches Ok(w) ==> w.link.write_back_enabled && !write_back_conflict(w.link, force, on_disk),
        res matches Err(AppError::InvalidInput(m)) ==> m@ == "write-back is disabled for prompt file link: "@ + link_id@
            || exists|p: Seq<char>| m@ == "prompt file conflict: "@ + p,
        res matches Err(e) ==> e is DatabaseError || e is NotFound || e is InvalidInput,
{
    let links = PromptFileLinksRepository::new(db);
    let found = require_link(&links, link_id);
    let ghost fg = found;
    assert(link_required(db.id(), link_id@, fg));
    let link = match found {
        Ok(l) => l,
        Err(e) => return Err(e),
    };
    if !link.write_back_enabled {
        return Err(AppError::InvalidInput(concat("write-back is disabled for prompt file link: ", link_id)));
    }
    let p = require_prompt(&PromptsRepository::new(db), link.prompt_id.as_str());
    let ghost pg = p;
    assert(prompt_required(db.id(), link.prompt_id@, pg));
    let prompt = match p {
        Ok(pr) => pr,
        Err(e) => {
            let res: AppResult<WriteBack> = Err(e);
            assert(write_back_after_lookup(db.id(), link, force, on_disk, res));
            return res;
        },
    };
    match check_write_back_conflict(&link, force, on_disk) {
        Ok(()) => {},
        Err(e) => {
            let res: AppResult<WriteBack> = Err(e);
            assert(write_back_after_lookup(db.id(), link, force, on_disk, res));
            return res;
        },
    }
    let res = Ok(WriteBack { link, content: prompt.content });
    assert(write_back_after_lookup(db.id(), link, force, on_disk, res));
    res
}

/// The second half of a write-back, after `content` was written to the file
/// of link `link_id`: records the file's new hash and the time, and returns
/// the updated link.
pub fn record_write_back(db: &Database, link_id: &str, content: &str) -> (res: AppResult<PromptFileLink>)
    ensures
        write_back_recorded(db.id(), link_id@, content@, res),
        res matches Err(e) ==> e is DatabaseError
            || (e == AppError::NotFound(e->NotFound_0) && e->NotFound_0@ == "prompt file link not found: "@ + link_id@),
{
    let links = PromptFileLinksRepository::new(db);
    let hash = hash_content(content);
    let now = now_ms();
    let u = links.update_sync_state(link_id, Some(hash.as_str()), true, Some(now));
    assert(sync_state_recorded(db.id(), link_id@, Some(content_hash(encode_utf8(content@))), true, Some(now), u));
    match u {
        Ok(()) => {},
        Err(e) => {
            let res: AppResult<PromptFileLink> = Err(e);
            assert(write_back_recorded(db.id(), link_id@, content@, res));
            return res;
        },
    }
    let res = require_link(&links, link_id);
    assert(write_back_recorded(db.id(), link_id@, content@, res));
    res
}


/// Every identifier made from 16 random bytes is a UUID in its hyphenated
/// form: 36 characters, `-` at positions 8, 13, 18 and 23, and the version
/// digit `4` at position 14.
pub proof fn law_new_id_is_hyphenated_v4(random: Seq<u8>)
    requires
        random.len() == 16,
    ensures
        new_id(random).len() == 36,
        new_id(random)[8] == '-' && new_id(random)[13] == '-' && new_id(random)[18] == '-' && new_id(random)[23] == '-',
        new_id(random)[14] == '4',
{
    let b = uuid_v4_bytes(random);
    reveal_strlit("-");
    lemma_hex_lower_len(b.subrange(0, 4));
    lemma_hex_lower_len(b.subrange(4, 6));
    lemma_hex_lower_len(b.subrange(6, 8));
    lemma_hex_lower_len(b.subrange(8, 10));
    lemma_hex_lower_len(b.subrange(10, 16));
    let g = b.subrange(6, 8);
    assert(g.drop_last().drop_last().len() == 0);
    assert(hex_lower(g.drop_last().drop_last()) =~= Seq::<char>::empty());
    assert(g.drop_last().last() == b[6]);
    let r6: u8 = random[6];
    let v: u8 = b[6];
    assert(v == (r6 & 0x0fu8) | 0x40u8);
    assert(((r6 & 0x0fu8) | 0x40u8) / 16 == 4) by (bit_vector);
    assert(hex_lower(g.drop_last())[0] == hex_digit((v / 16) as nat));
}

/// Recording a write-back of `content` stores, for the link, the SHA-256
/// digest of the UTF-8 bytes of `content` in lowercase hexadecimal, marks its
/// file present and stamps the time: the update sent carries exactly that
/// digest, whatever the link recorded before.
pub proof fn law_write_back_records_the_written_digest(
    db: int,
    link_id: Seq<char>,
    content: Seq<char>,
    res: AppResult<PromptFileLink>,
)
    requires
        write_back_recorded(db, link_id, content, res),
    ensures
        exists|now: i64, u: AppResult<()>|
            #[trigger] sync_state_recorded(db, link_id, Some(hex_lower(sha256(encode_utf8(content)))), true, Some(now), u)
            && (res is Ok ==> u is Ok),
{
}

/// A link that records the digest stored by a write-back of `content` does
/// not refuse the next unforced write-back while its file still holds exactly
/// the bytes of `content`: a file nobody touched is no conflict.
pub proof fn law_untouched_file_after_write_back_is_no_conflict(link: PromptFileLink, content: Seq<char>, on_disk: &[u8])
    requires
        link.content_hash matches Some(h) && h@ == hex_lower(sha256(encode_utf8(content))),
        on_disk@ == encode_utf8(content),
    ensures
        !write_back_conflict(link, None, Some(on_disk)),
{
}

/// A hexadecimal rendering has two characters per byte.
pub proof fn lemma_hex_lower_len(data: Seq<u8>)
    ensures
        hex_lower(data).len() == 2 * data.len(),
    decreases data.len(),
{
    if data.len() > 0 {
        lemma_hex_lower_len(data.drop_last());
    }
}

/// Different byte strings have different hexadecimal renderings, so two
/// contents whose digests differ never share a content hash.
pub proof fn lemma_hex_lower_injective(a: Seq<u8>, b: Seq<u8>)
    requires
        hex_lower(a) == hex_lower(b),
    ensures
        a == b,
    decreases a.len(),
{
    lemma_hex_lower_len(a);
    lemma_hex_lower_len(b);
    if a.len() > 0 {
        let ha = hex_lower(a.drop_last());
        let hb = hex_lower(b.drop_last());
        lemma_hex_lower_len(a.drop_last());
        lemma_hex_lower_len(b.drop_last());
        let n = ha.len();
        assert(hex_lower(a)[n as int] == hex_lower(b)[n as int]);
        assert(hex_lower(a)[n as int + 1] == hex_lower(b)[n as int + 1]);
        assert(hex_lower(a).subrange(0, n as int) =~= ha);
        assert(hex_lower(b).subrange(0, n as int) =~= hb);
        lemma_hex_lower_injective(a.drop_last(), b.drop_last());
        let x = a.last();
        let y = b.last();
        let ta = seq![hex_digit((x / 16) as nat), hex_digit((x % 16) as nat)];
        let tb = seq![hex_digit((y / 16) as nat), hex_digit((y % 16) as nat)];
        assert(hex_lower(a) == ha + ta);
        assert(hex_lower(b) == hb + tb);
        assert((ha + ta)[n as int] == ta[0]);
        assert((hb + tb)[n as int] == tb[0]);
        assert((ha + ta)[n as int + 1] == ta[1]);
        assert((hb + tb)[n as int + 1] == tb[1]);
        assert(hex_digit((x / 16) as nat) == hex_digit((y / 16) as nat));
        assert(hex_digit((x % 16) as nat) == hex_digit((y % 16) as nat));
        assert(x / 16 == y / 16);
        assert(x % 16 == y % 16);
        assert(x == y);
        assert(a =~= a.drop_last().push(x));
        assert(b =~= b.drop_last().push(y));
    }
}

/// A link made from a file's bytes never reports a write-back conflict while
/// the file still holds those bytes, forced or not.
pub proof fn law_recorded_file_never_conflicts(link: PromptFileLink, force: Option<bool>, on_disk: &[u8])
    requires
        records_file(link, Some(on_disk)),
    ensures
        !write_back_conflict(link, force, Some(on_disk)),
{
}

/// A write-back that is not forced is refused as soon as the file's digest
/// differs from the digest of the bytes the link recorded: an edit made
/// outside is never overwritten unnoticed.
pub proof fn law_changed_file_conflicts(link: PromptFileLink, force: Option<bool>, recorded: Seq<u8>, on_disk: &[u8])
    requires
        link.content_hash matches Some(h) && h@ == content_hash(recorded),
        sha256(on_disk@) != sha256(recorded),
        force != Some(true),
    ensures
        write_back_conflict(link, force, Some(on_disk)),
{
    if !write_back_conflict(link, force, Some(on_disk)) {
        lemma_hex_lower_injective(sha256(on_disk@), sha256(recorded));
    }
}

/// A write-back is refused while the file exists and the link has recorded
/// no hash, unless it is forced; a file that is gone, or a forced write, is
/// never a conflict.
pub proof fn law_conflict_needs_a_file_and_no_force(link: PromptFileLink, force: Option<bool>, on_disk: Option<&[u8]>)
    ensures
        on_disk is None ==> !write_back_conflict(link, force, on_disk),
        force == Some(true) ==> !write_back_conflict(link, force, on_disk),
        (on_disk is Some && force != Some(true) && link.content_hash is None)
            ==> write_back_conflict(link, force, on_disk),
{
}

} // verus!
