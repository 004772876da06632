//! Where a skill lands when it is synced into a tool's skill directory.

use vstd::prelude::*;
use crate::error::{AppError, AppResult};
use crate::text::concat;
use crate::path_safety::{
    child_path, is_plain_component, opt_view, safe_child_path, safe_dir_name_of,
    safe_dir_name_with_fallback, unsafe_name_message,
};
use crate::repositories::maintenance::ToolAdapterDefault;
use crate::services::prompts::{new_id, uuid_from_random_bytes};

verus! {

/// The directory below `base` that a skill or suite named `name` is synced
/// to: the name made safe as a directory name, `fallback` standing in where
/// nothing of it is usable. With a plain fallback the path always exists and
/// always stays directly below `base`.
pub fn safe_sync_target_path(base: &str, name: &str, fallback: &str, label: &str) -> (res: AppResult<String>)
    ensures
        res matches Ok(p) ==> {
            &&& p@ == child_path(base@, safe_dir_name_of(Some(name@), fallback@))
            &&& is_plain_component(safe_dir_name_of(Some(name@), fallback@))
        },
        res matches Err(e) ==> e == AppError::PathError(e->PathError_0)
            && e->PathError_0@ == unsafe_name_message(label@, safe_dir_name_of(Some(name@), fallback@)),
        is_plain_component(fallback@) ==> res is Ok,
{
    let dir_name = safe_dir_name_with_fallback(Some(name), fallback);
    match safe_child_path(base, dir_name.as_str(), label) {
        Ok(p) => Ok(p),
        Err(m) => Err(AppError::PathError(m)),
    }
}


/// The scope of a sync request: the one asked for, `global` when none is.
pub open spec fn scope_of(scope: Option<String>) -> Seq<char> {
    match scope {
        Some(s) => s@,
        None => "global"@,
    }
}

/// The scope of a sync request.
pub fn effective_scope(scope: Option<String>) -> (res: String)
    ensures
        res@ == scope_of(scope),
{
    match scope {
        Some(s) => s,
        None => String::from_str("global"),
    }
}

/// The adapter of `tool`, or `unknown tool: <tool>` when there is none.
pub fn require_adapter<T>(adapter: Option<T>, tool: &str) -> (res: AppResult<T>)
    ensures
        adapter matches Some(a) ==> res == Ok::<T, AppError>(a),
        adapter is None ==> (res matches Err(AppError::InvalidInput(m)) && m@ == "unknown tool: "@ + tool@),
{
    match adapter {
        Some(a) => Ok(a),
        None => Err(AppError::InvalidInput(concat("unknown tool: ", tool))),
    }
}

/// The project whose skill directory a sync in `scope` goes to: none for any
/// scope but `project`, which must come with a project path.
pub fn project_for_scope(scope: &str, project_path: Option<&str>) -> (res: AppResult<Option<String>>)
    ensures
        scope@ != "project"@ ==> res == Ok::<Option<String>, AppError>(None),
        scope@ == "project"@ ==> match project_path {
            Some(p) => res matches Ok(Some(q)) && q@ == p@,
            None => res matches Err(AppError::InvalidInput(m))
                && m@ == "project_path required for project scope"@,
        },
{
    if !crate::text::str_eq(scope, "project") {
        return Ok(None);
    }
    match project_path {
        Some(p) => Ok(Some(String::from_str(p))),
        None => Err(AppError::InvalidInput(String::from_str("project_path required for project scope"))),
    }
}

/// The name a synced skill or suite is given: the requested one, else the
/// source directory's name, else `fallback`.
pub open spec fn sync_name_of(name: Option<String>, source_name: Option<String>, fallback: Seq<char>) -> Seq<char> {
    match name {
        Some(n) => n@,
        None => match source_name {
            Some(s) => s@,
            None => fallback,
        },
    }
}

/// The name a synced skill or suite is given; `source_name` is the last
/// component of its source path, when it has one.
pub fn sync_name(name: Option<String>, source_name: Option<String>, fallback: &str) -> (res: String)
    ensures
        res@ == sync_name_of(name, source_name, fallback@),
{
    match name {
        Some(n) => n,
        None => match source_name {
            Some(s) => s,
            None => String::from_str(fallback),
        },
    }
}

/// How a skill is placed in a tool's directory: copied when the tool's
/// adapter forces copies, else linked where the platform allows it.
pub fn sync_mode(force_copy: bool) -> (res: &'static str)
    ensures
        res@ == (if force_copy { "copy"@ } else { "auto"@ }),
{
    if force_copy {
        "copy"
    } else {
        "auto"
    }
}

/// The sync of one skill into a tool's skill directory, as decided before
/// any file is touched.
#[derive(Debug)]
pub struct SyncPlan {
    /// `global`, or the scope asked for.
    pub scope: String,
    /// The project the request named, if any.
    pub project_path: Option<String>,
    /// Where the skill's directory goes.
    pub target_path: String,
    /// `copy` when the tool's adapter forces copies, else `auto`.
    pub mode: String,
    /// Whether a target whose content is already the same is written again.
    pub overwrite: bool,
}

/// The sync of a suite into a tool's skill directory, as decided before any
/// file is touched.
#[derive(Debug)]
pub struct SuitePlan {
    /// `global`, or the scope asked for.
    pub scope: String,
    /// The project the request named, if any.
    pub project_path: Option<String>,
    /// Whether a target whose content is already the same is written again.
    pub overwrite: bool,
    /// The sub-skills in order, then the suite itself.
    pub steps: Vec<SyncStep>,
}

/// The record of a directory synced into a tool, as the `skill_targets`
/// table holds it.
#[derive(Debug)]
pub struct SkillTarget {
    /// The record's identifier.
    pub id: String,
    /// The skill (or suite) that was synced.
    pub skill_id: String,
    /// The tool it was synced into.
    pub tool: String,
    /// `global` or `project`.
    pub scope: String,
    /// The project, for a project-scoped sync.
    pub project_path: Option<String>,
    /// Where the directory was placed.
    pub target_path: String,
    /// `copy`, `auto`, or `suite` for a suite's own record.
    pub mode: String,
    /// `ok` once the directory is in place.
    pub status: String,
    /// When it was synced, in milliseconds since the Unix epoch.
    pub synced_at: Option<i64>,
    /// The suite a sub-skill's record belongs to.
    pub suite_skill_id: Option<String>,
}

/// One directory of a suite sync, or the suite itself.
#[derive(Debug)]
pub struct SyncStep {
    /// The directory's name, or the suite's.
    pub name: String,
    /// Where it goes.
    pub target_path: String,
    /// `copy` or `auto` for a sub-skill, `suite` for the suite's own record.
    pub mode: String,
}

/// The scope of a request: the one asked for, `global` when none is.
pub open spec fn scope_text(scope: Option<&str>) -> Seq<char> {
    match scope {
        Some(s) => s@,
        None => "global"@,
    }
}

/// The mode of a synced skill.
pub open spec fn mode_text(force_copy: bool) -> Seq<char> {
    if force_copy { "copy"@ } else { "auto"@ }
}

/// The name a synced skill is given: the requested one, else the name of its
/// source directory, else `fallback`.
pub open spec fn chosen_name(name: Option<&str>, source_name: Option<&str>, fallback: Seq<char>) -> Seq<char> {
    match name {
        Some(n) => n@,
        None => match source_name {
            Some(s) => s@,
            None => fallback,
        },
    }
}

/// A project-scoped request without a project path.
pub open spec fn project_path_missing(scope: Option<&str>, project_path: Option<&str>) -> bool {
    scope_text(scope) == "project"@ && project_path is None
}

fn mode_string(force_copy: bool) -> (res: String)
    ensures
        res@ == mode_text(force_copy),
{
    String::from_str(sync_mode(force_copy))
}

/// The checks every sync request passes first: the tool needs an adapter,
/// and a project-scoped request needs a project path.
fn check_sync_request(adapter_known: bool, tool: &str, scope: Option<&str>, project_path: Option<&str>) -> (res: AppResult<String>)
    ensures
        !adapter_known ==> (res matches Err(AppError::InvalidInput(m)) && m@ == "unknown tool: "@ + tool@),
        adapter_known && project_path_missing(scope, project_path) ==> (res matches Err(AppError::InvalidInput(m))
            && m@ == "project_path required for project scope"@),
        adapter_known && !project_path_missing(scope, project_path) ==> (res matches Ok(sc) && sc@ == scope_text(scope)),
{
    let sc = match scope {
        Some(s) => String::from_str(s),
        None => String::from_str("global"),
    };
    if !adapter_known {
        return Err(AppError::InvalidInput(concat("unknown tool: ", tool)));
    }
    match project_for_scope(sc.as_str(), project_path) {
        Ok(_) => Ok(sc),
        Err(e) => Err(e),
    }
}

/// Plans the sync of a skill to `tool`: `base_dir` is the tool's skill
/// directory for the request's scope (its own, or the project's), `name` the
/// requested name and `source_file_name` the last component of the source
/// path. Unknown tools and project requests without a project are refused;
/// otherwise the skill goes directly below `base_dir` under its name made safe.
pub fn plan_skill_sync(
    adapter: Option<&ToolAdapterDefault>,
    tool: &str,
    scope: Option<&str>,
    project_path: Option<&str>,
    base_dir: &str,
    name: Option<&str>,
    source_file_name: Option<&str>,
    overwrite_if_same_content: Option<bool>,
) -> (res: AppResult<SyncPlan>)
    ensures
        adapter is None ==> (res matches Err(AppError::InvalidInput(m)) && m@ == "unknown tool: "@ + tool@),
        adapter is Some && project_path_missing(scope, project_path) ==> (res matches Err(AppError::InvalidInput(m))
            && m@ == "project_path required for project scope"@),
        adapter is Some && !project_path_missing(scope, project_path) ==> (res matches Ok(p) && {
            &&& p.scope@ == scope_text(scope)
            &&& opt_view_string(p.project_path) == opt_view(project_path)
            &&& p.target_path@ == child_path(base_dir@, safe_dir_name_of(Some(chosen_name(name, source_file_name, "skill"@)), "skill"@))
            &&& p.mode@ == mode_text(adapter.unwrap().force_copy)
            &&& p.overwrite == overwrite_of(overwrite_if_same_content)
        }),
{
    let sc = match check_sync_request(adapter.is_some(), tool, scope, project_path) {
        Ok(sc) => sc,
        Err(e) => return Err(e),
    };
    let a = adapter.unwrap();
    let skill_name = match name {
        Some(n) => n,
        None => match source_file_name {
            Some(s) => s,
            None => "skill",
        },
    };
    proof {
        reveal_strlit("skill");
        reveal_strlit(".");
        reveal_strlit("..");
        assert("skill"@.len() == 5);
        assert("skill"@ != "."@);
        assert("skill"@ != ".."@);
    }
    let target = match safe_sync_target_path(base_dir, skill_name, "skill", "skill name") {
        Ok(t) => t,
        Err(e) => return Err(e),
    };
    let pp = match project_path {
        Some(p) => Some(String::from_str(p)),
        None => None,
    };
    let overwrite = match overwrite_if_same_content {
        Some(b) => b,
        None => true,
    };
    Ok(SyncPlan { scope: sc, project_path: pp, target_path: target, mode: mode_string(a.force_copy), overwrite })
}

/// Whether a sync writes over a target whose content is already the same:
/// as asked, and yes when nothing is asked.
pub open spec fn overwrite_of(overwrite_if_same_content: Option<bool>) -> bool {
    match overwrite_if_same_content {
        Some(b) => b,
        None => true,
    }
}

/// `t` records a directory synced at `now` into `tool` for skill `skill_id`:
/// identifier `id`, the given scope, project, target path and mode, status
/// `ok`, and `suite` as the suite it belongs to.
pub open spec fn target_record(
    t: SkillTarget,
    id: Seq<char>,
    skill_id: Seq<char>,
    tool: Seq<char>,
    scope: Seq<char>,
    project_path: Option<Seq<char>>,
    target_path: Seq<char>,
    mode: Seq<char>,
    now: i64,
    suite: Option<Seq<char>>,
) -> bool {
    &&& t.id@ == id
    &&& t.skill_id@ == skill_id
    &&& t.tool@ == tool
    &&& t.scope@ == scope
    &&& opt_view_string(t.project_path) == project_path
    &&& t.target_path@ == target_path
    &&& t.mode@ == mode
    &&& t.status@ == "ok"@
    &&& t.synced_at == Some(now)
    &&& opt_view_string(t.suite_skill_id) == suite
}

fn copy_opt_string(s: &Option<String>) -> (res: Option<String>)
    ensures
        opt_view_string(res) == opt_view_string(*s),
{
    match s {
        Some(t) => Some(t.clone()),
        None => None,
    }
}

/// The record of the skill synced by `plan` at `now`, for skill `skill_id`
/// and `tool`; its identifier is the UUID made from `random`.
pub fn skill_sync_target(plan: &SyncPlan, skill_id: &str, tool: &str, random: [u8; 16], now: i64) -> (res: SkillTarget)
    ensures
        target_record(res, new_id(random@), skill_id@, tool@, plan.scope@, opt_view_string(plan.project_path),
            plan.target_path@, plan.mode@, now, None),
{
    SkillTarget {
        id: uuid_from_random_bytes(random),
        skill_id: String::from_str(skill_id),
        tool: String::from_str(tool),
        scope: plan.scope.clone(),
        project_path: copy_opt_string(&plan.project_path),
        target_path: plan.target_path.clone(),
        mode: plan.mode.clone(),
        status: String::from_str("ok"),
        synced_at: Some(now),
        suite_skill_id: None,
    }
}

/// The text of an optional string.
pub open spec fn opt_view_string(s: Option<String>) -> Option<Seq<char>> {
    match s {
        Some(t) => Some(t@),
        None => None,
    }
}

/// A step as plain values: name, target path, mode.
pub open spec fn step_view(s: SyncStep) -> (Seq<char>, Seq<char>, Seq<char>) {
    (s.name@, s.target_path@, s.mode@)
}

/// An entry of a suite's directory is a sub-skill: a directory holding `SKILL.md`.
pub open spec fn is_sub_skill(e: (String, bool, bool)) -> bool {
    e.1 && e.2
}

/// The steps for the sub-skills among `entries`, in order.
pub open spec fn sub_skill_steps(
    entries: Seq<(String, bool, bool)>,
    base: Seq<char>,
    mode: Seq<char>,
) -> Seq<(Seq<char>, Seq<char>, Seq<char>)>
    decreases entries.len(),
{
    if entries.len() == 0 {
        Seq::empty()
    } else {
        let rest = sub_skill_steps(entries.drop_last(), base, mode);
        let e = entries.last();
        if is_sub_skill(e) {
            rest.push((e.0@, child_path(base, safe_dir_name_of(Some(e.0@), "skill"@)), mode))
        } else {
            rest
        }
    }
}

/// The steps of a suite sync below `base`: the sub-skills among `entries`,
/// then the suite itself under `suite_name`, with mode `suite`.
pub open spec fn suite_steps(
    entries: Seq<(String, bool, bool)>,
    base: Seq<char>,
    mode: Seq<char>,
    suite_name: Seq<char>,
) -> Seq<(Seq<char>, Seq<char>, Seq<char>)> {
    sub_skill_steps(entries, base, mode).push((suite_name, child_path(base, safe_dir_name_of(Some(suite_name), "suite"@)), "suite"@))
}

/// Plans the sync of the suite at `source_path` to `tool`: `base_dir` is the
/// tool's skill directory for the request's scope, `source_is_dir` tells
/// whether the source is a directory, and `entries` are its entries as
/// (name, is a directory, holds `SKILL.md`). The request is refused, in this
/// order, for an unknown tool, a project scope without a project, and a
/// source that is not a directory. Otherwise each sub-skill, in order, goes
/// directly below `base_dir` under its name made safe, and a last step
/// records the suite itself under the requested name, else the source's
/// name, else `suite`.
pub fn plan_suite_sync(
    adapter: Option<&ToolAdapterDefault>,
    tool: &str,
    scope: Option<&str>,
    project_path: Option<&str>,
    base_dir: &str,
    source_path: &str,
    source_is_dir: bool,
    name: Option<&str>,
    source_file_name: Option<&str>,
    overwrite_if_same_content: Option<bool>,
    entries: &Vec<(String, bool, bool)>,
) -> (res: AppResult<SuitePlan>)
    ensures
        adapter is None ==> (res matches Err(AppError::InvalidInput(m)) && m@ == "unknown tool: "@ + tool@),
        adapter is Some && project_path_missing(scope, project_path) ==> (res matches Err(AppError::InvalidInput(m))
            && m@ == "project_path required for project scope"@),
        adapter is Some && !project_path_missing(scope, project_path) && !source_is_dir
            ==> (res matches Err(AppError::InvalidInput(m)) && m@ == "source is not a directory: "@ + source_path@),
        adapter is Some && !project_path_missing(scope, project_path) && source_is_dir ==> (res matches Ok(p) && {
            &&& p.scope@ == scope_text(scope)
            &&& opt_view_string(p.project_path) == opt_view(project_path)
            &&& p.overwrite == overwrite_of(overwrite_if_same_content)
            &&& p.steps@.map_values(|s: SyncStep| step_view(s)) == suite_steps(entries@, base_dir@,
                mode_text(adapter.unwrap().force_copy), chosen_name(name, source_file_name, "suite"@))
        }),
{
    let sc = match check_sync_request(adapter.is_some(), tool, scope, project_path) {
        Ok(sc) => sc,
        Err(e) => return Err(e),
    };
    let a = adapter.unwrap();
    let suite_name = match name {
        Some(n) => n,
        None => match source_file_name {
            Some(s) => s,
            None => "suite",
        },
    };
    if !source_is_dir {
        return Err(AppError::InvalidInput(concat("source is not a directory: ", source_path)));
    }
    proof {
        reveal_strlit("skill");
        reveal_strlit("suite");
        reveal_strlit(".");
        reveal_strlit("..");
        assert("skill"@.len() == 5 && "suite"@.len() == 5);
        assert("skill"@ != "."@ && "skill"@ != ".."@);
        assert("suite"@ != "."@ && "suite"@ != ".."@);
    }
    let ghost mode = mode_text(a.force_copy);
    let mut steps: Vec<SyncStep> = Vec::new();
    let mut i: usize = 0;
    while i < entries.len()
        invariant
            i <= entries@.len(),
            mode == mode_text(a.force_copy),
            is_plain_component("skill"@),
            steps@.map_values(|s: SyncStep| step_view(s)) == sub_skill_steps(entries@.take(i as int), base_dir@, mode),
        decreases entries@.len() - i,
    {
        let (sub_name, is_dir, has_md) = &entries[i];
        proof {
            assert(entries@.take(i + 1).drop_last() =~= entries@.take(i as int));
        }
        if *is_dir && *has_md {
            let target = match safe_sync_target_path(base_dir, sub_name.as_str(), "skill", "suite sub-skill name") {
                Ok(t) => t,
                Err(e) => return Err(e),
            };
            let ghost before = steps@;
            steps.push(SyncStep { name: sub_name.clone(), target_path: target, mode: mode_string(a.force_copy) });
            assert(steps@.map_values(|s: SyncStep| step_view(s))
                =~= before.map_values(|s: SyncStep| step_view(s)).push(step_view(steps@.last())));
        }
        i = i + 1;
    }
    assert(entries@.take(entries@.len() as int) =~= entries@);
    let suite_target = match safe_sync_target_path(base_dir, suite_name, "suite", "suite name") {
        Ok(t) => t,
        Err(e) => return Err(e),
    };
    let ghost before = steps@;
    steps.push(SyncStep { name: String::from_str(suite_name), target_path: suite_target, mode: String::from_str("suite") });
    assert(steps@.map_values(|s: SyncStep| step_view(s))
        =~= before.map_values(|s: SyncStep| step_view(s)).push(step_view(steps@.last())));
    let pp = match project_path {
        Some(p) => Some(String::from_str(p)),
        None => None,
    };
    let overwrite = match overwrite_if_same_content {
        Some(b) => b,
        None => true,
    };
    Ok(SuitePlan { scope: sc, project_path: pp, overwrite, steps })
}

/// The suite a record of step `i` of `n` belongs to: skill `skill_id` for a
/// sub-skill, none for the suite's own record, which comes last.
pub open spec fn suite_of_step(i: int, n: int, skill_id: Seq<char>) -> Option<Seq<char>> {
    if i < n - 1 { Some(skill_id) } else { None }
}

/// The records of the directories synced by `plan` at `now`, for skill
/// `skill_id` and `tool`, one per step and in order; the identifier of the
/// `i`-th is the UUID made from `randoms[i]`. Every sub-skill's record names
/// the suite; the suite's own record, the last, names none.
pub fn suite_sync_targets(plan: &SuitePlan, skill_id: &str, tool: &str, randoms: &Vec<[u8; 16]>, now: i64) -> (res: Vec<SkillTarget>)
    requires
        randoms@.len() == plan.steps@.len(),
    ensures
        res@.len() == plan.steps@.len(),
        forall|i: int| 0 <= i < res@.len() ==> #[trigger] target_record(res@[i], new_id(randoms@[i]@), skill_id@, tool@,
            plan.scope@, opt_view_string(plan.project_path), plan.steps@[i].target_path@, plan.steps@[i].mode@, now,
            suite_of_step(i, plan.steps@.len() as int, skill_id@)),
{
    let n = plan.steps.len();
    let mut out: Vec<SkillTarget> = Vec::new();
    let mut i: usize = 0;
    while i < n
        invariant
            n == plan.steps@.len(),
            randoms@.len() == n,
            i <= n,
            out@.len() == i,
            forall|j: int| 0 <= j < i ==> #[trigger] target_record(out@[j], new_id(randoms@[j]@), skill_id@, tool@,
                plan.scope@, opt_view_string(plan.project_path), plan.steps@[j].target_path@, plan.steps@[j].mode@, now,
                suite_of_step(j, n as int, skill_id@)),
        decreases n - i,
    {
        let step = &plan.steps[i];
        let suite = if i + 1 < n { Some(String::from_str(skill_id)) } else { None };
        out.push(SkillTarget {
            id: uuid_from_random_bytes(randoms[i]),
            skill_id: String::from_str(skill_id),
            tool: String::from_str(tool),
            scope: plan.scope.clone(),
            project_path: copy_opt_string(&plan.project_path),
            target_path: step.target_path.clone(),
            mode: step.mode.clone(),
            status: String::from_str("ok"),
            synced_at: Some(now),
            suite_skill_id: suite,
        });
        i = i + 1;
    }
    out
}

/// An entry of a tool's skill directory that a clear removes: a real
/// directory (a link to one is not followed) holding `SKILL.md`.
pub open spec fn is_clearable(e: (String, bool, bool, bool)) -> bool {
    e.1 && !e.2 && e.3
}

/// The names of the clearable entries, in order.
pub open spec fn clearable_names(entries: Seq<(String, bool, bool, bool)>) -> Seq<Seq<char>>
    decreases entries.len(),
{
    if entries.len() == 0 {
        Seq::empty()
    } else {
        let rest = clearable_names(entries.drop_last());
        if is_clearable(entries.last()) { rest.push(entries.last().0@) } else { rest }
    }
}

/// The entries a clear of `tool_key`'s skill directory removes, given each
/// entry as (name, is a directory, is a symbolic link, holds `SKILL.md`); how
/// many it removes is the result's length. A tool without an adapter is
/// refused with `unknown tool: <tool_key>`, and nothing is removed.
pub fn entries_to_clear(
    adapter: Option<&ToolAdapterDefault>,
    tool_key: &str,
    entries: &Vec<(String, bool, bool, bool)>,
) -> (res: AppResult<Vec<String>>)
    ensures
        adapter is None ==> (res matches Err(AppError::InvalidInput(m)) && m@ == "unknown tool: "@ + tool_key@),
        adapter is Some ==> (res matches Ok(v) && v@.map_values(|s: String| s@) == clearable_names(entries@)),
{
    match require_adapter(adapter, tool_key) {
        Ok(_) => {},
        Err(e) => return Err(e),
    }
    let mut out: Vec<String> = Vec::new();
    let mut i: usize = 0;
    while i < entries.len()
        invariant
            i <= entries@.len(),
            out@.map_values(|s: String| s@) == clearable_names(entries@.take(i as int)),
        decreases entries@.len() - i,
    {
        let (name, is_dir, is_link, has_md) = &entries[i];
        proof {
            assert(entries@.take(i + 1).drop_last() =~= entries@.take(i as int));
        }
        if *is_dir && !*is_link && *has_md {
            let ghost before = out@;
            out.push(name.clone());
            assert(out@.map_values(|s: String| s@) =~= before.map_values(|s: String| s@).push(name@));
        }
        i = i + 1;
    }
    assert(entries@.take(entries@.len() as int) =~= entries@);
    Ok(out)
}

} // verus!
