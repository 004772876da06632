//! Database commands: overview, table browsing, maintenance, reset, backups.

use vstd::prelude::*;
use vstd::arithmetic::power2::pow2;
use crate::text::{
    concat, decimal, digit_char, i64_to_decimal, signed_decimal, str_eq, string_push,
    u128_to_decimal, u64_zero_padded, zero_padded,
};
use crate::contracts::{DbMaintenanceResult, DbOverview, DbTableData, DbTableInfo, OkResponse};
use crate::db::{clock_millis, millis_of, now_ms, Database};
use crate::error::{AppError, AppResult};
use crate::repositories::maintenance::{
    database_stats_read, integrity_checked, invalid_table_message, overview_outcome, reset_done,
    rows_are_objects_of, table_page_read, DatabaseOverview, MaintenanceRepository, ToolAdapterDefault,
};
use crate::db::batch_outcome;
use crate::repositories::table_query::page_count;
use crate::text::{join_strings, joined, views};

verus! {

/// The name shown for a table of the schema; any other table keeps its own name.
pub open spec fn display_name_of(table: Seq<char>) -> Seq<char> {
    if table == "skills"@ {
        "Skills"@
    } else if table == "skill_targets"@ {
        "Sync Targets"@
    } else if table == "skill_tags"@ {
        "Tags"@
    } else if table == "skill_tag_links"@ {
        "Tag Links"@
    } else if table == "settings"@ {
        "Settings"@
    } else if table == "discovered_skills"@ {
        "Discovered Skills"@
    } else if table == "tool_scan_state"@ {
        "Tool Scan State"@
    } else if table == "tool_skill_cache"@ {
        "Tool Skill Cache"@
    } else if table == "tool_adapter_configs"@ {
        "Tool Adapter Configs"@
    } else if table == "skill_scope_preference"@ {
        "Scope Preferences"@
    } else if table == "recent_projects"@ {
        "Recent Projects"@
    } else if table == "skill_usage"@ {
        "Skill Usage"@
    } else if table == "prompts"@ {
        "Prompts"@
    } else if table == "prompt_file_links"@ {
        "Prompt File Links"@
    } else {
        table
    }
}

/// The name shown for `table`.
pub fn table_display_name(table: &str) -> (res: &str)
    ensures
        res@ == display_name_of(table@),
{
    if str_eq(table, "skills") {
        "Skills"
    } else if str_eq(table, "skill_targets") {
        "Sync Targets"
    } else if str_eq(table, "skill_tags") {
        "Tags"
    } else if str_eq(table, "skill_tag_links") {
        "Tag Links"
    } else if str_eq(table, "settings") {
        "Settings"
    } else if str_eq(table, "discovered_skills") {
        "Discovered Skills"
    } else if str_eq(table, "tool_scan_state") {
        "Tool Scan State"
    } else if str_eq(table, "tool_skill_cache") {
        "Tool Skill Cache"
    } else if str_eq(table, "tool_adapter_configs") {
        "Tool Adapter Configs"
    } else if str_eq(table, "skill_scope_preference") {
        "Scope Preferences"
    } else if str_eq(table, "recent_projects") {
        "Recent Projects"
    } else if str_eq(table, "skill_usage") {
        "Skill Usage"
    } else if str_eq(table, "prompts") {
        "Prompts"
    } else if str_eq(table, "prompt_file_links") {
        "Prompt File Links"
    } else {
        table
    }
}

/// `n / d` rounded to the nearest integer, ties to the even one.
pub open spec fn div_round_half_even(n: nat, d: nat) -> nat
    recommends
        d > 0,
{
    let q = n / d;
    let r = n % d;
    if 2 * r > d || (2 * r == d && q % 2 == 1) {
        q + 1
    } else {
        q
    }
}

/// How many low bits a double drops when it holds `n`: `n` has `53 + shift` bits.
pub open spec fn double_shift(n: nat) -> nat
    decreases n,
{
    if n < 0x20_0000_0000_0000 {
        0
    } else {
        1 + double_shift(n / 2)
    }
}

/// The double nearest to the natural number `n` (ties to even), as an integer.
pub open spec fn nearest_double(n: nat) -> nat {
    div_round_half_even(n, pow2(double_shift(n))) * pow2(double_shift(n))
}

/// A tenths count rendered with one decimal place, `{:.1}` style.
pub open spec fn one_decimal(tenths: nat) -> Seq<char> {
    decimal(tenths / 10) + seq!['.', digit_char(tenths % 10)]
}

/// The text `format_size` gives for `bytes`: whole bytes below 1 KiB, otherwise
/// kibibytes or mebibytes with one decimal, rounded as a double prints.
pub open spec fn size_text(bytes: int) -> Seq<char> {
    if bytes < 1024 {
        signed_decimal(bytes) + " B"@
    } else if bytes < 1048576 {
        one_decimal(div_round_half_even((bytes * 10) as nat, 1024)) + " KB"@
    } else {
        one_decimal(div_round_half_even(nearest_double(bytes as nat) * 10, 1048576)) + " MB"@
    }
}

fn round_half_even(n: u128, d: u128) -> (res: u128)
    requires
        0 < d < 0x1_0000_0000_0000_0000,
    ensures
        res == div_round_half_even(n as nat, d as nat),
        res <= n / d + 1,
{
    let q = n / d;
    let r = n % d;
    if 2 * r > d || (2 * r == d && q % 2 == 1) {
        assert(q < 0xffff_ffff_ffff_ffff_ffff_ffff_ffff_ffffu128) by (nonlinear_arith)
            requires q == n / d, r == n % d, 2 * r >= d, d > 0, r < d;
        q + 1
    } else {
        q
    }
}

fn nearest_double_of(n: u64) -> (res: u128)
    ensures
        res == nearest_double(n as nat),
        res <= 2 * (n as nat) + 1,
{
    let mut m: u64 = n;
    let mut p: u128 = 1;
    let ghost mut k: nat = 0;
    proof {
        vstd::arithmetic::power2::lemma2_to64();
    }
    while m >= 0x20_0000_0000_0000
        invariant
            p == pow2(k),
            k + double_shift(m as nat) == double_shift(n as nat),
            m == (n as nat) / (p as nat),
            1 <= p <= n || (p == 1),
            p <= 0x1_0000_0000_0000_0000,
        decreases m,
    {
        proof {
            vstd::arithmetic::power2::lemma_pow2_unfold(k + 1);
            assert(p <= n) by (nonlinear_arith)
                requires m == (n as nat) / (p as nat), m >= 1, p >= 1;
            assert(((n as nat) / (p as nat)) / 2 == (n as nat) / ((p * 2) as nat)) by {
                vstd::arithmetic::div_mod::lemma_div_denominator(n as int, p as int, 2);
            }
        }
        m = m / 2;
        p = p * 2;
        proof {
            k = k + 1;
            assert(p <= n) by (nonlinear_arith)
                requires m == (n as nat) / (p as nat), m >= 1, p >= 1;
        }
    }
    proof {
        assert(p <= n || p == 1);
        assert(n as nat / (p as nat) * (p as nat) <= n) by (nonlinear_arith)
            requires p >= 1;
    }
    let r = round_half_even(n as u128, p);
    proof {
        assert(r * p <= 2 * (n as nat) + 1) by (nonlinear_arith)
            requires r <= (n as nat) / (p as nat) + 1, n as nat / (p as nat) * (p as nat) <= n, p <= n || p == 1, p >= 1;
    }
    r * p
}

fn append_one_decimal(s: &mut String, tenths: u128)
    ensures
        final(s)@ == old(s)@ + one_decimal(tenths as nat),
{
    let whole = u128_to_decimal(tenths / 10);
    s.append(whole.as_str());
    string_push(s, '.');
    string_push(s, (((tenths % 10) as u8) + 48u8) as char);
    assert(final(s)@ =~= old(s)@ + one_decimal(tenths as nat));
}

/// A byte count for people: `512 B`, `1.5 KB`, `3.0 MB`.
pub fn format_size(bytes: i64) -> (res: String)
    ensures
        res@ == size_text(bytes as int),
{
    if bytes < 1024 {
        let s = i64_to_decimal(bytes);
        concat(s.as_str(), " B")
    } else if bytes < 1048576 {
        let tenths = round_half_even((bytes as u128) * 10, 1024);
        let mut s = String::new();
        append_one_decimal(&mut s, tenths);
        s.append(" KB");
        s
    } else {
        let r = nearest_double_of(bytes as u64);
        let tenths = round_half_even(r * 10, 1048576);
        let mut s = String::new();
        append_one_decimal(&mut s, tenths);
        s.append(" MB");
        s
    }
}

} // verus!

verus! {

/// Within a 400-year era, the year-of-era estimate never overshoots the day
/// and leaves at most a year's worth of days.
proof fn lemma_year_of_era(doe: u32)
    by (bit_vector)
    requires
        doe < 146097,
    ensures
        (doe - doe / 1460 + doe / 36524 - doe / 146096) / 365 <= 399,
        365 * ((doe - doe / 1460 + doe / 36524 - doe / 146096) / 365)
            + ((doe - doe / 1460 + doe / 36524 - doe / 146096) / 365) / 4
            - ((doe - doe / 1460 + doe / 36524 - doe / 146096) / 365) / 100 <= doe,
        doe - (365 * ((doe - doe / 1460 + doe / 36524 - doe / 146096) / 365)
            + ((doe - doe / 1460 + doe / 36524 - doe / 146096) / 365) / 4
            - ((doe - doe / 1460 + doe / 36524 - doe / 146096) / 365) / 100) <= 365,
{
}

/// The last day of a March-based year of era (day 365) only exists when the
/// following calendar year is a leap year.
proof fn lemma_leap_day_of_era(doe: u32, yoe: u32, next: u32)
    by (bit_vector)
    requires
        doe < 146097,
        yoe == (doe - doe / 1460 + doe / 36524 - doe / 146096) / 365,
        doe - (365 * yoe + yoe / 4 - yoe / 100) == 365,
        next == yoe + 1,
    ensures
        next % 4 == 0,
        next % 100 != 0 || next % 400 == 0,
{
}

} // verus!

verus! {

/// Days from 1970-01-01 to the proleptic Gregorian date `y-m-d`
/// (March-based era arithmetic).
pub open spec fn days_from_civil(y: int, m: int, d: int) -> int {
    let y2 = if m <= 2 { y - 1 } else { y };
    let era = y2 / 400;
    let yoe = y2 - era * 400;
    let mp = if m > 2 { m - 3 } else { m + 9 };
    let doy = (153 * mp + 2) / 5 + d - 1;
    let doe = yoe * 365 + yoe / 4 - yoe / 100 + doy;
    era * 146097 + doe - 719468
}

/// Whether `y` is a leap year of the Gregorian calendar.
pub open spec fn is_leap_year(y: int) -> bool {
    y % 4 == 0 && (y % 100 != 0 || y % 400 == 0)
}

/// The number of days of month `m` of year `y`.
pub open spec fn days_in_month(y: int, m: int) -> int {
    if m == 2 {
        if is_leap_year(y) { 29 } else { 28 }
    } else if m == 4 || m == 6 || m == 9 || m == 11 {
        30
    } else {
        31
    }
}

/// The calendar date of day `days` after 1970-01-01, by era arithmetic.
pub open spec fn civil_from_days(days: int) -> (int, int, int) {
    let z = days + 719468;
    let era = z / 146097;
    let doe = z - era * 146097;
    let yoe = (doe - doe / 1460 + doe / 36524 - doe / 146096) / 365;
    let doy = doe - (365 * yoe + yoe / 4 - yoe / 100);
    let mp = (5 * doy + 2) / 153;
    let d = doy - (153 * mp + 2) / 5 + 1;
    let m = if mp < 10 { mp + 3 } else { mp - 9 };
    let y = if m <= 2 { yoe + era * 400 + 1 } else { yoe + era * 400 };
    (y, m, d)
}

/// The calendar date `days_since_epoch` days after 1970-01-01, as `(year, month, day)`.
pub fn epoch_days_to_ymd(days_since_epoch: u64) -> (res: (u64, u64, u64))
    requires
        days_since_epoch <= u64::MAX - 719468,
    ensures
        1 <= res.1 <= 12,
        1 <= res.2 <= days_in_month(res.0 as int, res.1 as int),
        days_from_civil(res.0 as int, res.1 as int, res.2 as int) == days_since_epoch,
        (res.0 as int, res.1 as int, res.2 as int) == civil_from_days(days_since_epoch as int),
{
    let z = days_since_epoch + 719468;
    let era = z / 146097;
    let doe = z - era * 146097;
    proof {
        lemma_year_of_era(doe as u32);
    }
    let yoe = (doe - doe / 1460 + doe / 36524 - doe / 146096) / 365;
    let y = yoe + era * 400;
    let doy = doe - (365 * yoe + yoe / 4 - yoe / 100);
    let mp = (5 * doy + 2) / 153;
    assert(mp <= 11);
    assert((153 * mp + 2) / 5 <= doy) by (nonlinear_arith)
        requires mp == (5 * doy + 2) / 153, doy <= 365;
    assert(doy < (153 * (mp + 1) + 2) / 5) by (nonlinear_arith)
        requires mp == (5 * doy + 2) / 153, doy <= 365;
    let d = doy - (153 * mp + 2) / 5 + 1;
    let m = if mp < 10 { mp + 3 } else { mp - 9 };
    let y = if m <= 2 { y + 1 } else { y };
    proof {
        assert(era * 146097 <= z) by (nonlinear_arith)
            requires era == z / 146097;
        if mp == 11 && d == 29 {
            lemma_leap_day_of_era(doe as u32, yoe as u32, (yoe + 1) as u32);
            assert(y == (yoe + 1) + era * 400);
            assert(y % 4 == (yoe + 1) % 4 && y % 100 == (yoe + 1) % 100 && y % 400 == (yoe + 1) % 400)
                by (nonlinear_arith)
                requires y == (yoe + 1) + era * 400;
        }
        let y2: int = if m <= 2 { y - 1 } else { y as int };
        assert(y2 == yoe + era * 400);
        assert(y2 / 400 == era) by (nonlinear_arith)
            requires y2 == yoe + era * 400, yoe <= 399, yoe >= 0;
    }
    (y, m, d)
}

} // verus!

verus! {

/// The `YYYYMMDD_HHMMSS` text of the local time `local_secs` seconds after
/// 1970-01-01 00:00 local time.
pub open spec fn timestamp_text(local_secs: nat) -> Seq<char> {
    let days = local_secs / 86400;
    let time_of_day = local_secs % 86400;
    let ymd = civil_from_days(days as int);
    zero_padded(ymd.0 as nat, 4) + zero_padded(ymd.1 as nat, 2) + zero_padded(ymd.2 as nat, 2)
        + seq!['_'] + zero_padded(time_of_day / 3600, 2)
        + zero_padded((time_of_day % 3600) / 60, 2) + zero_padded(time_of_day % 60, 2)
}

/// Renders `local_secs` (seconds since the epoch, already shifted to local
/// time) as `YYYYMMDD_HHMMSS`.
pub fn format_local_timestamp(local_secs: u64) -> (res: String)
    ensures
        res@ == timestamp_text(local_secs as nat),
{
    let days = local_secs / 86400;
    let time_of_day = local_secs % 86400;
    let hours = time_of_day / 3600;
    let minutes = (time_of_day % 3600) / 60;
    let seconds = time_of_day % 60;
    let (year, month, day) = epoch_days_to_ymd(days);
    let mut s = u64_zero_padded(year, 4);
    let part = u64_zero_padded(month, 2);
    s.append(part.as_str());
    let part = u64_zero_padded(day, 2);
    s.append(part.as_str());
    string_push(&mut s, '_');
    let part = u64_zero_padded(hours, 2);
    s.append(part.as_str());
    let part = u64_zero_padded(minutes, 2);
    s.append(part.as_str());
    let part = u64_zero_padded(seconds, 2);
    s.append(part.as_str());
    s
}

/// The backup timestamp of the clock reading `ms` (milliseconds since the
/// epoch): the local time in UTC+8, to the whole second.
pub open spec fn local_timestamp_text(ms: int) -> Seq<char> {
    timestamp_text((ms / 1000 + 8 * 3600) as nat)
}

/// The current wall-clock time in UTC+8, as `YYYYMMDD_HHMMSS`, for backup file names.
pub fn local_timestamp() -> (res: String)
    ensures
        exists|reading: Option<u128>| #[trigger] clock_millis(reading)
            && res@ == local_timestamp_text(millis_of(reading) as int),
{
    let ms = now_ms();
    let secs = (ms / 1000) as u64;
    let local_secs = secs + 8 * 3600;
    format_local_timestamp(local_secs)
}

/// The backup timestamp of a clock reading is the calendar date and time of
/// that reading's whole seconds shifted by eight hours (UTC+8): every reading
/// within one second gives the same text, and the text is the one of the
/// local second `ms / 1000 + 28800`.
pub proof fn law_backup_timestamp_is_utc_plus_eight(ms: int, other: int)
    requires
        0 <= ms,
        0 <= other,
    ensures
        local_timestamp_text(ms) == timestamp_text((ms / 1000 + 28800) as nat),
        other / 1000 == ms / 1000 ==> local_timestamp_text(other) == local_timestamp_text(ms),
        other / 1000 == ms / 1000 + 1 ==> local_timestamp_text(other) == timestamp_text((ms / 1000 + 28801) as nat),
{
}

/// The suggested name of a database backup taken at `timestamp`.
pub fn backup_file_name(timestamp: &str) -> (res: String)
    ensures
        res@ == "skills_hub_backup_"@ + timestamp@ + ".db"@,
{
    let mut s = String::from_str("skills_hub_backup_");
    s.append(timestamp);
    s.append(".db");
    s
}

} // verus!

verus! {

/// The message of a successful maintenance action that reports nothing else,
/// or `None` for `integrity_check` and for names that are not actions.
pub open spec fn maintenance_message(action: Seq<char>) -> Option<Seq<char>> {
    if action == "vacuum"@ {
        Some("VACUUM completed"@)
    } else if action == "analyze"@ {
        Some("ANALYZE completed"@)
    } else if action == "clear_cache"@ {
        Some("Cache cleared"@)
    } else if action == "clear_discovered"@ {
        Some("Discovered skills cleared"@)
    } else if action == "wal_checkpoint"@ {
        Some("WAL checkpoint completed"@)
    } else if action == "reindex"@ {
        Some("REINDEX completed"@)
    } else if action == "optimize"@ {
        Some("PRAGMA optimize completed"@)
    } else if action == "clear_usage"@ {
        Some("Usage records cleared"@)
    } else {
        None
    }
}

/// `action` names a maintenance action.
pub open spec fn is_maintenance_action(action: Seq<char>) -> bool {
    maintenance_message(action) is Some || action == "integrity_check"@
}

/// The result of an integrity check whose report lines are `lines`: the lines
/// joined by `, `, successful exactly when the report is the single line `ok`.
pub fn integrity_report(lines: &Vec<String>) -> (res: DbMaintenanceResult)
    ensures
        res.ok == (joined(views(lines@), ", "@) == "ok"@),
        res.action@ == "integrity_check"@,
        res.message@ == joined(views(lines@), ", "@),
        res.integrity_result matches Some(r) && r@ == res.message@,
{
    let text = join_strings(lines, ", ");
    let ok = str_eq(text.as_str(), "ok");
    DbMaintenanceResult {
        ok,
        action: String::from_str("integrity_check"),
        message: text.clone(),
        integrity_result: Some(text),
    }
}

fn completed(action: &str, message: &str) -> (res: DbMaintenanceResult)
    ensures
        res.ok,
        res.action@ == action@,
        res.message@ == message@,
        res.integrity_result is None,
{
    DbMaintenanceResult {
        ok: true,
        action: String::from_str(action),
        message: String::from_str(message),
        integrity_result: None,
    }
}

/// The statement a maintenance action runs.
pub open spec fn maintenance_statement(action: Seq<char>) -> Seq<char> {
    if action == "vacuum"@ {
        "VACUUM"@
    } else if action == "analyze"@ {
        "ANALYZE"@
    } else if action == "clear_cache"@ {
        "DELETE FROM tool_skill_cache; DELETE FROM tool_scan_state;"@
    } else if action == "clear_discovered"@ {
        "DELETE FROM discovered_skills;"@
    } else if action == "wal_checkpoint"@ {
        "PRAGMA wal_checkpoint(TRUNCATE)"@
    } else if action == "reindex"@ {
        "REINDEX"@
    } else if action == "optimize"@ {
        "PRAGMA optimize"@
    } else if action == "clear_usage"@ {
        "DELETE FROM skill_usage;"@
    } else {
        Seq::empty()
    }
}

/// `res` is what running the maintenance action `action` gives: for an
/// action that reports a message, its statement ran and the message is
/// reported; for the integrity check, SQLite's report lines joined by `, `;
/// the engine's error when the statement failed; and `unknown maintenance
/// action` for any other name.
pub open spec fn maintenance_done(db: int, action: Seq<char>, res: AppResult<DbMaintenanceResult>) -> bool {
    if maintenance_message(action) is Some {
        exists|r: AppResult<()>| #[trigger] batch_outcome(db, maintenance_statement(action), r) && match r {
            Err(e) => res == Err::<DbMaintenanceResult, AppError>(e),
            Ok(()) => res matches Ok(m) && m.ok && m.action@ == action
                && m.message@ == maintenance_message(action).unwrap() && m.integrity_result is None,
        }
    } else if action == "integrity_check"@ {
        exists|r: AppResult<Vec<String>>| #[trigger] integrity_checked(db, r) && match r {
            Err(e) => res == Err::<DbMaintenanceResult, AppError>(e),
            Ok(lines) => res matches Ok(m) && m.action@ == action
                && m.message@ == joined(views(lines@), ", "@) && m.ok == (m.message@ == "ok"@)
                && (m.integrity_result matches Some(t) && t@ == m.message@),
        }
    } else {
        res matches Err(AppError::InvalidInput(m)) && m@ == "unknown maintenance action: "@ + action
    }
}

/// The maintenance action reported `res` after running exactly `sql`: the
/// outcome is the statement's, successful exactly when SQLite ran it, with the
/// message `message`.
pub open spec fn ran_statement(db: int, sql: Seq<char>, message: Seq<char>, res: AppResult<DbMaintenanceResult>) -> bool {
    exists|r: AppResult<()>| #[trigger] batch_outcome(db, sql, r)
        && (res is Ok <==> r is Ok)
        && (res matches Ok(m) ==> m.ok && m.message@ == message)
}

/// Each maintenance action runs the statement of the upkeep it is named
/// after, and no other: `vacuum` runs `VACUUM`, `analyze` `ANALYZE`,
/// `clear_cache` empties the tool skill cache and scan state,
/// `clear_discovered` the discovered skills, `wal_checkpoint` truncates the
/// WAL, `reindex` runs `REINDEX`, `optimize` `PRAGMA optimize`, and
/// `clear_usage` empties the usage records.
pub proof fn law_maintenance_actions_run_their_statements(db: int, res: AppResult<DbMaintenanceResult>)
    ensures
        maintenance_done(db, "vacuum"@, res) ==> ran_statement(db, "VACUUM"@, "VACUUM completed"@, res),
        maintenance_done(db, "analyze"@, res) ==> ran_statement(db, "ANALYZE"@, "ANALYZE completed"@, res),
        maintenance_done(db, "clear_cache"@, res)
            ==> ran_statement(db, "DELETE FROM tool_skill_cache; DELETE FROM tool_scan_state;"@, "Cache cleared"@, res),
        maintenance_done(db, "clear_discovered"@, res)
            ==> ran_statement(db, "DELETE FROM discovered_skills;"@, "Discovered skills cleared"@, res),
        maintenance_done(db, "wal_checkpoint"@, res)
            ==> ran_statement(db, "PRAGMA wal_checkpoint(TRUNCATE)"@, "WAL checkpoint completed"@, res),
        maintenance_done(db, "reindex"@, res) ==> ran_statement(db, "REINDEX"@, "REINDEX completed"@, res),
        maintenance_done(db, "optimize"@, res) ==> ran_statement(db, "PRAGMA optimize"@, "PRAGMA optimize completed"@, res),
        maintenance_done(db, "clear_usage"@, res)
            ==> ran_statement(db, "DELETE FROM skill_usage;"@, "Usage records cleared"@, res),
{
    reveal_strlit("vacuum");
    reveal_strlit("analyze");
    reveal_strlit("clear_cache");
    reveal_strlit("clear_discovered");
    reveal_strlit("wal_checkpoint");
    reveal_strlit("reindex");
    reveal_strlit("optimize");
    reveal_strlit("clear_usage");
    assert("vacuum"@.len() == 6 && "analyze"@.len() == 7 && "clear_cache"@.len() == 11);
    assert("clear_discovered"@.len() == 16 && "wal_checkpoint"@.len() == 14 && "reindex"@.len() == 7);
    assert("optimize"@.len() == 8 && "clear_usage"@.len() == 11);
    assert("analyze"@[0] != "reindex"@[0] && "clear_cache"@[6] != "clear_usage"@[6]);
    lemma_action_runs(db, "vacuum"@, "VACUUM"@, "VACUUM completed"@, res);
    lemma_action_runs(db, "analyze"@, "ANALYZE"@, "ANALYZE completed"@, res);
    lemma_action_runs(db, "clear_cache"@, "DELETE FROM tool_skill_cache; DELETE FROM tool_scan_state;"@, "Cache cleared"@, res);
    lemma_action_runs(db, "clear_discovered"@, "DELETE FROM discovered_skills;"@, "Discovered skills cleared"@, res);
    lemma_action_runs(db, "wal_checkpoint"@, "PRAGMA wal_checkpoint(TRUNCATE)"@, "WAL checkpoint completed"@, res);
    lemma_action_runs(db, "reindex"@, "REINDEX"@, "REINDEX completed"@, res);
    lemma_action_runs(db, "optimize"@, "PRAGMA optimize"@, "PRAGMA optimize completed"@, res);
    lemma_action_runs(db, "clear_usage"@, "DELETE FROM skill_usage;"@, "Usage records cleared"@, res);
}

proof fn lemma_action_runs(db: int, action: Seq<char>, sql: Seq<char>, message: Seq<char>, res: AppResult<DbMaintenanceResult>)
    requires
        maintenance_message(action) == Some(message),
        maintenance_statement(action) == sql,
    ensures
        maintenance_done(db, action, res) ==> ran_statement(db, sql, message, res),
{
    if maintenance_done(db, action, res) {
        let r = choose|r: AppResult<()>| #[trigger] batch_outcome(db, maintenance_statement(action), r) && match r {
            Err(e) => res == Err::<DbMaintenanceResult, AppError>(e),
            Ok(()) => res matches Ok(m) && m.ok && m.action@ == action
                && m.message@ == maintenance_message(action).unwrap() && m.integrity_result is None,
        };
        assert(batch_outcome(db, sql, r));
    }
}

fn after_statement(r: AppResult<()>, action: &str, message: &str) -> (res: AppResult<DbMaintenanceResult>)
    ensures
        match r {
            Err(e) => res == Err::<DbMaintenanceResult, AppError>(e),
            Ok(()) => res matches Ok(m) && m.ok && m.action@ == action@ && m.message@ == message@
                && m.integrity_result is None,
        },
{
    match r {
        Ok(()) => Ok(completed(action, message)),
        Err(e) => Err(e),
    }
}

/// Runs the maintenance action named `action`.
pub fn db_maintenance(db: &Database, action: &str) -> (res: AppResult<DbMaintenanceResult>)
    ensures
        maintenance_done(db.id(), action@, res),
        !is_maintenance_action(action@) ==> (res matches Err(AppError::InvalidInput(m))
            && m@ == "unknown maintenance action: "@ + action@),
        maintenance_message(action@) matches Some(msg) ==> (res matches Ok(r) ==> r.ok && r.action@ == action@
            && r.message@ == msg && r.integrity_result is None),
        action@ == "integrity_check"@ ==> (res matches Ok(r) ==> r.action@ == action@
            && r.ok == (r.message@ == "ok"@) && (r.integrity_result matches Some(t) && t@ == r.message@)),
        is_maintenance_action(action@) ==> (res matches Err(e) ==> e is DatabaseError),
{
    proof {
        reveal_strlit("vacuum");
        reveal_strlit("analyze");
        reveal_strlit("integrity_check");
        reveal_strlit("clear_cache");
        reveal_strlit("clear_discovered");
        reveal_strlit("wal_checkpoint");
        reveal_strlit("reindex");
        reveal_strlit("optimize");
        reveal_strlit("clear_usage");
        assert("integrity_check"@.len() == 15);
        assert(maintenance_message("integrity_check"@) is None);
    }
    let maint = MaintenanceRepository::new(db);
    if str_eq(action, "vacuum") {
        let r = maint.vacuum();
        assert(batch_outcome(db.id(), maintenance_statement(action@), r));
        after_statement(r, "vacuum", "VACUUM completed")
    } else if str_eq(action, "analyze") {
        let r = maint.analyze();
        assert(batch_outcome(db.id(), maintenance_statement(action@), r));
        after_statement(r, "analyze", "ANALYZE completed")
    } else if str_eq(action, "integrity_check") {
        let r = maint.integrity_check();
        assert(integrity_checked(db.id(), r));
        match r {
            Ok(results) => Ok(integrity_report(&results)),
            Err(e) => Err(e),
        }
    } else if str_eq(action, "clear_cache") {
        let r = maint.clear_cache();
        assert(batch_outcome(db.id(), maintenance_statement(action@), r));
        after_statement(r, "clear_cache", "Cache cleared")
    } else if str_eq(action, "clear_discovered") {
        let r = maint.clear_discovered();
        assert(batch_outcome(db.id(), maintenance_statement(action@), r));
        after_statement(r, "clear_discovered", "Discovered skills cleared")
    } else if str_eq(action, "wal_checkpoint") {
        let r = maint.wal_checkpoint();
        assert(batch_outcome(db.id(), maintenance_statement(action@), r));
        after_statement(r, "wal_checkpoint", "WAL checkpoint completed")
    } else if str_eq(action, "reindex") {
        let r = maint.reindex();
        assert(batch_outcome(db.id(), maintenance_statement(action@), r));
        after_statement(r, "reindex", "REINDEX completed")
    } else if str_eq(action, "optimize") {
        let r = maint.optimize();
        assert(batch_outcome(db.id(), maintenance_statement(action@), r));
        after_statement(r, "optimize", "PRAGMA optimize completed")
    } else if str_eq(action, "clear_usage") {
        let r = maint.clear_usage();
        assert(batch_outcome(db.id(), maintenance_statement(action@), r));
        after_statement(r, "clear_usage", "Usage records cleared")
    } else {
        Err(AppError::InvalidInput(concat("unknown maintenance action: ", action)))
    }
}

/// The confirmation a reset needs: `RESET` or `reset`.
pub open spec fn reset_confirmed(confirm_text: Seq<char>) -> bool {
    confirm_text == "RESET"@ || confirm_text == "reset"@
}

/// Resets the database after the user typed the confirmation, then seeds the
/// tool adapters with `default_adapters`.
pub fn db_reset(db: &Database, confirm_text: &str, default_adapters: &[(String, ToolAdapterDefault)]) -> (res: AppResult<OkResponse>)
    ensures
        !reset_confirmed(confirm_text@) ==> (res matches Err(AppError::InvalidInput(m))
            && m@ == "confirmation text must be 'RESET'"@),
        reset_confirmed(confirm_text@) ==> exists|r: AppResult<()>| #[trigger] reset_done(db.id(), default_adapters@, r) && match r {
            Err(e) => res == Err::<OkResponse, AppError>(e),
            Ok(()) => res matches Ok(o) && o.ok && o.message@ == "database has been reset"@,
        },
        reset_confirmed(confirm_text@) ==> (res matches Ok(r) ==> r.ok && r.message@ == "database has been reset"@),
        reset_confirmed(confirm_text@) ==> (res matches Err(e) ==> e is DatabaseError),
{
    if !str_eq(confirm_text, "RESET") && !str_eq(confirm_text, "reset") {
        return Err(AppError::InvalidInput(String::from_str("confirmation text must be 'RESET'")));
    }
    let r = MaintenanceRepository::new(db).reset(default_adapters);
    assert(reset_done(db.id(), default_adapters@, r));
    match r {
        Ok(()) => Ok(OkResponse { ok: true, message: String::from_str("database has been reset") }),
        Err(e) => Err(e),
    }
}

/// The page asked for: 1 when absent, and never below 1.
pub open spec fn effective_page(page: Option<i64>) -> i64 {
    match page {
        Some(p) => if p < 1 { 1 } else { p },
        None => 1,
    }
}

/// The page size asked for: 50 when absent, kept between 1 and 200.
pub open spec fn effective_page_size(page_size: Option<i64>) -> i64 {
    match page_size {
        Some(s) => if s < 1 { 1 } else if s > 200 { 200 } else { s },
        None => 50,
    }
}

/// `d2` is the page `d` shown under the display name `name`.
pub open spec fn renamed_page(d: DbTableData, name: Seq<char>, d2: DbTableData) -> bool {
    &&& d2.table == d.table
    &&& d2.display_name@ == name
    &&& d2.columns == d.columns
    &&& d2.rows == d.rows
    &&& d2.total == d.total
    &&& d2.page == d.page
    &&& d2.page_size == d.page_size
    &&& d2.total_pages == d.total_pages
}

/// One page of a table for the table browser, with the table's display name.
pub fn db_table_data(
    db: &Database,
    table_name: &str,
    page: Option<i64>,
    page_size: Option<i64>,
    sort_col: Option<&str>,
    sort_dir: Option<&str>,
    filter_text: Option<&str>,
) -> (res: AppResult<DbTableData>)
    requires
        (effective_page(page) - 1) * effective_page_size(page_size) <= i64::MAX,
    ensures
        exists|r: AppResult<DbTableData>| #[trigger] table_page_read(
            db.id(),
            table_name@, effective_page(page), effective_page_size(page_size), sort_col, sort_dir, filter_text, r)
            && match r {
                Err(e) => res == Err::<DbTableData, AppError>(e),
                Ok(d) => res matches Ok(d2) && renamed_page(d, display_name_of(table_name@), d2),
            },
        res matches Err(e) ==> (e is DatabaseError
            || e == AppError::InvalidInput(e->InvalidInput_0) && e->InvalidInput_0@ == invalid_table_message(table_name@)),
        res matches Ok(data) ==> {
            &&& data.table@ == table_name@
            &&& data.display_name@ == display_name_of(table_name@)
            &&& data.page == effective_page(page)
            &&& data.page_size == effective_page_size(page_size)
            &&& data.total_pages == page_count(data.total as int, data.page_size as int)
            &&& rows_are_objects_of(data.rows@, data.columns@)
        },
{
    let page = match page {
        Some(p) => if p < 1 { 1 } else { p },
        None => 1,
    };
    let page_size = match page_size {
        Some(s) => if s < 1 { 1 } else if s > 200 { 200 } else { s },
        None => 50,
    };
    assert(0 <= (page - 1) * page_size) by (nonlinear_arith)
        requires page >= 1, page_size >= 1;
    let r = MaintenanceRepository::new(db).get_table_data(
        table_name, page, page_size, sort_col, sort_dir, filter_text,
    );
    let ghost rg = r;
    assert(table_page_read(db.id(), table_name@, page, page_size, sort_col, sort_dir, filter_text, rg));
    match r {
        Ok(data) => {
            let mut data = data;
            data.display_name = String::from_str(table_display_name(table_name));
            Ok(data)
        },
        Err(e) => Err(e),
    }
}

/// The overview record of the database file at `db_path` of `file_size`
/// bytes, last modified at `last_modified`, with SQLite's statistics `stats`
/// (version, page size, page count, free-list length) and the row count of
/// every table.
pub open spec fn overview_record(
    db_path: Seq<char>,
    file_size: i64,
    last_modified: i64,
    stats: (String, i64, i64, i64),
    tables: Seq<(String, i64)>,
    d: DbOverview,
) -> bool {
    &&& d.db_path@ == db_path
    &&& d.file_size == file_size
    &&& d.file_size_human@ == size_text(file_size as int)
    &&& d.last_modified == last_modified
    &&& d.sqlite_version == stats.0
    &&& d.page_size == stats.1
    &&& d.page_count == stats.2
    &&& d.freelist_count == stats.3
    &&& (i64::MIN <= stats.3 * stats.1 <= i64::MAX ==> d.free_size == stats.3 * stats.1)
    &&& d.free_size_human@ == size_text(d.free_size as int)
    &&& d.tables@.len() == tables.len()
    &&& forall|i: int| 0 <= i < tables.len() ==> {
        &&& #[trigger] d.tables@[i].table_name == tables[i].0
        &&& d.tables@[i].display_name@ == display_name_of(tables[i].0@)
        &&& d.tables@[i].row_count == tables[i].1
        &&& d.tables@[i].size_bytes == 0
        &&& d.tables@[i].size_human@.len() == 0
    }
}

/// The overview shown on the database page, from the file's path, size and
/// modification time, SQLite's statistics and the table counts.
pub fn overview_of(
    db_path: &str,
    file_size: i64,
    last_modified: i64,
    stats: (String, i64, i64, i64),
    overview: &DatabaseOverview,
) -> (res: DbOverview)
    ensures
        overview_record(db_path@, file_size, last_modified, stats, overview.tables@, res),
{
    let (sqlite_version, page_size, page_count, freelist_count) = stats;
    let free_size = freelist_count.wrapping_mul(page_size);
    let mut tables: Vec<DbTableInfo> = Vec::new();
    let mut i: usize = 0;
    while i < overview.tables.len()
        invariant
            i <= overview.tables@.len(),
            tables@.len() == i,
            forall|j: int| 0 <= j < i ==> {
                &&& #[trigger] tables@[j].table_name == overview.tables@[j].0
                &&& tables@[j].display_name@ == display_name_of(overview.tables@[j].0@)
                &&& tables@[j].row_count == overview.tables@[j].1
                &&& tables@[j].size_bytes == 0
                &&& tables@[j].size_human@.len() == 0
            },
        decreases overview.tables@.len() - i,
    {
        let (name, count) = &overview.tables[i];
        tables.push(DbTableInfo {
            table_name: name.clone(),
            display_name: String::from_str(table_display_name(name.as_str())),
            row_count: *count,
            size_bytes: 0,
            size_human: String::new(),
        });
        i = i + 1;
    }
    DbOverview {
        db_path: String::from_str(db_path),
        file_size,
        file_size_human: format_size(file_size),
        last_modified,
        sqlite_version,
        page_size,
        page_count,
        freelist_count,
        free_size,
        free_size_human: format_size(free_size),
        tables,
    }
}

/// The overview shown on the database page: the file's path, size and
/// modification time (as the caller read them), SQLite's statistics, and every
/// table's row count under its display name.
pub fn db_overview(db: &Database, db_path: &str, file_size: i64, last_modified: i64) -> (res: AppResult<DbOverview>)
    ensures
        exists|stats: (String, i64, i64, i64), o: AppResult<DatabaseOverview>|
            #![trigger database_stats_read(db.id(), stats), overview_outcome(db.id(), o)]
            database_stats_read(db.id(), stats) && overview_outcome(db.id(), o) && match o {
                Err(e) => res == Err::<DbOverview, AppError>(e),
                Ok(ov) => res matches Ok(d) && overview_record(db_path@, file_size, last_modified, stats, ov.tables@, d),
            },
        res matches Err(e) ==> (e is DatabaseError || e is Unexpected),
{
    let maint = MaintenanceRepository::new(db);
    let st = maint.get_database_stats();
    let stats = match st {
        Ok(s) => s,
        Err(e) => return Err(e),
    };
    let ghost stats_g = stats;
    assert(database_stats_read(db.id(), stats_g));
    let o = maint.get_overview();
    let ghost og = o;
    assert(overview_outcome(db.id(), og));
    match o {
        Ok(overview) => Ok(overview_of(db_path, file_size, last_modified, stats, &overview)),
        Err(e) => Err(e),
    }
}

/// The answer when the user closes the import dialog without choosing.
pub fn import_cancelled() -> (res: OkResponse)
    ensures
        !res.ok,
        res.message@ == "Import cancelled"@,
{
    OkResponse { ok: false, message: String::from_str("Import cancelled") }
}

/// The answer when the user closes the export dialog without choosing.
pub fn export_cancelled() -> (res: OkResponse)
    ensures
        !res.ok,
        res.message@ == "Export cancelled"@,
{
    OkResponse { ok: false, message: String::from_str("Export cancelled") }
}

/// The answer when the dialog hands back an empty path.
pub fn no_file_selected() -> (res: OkResponse)
    ensures
        !res.ok,
        res.message@ == "No file selected"@,
{
    OkResponse { ok: false, message: String::from_str("No file selected") }
}

/// The 16 bytes every SQLite 3 database file starts with: `SQLite format 3\0`.
pub open spec fn sqlite_header() -> Seq<u8> {
    seq![83u8, 81, 76, 105, 116, 101, 32, 102, 111, 114, 109, 97, 116, 32, 51, 0]
}

/// Whether `data` starts with the SQLite 3 file header.
pub fn is_sqlite_database(data: &[u8]) -> (res: bool)
    ensures
        res == (data@.len() >= 16 && data@.subrange(0, 16) == sqlite_header()),
{
    let header: [u8; 16] = [83, 81, 76, 105, 116, 101, 32, 102, 111, 114, 109, 97, 116, 32, 51, 0];
    if data.len() < 16 {
        return false;
    }
    let mut i: usize = 0;
    while i < 16
        invariant
            data@.len() >= 16,
            header@ == sqlite_header(),
            i <= 16,
            forall|j: int| 0 <= j < i ==> data@[j] == sqlite_header()[j],
        decreases 16 - i,
    {
        if data[i] != header[i] {
            assert(data@.subrange(0, 16)[i as int] != sqlite_header()[i as int]);
            return false;
        }
        i = i + 1;
    }
    assert(data@.subrange(0, 16) =~= sqlite_header());
    true
}

/// Checks that a file chosen for import is a SQLite database.
pub fn validate_import(data: &[u8]) -> (res: AppResult<()>)
    ensures
        res is Ok <==> (data@.len() >= 16 && data@.subrange(0, 16) == sqlite_header()),
        res matches Err(e) ==> e == AppError::InvalidInput(e->InvalidInput_0)
            && e->InvalidInput_0@ == "Selected file is not a valid SQLite database"@,
{
    if is_sqlite_database(data) {
        Ok(())
    } else {
        Err(AppError::InvalidInput(String::from_str("Selected file is not a valid SQLite database")))
    }
}

} // verus!
