//! Log levels, and the preparation of log records that come from the user
//! interface: required fields, long strings cut short, secrets redacted.

use vstd::prelude::*;
use vstd::string::StrSliceExecFns;
use vstd::utf8::{encode_utf8, is_char_boundary};
use vstd::string::StringSliceAdditionalSpecFns;
use crate::json::JsonValue;
use crate::text::{chars_of, concat, str_eq, string_push};

verus! {

/// The verbosity of the log, most verbose first.
#[derive(Debug, Clone, Copy, PartialEq, Eq, Structural)]
pub enum LogLevel {
    Trace,
    Debug,
    Info,
    Warn,
    Error,
}

/// The level a configured name selects: `debug`, `warn`, `error` and `trace`
/// name theirs, anything else means `Info`.
pub open spec fn level_named(level: Seq<char>) -> LogLevel {
    if level == "debug"@ {
        LogLevel::Debug
    } else if level == "warn"@ {
        LogLevel::Warn
    } else if level == "error"@ {
        LogLevel::Error
    } else if level == "trace"@ {
        LogLevel::Trace
    } else {
        LogLevel::Info
    }
}

/// The level that the configured name `level` selects.
pub fn parse_level_filter(level: &str) -> (res: LogLevel)
    ensures
        res == level_named(level@),
{
    if str_eq(level, "debug") {
        LogLevel::Debug
    } else if str_eq(level, "warn") {
        LogLevel::Warn
    } else if str_eq(level, "error") {
        LogLevel::Error
    } else if str_eq(level, "trace") {
        LogLevel::Trace
    } else {
        LogLevel::Info
    }
}

/// A level the user may switch to at run time: `debug`, `info`, `warn` or `error`.
pub open spec fn is_settable_level(level: Seq<char>) -> bool {
    level == "debug"@ || level == "info"@ || level == "warn"@ || level == "error"@
}

/// The level to switch to, or the error `invalid log level: <level>`.
pub fn checked_level(level: &str) -> (res: Result<LogLevel, String>)
    ensures
        is_settable_level(level@) ==> res == Ok::<LogLevel, String>(level_named(level@)),
        !is_settable_level(level@) ==> (res matches Err(m) && m@ == "invalid log level: "@ + level@),
{
    if str_eq(level, "debug") || str_eq(level, "info") || str_eq(level, "warn") || str_eq(level, "error") {
        Ok(parse_level_filter(level))
    } else {
        Err(concat("invalid log level: ", level))
    }
}

/// The log target of the application's own events.
pub fn app_target() -> (res: &'static str)
    ensures
        res@ == "skills_hub"@,
{
    "skills_hub"
}

/// The log target of events that come from the user interface.
pub fn frontend_target() -> (res: &'static str)
    ensures
        res@ == "frontend"@,
{
    "frontend"
}

/// The longest string, in bytes, that a log record keeps whole.
pub open spec fn max_string_len() -> nat {
    4096
}

/// How deep into a JSON document the redaction goes.
pub open spec fn max_redaction_depth() -> nat {
    8
}

/// The largest character boundary of `bytes` at or below `n`.
pub open spec fn floor_char_boundary(bytes: Seq<u8>, n: nat) -> nat
    decreases n,
{
    if n == 0 || is_char_boundary(bytes, n as int) {
        n
    } else {
        floor_char_boundary(bytes, (n - 1) as nat)
    }
}

/// `out` is `value` cut short for a log record: whole when its UTF-8 encoding
/// has at most 4096 bytes, else its longest prefix of whole characters within
/// 4096 bytes followed by `...[TRUNCATED]`.
pub open spec fn truncated(value: Seq<char>, out: Seq<char>) -> bool {
    if encode_utf8(value).len() <= max_string_len() {
        out == value
    } else {
        exists|prefix: Seq<char>| {
            &&& encode_utf8(prefix) == encode_utf8(value).subrange(0, floor_char_boundary(encode_utf8(value), max_string_len()) as int)
            &&& out == prefix + "...[TRUNCATED]"@
        }
    }
}

/// `str::trim`'s notion of whitespace: the Unicode `White_Space` property.
pub open spec fn is_unicode_whitespace(c: char) -> bool {
    let u = c as u32;
    (0x9 <= u <= 0xd) || u == 0x20 || u == 0x85 || u == 0xa0 || u == 0x1680
        || (0x2000 <= u <= 0x200a) || u == 0x2028 || u == 0x2029 || u == 0x202f || u == 0x205f
        || u == 0x3000
}

/// `s` without its leading whitespace.
pub open spec fn trim_start_of(s: Seq<char>) -> Seq<char>
    decreases s.len(),
{
    if s.len() > 0 && is_unicode_whitespace(s[0]) {
        trim_start_of(s.drop_first())
    } else {
        s
    }
}

/// `s` without its trailing whitespace.
pub open spec fn trim_end_of(s: Seq<char>) -> Seq<char>
    decreases s.len(),
{
    if s.len() > 0 && is_unicode_whitespace(s.last()) {
        trim_end_of(s.drop_last())
    } else {
        s
    }
}

/// `s` without leading and trailing whitespace.
pub open spec fn trimmed(s: Seq<char>) -> Seq<char> {
    trim_end_of(trim_start_of(s))
}

fn is_whitespace_char(c: char) -> (res: bool)
    ensures
        res == is_unicode_whitespace(c),
{
    let u = c as u32;
    (0x9 <= u && u <= 0xd) || u == 0x20 || u == 0x85 || u == 0xa0 || u == 0x1680
        || (0x2000 <= u && u <= 0x200a) || u == 0x2028 || u == 0x2029 || u == 0x202f || u == 0x205f
        || u == 0x3000
}

/// `s` with leading and trailing whitespace removed, as `str::trim` does,
/// whitespace being the Unicode `White_Space` property.
pub fn str_trim(s: &str) -> (res: &str)
    ensures
        res@ == trimmed(s@),
{
    let n = s.unicode_len();
    let mut start: usize = 0;
    assert(s@.subrange(0, n as int) =~= s@);
    while start < n && is_whitespace_char(s.get_char(start))
        invariant
            n == s@.len(),
            start <= n,
            trim_start_of(s@) == trim_start_of(s@.subrange(start as int, n as int)),
        decreases n - start,
    {
        assert(s@.subrange(start as int, n as int).drop_first() =~= s@.subrange(start + 1, n as int));
        start = start + 1;
    }
    assert(trim_start_of(s@.subrange(start as int, n as int)) == s@.subrange(start as int, n as int));
    let mut end: usize = n;
    while end > start && is_whitespace_char(s.get_char(end - 1))
        invariant
            n == s@.len(),
            start <= end <= n,
            trim_start_of(s@) == s@.subrange(start as int, n as int),
            trimmed(s@) == trim_end_of(s@.subrange(start as int, end as int)),
        decreases end - start,
    {
        assert(s@.subrange(start as int, end as int).drop_last() =~= s@.subrange(start as int, end - 1));
        end = end - 1;
    }
    assert(trim_end_of(s@.subrange(start as int, end as int)) == s@.subrange(start as int, end as int));
    s.substring_char(start, end)
}

/// Cuts `value` short for a log record.
pub fn truncate_string(value: &str) -> (res: String)
    ensures
        truncated(value@, res@),
{
    proof {
        vstd::utf8::encode_utf8_valid_utf8(value@);
    }
    let bytes = value.as_bytes();
    if bytes.len() <= 4096 {
        return String::from_str(value);
    }
    let mut end: usize = 4096;
    while !value.is_char_boundary(end)
        invariant
            end <= 4096,
            value.spec_bytes() == encode_utf8(value@),
            vstd::utf8::valid_utf8(value.spec_bytes()),
            floor_char_boundary(encode_utf8(value@), end as nat) == floor_char_boundary(encode_utf8(value@), 4096),
        decreases end,
    {
        end = end - 1;
    }
    let (head, _) = value.split_at(end);
    let res = concat(head, "...[TRUNCATED]");
    res
}


/// `c` with an ASCII capital letter lowered.
pub open spec fn ascii_lower_char(c: char) -> char {
    if 'A' <= c && c <= 'Z' { ((c as u32) + 32) as char } else { c }
}

/// `s` with every ASCII capital letter lowered (`str::to_ascii_lowercase`).
pub open spec fn ascii_lowercase(s: Seq<char>) -> Seq<char> {
    s.map_values(|c: char| ascii_lower_char(c))
}

/// `s` with every ASCII capital letter lowered.
pub fn to_ascii_lowercase(s: &str) -> (res: String)
    ensures
        res@ == ascii_lowercase(s@),
{
    let chars = chars_of(s);
    let mut out = String::new();
    let mut i: usize = 0;
    while i < chars.len()
        invariant
            chars@ == s@,
            i <= chars@.len(),
            out@ == ascii_lowercase(s@.take(i as int)),
        decreases chars@.len() - i,
    {
        let c = chars[i];
        let lowered = if 'A' <= c && c <= 'Z' { ((c as u8) + 32) as char } else { c };
        string_push(&mut out, lowered);
        assert(ascii_lowercase(s@.take(i + 1)) =~= ascii_lowercase(s@.take(i as int)).push(ascii_lower_char(c)));
        i = i + 1;
    }
    assert(s@.take(chars@.len() as int) =~= s@);
    out
}

/// The keys whose values never reach a log, compared without ASCII case.
pub open spec fn is_sensitive(key: Seq<char>) -> bool {
    let k = ascii_lowercase(key);
    k == "token"@ || k == "secret"@ || k == "password"@ || k == "authorization"@ || k == "cookie"@
        || k == "api_key"@ || k == "access_key"@ || k == "refresh_token"@ || k == "private_key"@
}

/// Whether the value under `key` must be redacted.
pub fn is_sensitive_key(key: &str) -> (res: bool)
    ensures
        res == is_sensitive(key@),
{
    let normalized = to_ascii_lowercase(key);
    let k = normalized.as_str();
    str_eq(k, "token") || str_eq(k, "secret") || str_eq(k, "password") || str_eq(k, "authorization")
        || str_eq(k, "cookie") || str_eq(k, "api_key") || str_eq(k, "access_key")
        || str_eq(k, "refresh_token") || str_eq(k, "private_key")
}

/// A required text field of a log record: trimmed and cut short, or
/// `fallback` when nothing but whitespace is left.
pub open spec fn normalized(value: Seq<char>, fallback: Seq<char>, out: Seq<char>) -> bool {
    if trimmed(value).len() == 0 {
        out == fallback
    } else {
        truncated(trimmed(value), out)
    }
}

/// Normalizes a required text field of a log record.
pub fn normalize_required(value: String, fallback: &str) -> (res: String)
    ensures
        normalized(value@, fallback@, res@),
{
    let trimmed_value = str_trim(value.as_str());
    if trimmed_value.is_empty() {
        String::from_str(fallback)
    } else {
        truncate_string(trimmed_value)
    }
}


/// `output` is `input` made safe to log at nesting depth `depth`: below depth
/// 8, every member whose key is sensitive holds `[REDACTED]`, every other
/// member and every array item is made safe one level deeper, and every string
/// is cut short; at depth 8 the whole value is `[TRUNCATED]`; null, booleans
/// and numbers stay as they are.
pub open spec fn redacted(input: JsonValue, depth: nat, output: JsonValue) -> bool
    decreases input,
{
    if depth >= max_redaction_depth() {
        output matches JsonValue::String(t) && t@ == "[TRUNCATED]"@
    } else {
        match input {
            JsonValue::Object(members) => output matches JsonValue::Object(outs)
                && outs@.len() == members@.len()
                && forall|i: int| 0 <= i < members@.len() ==> {
                    &&& #[trigger] outs@[i].0 == members@[i].0
                    &&& if is_sensitive(members@[i].0@) {
                        outs@[i].1 matches JsonValue::String(t) && t@ == "[REDACTED]"@
                    } else {
                        redacted(members@[i].1, depth + 1, outs@[i].1)
                    }
                },
            JsonValue::Array(items) => output matches JsonValue::Array(outs)
                && outs@.len() == items@.len()
                && forall|i: int| 0 <= i < items@.len() ==> redacted(#[trigger] items@[i], depth + 1, outs@[i]),
            JsonValue::String(s) => output matches JsonValue::String(t) && truncated(s@, t@),
            _ => output == input,
        }
    }
}


/// Makes `value` safe to log at nesting depth `depth`.
#[verifier::spinoff_prover]
fn redact_value(value: &JsonValue, depth: usize) -> (res: JsonValue)
    requires
        depth <= 8,
    ensures
        redacted(*value, depth as nat, res),
    decreases 8 - depth,
{
    if depth >= 8 {
        return JsonValue::String(String::from_str("[TRUNCATED]"));
    }
    match value {
        JsonValue::Object(members) => {
            let mut outs: Vec<(String, JsonValue)> = Vec::new();
            let mut i: usize = 0;
            while i < members.len()
                invariant
                    depth < 8,
                    i <= members@.len(),
                    outs@.len() == i,
                    *value == JsonValue::Object(*members),
                    forall|k: int| 0 <= k < i ==> {
                        &&& #[trigger] outs@[k].0 == members@[k].0
                        &&& if is_sensitive(members@[k].0@) {
                            outs@[k].1 matches JsonValue::String(t) && t@ == "[REDACTED]"@
                        } else {
                            redacted(members@[k].1, depth as nat + 1, outs@[k].1)
                        }
                    },
                decreases members@.len() - i,
            {
                let key = &members[i].0;
                let item = &members[i].1;
                if is_sensitive_key(key.as_str()) {
                    outs.push((key.clone(), JsonValue::String(String::from_str("[REDACTED]"))));
                } else {
                    let r = redact_value(item, depth + 1);
                    outs.push((key.clone(), r));
                }
                i = i + 1;
            }
            JsonValue::Object(outs)
        },
        JsonValue::Array(items) => {
            let mut outs: Vec<JsonValue> = Vec::new();
            let mut i: usize = 0;
            while i < items.len()
                invariant
                    depth < 8,
                    i <= items@.len(),
                    outs@.len() == i,
                    *value == JsonValue::Array(*items),
                    forall|k: int| 0 <= k < i ==> redacted(#[trigger] items@[k], depth as nat + 1, outs@[k]),
                decreases items@.len() - i,
            {
                let r = redact_value(&items[i], depth + 1);
                outs.push(r);
                i = i + 1;
            }
            JsonValue::Array(outs)
        },
        JsonValue::String(s) => JsonValue::String(truncate_string(s.as_str())),
        JsonValue::Null => JsonValue::Null,
        JsonValue::Bool(b) => JsonValue::Bool(*b),
        JsonValue::Number(n) => JsonValue::Number(*n),
    }
}

/// Makes `value` safe to log, starting at `depth`.
pub fn redact_json_at_depth(value: JsonValue, depth: usize) -> (res: JsonValue)
    ensures
        redacted(value, depth as nat, res),
{
    if depth >= 8 {
        return JsonValue::String(String::from_str("[TRUNCATED]"));
    }
    redact_value(&value, depth)
}

/// Makes a whole JSON document safe to log.
pub fn redact_json(value: JsonValue) -> (res: JsonValue)
    ensures
        redacted(value, 0, res),
{
    redact_json_at_depth(value, 0)
}


/// A log event sent by the user interface.
#[derive(Debug)]
pub struct FrontendLogPayload {
    pub level: String,
    pub event: String,
    pub message: String,
    pub area: Option<String>,
    pub outcome: Option<String>,
    pub command: Option<String>,
    pub task_id: Option<String>,
    pub error_code: Option<String>,
    pub duration_ms: Option<u64>,
    pub app_version: Option<String>,
    pub meta: Option<JsonValue>,
}

/// The record written to the log for such an event.
#[derive(Debug)]
pub struct FrontendLogRecord {
    pub level: LogLevel,
    pub event: String,
    pub message: String,
    pub area: String,
    pub outcome: String,
    pub command: String,
    pub task_id: String,
    pub error_code: String,
    pub duration_ms: Option<u64>,
    pub app_version: String,
    pub meta: JsonValue,
}

/// The level a user interface event is logged at: `debug`, `warn` and `error`
/// name theirs, anything else is logged as `Info`.
pub open spec fn frontend_level(level: Seq<char>) -> LogLevel {
    if level == "debug"@ {
        LogLevel::Debug
    } else if level == "warn"@ {
        LogLevel::Warn
    } else if level == "error"@ {
        LogLevel::Error
    } else {
        LogLevel::Info
    }
}

/// The text of an optional field, or `default` when it is absent.
pub open spec fn or_default(value: Option<String>, default: Seq<char>) -> Seq<char> {
    match value {
        Some(v) => v@,
        None => default,
    }
}

fn unwrap_or_text(value: Option<String>, default: &str) -> (res: String)
    ensures
        res@ == or_default(value, default@),
{
    match value {
        Some(v) => v,
        None => String::from_str(default),
    }
}

fn unwrap_or_empty(value: Option<String>) -> (res: String)
    ensures
        res@ == or_default(value, Seq::empty()),
{
    match value {
        Some(v) => v,
        None => String::new(),
    }
}

/// Turns a user interface event into the record that is logged: the event
/// name is required (`frontend.event` when blank), the message is cut short,
/// absent fields get their defaults, and `meta` is redacted (null when absent).
pub fn prepare_frontend_log(payload: FrontendLogPayload) -> (res: FrontendLogRecord)
    ensures
        res.level == frontend_level(payload.level@),
        normalized(payload.event@, "frontend.event"@, res.event@),
        truncated(payload.message@, res.message@),
        res.area@ == or_default(payload.area, "app"@),
        res.outcome@ == or_default(payload.outcome, "unknown"@),
        res.command@ == or_default(payload.command, Seq::empty()),
        res.task_id@ == or_default(payload.task_id, Seq::empty()),
        res.error_code@ == or_default(payload.error_code, Seq::empty()),
        res.duration_ms == payload.duration_ms,
        res.app_version@ == or_default(payload.app_version, Seq::empty()),
        match payload.meta {
            Some(m) => redacted(m, 0, res.meta),
            None => res.meta is Null,
        },
{
    let level = if str_eq(payload.level.as_str(), "debug") {
        LogLevel::Debug
    } else if str_eq(payload.level.as_str(), "warn") {
        LogLevel::Warn
    } else if str_eq(payload.level.as_str(), "error") {
        LogLevel::Error
    } else {
        LogLevel::Info
    };
    let message = truncate_string(payload.message.as_str());
    let event = normalize_required(payload.event, "frontend.event");
    let meta = match payload.meta {
        Some(m) => redact_json(m),
        None => JsonValue::Null,
    };
    FrontendLogRecord {
        level,
        event,
        message,
        area: unwrap_or_text(payload.area, "app"),
        outcome: unwrap_or_text(payload.outcome, "unknown"),
        command: unwrap_or_empty(payload.command),
        task_id: unwrap_or_empty(payload.task_id),
        error_code: unwrap_or_empty(payload.error_code),
        duration_ms: payload.duration_ms,
        app_version: unwrap_or_empty(payload.app_version),
        meta,
    }
}


/// The encoding of two strings one after the other is their encodings one
/// after the other.
pub proof fn lemma_encode_utf8_concat(a: Seq<char>, b: Seq<char>)
    ensures
        encode_utf8(a + b) == encode_utf8(a) + encode_utf8(b),
    decreases a.len(),
{
    if a.len() == 0 {
        assert(a + b =~= b);
        assert(encode_utf8(a) =~= Seq::<u8>::empty());
        assert(encode_utf8(a) + encode_utf8(b) =~= encode_utf8(b));
    } else {
        lemma_encode_utf8_concat(a.drop_first(), b);
        assert((a + b).drop_first() =~= a.drop_first() + b);
        assert((a + b)[0] == a[0]);
        assert(encode_utf8(a + b) =~= encode_utf8(a) + encode_utf8(b));
    }
}

/// The boundary found at or below `n` is at or below `n`.
pub proof fn lemma_floor_char_boundary_le(bytes: Seq<u8>, n: nat)
    ensures
        floor_char_boundary(bytes, n) <= n,
    decreases n,
{
    if n > 0 && !is_char_boundary(bytes, n as int) {
        lemma_floor_char_boundary_le(bytes, (n - 1) as nat);
    }
}

/// No string in a log record is longer than 4096 bytes plus the 14 bytes of
/// `...[TRUNCATED]`, and a string that fits is kept as it is.
pub proof fn law_truncated_fits(value: Seq<char>, out: Seq<char>)
    requires
        truncated(value, out),
    ensures
        encode_utf8(out).len() <= max_string_len() + 14,
        encode_utf8(value).len() <= max_string_len() ==> out == value,
{
    if encode_utf8(value).len() > max_string_len() {
        let prefix = choose|prefix: Seq<char>| {
            &&& encode_utf8(prefix) == encode_utf8(value).subrange(0, floor_char_boundary(encode_utf8(value), max_string_len()) as int)
            &&& out == prefix + "...[TRUNCATED]"@
        };
        lemma_floor_char_boundary_le(encode_utf8(value), max_string_len());
        lemma_encode_utf8_concat(prefix, "...[TRUNCATED]"@);
        reveal_strlit("...[TRUNCATED]");
        let tail = "...[TRUNCATED]"@;
        assert(vstd::utf8::is_ascii_chars(tail));
        vstd::utf8::is_ascii_chars_encode_utf8(tail);
        assert(encode_utf8(tail).len() == 14);
    }
}

/// Whether a key is redacted does not depend on the ASCII case of its letters.
pub proof fn law_sensitivity_ignores_ascii_case(a: Seq<char>, b: Seq<char>)
    requires
        ascii_lowercase(a) == ascii_lowercase(b),
    ensures
        is_sensitive(a) == is_sensitive(b),
{
}


/// `v` holds containers at most `depth` levels deep: an array or object only
/// where `depth > 0`, with its items one level less.
pub open spec fn nests_within(v: JsonValue, depth: nat) -> bool
    decreases v,
{
    match v {
        JsonValue::Object(members) => depth > 0 && forall|i: int| 0 <= i < members@.len()
            ==> nests_within(#[trigger] members@[i].1, (depth - 1) as nat),
        JsonValue::Array(items) => depth > 0 && forall|i: int| 0 <= i < items@.len()
            ==> nests_within(#[trigger] items@[i], (depth - 1) as nat),
        _ => true,
    }
}

/// A redacted document nests no deeper than the levels the redaction has
/// left: whatever the input, no array or object survives 8 levels down.
pub proof fn law_redaction_bounds_nesting(input: JsonValue, depth: nat, output: JsonValue)
    requires
        redacted(input, depth, output),
        depth <= max_redaction_depth(),
    ensures
        nests_within(output, (max_redaction_depth() - depth) as nat),
    decreases input,
{
    if depth < max_redaction_depth() {
        match input {
            JsonValue::Object(members) => {
                let outs = output->Object_0;
                assert forall|i: int| 0 <= i < outs@.len()
                    implies nests_within(#[trigger] outs@[i].1, (max_redaction_depth() - depth - 1) as nat) by {
                    assert(outs@[i].0 == members@[i].0);
                    if !is_sensitive(members@[i].0@) {
                        law_redaction_bounds_nesting(members@[i].1, depth + 1, outs@[i].1);
                    }
                }
            },
            JsonValue::Array(items) => {
                let outs = output->Array_0;
                assert forall|i: int| 0 <= i < outs@.len()
                    implies nests_within(#[trigger] outs@[i], (max_redaction_depth() - depth - 1) as nat) by {
                    law_redaction_bounds_nesting(items@[i], depth + 1, outs@[i]);
                }
            },
            _ => {},
        }
    }
}

} // verus!
