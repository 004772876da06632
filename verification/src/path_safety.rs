//! Directory names and child paths that stay where they are put.
//!
//! A name that comes from a user or from a skill's metadata becomes a single
//! directory name: characters that no file system accepts in a name turn into
//! `-`, surrounding whitespace and trailing dots go, and a name that is left
//! empty is replaced by a fallback.

use vstd::prelude::*;
use crate::logging::{str_trim, trimmed};
use crate::text::{chars_of, concat, string_push};

verus! {

/// Characters that Windows refuses in a file name, path separators among them,
/// and the control characters.
pub open spec fn is_reserved_name_char(c: char) -> bool {
    c == '<' || c == '>' || c == ':' || c == '"' || c == '/' || c == '\\' || c == '|'
        || c == '?' || c == '*' || (c as u32) < 32
}

/// `c` as it stands in a directory name.
pub open spec fn name_char(c: char) -> char {
    if is_reserved_name_char(c) {
        '-'
    } else {
        c
    }
}

/// `s` with every reserved character replaced by `-`.
pub open spec fn replace_reserved(s: Seq<char>) -> Seq<char> {
    s.map_values(|c: char| name_char(c))
}

/// `s` without its trailing dots and spaces.
pub open spec fn strip_trailing_dots(s: Seq<char>) -> Seq<char>
    decreases s.len(),
{
    if s.len() > 0 && (s.last() == '.' || s.last() == ' ') {
        strip_trailing_dots(s.drop_last())
    } else {
        s
    }
}

/// The directory name made of `name`, or `fallback` where nothing usable is left.
pub open spec fn safe_dir_name_of(name: Option<Seq<char>>, fallback: Seq<char>) -> Seq<char> {
    match name {
        Some(n) => {
            let t = strip_trailing_dots(replace_reserved(trimmed(n)));
            if t.len() == 0 {
                fallback
            } else {
                t
            }
        },
        None => fallback,
    }
}

/// A single path component that names a child of its directory: not empty,
/// not `.` or `..`, and without a path separator.
pub open spec fn is_plain_component(name: Seq<char>) -> bool {
    &&& name.len() > 0
    &&& name != "."@
    &&& name != ".."@
    &&& forall|i: int| 0 <= i < name.len() ==> #[trigger] name[i] != '/' && name[i] != '\\'
}

/// `name` below the directory `base`.
pub open spec fn child_path(base: Seq<char>, name: Seq<char>) -> Seq<char> {
    if base.len() == 0 {
        name
    } else if base.last() == '/' {
        base + name
    } else {
        base + seq!['/'] + name
    }
}

/// The text of an optional string.
pub open spec fn opt_view(s: Option<&str>) -> Option<Seq<char>> {
    match s {
        Some(t) => Some(t@),
        None => None,
    }
}

/// The message given for a name that is no plain path component.
pub open spec fn unsafe_name_message(label: Seq<char>, name: Seq<char>) -> Seq<char> {
    "invalid "@ + label + ": "@ + name
}

fn sanitize_name_char(c: char) -> (res: char)
    ensures
        res == name_char(c),
{
    if c == '<' || c == '>' || c == ':' || c == '"' || c == '/' || c == '\\' || c == '|'
        || c == '?' || c == '*' || (c as u32) < 32 {
        '-'
    } else {
        c
    }
}

proof fn lemma_strip_stops(s: Seq<char>)
    requires
        s.len() > 0,
        s.last() != '.',
        s.last() != ' ',
    ensures
        strip_trailing_dots(s) == s,
{
}

/// The directory name made of `name`: trimmed of whitespace, with reserved
/// characters replaced by `-` and trailing dots and spaces removed; `fallback`
/// when there is no name or nothing of it is left.
pub fn safe_dir_name_with_fallback(name: Option<&str>, fallback: &str) -> (res: String)
    ensures
        res@ == safe_dir_name_of(opt_view(name), fallback@),
        is_plain_component(fallback@) ==> is_plain_component(res@),
{
    match name {
        None => String::from_str(fallback),
        Some(n) => {
            let t = str_trim(n);
            let cs = chars_of(t);
            let ghost r = replace_reserved(t@);
            let mut end: usize = cs.len();
            assert(r.subrange(0, end as int) =~= r);
            while end > 0
                invariant_except_break
                    end <= cs@.len(),
                    cs@ == t@,
                    r == replace_reserved(t@),
                    strip_trailing_dots(r) == strip_trailing_dots(r.subrange(0, end as int)),
                ensures
                    end <= cs@.len(),
                    strip_trailing_dots(r) == r.subrange(0, end as int),
                    end > 0 ==> r[end - 1] != '.' && r[end - 1] != ' ',
                decreases end,
            {
                let c = cs[end - 1];
                if c == '.' || c == ' ' {
                    proof {
                        assert(r.subrange(0, end as int).drop_last() =~= r.subrange(0, end - 1));
                    }
                    end = end - 1;
                } else {
                    proof {
                        lemma_strip_stops(r.subrange(0, end as int));
                    }
                    break;
                }
            }
            proof {
                if end == 0 {
                    assert(r.subrange(0, 0) =~= Seq::<char>::empty());
                }
            }
            if end == 0 {
                return String::from_str(fallback);
            }
            let mut s = String::new();
            let mut i: usize = 0;
            while i < end
                invariant
                    i <= end <= cs@.len(),
                    cs@ == t@,
                    r == replace_reserved(t@),
                    s@ == r.subrange(0, i as int),
                decreases end - i,
            {
                let c = sanitize_name_char(cs[i]);
                string_push(&mut s, c);
                proof {
                    assert(s@ =~= r.subrange(0, i + 1));
                }
                i = i + 1;
            }
            proof {
                reveal_strlit(".");
                reveal_strlit("..");
                let last = s@[end - 1];
                assert(last == r[end - 1]);
                assert(last != '.');
                assert(s@ != "."@);
                assert(s@ != ".."@);
                assert forall|k: int| 0 <= k < s@.len() implies #[trigger] s@[k] != '/' && s@[k] != '\\' by {
                    assert(s@[k] == name_char(t@[k]));
                }
            }
            s
        },
    }
}

/// `name` joined below `base`, refused with a message naming `label` when
/// `name` is not a plain path component.
pub fn safe_child_path(base: &str, name: &str, label: &str) -> (res: Result<String, String>)
    ensures
        res is Ok <==> is_plain_component(name@),
        res matches Ok(p) ==> p@ == child_path(base@, name@),
        res matches Err(m) ==> m@ == unsafe_name_message(label@, name@),
{
    let cs = chars_of(name);
    let mut plain = cs.len() > 0;
    let mut i: usize = 0;
    while i < cs.len()
        invariant
            cs@ == name@,
            i <= cs@.len(),
            plain == (cs@.len() > 0 && forall|k: int| 0 <= k < i ==> #[trigger] cs@[k] != '/' && cs@[k] != '\\'),
        decreases cs@.len() - i,
    {
        if cs[i] == '/' || cs[i] == '\\' {
            plain = false;
        }
        i = i + 1;
    }
    proof {
        reveal_strlit(".");
        reveal_strlit("..");
    }
    if plain && cs.len() == 1 && cs[0] == '.' {
        assert(name@ =~= "."@);
        plain = false;
    }
    if plain && cs.len() == 2 && cs[0] == '.' && cs[1] == '.' {
        assert(name@ =~= ".."@);
        plain = false;
    }
    if !plain {
        let mut m = concat("invalid ", label);
        m.append(": ");
        m.append(name);
        return Err(m);
    }
    let bs = chars_of(base);
    let mut p = String::from_str(base);
    if bs.len() > 0 && bs[bs.len() - 1] != '/' {
        string_push(&mut p, '/');
    }
    p.append(name);
    Ok(p)
}


/// A plain name joined below `base` gives a path that starts with `base` and
/// ends with the name, with at most one `/` between them; as the name holds
/// no separator, it is the path's last component, so the path stays directly
/// below `base`.
pub proof fn law_child_path_stays_below(base: Seq<char>, name: Seq<char>)
    requires
        is_plain_component(name),
    ensures
        child_path(base, name).take(base.len() as int) == base,
        child_path(base, name).skip(child_path(base, name).len() - name.len()) == name,
        child_path(base, name).len() - name.len() - base.len() <= 1,
        forall|i: int| child_path(base, name).len() - name.len() <= i < child_path(base, name).len()
            ==> #[trigger] child_path(base, name)[i] != '/',
{
    let p = child_path(base, name);
    if base.len() == 0 {
        assert(p.take(0) =~= base);
        assert(p.skip(0) =~= name);
    } else if base.last() == '/' {
        assert(p.take(base.len() as int) =~= base);
        assert(p.skip(base.len() as int) =~= name);
    } else {
        assert(p.take(base.len() as int) =~= base);
        assert(p.skip(base.len() as int + 1) =~= name);
    }
    assert forall|i: int| p.len() - name.len() <= i < p.len() implies #[trigger] p[i] != '/' by {
        assert(p[i] == name[i - (p.len() - name.len())]);
    }
}

} // verus!
