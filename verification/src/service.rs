//! The systemd user service: the unit file that the daemon installs, how its
//! `ExecStart=` line is written and read back, and how the answers of
//! `systemctl --user` are judged.

use vstd::prelude::*;
use vstd::string::*;
use crate::text::{
    has_prefix_at, is_whitespace_char, join_spaces, join_spaces_spec, str_equal, trim, trim_end_spec, trim_spec,
    trim_start_spec, views,
};

verus! {

/// The name of the systemd user unit.
pub const SERVICE_NAME: &'static str = "power-profile-watcher.service";

/// The unit file up to its `ExecStart=` line.
pub const SERVICE_UNIT_HEAD: &'static str = "[Unit]\nDescription=Watch power source and switch power profiles\nAfter=graphical-session.target\nPartOf=graphical-session.target\n\n[Service]\nType=simple\n";

/// The key of the line that names the executable.
pub const EXEC_START_KEY: &'static str = "ExecStart=";

/// The unit file after the executable's path.
pub const SERVICE_UNIT_TAIL: &'static str = "\nEnvironment=RUST_LOG=info\nRestart=on-failure\nRestartSec=2\n\n[Install]\nWantedBy=graphical-session.target\n";

/// The escape that systemd reads as a space inside an `ExecStart=` argument.
pub open spec fn escaped_space() -> Seq<char> {
    seq!['\\', 'x', '2', '0']
}

/// The path with every space written as `\x20`.
pub open spec fn escape_spec(s: Seq<char>) -> Seq<char>
    decreases s.len(),
{
    if s.len() == 0 {
        Seq::empty()
    } else {
        (if s[0] == ' ' { escaped_space() } else { seq![s[0]] }) + escape_spec(s.drop_first())
    }
}

/// The text with each `\x20`, read from the left without overlaps, replaced by a space.
pub open spec fn unescape_spec(s: Seq<char>) -> Seq<char>
    decreases s.len(),
{
    if s.len() == 0 {
        Seq::empty()
    } else if s.len() >= 4 && s.take(4) == escaped_space() {
        seq![' '] + unescape_spec(s.skip(4))
    } else {
        seq![s[0]] + unescape_spec(s.drop_first())
    }
}

/// The unit file written for an executable's path.
pub open spec fn service_unit_spec(executable: Seq<char>) -> Seq<char> {
    SERVICE_UNIT_HEAD@ + EXEC_START_KEY@ + escape_spec(executable) + SERVICE_UNIT_TAIL@
}

/// The position of the first line feed at or after `from`, or the length if there is none.
pub open spec fn newline_at_or_after(s: Seq<char>, from: int) -> int
    decreases s.len() - from,
{
    if from < 0 || from >= s.len() {
        s.len() as int
    } else if s[from] == '\n' {
        from
    } else {
        newline_at_or_after(s, from + 1)
    }
}

/// The line from `start` to the line feed at `end`, or to the end of the text,
/// without a carriage return that precedes the line feed (as `str::lines` gives it).
pub open spec fn line_content(s: Seq<char>, start: int, end: int) -> Seq<char> {
    let raw = s.subrange(start, end);
    if end < s.len() && raw.len() > 0 && raw.last() == '\r' {
        raw.drop_last()
    } else {
        raw
    }
}

/// Whether `line` begins with `prefix`.
pub open spec fn starts_with(line: Seq<char>, prefix: Seq<char>) -> bool {
    prefix.len() <= line.len() && line.take(prefix.len() as int) == prefix
}

/// Facts on the line feed that ends the line starting at `from`.
pub proof fn lemma_newline_bounds(s: Seq<char>, from: int)
    requires
        0 <= from <= s.len(),
    ensures
        from <= newline_at_or_after(s, from) <= s.len(),
        newline_at_or_after(s, from) < s.len() ==> s[newline_at_or_after(s, from)] == '\n',
        forall|k: int| from <= k < newline_at_or_after(s, from) ==> s[k] != '\n',
    decreases s.len() - from,
{
    if from < s.len() && s[from] != '\n' {
        lemma_newline_bounds(s, from + 1);
    }
}

/// The rest of the first line, from `start` on, that begins with `prefix`.
pub open spec fn first_line_with_prefix(s: Seq<char>, start: int, prefix: Seq<char>) -> Option<Seq<char>>
    decreases s.len() - start,
{
    if start < 0 || start >= s.len() {
        None
    } else {
        let end = newline_at_or_after(s, start);
        let line = line_content(s, start, end);
        if starts_with(line, prefix) {
            Some(line.skip(prefix.len() as int))
        } else if end < s.len() {
            proof {
                lemma_newline_bounds(s, start);
            }
            first_line_with_prefix(s, end + 1, prefix)
        } else {
            None
        }
    }
}

/// The value of the first `ExecStart=` line of a unit file, trimmed, if it is not empty.
pub open spec fn exec_start_spec(unit: Seq<char>) -> Option<Seq<char>> {
    match first_line_with_prefix(unit, 0, EXEC_START_KEY@) {
        Some(value) => if trim_spec(value).len() > 0 {
            Some(trim_spec(value))
        } else {
            None
        },
        None => None,
    }
}

/// The view of an optional string.
pub open spec fn opt_str_view(r: Option<&str>) -> Option<Seq<char>> {
    match r {
        Some(s) => Some(s@),
        None => None,
    }
}

/// Writes a path as an `ExecStart=` argument: each space becomes `\x20`.
pub fn escape_systemd_exec_argument(path: &str) -> (r: String)
    ensures
        r@ == escape_spec(path@),
{
    let n = path.unicode_len();
    let mut out = String::new();
    let mut i: usize = 0;
    proof {
        reveal_strlit("\\x20");
    }
    assert(path@.skip(0) =~= path@);
    while i < n
        invariant
            n == path@.len(),
            i <= n,
            out@ + escape_spec(path@.skip(i as int)) == escape_spec(path@),
            "\\x20"@ == escaped_space(),
        decreases n - i,
    {
        let ghost rest = path@.skip(i as int);
        assert(rest.drop_first() =~= path@.skip(i + 1));
        let c = path.get_char(i);
        let ghost before = out@;
        if c == ' ' {
            out.append("\\x20");
        } else {
            let piece = path.substring_char(i, i + 1);
            assert(piece@ =~= seq![c]);
            out.append(piece);
        }
        assert(before + escape_spec(rest) =~= out@ + escape_spec(path@.skip(i + 1)));
        i = i + 1;
    }
    assert(escape_spec(path@.skip(n as int)) =~= Seq::<char>::empty());
    assert(out@ =~= escape_spec(path@));
    out
}

/// Reads an `ExecStart=` argument back: each `\x20` becomes a space.
pub fn unescape_systemd_exec_argument(value: &str) -> (r: String)
    ensures
        r@ == unescape_spec(value@),
{
    let n = value.unicode_len();
    let mut out = String::new();
    let mut i: usize = 0;
    proof {
        reveal_strlit("\\x20");
        reveal_strlit(" ");
    }
    assert(value@.skip(0) =~= value@);
    while i < n
        invariant
            n == value@.len(),
            i <= n,
            out@ + unescape_spec(value@.skip(i as int)) == unescape_spec(value@),
            "\\x20"@ == escaped_space(),
            " "@ == seq![' '],
        decreases n - i,
    {
        let ghost rest = value@.skip(i as int);
        let ghost before = out@;
        if has_prefix_at(value, i, n, "\\x20") {
            assert(rest.take(4) =~= value@.subrange(i as int, i + 4));
            assert(rest.skip(4) =~= value@.skip(i + 4));
            out.append(" ");
            assert(before + unescape_spec(rest) =~= out@ + unescape_spec(value@.skip(i + 4)));
            i = i + 4;
        } else {
            assert(rest.len() >= 4 ==> rest.take(4) =~= value@.subrange(i as int, i + 4));
            assert(rest.drop_first() =~= value@.skip(i + 1));
            let piece = value.substring_char(i, i + 1);
            assert(piece@ =~= seq![rest[0]]);
            out.append(piece);
            assert(before + unescape_spec(rest) =~= out@ + unescape_spec(value@.skip(i + 1)));
            i = i + 1;
        }
    }
    assert(unescape_spec(value@.skip(n as int)) =~= Seq::<char>::empty());
    assert(out@ =~= unescape_spec(value@));
    out
}

/// The unit file for the executable at `executable`; the path is escaped on its `ExecStart=` line.
pub fn render_service_unit(executable: &str) -> (r: String)
    ensures
        r@ == service_unit_spec(executable@),
{
    let escaped_executable = escape_systemd_exec_argument(executable);
    let mut unit = String::from_str(SERVICE_UNIT_HEAD);
    unit.append(EXEC_START_KEY);
    unit.append(escaped_executable.as_str());
    unit.append(SERVICE_UNIT_TAIL);
    unit
}

/// The position of the first line feed at or after `from`.
fn find_newline(s: &str, from: usize, n: usize) -> (r: usize)
    requires
        n == s@.len(),
        from <= n,
    ensures
        r == newline_at_or_after(s@, from as int),
{
    let mut j = from;
    while j < n && s.get_char(j) != '\n'
        invariant
            n == s@.len(),
            from <= j <= n,
            newline_at_or_after(s@, from as int) == newline_at_or_after(s@, j as int),
        decreases n - j,
    {
        j = j + 1;
    }
    j
}

/// The executable named by the first `ExecStart=` line of a unit file,
/// trimmed; `None` when there is no such line or its value is blank.
pub fn parse_exec_start(unit: &str) -> (r: Option<&str>)
    ensures
        opt_str_view(r) == exec_start_spec(unit@),
{
    let n = unit.unicode_len();
    let key_len = EXEC_START_KEY.unicode_len();
    let mut start: usize = 0;
    while start < n
        invariant
            n == unit@.len(),
            key_len == EXEC_START_KEY@.len(),
            start <= n,
            first_line_with_prefix(unit@, 0, EXEC_START_KEY@) == first_line_with_prefix(unit@, start as int, EXEC_START_KEY@),
        decreases n - start,
    {
        let e = find_newline(unit, start, n);
        proof {
            lemma_newline_bounds(unit@, start as int);
        }
        let mut end = e;
        if e < n && e > start && unit.get_char(e - 1) == '\r' {
            end = e - 1;
        }
        let ghost line = line_content(unit@, start as int, e as int);
        assert(line =~= unit@.subrange(start as int, end as int));
        if has_prefix_at(unit, start, end, EXEC_START_KEY) {
            assert(unit@.subrange(start as int, start + key_len) =~= line.take(key_len as int));
            let raw = unit.substring_char(start + key_len, end);
            assert(raw@ =~= line.skip(key_len as int));
            let value = trim(raw);
            if value.is_empty() {
                return None;
            } else {
                return Some(value);
            }
        }
        assert(key_len <= line.len() ==> unit@.subrange(start as int, start + key_len) =~= line.take(key_len as int));
        if e >= n {
            return None;
        }
        start = e + 1;
    }
    None
}


/// Whether `\x20` occurs in the text.
pub open spec fn has_escaped_space(s: Seq<char>) -> bool {
    exists|i: int| 0 <= i && i + 4 <= s.len() && #[trigger] s.subrange(i, i + 4) == escaped_space()
}

/// The first character of an escaped path.
proof fn lemma_escape_first(q: Seq<char>)
    ensures
        q.len() == 0 <==> escape_spec(q).len() == 0,
        q.len() > 0 ==> escape_spec(q)[0] == (if q[0] == ' ' { '\\' } else { q[0] }),
{
    if q.len() > 0 {
        assert(escape_spec(q) == (if q[0] == ' ' { escaped_space() } else { seq![q[0]] }) + escape_spec(q.drop_first()));
    }
}

/// The last character of an escaped path.
proof fn lemma_escape_last(q: Seq<char>)
    requires
        q.len() > 0,
    ensures
        escape_spec(q).len() > 0,
        escape_spec(q).last() == (if q.last() == ' ' { '0' } else { q.last() }),
    decreases q.len(),
{
    let rest = q.drop_first();
    lemma_escape_first(q);
    lemma_escape_first(rest);
    if rest.len() > 0 {
        lemma_escape_last(rest);
        assert(rest.last() == q.last());
    } else {
        assert(q.len() == 1);
    }
}

/// An escaped path holds a line feed only where the path does.
proof fn lemma_escape_keeps_newlines_out(q: Seq<char>)
    requires
        forall|k: int| 0 <= k < q.len() ==> q[k] != '\n',
    ensures
        forall|k: int| 0 <= k < escape_spec(q).len() ==> escape_spec(q)[k] != '\n',
    decreases q.len(),
{
    if q.len() > 0 {
        let rest = q.drop_first();
        lemma_escape_keeps_newlines_out(rest);
        let piece = if q[0] == ' ' { escaped_space() } else { seq![q[0]] };
        assert(escape_spec(q) == piece + escape_spec(rest));
        assert forall|k: int| 0 <= k < escape_spec(q).len() implies escape_spec(q)[k] != '\n' by {
            if k >= piece.len() {
                assert(escape_spec(q)[k] == escape_spec(rest)[k - piece.len()]);
            }
        }
    }
}

/// An escaped path holds no space.
pub proof fn lemma_escape_removes_spaces(path: Seq<char>)
    ensures
        forall|k: int| 0 <= k < escape_spec(path).len() ==> escape_spec(path)[k] != ' ',
    decreases path.len(),
{
    if path.len() > 0 {
        let rest = path.drop_first();
        lemma_escape_removes_spaces(rest);
        let piece = if path[0] == ' ' { escaped_space() } else { seq![path[0]] };
        assert(escape_spec(path) == piece + escape_spec(rest));
        assert forall|k: int| 0 <= k < escape_spec(path).len() implies escape_spec(path)[k] != ' ' by {
            if k >= piece.len() {
                assert(escape_spec(path)[k] == escape_spec(rest)[k - piece.len()]);
            }
        }
    }
}

/// An escaped path that begins with `x20` comes from a path that begins with `x20`.
proof fn lemma_escape_starts_x20(q: Seq<char>)
    requires
        escape_spec(q).len() >= 3,
        escape_spec(q)[0] == 'x',
        escape_spec(q)[1] == '2',
        escape_spec(q)[2] == '0',
    ensures
        q.len() >= 3,
        q[0] == 'x',
        q[1] == '2',
        q[2] == '0',
{
    let q1 = q.drop_first();
    let q2 = q1.drop_first();
    lemma_escape_first(q);
    assert(q[0] == 'x');
    assert(escape_spec(q) == seq![q[0]] + escape_spec(q1));
    lemma_escape_first(q1);
    assert(q1[0] == '2');
    assert(escape_spec(q1) == seq![q1[0]] + escape_spec(q2));
    lemma_escape_first(q2);
    assert(q2[0] == '0');
}

/// Whether the text begins with `\x20`.
pub open spec fn starts_with_escaped_space(s: Seq<char>) -> bool {
    s.len() >= 4 && s.take(4) == escaped_space()
}

/// A `\x20` that does not begin the text occurs in the text without its first character.
proof fn lemma_escaped_space_in_rest(p: Seq<char>)
    requires
        p.len() > 0,
        has_escaped_space(p),
        !starts_with_escaped_space(p),
    ensures
        has_escaped_space(p.drop_first()),
{
    let rest = p.drop_first();
    let i = choose|i: int| 0 <= i && i + 4 <= p.len() && #[trigger] p.subrange(i, i + 4) == escaped_space();
    if i == 0 {
        assert(p.take(4) =~= p.subrange(0, 4));
    } else {
        let j = i - 1;
        assert(rest.subrange(j, j + 4) =~= p.subrange(i, i + 4));
    }
}

/// Reading back an escaped path, one step: a leading space or `\x20` of the
/// path reads back as a space, any other first character as itself.
proof fn lemma_unescape_escape_step(p: Seq<char>)
    requires
        p.len() > 0,
    ensures
        p[0] == ' ' ==> unescape_spec(escape_spec(p)) == seq![' '] + unescape_spec(escape_spec(p.drop_first())),
        starts_with_escaped_space(p) ==> unescape_spec(escape_spec(p)) == seq![' '] + unescape_spec(
            escape_spec(p.skip(4)),
        ),
        p[0] != ' ' && !starts_with_escaped_space(p) ==> unescape_spec(escape_spec(p)) == seq![p[0]]
            + unescape_spec(escape_spec(p.drop_first())),
{
    let rest = p.drop_first();
    let e = escape_spec(p);
    if p[0] == ' ' {
        assert(e == escaped_space() + escape_spec(rest));
        assert(e.take(4) =~= escaped_space());
        assert(e.skip(4) =~= escape_spec(rest));
    } else if starts_with_escaped_space(p) {
        assert(p.take(4)[0] == p[0]);
        let p1 = rest;
        let p2 = p1.drop_first();
        let p3 = p2.drop_first();
        let p4 = p3.drop_first();
        assert(p1[0] == p.take(4)[1]);
        assert(p2[0] == p.take(4)[2]);
        assert(p3[0] == p.take(4)[3]);
        assert(escape_spec(p3) == seq![p3[0]] + escape_spec(p4));
        assert(escape_spec(p2) == seq![p2[0]] + escape_spec(p3));
        assert(escape_spec(p1) == seq![p1[0]] + escape_spec(p2));
        assert(e == seq![p[0]] + escape_spec(p1));
        assert(p4 =~= p.skip(4));
        assert(e =~= escaped_space() + escape_spec(p.skip(4)));
        assert(e.take(4) =~= escaped_space());
        assert(e.skip(4) =~= escape_spec(p.skip(4)));
    } else {
        assert(e == seq![p[0]] + escape_spec(rest));
        if e.len() >= 4 && e.take(4) == escaped_space() {
            assert(e.take(4)[0] == '\\');
            assert(escape_spec(rest)[0] == e.take(4)[1]);
            assert(escape_spec(rest)[1] == e.take(4)[2]);
            assert(escape_spec(rest)[2] == e.take(4)[3]);
            lemma_escape_starts_x20(rest);
            assert(p.take(4) =~= escaped_space());
        }
        assert(e.drop_first() =~= escape_spec(rest));
    }
}

/// Reading an escaped path back never gives a longer text, and gives a
/// shorter one when the path holds `\x20` of its own.
proof fn lemma_unescape_escape_len(p: Seq<char>)
    ensures
        unescape_spec(escape_spec(p)).len() <= p.len(),
        has_escaped_space(p) ==> unescape_spec(escape_spec(p)).len() < p.len(),
    decreases p.len(),
{
    if p.len() == 0 {
        assert(escape_spec(p) =~= Seq::<char>::empty());
    } else {
        lemma_unescape_escape_step(p);
        if starts_with_escaped_space(p) {
            lemma_unescape_escape_len(p.skip(4));
        } else {
            lemma_unescape_escape_len(p.drop_first());
            if has_escaped_space(p) {
                lemma_escaped_space_in_rest(p);
            }
        }
    }
}

/// Reading an escaped path back gives the path, when the path holds no `\x20` of its own.
pub proof fn lemma_unescape_escape(path: Seq<char>)
    requires
        !has_escaped_space(path),
    ensures
        unescape_spec(escape_spec(path)) == path,
    decreases path.len(),
{
    if path.len() == 0 {
        assert(escape_spec(path) =~= Seq::<char>::empty());
    } else {
        let rest = path.drop_first();
        assert(!has_escaped_space(rest)) by {
            if has_escaped_space(rest) {
                let i = choose|i: int| 0 <= i && i + 4 <= rest.len() && #[trigger] rest.subrange(i, i + 4) == escaped_space();
                let j = i + 1;
                assert(path.subrange(j, j + 4) =~= rest.subrange(i, i + 4));
            }
        }
        assert(!starts_with_escaped_space(path)) by {
            if starts_with_escaped_space(path) {
                let j: int = 0;
                assert(path.subrange(j, j + 4) =~= path.take(4));
            }
        }
        lemma_unescape_escape(rest);
        lemma_unescape_escape_step(path);
        assert(unescape_spec(escape_spec(path)) =~= path);
    }
}

/// A path that holds `\x20` of its own does not come back from escaping and
/// reading back: that `\x20` is read as a space.
pub proof fn lemma_escaped_space_does_not_survive(path: Seq<char>)
    requires
        has_escaped_space(path),
    ensures
        unescape_spec(escape_spec(path)) != path,
{
    lemma_unescape_escape_len(path);
}

/// The line feed found from `from` is the one at `end` when none comes between.
proof fn lemma_newline_at(s: Seq<char>, from: int, end: int)
    requires
        0 <= from <= end <= s.len(),
        end == s.len() || s[end] == '\n',
        forall|k: int| from <= k < end ==> s[k] != '\n',
    ensures
        newline_at_or_after(s, from) == end,
    decreases end - from,
{
    if from < end {
        lemma_newline_at(s, from + 1, end);
    }
}

/// A line without the prefix is passed over.
proof fn lemma_skip_line(s: Seq<char>, start: int, end: int, prefix: Seq<char>)
    requires
        0 <= start <= end < s.len(),
        s[end] == '\n',
        forall|k: int| start <= k < end ==> s[k] != '\n',
        !starts_with(line_content(s, start, end), prefix),
    ensures
        first_line_with_prefix(s, start, prefix) == first_line_with_prefix(s, end + 1, prefix),
{
    lemma_newline_at(s, start, end);
}

/// A line of the unit's head that does not begin with `E` is passed over.
proof fn lemma_skip_head_line(s: Seq<char>, start: int, end: int)
    requires
        0 <= start <= end < s.len(),
        s[end] == '\n',
        forall|k: int| start <= k < end ==> s[k] != '\n',
        start == end || s[start] != 'E',
        EXEC_START_KEY@.len() == 10,
        EXEC_START_KEY@[0] == 'E',
    ensures
        first_line_with_prefix(s, start, EXEC_START_KEY@) == first_line_with_prefix(s, end + 1, EXEC_START_KEY@),
{
    let line = line_content(s, start, end);
    if starts_with(line, EXEC_START_KEY@) {
        assert(line.take(10)[0] == line[0]);
        assert(line[0] == s[start]);
    }
    lemma_skip_line(s, start, end, EXEC_START_KEY@);
}

/// A unit written for an executable names, on its `ExecStart=` line, the
/// escaped path. This holds for every non-empty path without a line feed
/// that neither begins nor ends with white space other than a space.
pub proof fn lemma_service_unit_names_executable(executable: Seq<char>)
    requires
        executable.len() > 0,
        forall|k: int| 0 <= k < executable.len() ==> executable[k] != '\n',
        executable[0] == ' ' || !is_whitespace_char(executable[0]),
        executable.last() == ' ' || !is_whitespace_char(executable.last()),
    ensures
        exec_start_spec(service_unit_spec(executable)) == Some(escape_spec(executable)),
{
    let esc = escape_spec(executable);
    lemma_escape_first(executable);
    lemma_escape_last(executable);
    lemma_escape_keeps_newlines_out(executable);
    assert(trim_start_spec(esc) == esc);
    assert(trim_end_spec(esc) == esc);
    assert(trim_spec(esc) == esc);

    reveal_strlit("[Unit]\nDescription=Watch power source and switch power profiles\nAfter=graphical-session.target\nPartOf=graphical-session.target\n\n[Service]\nType=simple\n");
    reveal_strlit("ExecStart=");
    reveal_strlit("\nEnvironment=RUST_LOG=info\nRestart=on-failure\nRestartSec=2\n\n[Install]\nWantedBy=graphical-session.target\n");
    let h = SERVICE_UNIT_HEAD@;
    let key = EXEC_START_KEY@;
    let t = SERVICE_UNIT_TAIL@;
    assert(h == "[Unit]\nDescription=Watch power source and switch power profiles\nAfter=graphical-session.target\nPartOf=graphical-session.target\n\n[Service]\nType=simple\n"@);
    assert(key == "ExecStart="@);
    assert(t == "\nEnvironment=RUST_LOG=info\nRestart=on-failure\nRestartSec=2\n\n[Install]\nWantedBy=graphical-session.target\n"@);
    assert(h.len() == 150);
    assert(key.len() == 10);
    assert(key[0] == 'E');
    assert(t.len() > 0 && t[0] == '\n');

    let s = service_unit_spec(executable);
    let e: int = 160 + esc.len() as int;
    assert(s.len() == e + t.len());
    assert forall|k: int| 0 <= k < 150 implies s[k] == h[k] by {}
    assert forall|k: int| 150 <= k < 160 implies s[k] == key[k - 150] by {}
    assert forall|k: int| 160 <= k < e implies s[k] == esc[k - 160] by {}
    assert(s[e] == t[0]);

    assert(forall|k: int| 0 <= k < 6 ==> h[k] != '\n');
    assert(h[6] == '\n' && h[0] != 'E');
    lemma_skip_head_line(s, 0, 6);
    assert(forall|k: int| 7 <= k < 63 ==> h[k] != '\n');
    assert(h[63] == '\n' && h[7] != 'E');
    lemma_skip_head_line(s, 7, 63);
    assert(forall|k: int| 64 <= k < 94 ==> h[k] != '\n');
    assert(h[94] == '\n' && h[64] != 'E');
    lemma_skip_head_line(s, 64, 94);
    assert(forall|k: int| 95 <= k < 126 ==> h[k] != '\n');
    assert(h[126] == '\n' && h[95] != 'E');
    lemma_skip_head_line(s, 95, 126);
    assert(h[127] == '\n');
    lemma_skip_head_line(s, 127, 127);
    assert(forall|k: int| 128 <= k < 137 ==> h[k] != '\n');
    assert(h[137] == '\n' && h[128] != 'E');
    lemma_skip_head_line(s, 128, 137);
    assert(forall|k: int| 138 <= k < 149 ==> h[k] != '\n');
    assert(h[149] == '\n' && h[138] != 'E');
    lemma_skip_head_line(s, 138, 149);

    assert(forall|k: int| 0 <= k < 10 ==> key[k] != '\n');
    assert forall|k: int| 150 <= k < e implies s[k] != '\n' by {
        if k < 160 {
            assert(s[k] == key[k - 150]);
        } else {
            assert(s[k] == esc[k - 160]);
        }
    }
    lemma_newline_at(s, 150, e);
    let raw = s.subrange(150, e);
    assert(raw =~= key + esc);
    assert(raw.last() == esc.last());
    assert(line_content(s, 150, e) == raw);
    assert(raw.take(10) =~= key);
    assert(raw.skip(10) =~= esc);
    assert(first_line_with_prefix(s, 150, key) == Some(esc));
}

/// Reading back the `ExecStart=` value of a unit written for an executable
/// gives the executable, for every non-empty path without a line feed and
/// without `\x20` of its own, that neither begins nor ends with white space
/// other than a space.
pub proof fn lemma_service_unit_round_trip(executable: Seq<char>)
    requires
        executable.len() > 0,
        forall|k: int| 0 <= k < executable.len() ==> executable[k] != '\n',
        !has_escaped_space(executable),
        executable[0] == ' ' || !is_whitespace_char(executable[0]),
        executable.last() == ' ' || !is_whitespace_char(executable.last()),
    ensures
        exec_start_spec(service_unit_spec(executable)) == Some(escape_spec(executable)),
        unescape_spec(escape_spec(executable)) == executable,
{
    lemma_service_unit_names_executable(executable);
    lemma_unescape_escape(executable);
}


/// The pieces of a path between its `/` separators, empty ones included.
pub open spec fn path_pieces(s: Seq<char>) -> Seq<Seq<char>>
    decreases s.len(),
{
    if s.len() == 0 {
        seq![Seq::empty()]
    } else {
        let pieces = path_pieces(s.drop_last());
        if s.last() == '/' {
            pieces.push(Seq::empty())
        } else {
            pieces.update(pieces.len() - 1, pieces.last().push(s.last()))
        }
    }
}

/// Whether a path begins at the root.
pub open spec fn path_has_root(s: Seq<char>) -> bool {
    s.len() > 0 && s[0] == '/'
}

/// Whether a relative path begins with a `.` component, which is kept.
pub open spec fn path_has_leading_cur_dir(s: Seq<char>) -> bool {
    !path_has_root(s) && s.len() > 0 && s[0] == '.' && (s.len() == 1 || s[1] == '/')
}

/// The named components of a path (`..` included): repeated separators, a
/// trailing separator and every `.` piece are normalized away.
pub open spec fn path_names(s: Seq<char>) -> Seq<Seq<char>> {
    path_pieces(s).filter(|piece: Seq<char>| piece.len() > 0 && piece != seq!['.'])
}

/// Whether two Unix paths have the same components, as `std::path::Path`
/// compares them: the same root, the same leading `.`, and the same names.
pub open spec fn path_eq(a: Seq<char>, b: Seq<char>) -> bool {
    &&& path_has_root(a) == path_has_root(b)
    &&& path_has_leading_cur_dir(a) == path_has_leading_cur_dir(b)
    &&& path_names(a) == path_names(b)
}

/// `Path::new(a) == Path::new(b)`: paths are compared by their components, as
/// `Path::components` documents them on Unix. Repeated separators and a
/// trailing separator are ignored, `.` is normalized away except at the start
/// of a relative path, and the root counts as a component.
#[verifier::external_body]
fn paths_equal(a: &str, b: &str) -> (r: bool)
    ensures
        r == path_eq(a@, b@),
{
    std::path::Path::new(a) == std::path::Path::new(b)
}

/// The message for a unit that runs another executable than the expected one.
pub open spec fn executable_mismatch_message(executable: Seq<char>, expected_executable: Seq<char>) -> Seq<char> {
    "service executable is incorrect: expected "@ + expected_executable + ", found "@ + executable
}

/// The verdict on a unit's executable, given whether its path matches the expected one.
pub fn service_executable_verdict(paths_match: bool, executable: &str, expected_executable: &str) -> (r: Result<(), String>)
    ensures
        paths_match ==> r is Ok,
        !paths_match ==> (r matches Err(message) && message@ == executable_mismatch_message(executable@, expected_executable@)),
{
    if paths_match {
        return Ok(());
    }
    let mut message = String::from_str("service executable is incorrect: expected ");
    message.append(expected_executable);
    message.append(", found ");
    message.append(executable);
    Err(message)
}

/// Checks that the unit runs the expected executable.
pub fn verify_service_executable(executable: &str, expected_executable: &str) -> (r: Result<(), String>)
    ensures
        r is Ok <==> path_eq(executable@, expected_executable@),
        executable@ == expected_executable@ ==> r is Ok,
        r matches Err(message) ==> message@ == executable_mismatch_message(executable@, expected_executable@),
{
    let paths_match = paths_equal(executable, expected_executable);
    service_executable_verdict(paths_match, executable, expected_executable)
}

/// The message for a unit file without a usable `ExecStart=` line.
pub open spec fn missing_exec_start_message(service_path: Seq<char>) -> Seq<char> {
    "service file "@ + service_path + " is missing ExecStart"@
}

/// The executable that an installed unit file runs: its `ExecStart=` value, unescaped.
pub fn service_unit_executable(service_path: &str, unit: &str) -> (r: Result<String, String>)
    ensures
        match exec_start_spec(unit@) {
            Some(value) => r matches Ok(executable) && executable@ == unescape_spec(value),
            None => r matches Err(message) && message@ == missing_exec_start_message(service_path@),
        },
{
    match parse_exec_start(unit) {
        Some(exec_start) => Ok(unescape_systemd_exec_argument(exec_start)),
        None => {
            let mut message = String::from_str("service file ");
            message.append(service_path);
            message.append(" is missing ExecStart");
            Err(message)
        },
    }
}

/// What `systemctl is-active` prints, read as whether the unit is active.
pub open spec fn is_active_spec(state: Seq<char>) -> Option<bool> {
    if state == "active"@ {
        Some(true)
    } else if state == "inactive"@ || state == "failed"@ || state == "activating"@ || state == "deactivating"@
        || state == "unknown"@ {
        Some(false)
    } else {
        None
    }
}

/// Reads the state that `systemctl is-active` printed: `Some(true)` for
/// `active`, `Some(false)` for a known inactive state, `None` otherwise.
pub fn parse_systemctl_is_active(stdout: &str) -> (r: Option<bool>)
    ensures
        r == is_active_spec(stdout@),
{
    if str_equal(stdout, "active") {
        Some(true)
    } else if str_equal(stdout, "inactive") || str_equal(stdout, "failed") || str_equal(stdout, "activating")
        || str_equal(stdout, "deactivating") || str_equal(stdout, "unknown") {
        Some(false)
    } else {
        None
    }
}

/// What a finished `systemctl` process gave back: whether it succeeded, its
/// output as text, and its exit status as `ExitStatus` displays it.
pub struct CommandOutput {
    pub success: bool,
    pub stdout: String,
    pub stderr: String,
    pub status: String,
}

/// The explanation of a failed command: its error output, else its output,
/// else its exit status; both outputs are taken trimmed.
pub open spec fn failure_details_spec(stdout: Seq<char>, stderr: Seq<char>, status: Seq<char>) -> Seq<char> {
    if trim_spec(stderr).len() > 0 {
        trim_spec(stderr)
    } else if trim_spec(stdout).len() > 0 {
        trim_spec(stdout)
    } else {
        "systemctl exited with status "@ + status
    }
}

/// The message for a failed `systemctl --user` call.
pub open spec fn systemctl_failure_message(args: Seq<&str>, details: Seq<char>) -> Seq<char> {
    "systemctl --user "@ + join_spaces_spec(views(args)) + " failed: "@ + details
}

/// The message for a failed `systemctl --user is-active` query.
pub open spec fn is_active_failure_message(unit: Seq<char>, details: Seq<char>) -> Seq<char> {
    "systemctl --user is-active "@ + unit + " failed: "@ + details
}

/// The explanation of a check whose output was not the expected one.
pub open spec fn expectation_details_spec(
    expected: Seq<char>,
    stdout: Seq<char>,
    stderr: Seq<char>,
    status: Seq<char>,
) -> Seq<char> {
    if trim_spec(stderr).len() > 0 {
        trim_spec(stderr)
    } else if trim_spec(stdout).len() > 0 {
        "expected "@ + expected + ", got "@ + trim_spec(stdout)
    } else {
        "systemctl exited with status "@ + status
    }
}

/// The message for a service that is not in the state a check expects.
pub open spec fn expectation_failure_message(
    state_description: Seq<char>,
    args: Seq<&str>,
    details: Seq<char>,
) -> Seq<char> {
    "service is not "@ + state_description + ": systemctl --user "@ + join_spaces_spec(views(args)) + " failed: "@
        + details
}

/// The explanation of a failed command.
fn failure_details(output: &CommandOutput) -> (r: String)
    ensures
        r@ == failure_details_spec(output.stdout@, output.stderr@, output.status@),
{
    let stderr = trim(output.stderr.as_str());
    let stdout = trim(output.stdout.as_str());
    if !stderr.is_empty() {
        String::from_str(stderr)
    } else if !stdout.is_empty() {
        String::from_str(stdout)
    } else {
        let mut details = String::from_str("systemctl exited with status ");
        details.append(output.status.as_str());
        details
    }
}

/// The result of `systemctl --user <args>`: success, or an error that names
/// the command and explains the failure.
pub fn systemctl_user_outcome(args: &[&str], output: &CommandOutput) -> (r: Result<(), String>)
    ensures
        output.success ==> r is Ok,
        !output.success ==> (r matches Err(message) && message@ == systemctl_failure_message(
            args@,
            failure_details_spec(output.stdout@, output.stderr@, output.status@),
        )),
{
    if output.success {
        return Ok(());
    }
    let details = failure_details(output);
    let mut message = String::from_str("systemctl --user ");
    let joined = join_spaces(args);
    message.append(joined.as_str());
    message.append(" failed: ");
    message.append(details.as_str());
    Err(message)
}

/// The result of `systemctl --user is-active <unit>`: whether the unit is
/// active, read from the trimmed output, or an error when the output is not a
/// known state.
pub fn systemctl_is_active_outcome(unit: &str, output: &CommandOutput) -> (r: Result<bool, String>)
    ensures
        match is_active_spec(trim_spec(output.stdout@)) {
            Some(active) => r == Ok::<bool, String>(active),
            None => r matches Err(message) && message@ == is_active_failure_message(
                unit@,
                failure_details_spec(output.stdout@, output.stderr@, output.status@),
            ),
        },
{
    let stdout = trim(output.stdout.as_str());
    if let Some(is_active) = parse_systemctl_is_active(stdout) {
        return Ok(is_active);
    }
    let details = failure_details(output);
    let mut message = String::from_str("systemctl --user is-active ");
    message.append(unit);
    message.append(" failed: ");
    message.append(details.as_str());
    Err(message)
}

/// The result of a check that `systemctl --user <args>` succeeds and prints
/// `expected`: success, or an error that says which state the service is not in.
pub fn systemctl_expect_output_outcome(
    args: &[&str],
    expected: &str,
    state_description: &str,
    output: &CommandOutput,
) -> (r: Result<(), String>)
    ensures
        r is Ok <==> (output.success && trim_spec(output.stdout@) == expected@),
        r matches Err(message) ==> message@ == expectation_failure_message(
            state_description@,
            args@,
            expectation_details_spec(expected@, output.stdout@, output.stderr@, output.status@),
        ),
{
    let stdout = trim(output.stdout.as_str());
    if output.success && str_equal(stdout, expected) {
        return Ok(());
    }
    let stderr = trim(output.stderr.as_str());
    let details = if !stderr.is_empty() {
        String::from_str(stderr)
    } else if !stdout.is_empty() {
        let mut d = String::from_str("expected ");
        d.append(expected);
        d.append(", got ");
        d.append(stdout);
        d
    } else {
        let mut d = String::from_str("systemctl exited with status ");
        d.append(output.status.as_str());
        d
    };
    let mut message = String::from_str("service is not ");
    message.append(state_description);
    message.append(": systemctl --user ");
    let joined = join_spaces(args);
    message.append(joined.as_str());
    message.append(" failed: ");
    message.append(details.as_str());
    Err(message)
}


/// A step of installing the service.
#[derive(Debug, Clone, Copy, PartialEq, Eq)]
pub enum InstallStep {
    /// `systemctl --user stop` the running service.
    StopService,
    /// Create the unit directory and write the unit file.
    WriteUnit,
    /// `systemctl --user daemon-reload`.
    ReloadDaemon,
    /// `systemctl --user enable --now` the service.
    EnableService,
}

/// The steps of an installation, once it is known whether the service runs.
pub open spec fn install_plan_spec(service_active: bool) -> Seq<InstallStep> {
    if service_active {
        seq![InstallStep::StopService, InstallStep::WriteUnit, InstallStep::ReloadDaemon, InstallStep::EnableService]
    } else {
        seq![InstallStep::WriteUnit, InstallStep::ReloadDaemon, InstallStep::EnableService]
    }
}

/// What installing does, in order: stop the service if it runs, write the
/// unit, reload the user manager, enable and start the service.
pub fn install_plan(service_active: bool) -> (r: Vec<InstallStep>)
    ensures
        r@ == install_plan_spec(service_active),
{
    let mut steps = Vec::new();
    if service_active {
        steps.push(InstallStep::StopService);
    }
    steps.push(InstallStep::WriteUnit);
    steps.push(InstallStep::ReloadDaemon);
    steps.push(InstallStep::EnableService);
    proof {
        assert(steps@ =~= install_plan_spec(service_active));
    }
    steps
}

/// Whether uninstalling goes on after `systemctl --user disable --now`: a
/// failure counts only while the unit file still exists.
pub fn disable_outcome(disable_result: Result<(), String>, service_file_exists: bool) -> (r: Result<(), String>)
    ensures
        r == (match disable_result {
            Err(error) if service_file_exists => Err::<(), String>(error),
            _ => Ok(()),
        }),
{
    match disable_result {
        Err(error) if service_file_exists => Err(error),
        _ => Ok(()),
    }
}

/// How removing the unit file went.
#[derive(Debug, Clone, PartialEq, Eq)]
pub enum RemovalResult {
    Removed,
    NotFound,
    Failed(String),
}

/// Whether uninstalling goes on after removing the unit file: a file that
/// was already gone is no error.
pub fn removal_outcome(removal: RemovalResult) -> (r: Result<(), String>)
    ensures
        r == (match removal {
            RemovalResult::Failed(error) => Err::<(), String>(error),
            _ => Ok(()),
        }),
{
    match removal {
        RemovalResult::Failed(error) => Err(error),
        _ => Ok(()),
    }
}


/// The unit directory below a home directory, joined as `Path::join` does on
/// Unix: with a `/` in between unless the home is empty or already ends with one.
pub open spec fn service_dir_spec(home: Seq<char>) -> Seq<char> {
    if home.len() == 0 || home.last() == '/' {
        home + ".config/systemd/user"@
    } else {
        home + "/"@ + ".config/systemd/user"@
    }
}

/// The directory of systemd user units below the home directory named by
/// `HOME`; an error when `HOME` is not set.
pub fn service_dir_from_home(home: Option<&str>) -> (r: Result<String, String>)
    ensures
        match home {
            Some(home) => r matches Ok(dir) && dir@ == service_dir_spec(home@),
            None => r matches Err(message) && message@ == "HOME is not set"@,
        },
{
    match home {
        None => Err(String::from_str("HOME is not set")),
        Some(home) => {
            let n = home.unicode_len();
            let mut dir = String::from_str(home);
            if n > 0 && home.get_char(n - 1) != '/' {
                dir.append("/");
            }
            dir.append(".config/systemd/user");
            Ok(dir)
        },
    }
}

/// The first check of an installed service: its unit file must exist.
pub fn service_file_check(service_path: &str, service_file_exists: bool) -> (r: Result<(), String>)
    ensures
        service_file_exists ==> r is Ok,
        !service_file_exists ==> (r matches Err(message) && message@ == "service file not found: "@
            + service_path@),
{
    if service_file_exists {
        return Ok(());
    }
    let mut message = String::from_str("service file not found: ");
    message.append(service_path);
    Err(message)
}

/// The check of an installed service's executable: it must exist.
pub fn service_binary_check(executable: &str, executable_exists: bool) -> (r: Result<(), String>)
    ensures
        executable_exists ==> r is Ok,
        !executable_exists ==> (r matches Err(message) && message@ == "service binary not found: "@
            + executable@),
{
    if executable_exists {
        return Ok(());
    }
    let mut message = String::from_str("service binary not found: ");
    message.append(executable);
    Err(message)
}

/// Whatever the executable's path, the unit is the fixed head, the
/// `ExecStart=` key, the escaped path and the fixed tail, and so always ends
/// with its `[Install]` section naming `WantedBy=graphical-session.target`.
pub proof fn lemma_service_unit_layout(executable: Seq<char>)
    ensures
        service_unit_spec(executable).len() == SERVICE_UNIT_HEAD@.len() + EXEC_START_KEY@.len() + escape_spec(
            executable,
        ).len() + SERVICE_UNIT_TAIL@.len(),
        service_unit_spec(executable).take(SERVICE_UNIT_HEAD@.len() as int) == SERVICE_UNIT_HEAD@,
        service_unit_spec(executable).subrange(
            SERVICE_UNIT_HEAD@.len() as int,
            (SERVICE_UNIT_HEAD@.len() + EXEC_START_KEY@.len()) as int,
        ) == EXEC_START_KEY@,
        service_unit_spec(executable).subrange(
            (SERVICE_UNIT_HEAD@.len() + EXEC_START_KEY@.len()) as int,
            service_unit_spec(executable).len() - SERVICE_UNIT_TAIL@.len(),
        ) == escape_spec(executable),
        service_unit_spec(executable).skip(
            service_unit_spec(executable).len() - SERVICE_UNIT_TAIL@.len(),
        ) == SERVICE_UNIT_TAIL@,
        SERVICE_UNIT_TAIL@ == "\nEnvironment=RUST_LOG=info\nRestart=on-failure\nRestartSec=2\n\n[Install]\nWantedBy=graphical-session.target\n"@,
        service_unit_spec(executable).skip(
            service_unit_spec(executable).len() - "[Install]\nWantedBy=graphical-session.target\n"@.len(),
        ) == "[Install]\nWantedBy=graphical-session.target\n"@,
{
    reveal_strlit("\nEnvironment=RUST_LOG=info\nRestart=on-failure\nRestartSec=2\n\n[Install]\nWantedBy=graphical-session.target\n");
    reveal_strlit("[Install]\nWantedBy=graphical-session.target\n");
    let u = service_unit_spec(executable);
    let h = SERVICE_UNIT_HEAD@;
    let k = EXEC_START_KEY@;
    let e = escape_spec(executable);
    let t = SERVICE_UNIT_TAIL@;
    assert(u =~= h + k + e + t);
    assert(u.take(h.len() as int) =~= h);
    assert(u.subrange(h.len() as int, (h.len() + k.len()) as int) =~= k);
    assert(u.subrange((h.len() + k.len()) as int, u.len() - t.len()) =~= e);
    assert(u.skip(u.len() - t.len()) =~= t);
    let w = "[Install]\nWantedBy=graphical-session.target\n"@;
    assert(t == "\nEnvironment=RUST_LOG=info\nRestart=on-failure\nRestartSec=2\n\n[Install]\nWantedBy=graphical-session.target\n"@);
    assert(t.len() == 104);
    assert(w.len() == 44);
    assert(t.skip(60) =~= w);
    assert(u.skip(u.len() - w.len()) =~= t.skip(60));
}

/// The unit directory lies below the home directory: it is the home followed
/// by `/.config/systemd/user`, with no second `/` when the home already ends
/// with one.
pub proof fn lemma_service_dir_below_home(home: Seq<char>)
    ensures
        service_dir_spec(home).take(home.len() as int) == home,
        home.len() > 0 && home.last() != '/' ==> service_dir_spec(home) == home + "/.config/systemd/user"@,
        home.len() > 0 && home.last() == '/' ==> service_dir_spec(home) == home.drop_last()
            + "/.config/systemd/user"@,
        home.len() == 0 ==> service_dir_spec(home) == ".config/systemd/user"@,
{
    reveal_strlit("/");
    reveal_strlit(".config/systemd/user");
    reveal_strlit("/.config/systemd/user");
    let tail = ".config/systemd/user"@;
    let slash_tail = "/.config/systemd/user"@;
    assert(slash_tail =~= "/"@ + tail);
    assert(service_dir_spec(home).take(home.len() as int) =~= home);
    if home.len() > 0 && home.last() == '/' {
        assert(home =~= home.drop_last() + "/"@);
        assert(service_dir_spec(home) =~= home.drop_last() + slash_tail);
    }
    if home.len() > 0 && home.last() != '/' {
        assert(service_dir_spec(home) =~= home + slash_tail);
    }
    if home.len() == 0 {
        assert(service_dir_spec(home) =~= tail);
    }
}
} // verus!
