//! Session environment: where the runtime directory is and how the D-Bus session bus is
//! found.

use vstd::prelude::*;

use crate::discovery::{join_path, path_join};
use crate::text::{chars_of, string_from_chars};

verus! {

/// The decimal digit for `d < 10`.
pub open spec fn digit_char(d: nat) -> char {
    if d == 0 { '0' } else if d == 1 { '1' } else if d == 2 { '2' } else if d == 3 { '3' } else if d == 4 { '4' }
    else if d == 5 { '5' } else if d == 6 { '6' } else if d == 7 { '7' } else if d == 8 { '8' } else { '9' }
}

/// The decimal representation of `n`, without leading zeros.
pub open spec fn decimal(n: nat) -> Seq<char>
    decreases n,
{
    if n < 10 {
        seq![digit_char(n)]
    } else {
        decimal(n / 10).push(digit_char(n % 10))
    }
}

fn digit(d: u32) -> (c: char)
    requires
        d < 10,
    ensures
        c == digit_char(d as nat),
{
    if d == 0 { '0' } else if d == 1 { '1' } else if d == 2 { '2' } else if d == 3 { '3' } else if d == 4 { '4' }
    else if d == 5 { '5' } else if d == 6 { '6' } else if d == 7 { '7' } else if d == 8 { '8' } else { '9' }
}

fn push_decimal(n: u32, out: &mut Vec<char>)
    ensures
        final(out)@ == old(out)@ + decimal(n as nat),
    decreases n,
{
    if n < 10 {
        out.push(digit(n));
        assert(out@ =~= old(out)@ + decimal(n as nat));
    } else {
        push_decimal(n / 10, out);
        out.push(digit(n % 10));
        assert(out@ =~= old(out)@ + decimal(n as nat));
    }
}

/// The decimal representation of `n`.
pub fn u32_decimal(n: u32) -> (res: String)
    ensures
        res@ == decimal(n as nat),
{
    let mut out: Vec<char> = Vec::new();
    push_decimal(n, &mut out);
    assert(out@ =~= decimal(n as nat));
    string_from_chars(&out)
}

/// The standard runtime directory of user `uid`.
pub open spec fn runtime_dir_of(uid: nat) -> Seq<char> {
    "/run/user/"@ + decimal(uid)
}

/// The standard runtime directory of user `uid`: `/run/user/<uid>`.
pub fn runtime_dir_for(uid: u32) -> (res: String)
    ensures
        res@ == runtime_dir_of(uid as nat),
{
    String::from_str("/run/user/").concat(u32_decimal(uid).as_str())
}

/// The runtime directory used when the standard one cannot be created.
pub open spec fn fallback_runtime_dir_of(uid: nat) -> Seq<char> {
    "/tmp/waygreet-runtime-"@ + decimal(uid)
}

/// The runtime directory used when the standard one cannot be created:
/// `/tmp/waygreet-runtime-<uid>`.
pub fn fallback_runtime_dir(uid: u32) -> (res: String)
    ensures
        res@ == fallback_runtime_dir_of(uid as nat),
{
    String::from_str("/tmp/waygreet-runtime-").concat(u32_decimal(uid).as_str())
}

/// The path of the session bus socket: `bus` in the runtime directory, which is the
/// `XDG_RUNTIME_DIR` value when it is set, else the standard one.
pub open spec fn bus_socket_path(runtime_dir_env: Option<Seq<char>>, uid: nat) -> Seq<char> {
    match runtime_dir_env {
        Some(d) => path_join(d, "bus"@),
        None => path_join(runtime_dir_of(uid), "bus"@),
    }
}

/// The path of the session bus socket.
pub fn bus_socket(runtime_dir_env: Option<&str>, uid: u32) -> (res: String)
    ensures
        res@ == bus_socket_path(
            match runtime_dir_env {
                Some(d) => Some(d@),
                None => None,
            },
            uid as nat,
        ),
{
    match runtime_dir_env {
        Some(d) => join_path(d, "bus"),
        None => {
            let dir = runtime_dir_for(uid);
            join_path(dir.as_str(), "bus")
        },
    }
}

/// The bus address of a socket path.
pub open spec fn socket_address(path: Seq<char>) -> Seq<char> {
    "unix:path="@ + path
}

/// The bus address of a socket path: `unix:path=<path>`.
pub fn bus_address(path: &str) -> (res: String)
    ensures
        res@ == socket_address(path@),
{
    String::from_str("unix:path=").concat(path)
}

/// Whether `c` is white space (the Unicode `White_Space` property, as `char::is_whitespace`).
pub open spec fn is_space(c: char) -> bool {
    let v = c as u32;
    (0x09 <= v && v <= 0x0d) || v == 0x20 || v == 0x85 || v == 0xa0 || v == 0x1680
        || (0x2000 <= v && v <= 0x200a) || v == 0x2028 || v == 0x2029 || v == 0x202f
        || v == 0x205f || v == 0x3000
}

fn is_space_exec(c: char) -> (res: bool)
    ensures
        res == is_space(c),
{
    let v = c as u32;
    (0x09 <= v && v <= 0x0d) || v == 0x20 || v == 0x85 || v == 0xa0 || v == 0x1680
        || (0x2000 <= v && v <= 0x200a) || v == 0x2028 || v == 0x2029 || v == 0x202f
        || v == 0x205f || v == 0x3000
}

/// `s` without leading and trailing white space, as `str::trim` gives it.
pub open spec fn trimmed(s: Seq<char>) -> Seq<char> {
    s.subrange(leading_spaces(s) as int, s.len() - trailing_spaces(s))
}

/// The number of white space characters that `s` starts with.
pub open spec fn leading_spaces(s: Seq<char>) -> nat
    decreases s.len(),
{
    if s.len() > 0 && is_space(s[0]) {
        1 + leading_spaces(s.drop_first())
    } else {
        0
    }
}

/// The number of white space characters that `s` ends with, not counting those it starts
/// with when it is all white space.
pub open spec fn trailing_spaces(s: Seq<char>) -> nat
    decreases s.len(),
{
    if s.len() > leading_spaces(s) && is_space(s.last()) {
        1 + trailing_spaces(s.drop_last())
    } else {
        0
    }
}

proof fn lemma_leading_spaces(s: Seq<char>)
    ensures
        leading_spaces(s) <= s.len(),
        forall|i: int| 0 <= i < leading_spaces(s) ==> is_space(#[trigger] s[i]),
        leading_spaces(s) < s.len() ==> !is_space(s[leading_spaces(s) as int]),
    decreases s.len(),
{
    if s.len() > 0 && is_space(s[0]) {
        lemma_leading_spaces(s.drop_first());
        assert forall|i: int| 0 <= i < leading_spaces(s) implies is_space(#[trigger] s[i]) by {
            if i > 0 {
                assert(s[i] == s.drop_first()[i - 1]);
            }
        }
    }
}

proof fn lemma_leading_spaces_prefix(s: Seq<char>, k: int)
    requires
        leading_spaces(s) < k <= s.len(),
    ensures
        leading_spaces(s.take(k)) == leading_spaces(s),
    decreases s.len(),
{
    if s.len() > 0 && is_space(s[0]) {
        assert(s.take(k).drop_first() =~= s.drop_first().take(k - 1));
        lemma_leading_spaces_prefix(s.drop_first(), k - 1);
    }
}

proof fn lemma_trailing_spaces(s: Seq<char>)
    ensures
        leading_spaces(s) + trailing_spaces(s) <= s.len(),
    decreases s.len(),
{
    lemma_leading_spaces(s);
    if s.len() > leading_spaces(s) && is_space(s.last()) {
        lemma_leading_spaces_prefix(s, s.len() - 1);
        assert(s.drop_last() =~= s.take(s.len() - 1));
        lemma_trailing_spaces(s.drop_last());
    }
}

/// `s` without leading and trailing white space.
pub fn trim_spaces(s: &str) -> (res: String)
    ensures
        res@ == trimmed(s@),
{
    let c = chars_of(s);
    let n = c.len();
    let mut start: usize = 0;
    proof {
        lemma_leading_spaces(c@);
        lemma_trailing_spaces(c@);
        assert(c@.skip(0) =~= c@);
    }
    while start < n && is_space_exec(c[start])
        invariant
            n == c@.len(),
            start <= n,
            start <= leading_spaces(c@),
            leading_spaces(c@) == start + leading_spaces(c@.skip(start as int)),
        decreases n - start,
    {
        assert(c@.skip(start as int).drop_first() =~= c@.skip(start + 1));
        start = start + 1;
    }
    assert(start == leading_spaces(c@)) by {
        if start < n {
            assert(c@.skip(start as int)[0] == c@[start as int]);
        }
    }
    let mut end: usize = n;
    assert(c@.take(n as int) =~= c@);
    while end > start && is_space_exec(c[end - 1])
        invariant
            n == c@.len(),
            start == leading_spaces(c@),
            start <= end <= n,
            trailing_spaces(c@) == (n - end) + trailing_spaces(c@.take(end as int)),
            end > start ==> leading_spaces(c@.take(end as int)) == start,
        decreases end,
    {
        assert(c@.take(end as int).drop_last() =~= c@.take(end - 1));
        assert(c@.take(end as int).last() == c@[end - 1]);
        proof {
            if end - 1 > start {
                lemma_leading_spaces_prefix(c@, end - 1);
            }
        }
        end = end - 1;
    }
    assert(end == n - trailing_spaces(c@)) by {
        if end > start {
            assert(c@.take(end as int).last() == c@[end - 1]);
        }
    }
    let mut out: Vec<char> = Vec::new();
    let mut i = start;
    while i < end
        invariant
            start <= i <= end <= n,
            n == c@.len(),
            out@ == c@.subrange(start as int, i as int),
        decreases end - i,
    {
        out.push(c[i]);
        assert(out@ =~= c@.subrange(start as int, i + 1));
        i = i + 1;
    }
    string_from_chars(&out)
}

/// The address that `dbus-daemon --print-address` reported: its trimmed output, when it
/// succeeded and printed something.
pub open spec fn daemon_address_of(success: bool, stdout: Seq<char>) -> Option<Seq<char>> {
    if success && trimmed(stdout).len() > 0 {
        Some(trimmed(stdout))
    } else {
        None
    }
}

/// The address that `dbus-daemon --print-address` reported, if any.
pub fn daemon_address(success: bool, stdout: &str) -> (res: Option<String>)
    ensures
        match daemon_address_of(success, stdout@) {
            Some(a) => res matches Some(r) && r@ == a,
            None => res is None,
        },
{
    if !success {
        return None;
    }
    let t = trim_spaces(stdout);
    if t.as_str().is_empty() {
        None
    } else {
        Some(t)
    }
}

/// A line without the `\r` of a `\r\n` ending.
pub open spec fn strip_cr(line: Seq<char>) -> Seq<char> {
    if line.len() > 0 && line.last() == '\r' {
        line.drop_last()
    } else {
        line
    }
}

/// The complete lines of `s` and the text after the last newline.
pub open spec fn lines_state(s: Seq<char>) -> (Seq<Seq<char>>, Seq<char>)
    decreases s.len(),
{
    if s.len() == 0 {
        (Seq::empty(), Seq::empty())
    } else {
        let (ls, cur) = lines_state(s.drop_last());
        if s.last() == '\n' {
            (ls.push(strip_cr(cur)), Seq::empty())
        } else {
            (ls, cur.push(s.last()))
        }
    }
}

/// The lines of `s`, as `str::lines` gives them: split at `\n` or `\r\n`, the last line
/// ending being optional.
pub open spec fn text_lines(s: Seq<char>) -> Seq<Seq<char>> {
    let (ls, cur) = lines_state(s);
    if cur.len() > 0 {
        ls.push(cur)
    } else {
        ls
    }
}

/// The views of a list of character vectors.
pub open spec fn char_vecs(v: Seq<Vec<char>>) -> Seq<Seq<char>> {
    v.map_values(|x: Vec<char>| x@)
}

/// The lines of `s`.
pub fn split_lines(s: &str) -> (res: Vec<Vec<char>>)
    ensures
        char_vecs(res@) == text_lines(s@),
{
    let c = chars_of(s);
    let mut lines: Vec<Vec<char>> = Vec::new();
    let mut cur: Vec<char> = Vec::new();
    let mut i: usize = 0;
    while i < c.len()
        invariant
            i <= c@.len(),
            c@ == s@,
            (char_vecs(lines@), cur@) == lines_state(c@.take(i as int)),
        decreases c@.len() - i,
    {
        assert(c@.take(i + 1).drop_last() =~= c@.take(i as int));
        if c[i] == '\n' {
            let n = cur.len();
            if n > 0 && cur[n - 1] == '\r' {
                cur.pop();
            }
            let ghost before = char_vecs(lines@);
            let ghost line = cur@;
            lines.push(cur);
            assert(char_vecs(lines@) =~= before.push(line));
            cur = Vec::new();
        } else {
            cur.push(c[i]);
        }
        i = i + 1;
    }
    assert(c@.take(i as int) =~= s@);
    if cur.len() > 0 {
        let ghost before = char_vecs(lines@);
        let ghost last = cur@;
        lines.push(cur);
        assert(char_vecs(lines@) =~= before.push(last));
    }
    lines
}

/// `s` without the copies of `c` that it starts with.
pub open spec fn strip_leading(s: Seq<char>, c: char) -> Seq<char>
    decreases s.len(),
{
    if s.len() > 0 && s[0] == c {
        strip_leading(s.drop_first(), c)
    } else {
        s
    }
}

/// `s` without the copies of `c` that it ends with.
pub open spec fn strip_trailing(s: Seq<char>, c: char) -> Seq<char>
    decreases s.len(),
{
    if s.len() > 0 && s.last() == c {
        strip_trailing(s.drop_last(), c)
    } else {
        s
    }
}

/// `s` without the copies of `c` at either end, as `str::trim_matches` gives it.
pub open spec fn trim_char(s: Seq<char>, c: char) -> Seq<char> {
    strip_trailing(strip_leading(s, c), c)
}

fn strip_leading_exec(s: Vec<char>, c: char) -> (res: Vec<char>)
    ensures
        res@ == strip_leading(s@, c),
{
    let mut i: usize = 0;
    assert(s@.skip(0) =~= s@);
    while i < s.len() && s[i] == c
        invariant
            i <= s@.len(),
            strip_leading(s@, c) == strip_leading(s@.skip(i as int), c),
        decreases s@.len() - i,
    {
        assert(s@.skip(i as int).drop_first() =~= s@.skip(i + 1));
        i = i + 1;
    }
    let mut res: Vec<char> = Vec::new();
    let mut j = i;
    while j < s.len()
        invariant
            i <= j <= s@.len(),
            res@ == s@.subrange(i as int, j as int),
        decreases s@.len() - j,
    {
        res.push(s[j]);
        assert(res@ =~= s@.subrange(i as int, j + 1));
        j = j + 1;
    }
    assert(res@ =~= s@.skip(i as int));
    res
}

fn strip_trailing_exec(s: Vec<char>, c: char) -> (res: Vec<char>)
    ensures
        res@ == strip_trailing(s@, c),
{
    let mut v = s;
    while v.len() > 0 && v[v.len() - 1] == c
        invariant
            strip_trailing(s@, c) == strip_trailing(v@, c),
        decreases v@.len(),
    {
        let ghost before = v@;
        v.pop();
        assert(v@ =~= before.drop_last());
    }
    v
}

/// The prefix of the line that announces the bus address in `dbus-launch --sh-syntax`
/// output.
pub open spec fn address_prefix() -> Seq<char> {
    "DBUS_SESSION_BUS_ADDRESS="@
}

/// The first of the lines that starts with `p`.
pub open spec fn first_with_prefix(lines: Seq<Seq<char>>, p: Seq<char>) -> Option<Seq<char>>
    decreases lines.len(),
{
    if lines.len() == 0 {
        None
    } else if p.len() <= lines[0].len() && lines[0].take(p.len() as int) == p {
        Some(lines[0])
    } else {
        first_with_prefix(lines.drop_first(), p)
    }
}

/// A shell assignment's value as plain text: the terminating `;` and white space removed,
/// then the quotes around it.
pub open spec fn unquoted_value(v: Seq<char>) -> Seq<char> {
    trim_char(trim_char(trimmed(strip_trailing(v, ';')), '\''), '"')
}

/// The address that `dbus-launch --sh-syntax` reported: from the first line that sets
/// `DBUS_SESSION_BUS_ADDRESS`, the value with the `;` that ends the shell statement and
/// surrounding white space removed, then the shell quotes (`'`, then `"`) stripped from
/// both ends.
pub open spec fn launch_address_of(success: bool, stdout: Seq<char>) -> Option<Seq<char>> {
    if !success {
        None
    } else {
        match first_with_prefix(text_lines(stdout), address_prefix()) {
            Some(line) => Some(unquoted_value(line.skip(address_prefix().len() as int))),
            None => None,
        }
    }
}

fn suffix_from(v: &Vec<char>, start: usize) -> (res: Vec<char>)
    requires
        start <= v@.len(),
    ensures
        res@ == v@.skip(start as int),
{
    let mut res: Vec<char> = Vec::new();
    let mut k = start;
    while k < v.len()
        invariant
            start <= k <= v@.len(),
            res@ == v@.subrange(start as int, k as int),
        decreases v@.len() - k,
    {
        res.push(v[k]);
        assert(res@ =~= v@.subrange(start as int, k + 1));
        k = k + 1;
    }
    assert(res@ =~= v@.skip(start as int));
    res
}

fn starts_with_chars(line: &Vec<char>, p: &Vec<char>) -> (res: bool)
    ensures
        res == (p@.len() <= line@.len() && line@.take(p@.len() as int) == p@),
{
    if p.len() > line.len() {
        return false;
    }
    let mut j: usize = 0;
    while j < p.len()
        invariant
            p@.len() <= line@.len(),
            j <= p@.len(),
            forall|m: int| 0 <= m < j ==> line@[m] == p@[m],
        decreases p@.len() - j,
    {
        if line[j] != p[j] {
            assert(line@.take(p@.len() as int)[j as int] != p@[j as int]);
            return false;
        }
        j = j + 1;
    }
    assert(line@.take(p@.len() as int) =~= p@);
    true
}

/// The address that `dbus-launch --sh-syntax` reported, if any.
pub fn launch_address(success: bool, stdout: &str) -> (res: Option<String>)
    ensures
        match launch_address_of(success, stdout@) {
            Some(a) => res matches Some(r) && r@ == a,
            None => res is None,
        },
{
    if !success {
        return None;
    }
    let lines = split_lines(stdout);
    let p = chars_of("DBUS_SESSION_BUS_ADDRESS=");
    let mut i: usize = 0;
    assert(char_vecs(lines@).skip(0) =~= char_vecs(lines@));
    while i < lines.len()
        invariant
            i <= lines@.len(),
            success,
            p@ == address_prefix(),
            char_vecs(lines@) == text_lines(stdout@),
            first_with_prefix(text_lines(stdout@), address_prefix())
                == first_with_prefix(char_vecs(lines@).skip(i as int), address_prefix()),
        decreases lines@.len() - i,
    {
        let ghost rest = char_vecs(lines@).skip(i as int);
        assert(rest[0] == lines@[i as int]@);
        if starts_with_chars(&lines[i], &p) {
            assert(first_with_prefix(rest, address_prefix()) == Some(lines@[i as int]@));
            let value = suffix_from(&lines[i], p.len());
            let a = strip_trailing_exec(value, ';');
            let t = trim_spaces(string_from_chars(&a).as_str());
            let a = chars_of(t.as_str());
            let a = strip_leading_exec(a, '\'');
            let a = strip_trailing_exec(a, '\'');
            let a = strip_leading_exec(a, '"');
            let a = strip_trailing_exec(a, '"');
            assert(a@ == unquoted_value(lines@[i as int]@.skip(address_prefix().len() as int)));
            return Some(string_from_chars(&a));
        }
        assert(rest.drop_first() =~= char_vecs(lines@).skip(i + 1));
        i = i + 1;
    }
    None
}

} // verus!
