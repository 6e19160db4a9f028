//! Reading what the container runtime reports: the status listing and the
//! editor's configuration file.

use crate::forward::opt_view;
use vstd::prelude::*;

verus! {

/// One row of the runtime's status listing.
pub struct ContainerStatus {
    pub name: String,
    pub status: String,
}

/// Whether `line` holds exactly one `|`, at index `k`.
pub open spec fn sole_bar_at(line: Seq<char>, k: int) -> bool {
    0 <= k < line.len() && line[k] == '|' && forall|j: int|
        0 <= j < line.len() && j != k ==> line[j] != '|'
}

/// Reads a `name|status` row; a row with no `|`, or more than one, is
/// skipped.
pub fn parse_status_line(line: &str) -> (r: Option<ContainerStatus>)
    ensures
        match r {
            Some(c) => exists|k: int|
                sole_bar_at(line@, k) && c.name@ == line@.subrange(0, k) && c.status@
                    == line@.subrange(k + 1, line@.len() as int),
            None => forall|k: int| !sole_bar_at(line@, k),
        },
{
    let n = line.unicode_len();
    let mut i: usize = 0;
    let mut first: Option<usize> = None;
    while i < n
        invariant
            n == line@.len(),
            i <= n,
            match first {
                Some(k) => k < i && line@[k as int] == '|' && forall|j: int|
                    0 <= j < i && j != k ==> line@[j] != '|',
                None => forall|j: int| 0 <= j < i ==> line@[j] != '|',
            },
        decreases n - i,
    {
        if line.get_char(i) == '|' {
            match first {
                Some(k) => {
                    assert forall|m: int| !sole_bar_at(line@, m) by {
                        if sole_bar_at(line@, m) {
                            assert(line@[k as int] == '|' && line@[i as int] == '|');
                        }
                    }
                    return None;
                },
                None => {
                    first = Some(i);
                },
            }
        }
        i = i + 1;
    }
    match first {
        Some(k) => {
            let name = String::from_str(line.substring_char(0, k));
            let status = String::from_str(line.substring_char(k + 1, n));
            assert(sole_bar_at(line@, k as int));
            Some(ContainerStatus { name, status })
        },
        None => None,
    }
}

/// Whether `c` has the Unicode `White_Space` property, as `char::is_whitespace`
/// decides.
pub open spec fn is_white_space(c: char) -> bool {
    let n = c as u32;
    (0x09 <= n <= 0x0d) || n == 0x20 || n == 0x85 || n == 0xa0 || n == 0x1680 || (0x2000 <= n
        <= 0x200a) || n == 0x2028 || n == 0x2029 || n == 0x202f || n == 0x205f || n == 0x3000
}

fn white_space(c: char) -> (r: bool)
    ensures
        r == is_white_space(c),
{
    let n = c as u32;
    (0x09 <= n && n <= 0x0d) || n == 0x20 || n == 0x85 || n == 0xa0 || n == 0x1680 || (0x2000 <= n
        && n <= 0x200a) || n == 0x2028 || n == 0x2029 || n == 0x202f || n == 0x205f || n == 0x3000
}

/// The index of the first character at or after `i` that is not white space.
pub open spec fn text_start(s: Seq<char>, i: int) -> int
    decreases s.len() - i,
{
    if 0 <= i < s.len() && is_white_space(s[i]) {
        text_start(s, i + 1)
    } else {
        i
    }
}

/// The index just past the last character before `j`, and at or after `lo`,
/// that is not white space.
pub open spec fn text_end(s: Seq<char>, lo: int, j: int) -> int
    decreases j - lo,
{
    if lo < j <= s.len() && is_white_space(s[j - 1]) {
        text_end(s, lo, j - 1)
    } else {
        j
    }
}

/// `s` without its leading and trailing white space.
pub open spec fn trimmed(s: Seq<char>) -> Seq<char> {
    s.subrange(text_start(s, 0), text_end(s, text_start(s, 0), s.len() as int))
}

/// The text without its leading and trailing white space.
pub fn trim_text(s: &str) -> (r: String)
    ensures
        r@ == trimmed(s@),
{
    let n = s.unicode_len();
    let mut i: usize = 0;
    while i < n && white_space(s.get_char(i))
        invariant
            n == s@.len(),
            i <= n,
            text_start(s@, i as int) == text_start(s@, 0),
        decreases n - i,
    {
        i = i + 1;
    }
    let mut j: usize = n;
    while j > i && white_space(s.get_char(j - 1))
        invariant
            n == s@.len(),
            i <= j <= n,
            i as int == text_start(s@, 0),
            text_end(s@, i as int, j as int) == text_end(s@, i as int, n as int),
        decreases j - i,
    {
        j = j - 1;
    }
    String::from_str(s.substring_char(i, j))
}

/// The key under which the editor's configuration holds its password.
pub open spec fn password_key() -> Seq<char> {
    "password:"@
}

/// Whether `s` begins with `p`.
pub open spec fn starts_with(s: Seq<char>, p: Seq<char>) -> bool {
    s.len() >= p.len() && s.subrange(0, p.len() as int) == p
}

/// `s` with every leading repetition of `p` taken off.
pub open spec fn strip_all(s: Seq<char>, p: Seq<char>) -> Seq<char>
    decreases s.len(),
{
    if p.len() > 0 && starts_with(s, p) {
        strip_all(s.subrange(p.len() as int, s.len() as int), p)
    } else {
        s
    }
}

/// The password a configuration line sets, or none when the line does not
/// start with the password key.
pub open spec fn password_of_line(line: Seq<char>) -> Option<Seq<char>> {
    if starts_with(line, password_key()) {
        Some(trimmed(strip_all(line, password_key())))
    } else {
        None
    }
}

/// Whether the text of `s` from character `i` on begins with the password key.
fn key_at(s: &str, n: usize, i: usize) -> (r: bool)
    requires
        n == s@.len(),
        i <= n,
    ensures
        r == starts_with(s@.subrange(i as int, n as int), password_key()),
{
    proof {
        reveal_strlit("password:");
    }
    if n - i < 9 {
        return false;
    }
    let head = String::from_str(s.substring_char(i, i + 9));
    let key = String::from_str("password:");
    assert(s@.subrange(i as int, n as int).subrange(0, 9) =~= s@.subrange(i as int, i + 9));
    head == key
}

/// The password set by one line of the editor's configuration.
pub fn password_value(line: &str) -> (r: Option<String>)
    ensures
        opt_view(r) == password_of_line(line@),
{
    let n = line.unicode_len();
    proof {
        reveal_strlit("password:");
        assert(line@.subrange(0, n as int) =~= line@);
    }
    if !key_at(line, n, 0) {
        return None;
    }
    let mut i: usize = 0;
    while key_at(line, n, i)
        invariant
            n == line@.len(),
            i <= n,
            strip_all(line@.subrange(i as int, n as int), password_key()) == strip_all(line@, password_key()),
        decreases n - i,
    {
        proof {
            reveal_strlit("password:");
            let rest = line@.subrange(i as int, n as int);
            assert(rest.subrange(9, rest.len() as int) =~= line@.subrange(i + 9, n as int));
        }
        i = i + 9;
    }
    Some(trim_text(line.substring_char(i, n)))
}

} // verus!
