//! Reading the version line an interpreter prints, and what it means for the
//! auxiliary service, which needs a 3.10 interpreter.
use vstd::prelude::*;
use crate::text::{is_space, is_space_char, trim, trimmed};

verus! {

/// The first position at or after `i` that holds no whitespace, or the end.
pub open spec fn next_non_space(s: Seq<char>, i: int) -> int
    decreases s.len() - i,
{
    if i < 0 || i >= s.len() {
        s.len() as int
    } else if is_space(s[i]) {
        next_non_space(s, i + 1)
    } else {
        i
    }
}

/// The first position at or after `i` that holds whitespace, or the end.
pub open spec fn next_space(s: Seq<char>, i: int) -> int
    decreases s.len() - i,
{
    if i < 0 || i >= s.len() {
        s.len() as int
    } else if is_space(s[i]) {
        i
    } else {
        next_space(s, i + 1)
    }
}

/// The second whitespace-separated word of `s`, if it has two.
pub open spec fn second_word(s: Seq<char>) -> Option<Seq<char>> {
    let a0 = next_non_space(s, 0);
    let b0 = next_space(s, a0);
    let a1 = next_non_space(s, b0);
    if a1 >= s.len() {
        None
    } else {
        Some(s.subrange(a1, next_space(s, a1)))
    }
}

/// The first position at or after `i` that holds `.`, or the end.
pub open spec fn next_dot(s: Seq<char>, i: int) -> int
    decreases s.len() - i,
{
    if i < 0 || i >= s.len() {
        s.len() as int
    } else if s[i] == '.' {
        i
    } else {
        next_dot(s, i + 1)
    }
}

/// The first three `.`-separated parts of `w`, if it has at least three.
pub open spec fn three_parts(w: Seq<char>) -> Option<(Seq<char>, Seq<char>, Seq<char>)> {
    let d1 = next_dot(w, 0);
    let d2 = next_dot(w, d1 + 1);
    if d2 >= w.len() {
        None
    } else {
        Some((w.subrange(0, d1), w.subrange(d1 + 1, d2), w.subrange(d2 + 1, next_dot(w, d2 + 1))))
    }
}

/// Whether `c` is an ASCII decimal digit.
pub open spec fn is_digit(c: char) -> bool {
    '0' <= c && c <= '9'
}

/// The number that a sequence of decimal digits denotes.
pub open spec fn digits_value(d: Seq<char>) -> nat
    decreases d.len(),
{
    if d.len() == 0 {
        0
    } else {
        digits_value(d.drop_last()) * 10 + ((d.last() as u32) - 48) as nat
    }
}

/// `t` without the `+` it may start with.
pub open spec fn without_plus(t: Seq<char>) -> Seq<char> {
    if t.len() > 0 && t[0] == '+' {
        t.drop_first()
    } else {
        t
    }
}

/// A `u32` in decimal, as `str::parse` reads one: an optional `+`, then one
/// or more digits, denoting at most `u32::MAX`.
pub open spec fn parsed_u32(t: Seq<char>) -> Option<u32> {
    let d = without_plus(t);
    if d.len() == 0 || !(forall|k: int| 0 <= k < d.len() ==> is_digit(#[trigger] d[k])) {
        None
    } else if digits_value(d) > u32::MAX {
        None
    } else {
        Some(digits_value(d) as u32)
    }
}

/// The version that an interpreter's `Python X.Y.Z` line names: the second
/// word, split at dots, whose first three parts are numbers.
pub open spec fn parsed_version(s: Seq<char>) -> Option<(u32, u32, u32)> {
    match second_word(s) {
        None => None,
        Some(w) => match three_parts(w) {
            None => None,
            Some((a, b, c)) => match (parsed_u32(a), parsed_u32(b), parsed_u32(c)) {
                (Some(x), Some(y), Some(z)) => Some((x, y, z)),
                _ => None,
            },
        },
    }
}

proof fn lemma_next_bounds(s: Seq<char>, i: int)
    requires
        0 <= i <= s.len(),
    ensures
        i <= next_non_space(s, i) <= s.len(),
        i <= next_space(s, i) <= s.len(),
        i <= next_dot(s, i) <= s.len(),
    decreases s.len() - i,
{
    if i < s.len() {
        lemma_next_bounds(s, i + 1);
    }
}

proof fn lemma_digits_grow(d: Seq<char>, i: int, j: int)
    requires
        0 <= i <= j <= d.len(),
        forall|k: int| 0 <= k < d.len() ==> is_digit(#[trigger] d[k]),
    ensures
        digits_value(d.subrange(0, i)) <= digits_value(d.subrange(0, j)),
    decreases j - i,
{
    if i < j {
        lemma_digits_grow(d, i, j - 1);
        assert(d.subrange(0, j).drop_last() =~= d.subrange(0, j - 1));
    }
}

fn skip_non_space(s: &str, len: usize, i: usize, want_space: bool) -> (r: usize)
    requires
        len == s@.len(),
        i <= len,
    ensures
        want_space ==> r == next_space(s@, i as int),
        !want_space ==> r == next_non_space(s@, i as int),
{
    let mut j = i;
    while j < len && is_space_char(s.get_char(j)) != want_space
        invariant
            len == s@.len(),
            i <= j <= len,
            want_space ==> next_space(s@, i as int) == next_space(s@, j as int),
            !want_space ==> next_non_space(s@, i as int) == next_non_space(s@, j as int),
        decreases len - j,
    {
        j = j + 1;
    }
    j
}

fn dot_from(s: &str, len: usize, i: usize) -> (r: usize)
    requires
        len == s@.len(),
        i <= len,
    ensures
        r == next_dot(s@, i as int),
{
    let mut j = i;
    while j < len && s.get_char(j) != '.'
        invariant
            len == s@.len(),
            i <= j <= len,
            next_dot(s@, i as int) == next_dot(s@, j as int),
        decreases len - j,
    {
        j = j + 1;
    }
    j
}

/// Reads a `u32` the way `str::parse` does.
pub fn parse_u32(t: &str) -> (r: Option<u32>)
    ensures
        r == parsed_u32(t@),
{
    let tl = t.unicode_len();
    let plus = tl > 0 && t.get_char(0) == '+';
    let d = if plus {
        t.substring_char(1, tl)
    } else {
        t.substring_char(0, tl)
    };
    proof {
        if plus {
            assert(t@.drop_first() =~= d@);
        } else {
            assert(t@ =~= d@);
        }
    }
    let len = d.unicode_len();
    if len == 0 {
        return None;
    }
    let mut i: usize = 0;
    while i < len
        invariant
            len == d@.len(),
            d@ == without_plus(t@),
            i <= len,
            forall|k: int| 0 <= k < i ==> is_digit(#[trigger] d@[k]),
        decreases len - i,
    {
        let c = d.get_char(i);
        if !('0' <= c && c <= '9') {
            assert(!is_digit(d@[i as int]));
            return None;
        }
        i = i + 1;
    }
    let mut acc: u64 = 0;
    let mut i: usize = 0;
    while i < len
        invariant
            len == d@.len(),
            d@ == without_plus(t@),
            i <= len,
            forall|k: int| 0 <= k < len ==> is_digit(#[trigger] d@[k]),
            acc == digits_value(d@.subrange(0, i as int)),
            acc <= u32::MAX,
        decreases len - i,
    {
        let c = d.get_char(i);
        let next: u64 = acc * 10 + ((c as u32) - 48) as u64;
        proof {
            assert(d@.subrange(0, i + 1).drop_last() =~= d@.subrange(0, i as int));
        }
        if next > u32::MAX as u64 {
            proof {
                assert(digits_value(d@.subrange(0, i + 1)) > u32::MAX);
                lemma_digits_grow(d@, i + 1, len as int);
                assert(d@.subrange(0, len as int) =~= d@);
            }
            return None;
        }
        acc = next;
        i = i + 1;
    }
    proof {
        assert(d@.subrange(0, len as int) =~= d@);
    }
    Some(acc as u32)
}

/// Reads `(major, minor, patch)` from an interpreter's version line such as
/// `Python 3.10.11`; `None` when the line does not have that shape.
pub fn parse_python_version(version_string: &str) -> (r: Option<(u32, u32, u32)>)
    ensures
        r == parsed_version(version_string@),
{
    let s = version_string;
    let len = s.unicode_len();
    proof {
        lemma_next_bounds(s@, 0);
    }
    let a0 = skip_non_space(s, len, 0, false);
    proof {
        lemma_next_bounds(s@, a0 as int);
    }
    let b0 = skip_non_space(s, len, a0, true);
    proof {
        lemma_next_bounds(s@, b0 as int);
    }
    let a1 = skip_non_space(s, len, b0, false);
    if a1 >= len {
        return None;
    }
    proof {
        lemma_next_bounds(s@, a1 as int);
    }
    let b1 = skip_non_space(s, len, a1, true);
    let w = s.substring_char(a1, b1);
    let wl = w.unicode_len();
    proof {
        lemma_next_bounds(w@, 0);
    }
    let d1 = dot_from(w, wl, 0);
    if d1 >= wl {
        proof {
            lemma_next_bounds(w@, wl as int);
        }
        return None;
    }
    proof {
        lemma_next_bounds(w@, d1 + 1);
    }
    let d2 = dot_from(w, wl, d1 + 1);
    if d2 >= wl {
        return None;
    }
    proof {
        lemma_next_bounds(w@, d2 + 1);
    }
    let d3 = dot_from(w, wl, d2 + 1);
    let x = parse_u32(w.substring_char(0, d1));
    let y = parse_u32(w.substring_char(d1 + 1, d2));
    let z = parse_u32(w.substring_char(d2 + 1, d3));
    match (x, y, z) {
        (Some(x), Some(y), Some(z)) => Some((x, y, z)),
        _ => None,
    }
}

/// What an interpreter's version line says of the service's needs.
#[derive(PartialEq, Eq, Structural, Clone, Copy, Debug)]
pub enum PythonVersionStatus {
    /// A 3.10 interpreter.
    Supported,
    /// An interpreter of another version.
    Unsupported,
    /// A line that names no version.
    Unreadable,
}

/// The status a version line gives.
pub open spec fn version_status(s: Seq<char>) -> PythonVersionStatus {
    match parsed_version(s) {
        None => PythonVersionStatus::Unreadable,
        Some((major, minor, _)) => if major == 3 && minor == 10 {
            PythonVersionStatus::Supported
        } else {
            PythonVersionStatus::Unsupported
        },
    }
}

/// Judges an interpreter's version line: only 3.10 is supported.
pub fn python_version_status(version_string: &str) -> (r: PythonVersionStatus)
    ensures
        r == version_status(version_string@),
{
    match parse_python_version(version_string) {
        None => PythonVersionStatus::Unreadable,
        Some((major, minor, _)) => if major == 3 && minor == 10 {
            PythonVersionStatus::Supported
        } else {
            PythonVersionStatus::Unsupported
        },
    }
}

/// What the interpreter check reports for a version line: success for 3.10,
/// otherwise an error; each quotes the line without its surrounding
/// whitespace.
pub fn python_check_report(version_string: &str) -> (r: Result<String, String>)
    ensures
        version_status(version_string@) == PythonVersionStatus::Supported ==> (r matches Ok(m)
            && m@ == "Python 3.10.* is installed. ("@ + trimmed(version_string@) + ")"@),
        version_status(version_string@) == PythonVersionStatus::Unsupported ==> (r matches Err(m)
            && m@ == "Python 3.10.* is not installed. Found: "@ + trimmed(version_string@)),
        version_status(version_string@) == PythonVersionStatus::Unreadable ==> (r matches Err(m)
            && m@ == "Failed to parse Python version: "@ + trimmed(version_string@)),
{
    let shown = trim(version_string);
    match python_version_status(version_string) {
        PythonVersionStatus::Supported => {
            let mut m = String::from_str("Python 3.10.* is installed. (");
            m.append(shown);
            m.append(")");
            Ok(m)
        },
        PythonVersionStatus::Unsupported => {
            let mut m = String::from_str("Python 3.10.* is not installed. Found: ");
            m.append(shown);
            Err(m)
        },
        PythonVersionStatus::Unreadable => {
            let mut m = String::from_str("Failed to parse Python version: ");
            m.append(shown);
            Err(m)
        },
    }
}

} // verus!
