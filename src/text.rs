//! Decimal digits, padding and whitespace: the small text primitives the
//! renderers are built from.
use vstd::prelude::*;

verus! {

/// The character for a decimal digit.
pub open spec fn digit_char(d: nat) -> char
    recommends
        d < 10,
{
    seq!['0', '1', '2', '3', '4', '5', '6', '7', '8', '9'][d as int]
}

/// The decimal representation of a natural number, without leading zeros.
pub open spec fn decimal(n: nat) -> Seq<char>
    decreases n,
{
    if n < 10 {
        seq![digit_char(n)]
    } else {
        decimal(n / 10).push(digit_char(n % 10))
    }
}

/// The decimal representation of an integer, with a leading `-` when negative.
pub open spec fn signed_decimal(i: int) -> Seq<char> {
    if i < 0 {
        seq!['-'] + decimal((-i) as nat)
    } else {
        decimal(i as nat)
    }
}

/// `n` copies of the character `c`.
pub open spec fn repeat(c: char, n: nat) -> Seq<char> {
    Seq::new(n, |_i: int| c)
}

/// `s` padded on the left with zeros up to `width` characters.
pub open spec fn zero_padded(s: Seq<char>, width: nat) -> Seq<char> {
    if s.len() >= width {
        s
    } else {
        repeat('0', (width - s.len()) as nat) + s
    }
}

/// `s` padded on the right with spaces up to `width` characters.
pub open spec fn left_justified(s: Seq<char>, width: nat) -> Seq<char> {
    if s.len() >= width {
        s
    } else {
        s + repeat(' ', (width - s.len()) as nat)
    }
}

fn digit_str(d: u64) -> (r: &'static str)
    requires
        d < 10,
    ensures
        r@ == seq![digit_char(d as nat)],
{
    proof {
        reveal_strlit("0");
        reveal_strlit("1");
        reveal_strlit("2");
        reveal_strlit("3");
        reveal_strlit("4");
        reveal_strlit("5");
        reveal_strlit("6");
        reveal_strlit("7");
        reveal_strlit("8");
        reveal_strlit("9");
    }
    let r = match d {
        0 => "0",
        1 => "1",
        2 => "2",
        3 => "3",
        4 => "4",
        5 => "5",
        6 => "6",
        7 => "7",
        8 => "8",
        _ => "9",
    };
    assert(r@ =~= seq![digit_char(d as nat)]);
    r
}

/// Decimal text of an unsigned integer.
pub fn decimal_u64(n: u64) -> (r: String)
    ensures
        r@ == decimal(n as nat),
    decreases n,
{
    if n < 10 {
        String::from_str(digit_str(n))
    } else {
        let mut s = decimal_u64(n / 10);
        s.append(digit_str(n % 10));
        s
    }
}

/// Decimal text of a signed integer.
pub fn decimal_i64(n: i64) -> (r: String)
    ensures
        r@ == signed_decimal(n as int),
{
    if n < 0 {
        let m: u64 = (0 - (n as i128)) as u64;
        let digits = decimal_u64(m);
        let mut s = String::from_str("-");
        s.append(digits.as_str());
        proof {
            reveal_strlit("-");
        }
        s
    } else {
        decimal_u64(n as u64)
    }
}

/// Decimal text of `n`, padded with leading zeros to at least `width` digits.
pub fn zero_padded_decimal(n: u64, width: usize) -> (r: String)
    ensures
        r@ == zero_padded(decimal(n as nat), width as nat),
{
    let digits = decimal_u64(n);
    let len = digits.as_str().unicode_len();
    if len >= width {
        return digits;
    }
    let mut s = String::new();
    let mut i: usize = 0;
    while i < width - len
        invariant
            i <= width - len,
            s@ == repeat('0', i as nat),
        decreases width - len - i,
    {
        s.append("0");
        proof {
            reveal_strlit("0");
        }
        assert(s@ =~= repeat('0', (i + 1) as nat));
        i = i + 1;
    }
    s.append(digits.as_str());
    s
}

/// `s` followed by spaces up to `width` characters.
pub fn left_justify(s: &str, width: usize) -> (r: String)
    ensures
        r@ == left_justified(s@, width as nat),
{
    let len = s.unicode_len();
    let mut out = String::from_str(s);
    if len >= width {
        return out;
    }
    let mut i: usize = 0;
    while i < width - len
        invariant
            len == s@.len(),
            len < width,
            i <= width - len,
            out@ == s@ + repeat(' ', i as nat),
        decreases width - len - i,
    {
        out.append(" ");
        proof {
            reveal_strlit(" ");
        }
        assert(out@ =~= s@ + repeat(' ', (i + 1) as nat));
        i = i + 1;
    }
    out
}

/// Unicode `White_Space`, the set `char::is_whitespace` tests for.
pub open spec fn is_space(c: char) -> bool {
    let u = c as u32;
    (0x09 <= u && u <= 0x0d) || u == 0x20 || u == 0x85 || u == 0xa0 || u == 0x1680 || (0x2000
        <= u && u <= 0x200a) || u == 0x2028 || u == 0x2029 || u == 0x202f || u == 0x205f || u
        == 0x3000
}

/// Whether `c` is Unicode whitespace.
pub fn is_space_char(c: char) -> (r: bool)
    ensures
        r == is_space(c),
{
    let u = c as u32;
    (0x09 <= u && u <= 0x0d) || u == 0x20 || u == 0x85 || u == 0xa0 || u == 0x1680 || (0x2000
        <= u && u <= 0x200a) || u == 0x2028 || u == 0x2029 || u == 0x202f || u == 0x205f || u
        == 0x3000
}

/// `s` from position `i` on, without the whitespace that starts there.
pub open spec fn skip_space_from(s: Seq<char>, i: int) -> Seq<char>
    decreases s.len() - i,
{
    if 0 <= i < s.len() && is_space(s[i]) {
        skip_space_from(s, i + 1)
    } else {
        s.subrange(i, s.len() as int)
    }
}

/// The first `j` characters of `s`, without the whitespace that ends them.
pub open spec fn drop_space_before(s: Seq<char>, j: int) -> Seq<char>
    decreases j,
{
    if 0 < j <= s.len() && is_space(s[j - 1]) {
        drop_space_before(s, j - 1)
    } else {
        s.subrange(0, j)
    }
}

/// `s` without leading and trailing whitespace.
pub open spec fn trimmed(s: Seq<char>) -> Seq<char> {
    let t = skip_space_from(s, 0);
    drop_space_before(t, t.len() as int)
}

/// `s` without leading and trailing whitespace.
pub fn trim(s: &str) -> (r: &str)
    ensures
        r@ == trimmed(s@),
{
    let len = s.unicode_len();
    let mut i: usize = 0;
    while i < len && is_space_char(s.get_char(i))
        invariant
            len == s@.len(),
            i <= len,
            skip_space_from(s@, 0) == skip_space_from(s@, i as int),
        decreases len - i,
    {
        i = i + 1;
    }
    let t = s.substring_char(i, len);
    let mut j: usize = len - i;
    while j > 0 && is_space_char(t.get_char(j - 1))
        invariant
            t@.len() == len - i,
            j <= t@.len(),
            drop_space_before(t@, t@.len() as int) == drop_space_before(t@, j as int),
        decreases j,
    {
        j = j - 1;
    }
    t.substring_char(0, j)
}

} // verus!
