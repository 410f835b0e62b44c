//! The value renderer: one column value to its canonical text.
use vstd::prelude::*;
use vstd::utf8::{decode_utf8, valid_utf8};
use crate::text::{
    decimal, decimal_i64, decimal_u64, signed_decimal, zero_padded, zero_padded_decimal,
};

verus! {

/// One cell of a result, as the engine client hands it over.
pub enum ColumnValue {
    Null,
    Bool(bool),
    Int(i64),
    UInt(u64),
    /// A floating-point cell, carried as its shortest round-trip decimal text
    /// (floating-point formatting is done where the client's cells are read).
    Float(String),
    Text(String),
    /// Raw bytes, decoded as UTF-8 with lossy substitution.
    Bytes(Vec<u8>),
    DateTime { year: u16, month: u8, day: u8, hour: u8, minute: u8, second: u8, micros: u32 },
    Duration { negative: bool, days: u32, hours: u8, minutes: u8, seconds: u8, micros: u32 },
    /// A cell of a type the renderer does not know.
    Unsupported,
}

/// What `String::from_utf8_lossy` makes of a byte sequence.
pub uninterp spec fn utf8_lossy(b: Seq<u8>) -> Seq<char>;

/// Relies on `String::from_utf8_lossy`: decodes UTF-8, replacing each invalid
/// sequence with U+FFFD, and returns valid input decoded unchanged.
#[verifier::external_body]
fn decode_lossy(b: &Vec<u8>) -> (r: String)
    ensures
        r@ == utf8_lossy(b@),
        valid_utf8(b@) ==> r@ == decode_utf8(b@),
{
    String::from_utf8_lossy(b.as_slice()).into_owned()
}

/// `n` as two zero-padded digits (at least).
pub open spec fn two(n: nat) -> Seq<char> {
    zero_padded(decimal(n), 2)
}

/// `HH:MM:SS.uuuuuu`, the clock part shared by date-times and durations.
pub open spec fn clock_text(h: nat, m: nat, s: nat, us: nat) -> Seq<char> {
    two(h) + ":"@ + two(m) + ":"@ + two(s) + "."@ + zero_padded(decimal(us), 6)
}

/// `YYYY-MM-DD HH:MM:SS.uuuuuu`.
pub open spec fn date_time_text(
    year: nat,
    month: nat,
    day: nat,
    h: nat,
    m: nat,
    s: nat,
    us: nat,
) -> Seq<char> {
    zero_padded(decimal(year), 4) + "-"@ + two(month) + "-"@ + two(day) + " "@ + clock_text(
        h,
        m,
        s,
        us,
    )
}

/// `[-]D days HH:MM:SS.uuuuuu`.
pub open spec fn duration_text(
    negative: bool,
    days: nat,
    h: nat,
    m: nat,
    s: nat,
    us: nat,
) -> Seq<char> {
    (if negative {
        "-"@
    } else {
        Seq::empty()
    }) + decimal(days) + " days "@ + clock_text(h, m, s, us)
}

/// The canonical text of a column value.
pub open spec fn rendered(v: ColumnValue) -> Seq<char> {
    match v {
        ColumnValue::Null => "NULL"@,
        ColumnValue::Bool(b) => if b {
            "true"@
        } else {
            "false"@
        },
        ColumnValue::Int(i) => signed_decimal(i as int),
        ColumnValue::UInt(u) => decimal(u as nat),
        ColumnValue::Float(t) => t@,
        ColumnValue::Text(t) => t@,
        ColumnValue::Bytes(b) => utf8_lossy(b@),
        ColumnValue::DateTime { year, month, day, hour, minute, second, micros } => date_time_text(
            year as nat,
            month as nat,
            day as nat,
            hour as nat,
            minute as nat,
            second as nat,
            micros as nat,
        ),
        ColumnValue::Duration { negative, days, hours, minutes, seconds, micros } => duration_text(
            negative,
            days as nat,
            hours as nat,
            minutes as nat,
            seconds as nat,
            micros as nat,
        ),
        ColumnValue::Unsupported => "Unsupported type"@,
    }
}

fn clock(h: u8, m: u8, s: u8, us: u32) -> (r: String)
    ensures
        r@ == clock_text(h as nat, m as nat, s as nat, us as nat),
{
    let mut r = zero_padded_decimal(h as u64, 2);
    r.append(":");
    r.append(zero_padded_decimal(m as u64, 2).as_str());
    r.append(":");
    r.append(zero_padded_decimal(s as u64, 2).as_str());
    r.append(".");
    r.append(zero_padded_decimal(us as u64, 6).as_str());
    r
}

/// Renders one column value. Total: every value has a text, and the text is
/// determined by the value alone.
pub fn render_value(v: &ColumnValue) -> (r: String)
    ensures
        r@ == rendered(*v),
{
    match v {
        ColumnValue::Null => String::from_str("NULL"),
        ColumnValue::Bool(b) => if *b {
            String::from_str("true")
        } else {
            String::from_str("false")
        },
        ColumnValue::Int(i) => decimal_i64(*i),
        ColumnValue::UInt(u) => decimal_u64(*u),
        ColumnValue::Float(t) => t.clone(),
        ColumnValue::Text(t) => t.clone(),
        ColumnValue::Bytes(b) => decode_lossy(b),
        ColumnValue::DateTime { year, month, day, hour, minute, second, micros } => {
            let mut r = zero_padded_decimal(*year as u64, 4);
            r.append("-");
            r.append(zero_padded_decimal(*month as u64, 2).as_str());
            r.append("-");
            r.append(zero_padded_decimal(*day as u64, 2).as_str());
            r.append(" ");
            r.append(clock(*hour, *minute, *second, *micros).as_str());
            r
        },
        ColumnValue::Duration { negative, days, hours, minutes, seconds, micros } => {
            let mut r = if *negative {
                String::from_str("-")
            } else {
                String::new()
            };
            r.append(decimal_u64(*days as u64).as_str());
            r.append(" days ");
            r.append(clock(*hours, *minutes, *seconds, *micros).as_str());
            proof {
                assert(r@ =~= rendered(*v));
            }
            r
        },
        ColumnValue::Unsupported => String::from_str("Unsupported type"),
    }
}

} // verus!
