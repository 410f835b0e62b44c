use sqlbridge::render::{render_value, ColumnValue};

#[test]
fn date_time_renders_fixed_width() {
    let v = ColumnValue::DateTime { year: 2024, month: 3, day: 5, hour: 9, minute: 0, second: 5, micros: 123456 };
    assert_eq!(render_value(&v), "2024-03-05 09:00:05.123456");
}

#[test]
fn date_time_pads_small_fields() {
    let v = ColumnValue::DateTime { year: 7, month: 1, day: 2, hour: 0, minute: 0, second: 0, micros: 0 };
    assert_eq!(render_value(&v), "0007-01-02 00:00:00.000000");
}

#[test]
fn duration_renders_with_sign() {
    let v = ColumnValue::Duration { negative: true, days: 1, hours: 2, minutes: 3, seconds: 4, micros: 5 };
    assert_eq!(render_value(&v), "-1 days 02:03:04.000005");
    let w = ColumnValue::Duration { negative: false, days: 12, hours: 23, minutes: 59, seconds: 59, micros: 999999 };
    assert_eq!(render_value(&w), "12 days 23:59:59.999999");
}

#[test]
fn scalars_render() {
    assert_eq!(render_value(&ColumnValue::Null), "NULL");
    assert_eq!(render_value(&ColumnValue::Bool(true)), "true");
    assert_eq!(render_value(&ColumnValue::Bool(false)), "false");
    assert_eq!(render_value(&ColumnValue::Int(-42)), "-42");
    assert_eq!(render_value(&ColumnValue::Int(0)), "0");
    assert_eq!(render_value(&ColumnValue::Int(i64::MIN)), "-9223372036854775808");
    assert_eq!(render_value(&ColumnValue::UInt(u64::MAX)), "18446744073709551615");
    assert_eq!(render_value(&ColumnValue::Float("2.5".to_string())), "2.5");
    assert_eq!(render_value(&ColumnValue::Text("héllo".to_string())), "héllo");
    assert_eq!(render_value(&ColumnValue::Unsupported), "Unsupported type");
}

#[test]
fn floats_keep_their_text() {
    let x: f64 = 0.1;
    assert_eq!(render_value(&ColumnValue::Float(x.to_string())), "0.1");
}

#[test]
fn bytes_decode_lossily() {
    assert_eq!(render_value(&ColumnValue::Bytes(b"abc".to_vec())), "abc");
    assert_eq!(render_value(&ColumnValue::Bytes(vec![0x61, 0xff, 0x62])), "a\u{FFFD}b");
    assert_eq!(render_value(&ColumnValue::Bytes(vec![])), "");
}

#[test]
fn rendering_is_deterministic() {
    let v = ColumnValue::Duration { negative: false, days: 0, hours: 0, minutes: 0, seconds: 1, micros: 0 };
    assert_eq!(render_value(&v), render_value(&v));
    assert_eq!(render_value(&v), "0 days 00:00:01.000000");
}
