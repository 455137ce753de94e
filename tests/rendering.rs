use std::collections::BTreeMap;

use serde_fmt::{to_debug, Error, Formatter};

fn child(alt: bool) -> Formatter {
    Formatter::new(String::new(), alt)
}

#[test]
fn integers_match_native_debug() {
    assert_eq!(child(false).serialize_i8(i8::MIN), format!("{:?}", i8::MIN));
    assert_eq!(child(false).serialize_i8(i8::MAX), format!("{:?}", i8::MAX));
    assert_eq!(child(false).serialize_i16(i16::MIN), format!("{:?}", i16::MIN));
    assert_eq!(child(false).serialize_i32(-42), "-42");
    assert_eq!(child(false).serialize_i64(i64::MIN), format!("{:?}", i64::MIN));
    assert_eq!(child(false).serialize_i128(i128::MIN), format!("{:?}", i128::MIN));
    assert_eq!(child(true).serialize_i128(i128::MAX), format!("{:#?}", i128::MAX));
    assert_eq!(child(false).serialize_u8(0), "0");
    assert_eq!(child(false).serialize_u8(u8::MAX), "255");
    assert_eq!(child(false).serialize_u16(u16::MAX), format!("{:?}", u16::MAX));
    assert_eq!(child(false).serialize_u32(1_000_000), "1000000");
    assert_eq!(child(false).serialize_u64(u64::MAX), format!("{:?}", u64::MAX));
    assert_eq!(child(false).serialize_u128(u128::MAX), format!("{:?}", u128::MAX));
}

#[test]
fn other_scalars_match_native_debug() {
    assert_eq!(child(false).serialize_bool(true), "true");
    assert_eq!(child(false).serialize_bool(false), "false");
    assert_eq!(child(false).serialize_char('a'), "'a'");
    assert_eq!(child(false).serialize_char('\n'), format!("{:?}", '\n'));
    assert_eq!(child(false).serialize_char('\''), format!("{:?}", '\''));
    assert_eq!(child(false).serialize_str("a string"), "\"a string\"");
    assert_eq!(child(false).serialize_str("tab\there \"q\""), format!("{:?}", "tab\there \"q\""));
    assert_eq!(child(false).serialize_str(""), "\"\"");
    assert_eq!(child(false).serialize_unit(), format!("{:?}", ()));
    assert_eq!(child(false).serialize_none(), "None");
}

#[test]
fn bytes_render_as_a_list() {
    let v: &[u8] = &[1, 2, 3];
    assert_eq!(child(false).serialize_bytes(v), format!("{:?}", v));
    assert_eq!(child(true).serialize_bytes(v), format!("{:#?}", v));
    let empty: &[u8] = &[];
    assert_eq!(child(false).serialize_bytes(empty), "[]");
    assert_eq!(child(true).serialize_bytes(empty), "[]");
}

#[test]
fn text_goes_after_what_the_target_holds() {
    assert_eq!(Formatter::new(String::from("x = "), false).serialize_u8(5), "x = 5");
    assert_eq!(Formatter::new(String::from("a"), false).fmt("bc"), "abc");
    assert_eq!(child(false).collect_str("plain text"), "plain text");
}

#[derive(Debug)]
struct Unit;

#[derive(Debug)]
struct Wrapper(u8);

#[test]
fn unit_and_newtype_structs() {
    assert_eq!(child(false).serialize_unit_struct("Unit"), format!("{:?}", Unit));
    let inner = child(false).serialize_u8(7);
    assert_eq!(child(false).serialize_newtype_struct("Wrapper", &inner), format!("{:?}", Wrapper(7)));
    let inner = child(true).serialize_u8(7);
    assert_eq!(child(true).serialize_newtype_struct("Wrapper", &inner), format!("{:#?}", Wrapper(7)));
}

#[test]
fn single_field_tuple_keeps_its_comma() {
    let mut t = child(false).serialize_tuple(1);
    t.serialize_field(&child(false).serialize_u8(1));
    assert_eq!(t.end(), format!("{:?}", (1u8,)));
    let mut t = child(true).serialize_tuple(1);
    t.serialize_field(&child(true).serialize_u8(1));
    assert_eq!(t.end(), format!("{:#?}", (1u8,)));
}

#[test]
fn tuple_order_is_kept() {
    let v = (3u8, 1u8, 2u8, 9u8);
    for alt in [false, true] {
        let mut t = child(alt).serialize_tuple(4);
        for x in [v.0, v.1, v.2, v.3] {
            t.serialize_field(&child(alt).serialize_u8(x));
        }
        let expected = if alt { format!("{:#?}", v) } else { format!("{:?}", v) };
        assert_eq!(t.end(), expected);
    }
}

#[test]
fn empty_composites() {
    assert_eq!(child(false).serialize_seq(None).end(), "[]");
    assert_eq!(child(true).serialize_tuple_struct("Empty", 0).end(), "Empty");
    assert_eq!(child(true).serialize_struct("Empty", 0).end(), "Empty");
    assert_eq!(child(true).serialize_map(None).end(), "{}");
}

fn nested(alt: bool) -> String {
    let mut outer = child(alt).serialize_seq(Some(2));
    for (a, b) in [(1u8, "x"), (2u8, "y")] {
        let mut t = child(alt).serialize_tuple(2);
        t.serialize_field(&child(alt).serialize_u8(a));
        t.serialize_field(&child(alt).serialize_str(b));
        outer.serialize_element(&t.end());
    }
    outer.end()
}

#[test]
fn nesting_matches_native_debug() {
    let v = vec![(1u8, "x"), (2u8, "y")];
    assert_eq!(nested(false), format!("{:?}", v));
    assert_eq!(nested(true), format!("{:#?}", v));
}

fn map_combined(alt: bool) -> String {
    let mut m = child(alt).serialize_map(Some(2));
    m.serialize_entry(&child(alt).serialize_str("k"), &child(alt).serialize_str("v")).unwrap();
    m.serialize_entry(&child(alt).serialize_str("l"), &child(alt).serialize_u8(2)).unwrap();
    m.end()
}

fn map_split(alt: bool) -> String {
    let mut m = child(alt).serialize_map(Some(2));
    m.serialize_key(&child(alt).serialize_str("k")).unwrap();
    m.serialize_value(&child(alt).serialize_str("v")).unwrap();
    m.serialize_key(&child(alt).serialize_str("l")).unwrap();
    m.serialize_value(&child(alt).serialize_u8(2)).unwrap();
    m.end()
}

#[test]
fn map_entry_equals_key_then_value() {
    assert_eq!(map_combined(false), map_split(false));
    assert_eq!(map_combined(true), map_split(true));
    assert_eq!(map_combined(false), "{\"k\": \"v\", \"l\": 2}");
}

#[test]
fn map_matches_native_debug() {
    let mut v = BTreeMap::new();
    v.insert("a", vec![1u8, 2]);
    v.insert("b", vec![]);
    for alt in [false, true] {
        let mut m = child(alt).serialize_map(Some(2));
        for (k, items) in &v {
            let mut list = child(alt).serialize_seq(Some(items.len()));
            for x in items {
                list.serialize_element(&child(alt).serialize_u8(*x));
            }
            m.serialize_entry(&child(alt).serialize_str(k), &list.end()).unwrap();
        }
        let expected = if alt { format!("{:#?}", v) } else { format!("{:?}", v) };
        assert_eq!(m.end(), expected);
    }
}

#[test]
fn value_without_key_is_refused() {
    let mut m = child(false).serialize_map(None);
    assert_eq!(m.serialize_value("1"), Err(Error));
    m.serialize_entry("a", "1").unwrap();
    assert_eq!(m.serialize_value("2"), Err(Error));
    assert_eq!(m.end(), "{a: 1}");
}

#[test]
fn second_key_is_refused() {
    let mut m = child(false).serialize_map(None);
    m.serialize_key("a").unwrap();
    assert_eq!(m.serialize_key("b"), Err(Error));
    assert_eq!(m.serialize_entry("c", "3"), Err(Error));
    m.serialize_value("1").unwrap();
    assert_eq!(m.end(), "{a: 1}");
}

#[test]
fn pending_key_is_dropped_on_close() {
    let mut m = child(true).serialize_map(None);
    m.serialize_entry("a", "1").unwrap();
    m.serialize_key("b").unwrap();
    assert_eq!(m.end(), "{\n    a: 1,\n}");
}

#[test]
fn pretty_mode_indents_every_line() {
    let inner = {
        let mut s = child(true).serialize_struct("In", 1);
        s.serialize_field("x", "line1\nline2");
        s.end()
    };
    let mut s = child(true).serialize_struct("Out", 1);
    s.serialize_field("i", &inner);
    assert_eq!(
        s.end(),
        "Out {\n    i: In {\n        x: line1\n        line2,\n    },\n}"
    );
}

#[test]
fn to_debug_wraps_the_value() {
    let w = to_debug(5u8);
    assert_eq!(w.0, 5u8);
}
