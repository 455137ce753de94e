use serde_fmt::{Formatter, DebugStruct};

fn child(alt: bool) -> Formatter {
    Formatter::new(String::new(), alt)
}

#[derive(Debug)]
struct Struct {
    a: Signed,
    b: Unsigned,
    c: char,
    d: &'static str,
    e: &'static [u8],
    f: (),
}

#[derive(Debug)]
struct Signed {
    a: i8,
    b: i16,
    c: i32,
    d: i64,
}

#[derive(Debug)]
struct Unsigned {
    a: u8,
    b: u16,
    c: u32,
    d: u64,
}

#[allow(dead_code)]
#[derive(Debug)]
enum Tagged {
    Unit,
    NewType(i32),
    Tuple(i32, i32),
    Struct { a: i32, b: i32 },
}

fn field(s: &mut DebugStruct, name: &str, text: String) {
    s.serialize_field(name, &text);
}

fn render_struct(v: &Struct, alt: bool) -> String {
    let mut signed = child(alt).serialize_struct("Signed", 4);
    field(&mut signed, "a", child(alt).serialize_i8(v.a.a));
    field(&mut signed, "b", child(alt).serialize_i16(v.a.b));
    field(&mut signed, "c", child(alt).serialize_i32(v.a.c));
    field(&mut signed, "d", child(alt).serialize_i64(v.a.d));
    let signed = signed.end();

    let mut unsigned = child(alt).serialize_struct("Unsigned", 4);
    field(&mut unsigned, "a", child(alt).serialize_u8(v.b.a));
    field(&mut unsigned, "b", child(alt).serialize_u16(v.b.b));
    field(&mut unsigned, "c", child(alt).serialize_u32(v.b.c));
    field(&mut unsigned, "d", child(alt).serialize_u64(v.b.d));
    let unsigned = unsigned.end();

    let mut bytes = child(alt).serialize_seq(Some(v.e.len()));
    for b in v.e {
        bytes.serialize_element(&child(alt).serialize_u8(*b));
    }
    let bytes = bytes.end();

    let mut s = child(alt).serialize_struct("Struct", 6);
    field(&mut s, "a", signed);
    field(&mut s, "b", unsigned);
    field(&mut s, "c", child(alt).serialize_char(v.c));
    field(&mut s, "d", child(alt).serialize_str(v.d));
    field(&mut s, "e", bytes);
    field(&mut s, "f", child(alt).serialize_unit());
    s.end()
}

fn render_option(v: Option<i32>, alt: bool) -> String {
    match v {
        Some(x) => child(alt).serialize_some(&child(alt).serialize_i32(x)),
        None => child(alt).serialize_none(),
    }
}

fn render_result(v: Result<i32, i32>, alt: bool) -> String {
    match v {
        Ok(x) => child(alt).serialize_newtype_variant("Result", 0, "Ok", &child(alt).serialize_i32(x)),
        Err(x) => child(alt).serialize_newtype_variant("Result", 1, "Err", &child(alt).serialize_i32(x)),
    }
}

fn render_tagged(v: &Tagged, alt: bool) -> String {
    match v {
        Tagged::Unit => child(alt).serialize_unit_variant("Tagged", 0, "Unit"),
        Tagged::NewType(x) => {
            child(alt).serialize_newtype_variant("Tagged", 1, "NewType", &child(alt).serialize_i32(*x))
        }
        Tagged::Tuple(x, y) => {
            let mut t = child(alt).serialize_tuple_variant("Tagged", 2, "Tuple", 2);
            t.serialize_field(&child(alt).serialize_i32(*x));
            t.serialize_field(&child(alt).serialize_i32(*y));
            t.end()
        }
        Tagged::Struct { a, b } => {
            let mut s = child(alt).serialize_struct_variant("Tagged", 3, "Struct", 2);
            s.serialize_field("a", &child(alt).serialize_i32(*a));
            s.serialize_field("b", &child(alt).serialize_i32(*b));
            s.end()
        }
    }
}

#[test]
fn struct_fmt_is_consitent() {
    let v = Struct {
        a: Signed {
            a: -1,
            b: 42,
            c: -42,
            d: 42,
        },
        b: Unsigned {
            a: 1,
            b: 42,
            c: 1,
            d: 42,
        },
        c: 'a',
        d: "a string",
        e: &[1, 2, 3],
        f: (),
    };
    assert_eq!(format!("{:?}", v), render_struct(&v, false));
    assert_eq!(format!("{:#?}", v), render_struct(&v, true));
}

#[test]
fn option_fmt_is_consistent() {
    for alt in [false, true] {
        let some = render_option(Option::Some::<i32>(42), alt);
        let none = render_option(Option::None::<i32>, alt);
        if alt {
            assert_eq!(format!("{:#?}", Option::Some::<i32>(42)), some);
            assert_eq!(format!("{:#?}", Option::None::<i32>), none);
        } else {
            assert_eq!(format!("{:?}", Option::Some::<i32>(42)), some);
            assert_eq!(format!("{:?}", Option::None::<i32>), none);
        }
    }
}

#[test]
fn result_fmt_is_consistent() {
    assert_eq!(format!("{:?}", Result::Ok::<i32, i32>(42)), render_result(Ok(42), false));
    assert_eq!(format!("{:?}", Result::Err::<i32, i32>(42)), render_result(Err(42), false));
    assert_eq!(format!("{:#?}", Result::Ok::<i32, i32>(42)), render_result(Ok(42), true));
    assert_eq!(format!("{:#?}", Result::Err::<i32, i32>(42)), render_result(Err(42), true));
}

#[test]
fn tuple_fmt_is_consistent() {
    for alt in [false, true] {
        let mut t = child(alt).serialize_tuple(2);
        t.serialize_field(&child(alt).serialize_i32(42));
        t.serialize_field(&child(alt).serialize_i32(17));
        let text = t.end();
        if alt {
            assert_eq!(format!("{:#?}", (42, 17)), text);
        } else {
            assert_eq!(format!("{:?}", (42, 17)), text);
        }
    }
}

#[test]
fn tagged_fmt_is_consistent() {
    let values = [
        Tagged::Unit,
        Tagged::NewType(42),
        Tagged::Tuple(42, 17),
        Tagged::Struct { a: 42, b: 17 },
    ];
    for v in &values {
        assert_eq!(format!("{:?}", v), render_tagged(v, false));
        assert_eq!(format!("{:#?}", v), render_tagged(v, true));
        assert!(!render_tagged(v, false).contains("Tagged"));
    }
}
