use vstd::prelude::*;
use crate::builders::{DebugSeq, DebugStruct, DebugTuple};
use crate::map::{DebugMap, MapState};
use crate::text::{int_text, list_text, tuple_text, write_i128, write_u128};

verus! {

/// The quoted and escaped form that `{:?}` gives a string slice.
pub uninterp spec fn str_debug_of(s: Seq<char>) -> Seq<char>;

/// The quoted and escaped form that `{:?}` gives a character.
pub uninterp spec fn char_debug_of(c: char) -> Seq<char>;

/// Relies on `<str as Debug>::fmt`: a string between double quotes, with its
/// characters escaped; the text depends on the characters alone.
#[verifier::external_body]
fn str_debug(s: &str) -> (r: String)
    ensures
        r@ == str_debug_of(s@),
{
    format!("{:?}", s)
}

/// Relies on `<char as Debug>::fmt`: a character between single quotes,
/// escaped; the text depends on the character alone.
#[verifier::external_body]
fn char_debug(c: char) -> (r: String)
    ensures
        r@ == char_debug_of(c),
{
    format!("{:?}", c)
}

/// `true` or `false`.
pub open spec fn bool_text(v: bool) -> Seq<char> {
    if v {
        seq!['t', 'r', 'u', 'e']
    } else {
        seq!['f', 'a', 'l', 's', 'e']
    }
}

/// The text of a byte slice: a list of its bytes in decimal.
pub open spec fn bytes_text(v: Seq<u8>, alternate: bool) -> Seq<char> {
    list_text(v.map_values(|b: u8| int_text(b as int)), alternate)
}

/// Receives the one event that a value reports about its shape and renders
/// it after the text already in the target. Scalars are written at once;
/// composite shapes return a builder that takes the rendered children.
pub struct Formatter {
    out: String,
    alternate: bool,
}

impl Formatter {
    /// The text in the target before this value.
    pub closed spec fn text(&self) -> Seq<char> {
        self.out@
    }

    /// Whether pretty mode (`{:#?}`) is on.
    pub closed spec fn alternate(&self) -> bool {
        self.alternate
    }

    /// A visitor that writes after `out`, in pretty mode when `alternate` holds.
    pub fn new(out: String, alternate: bool) -> (r: Formatter)
        ensures
            r.text() == out@,
            r.alternate() == alternate,
    {
        Formatter { out, alternate }
    }

    /// Writes text that is already in its final form and returns the target.
    pub fn fmt(self, text: &str) -> (r: String)
        ensures
            r@ == self.text() + text@,
    {
        let mut out = self.out;
        out.append(text);
        out
    }

    pub fn serialize_bool(self, v: bool) -> (r: String)
        ensures
            r@ == self.text() + bool_text(v),
    {
        proof {
            reveal_strlit("true");
            reveal_strlit("false");
        }
        let r = if v {
            self.fmt("true")
        } else {
            self.fmt("false")
        };
        assert(r@ =~= self.text() + bool_text(v));
        r
    }

    fn write_signed(self, v: i128) -> (r: String)
        ensures
            r@ == self.text() + int_text(v as int),
    {
        let mut out = self.out;
        write_i128(&mut out, v);
        out
    }

    fn write_unsigned(self, v: u128) -> (r: String)
        ensures
            r@ == self.text() + int_text(v as int),
    {
        let mut out = self.out;
        write_u128(&mut out, v);
        out
    }

    pub fn serialize_i8(self, v: i8) -> (r: String)
        ensures
            r@ == self.text() + int_text(v as int),
    {
        self.write_signed(v as i128)
    }

    pub fn serialize_i16(self, v: i16) -> (r: String)
        ensures
            r@ == self.text() + int_text(v as int),
    {
        self.write_signed(v as i128)
    }

    pub fn serialize_i32(self, v: i32) -> (r: String)
        ensures
            r@ == self.text() + int_text(v as int),
    {
        self.write_signed(v as i128)
    }

    pub fn serialize_i64(self, v: i64) -> (r: String)
        ensures
            r@ == self.text() + int_text(v as int),
    {
        self.write_signed(v as i128)
    }

    pub fn serialize_i128(self, v: i128) -> (r: String)
        ensures
            r@ == self.text() + int_text(v as int),
    {
        self.write_signed(v)
    }

    pub fn serialize_u8(self, v: u8) -> (r: String)
        ensures
            r@ == self.text() + int_text(v as int),
    {
        self.write_unsigned(v as u128)
    }

    pub fn serialize_u16(self, v: u16) -> (r: String)
        ensures
            r@ == self.text() + int_text(v as int),
    {
        self.write_unsigned(v as u128)
    }

    pub fn serialize_u32(self, v: u32) -> (r: String)
        ensures
            r@ == self.text() + int_text(v as int),
    {
        self.write_unsigned(v as u128)
    }

    pub fn serialize_u64(self, v: u64) -> (r: String)
        ensures
            r@ == self.text() + int_text(v as int),
    {
        self.write_unsigned(v as u128)
    }

    pub fn serialize_u128(self, v: u128) -> (r: String)
        ensures
            r@ == self.text() + int_text(v as int),
    {
        self.write_unsigned(v)
    }

    pub fn serialize_char(self, v: char) -> (r: String)
        ensures
            r@ == self.text() + char_debug_of(v),
    {
        let t = char_debug(v);
        self.fmt(t.as_str())
    }

    pub fn serialize_str(self, v: &str) -> (r: String)
        ensures
            r@ == self.text() + str_debug_of(v@),
    {
        let t = str_debug(v);
        self.fmt(t.as_str())
    }

    /// Writes the display text of a value as it is, without quotes.
    pub fn collect_str(self, v: &str) -> (r: String)
        ensures
            r@ == self.text() + v@,
    {
        self.fmt(v)
    }

    pub fn serialize_bytes(self, v: &[u8]) -> (r: String)
        ensures
            r@ == self.text() + bytes_text(v@, self.alternate()),
    {
        let ghost texts = v@.map_values(|b: u8| int_text(b as int));
        let alternate = self.alternate;
        let mut list = DebugSeq::open(self.out, alternate);
        let n = v.len();
        let mut i: usize = 0;
        while i < n
            invariant
                n == v@.len(),
                i <= n,
                texts == v@.map_values(|b: u8| int_text(b as int)),
                list.wf(),
                list.prefix() == self.text(),
                list.alternate() == alternate,
                list.entries() == texts.take(i as int),
            decreases n - i,
        {
            let mut item = String::new();
            write_u128(&mut item, v[i] as u128);
            list.serialize_element(item.as_str());
            proof {
                assert(item@ =~= int_text(v@[i as int] as int));
                assert(texts[i as int] == int_text(v@[i as int] as int));
                assert(texts.take(i + 1) =~= texts.take(i as int).push(item@));
            }
            i = i + 1;
        }
        assert(texts.take(n as int) =~= texts);
        list.end()
    }

    /// The absent value: `None`.
    pub fn serialize_none(self) -> (r: String)
        ensures
            r@ == self.text() + seq!['N', 'o', 'n', 'e'],
    {
        proof {
            reveal_strlit("None");
        }
        let r = self.fmt("None");
        assert(r@ =~= self.text() + seq!['N', 'o', 'n', 'e']);
        r
    }

    /// A present value, rendered as `v`: `Some(v)`.
    pub fn serialize_some(self, v: &str) -> (r: String)
        ensures
            r@ == self.text() + tuple_text(seq!['S', 'o', 'm', 'e'], seq![v@], self.alternate()),
    {
        proof {
            reveal_strlit("Some");
            assert("Some"@ =~= seq!['S', 'o', 'm', 'e']);
        }
        self.serialize_newtype_struct("Some", v)
    }

    /// The unit value: `()`.
    pub fn serialize_unit(self) -> (r: String)
        ensures
            r@ == self.text() + seq!['(', ')'],
    {
        proof {
            reveal_strlit("()");
        }
        let r = self.fmt("()");
        assert(r@ =~= self.text() + seq!['(', ')']);
        r
    }

    /// A struct without fields: its name.
    pub fn serialize_unit_struct(self, name: &str) -> (r: String)
        ensures
            r@ == self.text() + tuple_text(name@, seq![], self.alternate()),
    {
        self.serialize_tuple_struct(name, 0).end()
    }

    /// A variant without payload: the variant's name; the enum's is not shown.
    pub fn serialize_unit_variant(self, _name: &str, _variant_index: u32, variant: &str) -> (r:
        String)
        ensures
            r@ == self.text() + tuple_text(variant@, seq![], self.alternate()),
    {
        self.serialize_tuple_struct(variant, 0).end()
    }

    /// A struct around one value, rendered as `v`: `Name(v)`.
    pub fn serialize_newtype_struct(self, name: &str, v: &str) -> (r: String)
        ensures
            r@ == self.text() + tuple_text(name@, seq![v@], self.alternate()),
    {
        let mut tuple = self.serialize_tuple_struct(name, 1);
        tuple.serialize_field(v);
        assert(tuple.fields() =~= seq![v@]);
        tuple.end()
    }

    /// A variant around one value, rendered as `v`: `Variant(v)`.
    pub fn serialize_newtype_variant(
        self,
        _name: &str,
        _variant_index: u32,
        variant: &str,
        v: &str,
    ) -> (r: String)
        ensures
            r@ == self.text() + tuple_text(variant@, seq![v@], self.alternate()),
    {
        let mut tuple = self.serialize_tuple_struct(variant, 1);
        tuple.serialize_field(v);
        assert(tuple.fields() =~= seq![v@]);
        tuple.end()
    }

    /// Opens a sequence: `[a, b, ..]`.
    pub fn serialize_seq(self, _len: Option<usize>) -> (r: DebugSeq)
        ensures
            r.wf(),
            r.prefix() == self.text(),
            r.entries() == Seq::<Seq<char>>::empty(),
            r.alternate() == self.alternate(),
    {
        DebugSeq::open(self.out, self.alternate)
    }

    /// Opens an unnamed tuple: `(a, b, ..)`.
    pub fn serialize_tuple(self, _len: usize) -> (r: DebugTuple)
        ensures
            r.wf(),
            r.prefix() == self.text(),
            r.name() == Seq::<char>::empty(),
            r.fields() == Seq::<Seq<char>>::empty(),
            r.alternate() == self.alternate(),
    {
        proof {
            reveal_strlit("");
        }
        DebugTuple::open(self.out, self.alternate, "")
    }

    /// Opens a tuple struct: `Name(a, b, ..)`.
    pub fn serialize_tuple_struct(self, name: &str, _len: usize) -> (r: DebugTuple)
        ensures
            r.wf(),
            r.prefix() == self.text(),
            r.name() == name@,
            r.fields() == Seq::<Seq<char>>::empty(),
            r.alternate() == self.alternate(),
    {
        DebugTuple::open(self.out, self.alternate, name)
    }

    /// Opens a tuple variant: `Variant(a, b, ..)`; the enum's name is not shown.
    pub fn serialize_tuple_variant(
        self,
        _name: &str,
        _variant_index: u32,
        variant: &str,
        _len: usize,
    ) -> (r: DebugTuple)
        ensures
            r.wf(),
            r.prefix() == self.text(),
            r.name() == variant@,
            r.fields() == Seq::<Seq<char>>::empty(),
            r.alternate() == self.alternate(),
    {
        DebugTuple::open(self.out, self.alternate, variant)
    }

    /// Opens a map: `{k: v, ..}`.
    pub fn serialize_map(self, _len: Option<usize>) -> (r: DebugMap)
        ensures
            r.wf(),
            r@ == (MapState {
                prefix: self.text(),
                entries: Seq::empty(),
                pending: None,
                alternate: self.alternate(),
            }),
    {
        DebugMap::open(self.out, self.alternate)
    }

    /// Opens a struct: `Name { a: x, .. }`.
    pub fn serialize_struct(self, name: &str, _len: usize) -> (r: DebugStruct)
        ensures
            r.wf(),
            r.prefix() == self.text(),
            r.name() == name@,
            r.fields() == Seq::<(Seq<char>, Seq<char>)>::empty(),
            r.alternate() == self.alternate(),
    {
        DebugStruct::open(self.out, self.alternate, name)
    }

    /// Opens a struct variant: `Variant { a: x, .. }`; the enum's name is not shown.
    pub fn serialize_struct_variant(
        self,
        _name: &str,
        _variant_index: u32,
        variant: &str,
        _len: usize,
    ) -> (r: DebugStruct)
        ensures
            r.wf(),
            r.prefix() == self.text(),
            r.name() == variant@,
            r.fields() == Seq::<(Seq<char>, Seq<char>)>::empty(),
            r.alternate() == self.alternate(),
    {
        DebugStruct::open(self.out, self.alternate, variant)
    }
}

/// A value wrapped to be formatted through its serialization.
pub struct SerializeDebug<T>(pub T);

/// Wraps `v` to be formatted through its serialization.
pub fn to_debug<T>(v: T) -> (r: SerializeDebug<T>)
    ensures
        r.0 == v,
{
    SerializeDebug(v)
}

} // verus!
