//! Debug-style text rendering driven by serialization events.
//!
//! A serializer reports the shape of a value one event at a time (a scalar, a
//! sequence, a tuple, a map, a struct, an enum variant). The `Formatter` here
//! turns each event into the text that `{:?}` (or `{:#?}` in pretty mode)
//! would produce for the same shape. Composite shapes are built with the
//! builders of `builders` and `map`, which take the already rendered text of
//! each child.

mod builders;
mod error;
mod formatter;
mod laws;
mod map;
mod text;

pub use builders::{DebugSeq, DebugStruct, DebugTuple};
pub use error::Error;
pub use formatter::{
    bool_text, bytes_text, char_debug_of, str_debug_of, to_debug, Formatter, SerializeDebug,
};
pub use laws::{joined, lemma_tuple_order, lemma_variant_forms, pretty_lines};
pub use map::{
    closed_text, entry_step, key_step, lemma_entry_is_key_then_value,
    lemma_protocol_violations_refused, value_step, DebugMap, MapState,
};
pub use text::{
    digits, entries_text, entry_text, indent, int_text, item_text, items_text, list_text,
    map_text, nat_text, pad, starts_line, struct_close, struct_text, tuple_close, tuple_text,
};
