use vstd::prelude::*;
use crate::text::{entries_text, entry_text, item_text, items_text, pad, struct_text, tuple_text};

verus! {

/// The items one after another, with `sep` between each two.
pub open spec fn joined(items: Seq<Seq<char>>, sep: Seq<char>) -> Seq<char>
    decreases items.len(),
{
    if items.len() == 0 {
        seq![]
    } else if items.len() == 1 {
        items[0]
    } else {
        items[0] + sep + joined(items.drop_first(), sep)
    }
}

/// The lines that pretty mode writes for the fields: each indented and ended by a comma.
pub open spec fn pretty_lines(fields: Seq<Seq<char>>) -> Seq<Seq<char>> {
    fields.map_values(|f: Seq<char>| pad(f + seq![',', '\n']))
}

proof fn lemma_joined_last(items: Seq<Seq<char>>, sep: Seq<char>)
    requires
        items.len() >= 2,
    ensures
        joined(items, sep) == joined(items.drop_last(), sep) + sep + items.last(),
    decreases items.len(),
{
    if items.len() == 2 {
        assert(items.drop_first().len() == 1);
        assert(items.drop_last().len() == 1);
        assert(joined(items.drop_first(), sep) == items[1]);
        assert(joined(items.drop_last(), sep) == items[0]);
    } else {
        let rest = items.drop_first();
        lemma_joined_last(rest, sep);
        assert(items.drop_last().drop_first() =~= rest.drop_last());
        assert(joined(items, sep) =~= joined(items.drop_last(), sep) + sep + items.last());
    }
}

proof fn lemma_items_plain(items: Seq<Seq<char>>, open_plain: Seq<char>, open_pretty: Seq<char>)
    requires
        items.len() >= 1,
    ensures
        items_text(items, open_plain, open_pretty, false) == open_plain + joined(
            items,
            seq![',', ' '],
        ),
    decreases items.len(),
{
    if items.len() == 1 {
        assert(items_text(items.drop_last(), open_plain, open_pretty, false) == Seq::<char>::empty());
        assert(items_text(items, open_plain, open_pretty, false) =~= open_plain + items[0]);
    } else {
        lemma_items_plain(items.drop_last(), open_plain, open_pretty);
        lemma_joined_last(items, seq![',', ' ']);
        assert(items_text(items, open_plain, open_pretty, false) =~= open_plain + joined(
            items,
            seq![',', ' '],
        ));
    }
}

proof fn lemma_items_pretty(items: Seq<Seq<char>>, open_plain: Seq<char>, open_pretty: Seq<char>)
    requires
        items.len() >= 1,
    ensures
        items_text(items, open_plain, open_pretty, true) == open_pretty + joined(
            pretty_lines(items),
            seq![],
        ),
    decreases items.len(),
{
    let lines = pretty_lines(items);
    if items.len() == 1 {
        assert(items_text(items.drop_last(), open_plain, open_pretty, true) == Seq::<char>::empty());
        assert(items_text(items, open_plain, open_pretty, true) =~= open_pretty + lines[0]);
    } else {
        lemma_items_pretty(items.drop_last(), open_plain, open_pretty);
        lemma_joined_last(lines, seq![]);
        assert(pretty_lines(items.drop_last()) =~= lines.drop_last());
        assert(items_text(items, open_plain, open_pretty, true) =~= open_pretty + joined(
            lines,
            seq![],
        ));
    }
}

/// A tuple keeps its fields in order, whatever their number: `Name(a, b, ..)`
/// with `, ` between fields (and `(a,)` for a single unnamed field), or in
/// pretty mode `Name(` followed by one indented line per field.
pub proof fn lemma_tuple_order(name: Seq<char>, fields: Seq<Seq<char>>)
    requires
        fields.len() >= 1,
    ensures
        tuple_text(name, fields, false) == name + seq!['('] + joined(fields, seq![',', ' ']) + (
        if fields.len() == 1 && name.len() == 0 {
            seq![',']
        } else {
            seq![]
        }) + seq![')'],
        tuple_text(name, fields, true) == name + seq!['(', '\n'] + joined(
            pretty_lines(fields),
            seq![],
        ) + seq![')'],
{
    lemma_items_plain(fields, seq!['('], seq!['(', '\n']);
    lemma_items_pretty(fields, seq!['('], seq!['(', '\n']);
    assert(tuple_text(name, fields, false) =~= name + seq!['('] + joined(fields, seq![',', ' '])
        + (if fields.len() == 1 && name.len() == 0 {
        seq![',']
    } else {
        seq![]
    }) + seq![')']);
    assert(tuple_text(name, fields, true) =~= name + seq!['(', '\n'] + joined(
        pretty_lines(fields),
        seq![],
    ) + seq![')']);
}

/// Outside pretty mode, the variants of an enum read as construction syntax
/// named after the variant: `V`, `V(p)`, `V(a, b)` and `V { ka: a, kb: b }`.
pub proof fn lemma_variant_forms(
    variant: Seq<char>,
    p: Seq<char>,
    a: Seq<char>,
    b: Seq<char>,
    ka: Seq<char>,
    kb: Seq<char>,
)
    requires
        variant.len() > 0,
    ensures
        tuple_text(variant, seq![], false) == variant,
        tuple_text(variant, seq![p], false) == variant + seq!['('] + p + seq![')'],
        tuple_text(variant, seq![a, b], false) == variant + seq!['('] + a + seq![',', ' '] + b
            + seq![')'],
        struct_text(variant, seq![(ka, a), (kb, b)], false) == variant + seq![' ', '{', ' '] + ka
            + seq![':', ' '] + a + seq![',', ' '] + kb + seq![':', ' '] + b + seq![' ', '}'],
{
    assert(tuple_text(variant, seq![], false) =~= variant);
    let one = seq![p];
    assert(one.drop_last() =~= Seq::<Seq<char>>::empty());
    assert(tuple_text(variant, one, false) =~= variant + seq!['('] + p + seq![')']);
    let two = seq![a, b];
    assert(two.drop_last() =~= seq![a]);
    assert(two.drop_last().drop_last() =~= Seq::<Seq<char>>::empty());
    assert(items_text(seq![a], seq!['('], seq!['(', '\n'], false) =~= seq!['('] + a);
    assert(tuple_text(variant, two, false) =~= variant + seq!['('] + a + seq![',', ' '] + b
        + seq![')']);
    let fields = seq![(ka, a), (kb, b)];
    let entries = entries_text(fields);
    assert(entries =~= seq![entry_text(ka, a), entry_text(kb, b)]);
    assert(entries.drop_last() =~= seq![entry_text(ka, a)]);
    assert(entries.drop_last().drop_last() =~= Seq::<Seq<char>>::empty());
    let first = entries.drop_last();
    assert(items_text(first.drop_last(), seq![' ', '{', ' '], seq![' ', '{', '\n'], false)
        == Seq::<char>::empty());
    assert(first.last() == entry_text(ka, a));
    assert(items_text(first, seq![' ', '{', ' '], seq![' ', '{', '\n'], false) =~= seq![
        ' ',
        '{',
        ' ',
    ] + entry_text(ka, a));
    assert(struct_text(variant, fields, false) =~= variant + seq![' ', '{', ' '] + ka + seq![
        ':',
        ' ',
    ] + a + seq![',', ' '] + kb + seq![':', ' '] + b + seq![' ', '}']);
}

} // verus!
