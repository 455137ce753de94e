use vstd::prelude::*;

verus! {

/// The four spaces that pretty mode puts at the start of each nested line.
pub open spec fn indent() -> Seq<char> {
    seq![' ', ' ', ' ', ' ']
}

/// Whether position `i` of `s` starts a line.
pub open spec fn starts_line(s: Seq<char>, i: int) -> bool {
    i == 0 || s[i - 1] == '\n'
}

/// `s` with `indent()` put before the first character of every line.
pub open spec fn pad(s: Seq<char>) -> Seq<char>
    decreases s.len(),
{
    if s.len() == 0 {
        seq![]
    } else {
        let i = s.len() - 1;
        pad(s.drop_last()) + (if starts_line(s, i) {
            indent()
        } else {
            seq![]
        }) + seq![s[i]]
    }
}

/// Relies on `String::push`: the character is added at the end.
#[verifier::external_body]
fn push_char(out: &mut String, c: char)
    ensures
        final(out)@ == old(out)@.push(c),
{
    out.push(c)
}

/// Appends `pad(s@)` to `out`.
pub(crate) fn write_padded(out: &mut String, s: &str)
    ensures
        final(out)@ == old(out)@ + pad(s@),
{
    let mut at_start = true;
    for c in it: s.chars()
        invariant
            it.seq() == s@,
            it.index() <= s@.len(),
            at_start == starts_line(s@, it.index() as int),
            out@ == old(out)@ + pad(s@.take(it.index() as int)),
    {
        let ghost i = it.index() as int;
        let ghost before = out@;
        if at_start {
            proof {
                reveal_strlit("    ");
                assert("    "@ =~= indent());
            }
            out.append("    ");
        }
        push_char(out, c);
        proof {
            let t = s@.take(i + 1);
            assert(t.drop_last() =~= s@.take(i));
            assert(starts_line(t, i) == starts_line(s@, i));
            assert(out@ =~= before + (if starts_line(s@, i) {
                indent()
            } else {
                seq![]
            }) + seq![c]);
            assert(out@ =~= old(out)@ + pad(t));
        }
        at_start = c == '\n';
    }
    assert(s@.take(s@.len() as int) =~= s@);
}

/// The ten decimal digits, in order.
pub open spec fn digits() -> Seq<char> {
    seq!['0', '1', '2', '3', '4', '5', '6', '7', '8', '9']
}

/// The decimal form of `n`, without leading zeros.
pub open spec fn nat_text(n: nat) -> Seq<char>
    decreases n,
{
    if n < 10 {
        seq![digits()[n as int]]
    } else {
        nat_text(n / 10) + seq![digits()[(n % 10) as int]]
    }
}

/// The decimal form of `i`, with a leading `-` when it is negative.
pub open spec fn int_text(i: int) -> Seq<char> {
    if i < 0 {
        seq!['-'] + nat_text((-i) as nat)
    } else {
        nat_text(i as nat)
    }
}

/// Appends `nat_text(n)` to `out`.
pub(crate) fn write_u128(out: &mut String, n: u128)
    ensures
        final(out)@ == old(out)@ + nat_text(n as nat),
    decreases n,
{
    if n >= 10 {
        write_u128(out, n / 10);
    }
    let d = (n % 10) as usize;
    let all = "0123456789";
    proof {
        reveal_strlit("0123456789");
        assert(all@ =~= digits());
    }
    out.append(all.substring_char(d, d + 1));
    proof {
        assert(all@.subrange(d as int, d + 1) =~= seq![digits()[d as int]]);
        if n >= 10 {
            assert((n / 10) as nat == (n as nat) / 10);
        }
    }
    assert(final(out)@ =~= old(out)@ + nat_text(n as nat));
}

/// Appends `int_text(v)` to `out`.
pub(crate) fn write_i128(out: &mut String, v: i128)
    ensures
        final(out)@ == old(out)@ + int_text(v as int),
{
    if v < 0 {
        proof {
            reveal_strlit("-");
        }
        out.append("-");
        let m: u128 = ((-(v + 1)) as u128) + 1;
        write_u128(out, m);
        assert(final(out)@ =~= old(out)@ + int_text(v as int));
    } else {
        write_u128(out, v as u128);
    }
}

/// The text of one item of a nested block: the opening before the first item,
/// `, ` between items; in pretty mode each item stands on a line of its own,
/// indented and ended by a comma.
pub open spec fn item_text(
    first: bool,
    item: Seq<char>,
    open_plain: Seq<char>,
    open_pretty: Seq<char>,
    alternate: bool,
) -> Seq<char> {
    if alternate {
        (if first {
            open_pretty
        } else {
            seq![]
        }) + pad(item + seq![',', '\n'])
    } else {
        (if first {
            open_plain
        } else {
            seq![',', ' ']
        }) + item
    }
}

/// The text of all the items of a nested block, in order.
pub open spec fn items_text(
    items: Seq<Seq<char>>,
    open_plain: Seq<char>,
    open_pretty: Seq<char>,
    alternate: bool,
) -> Seq<char>
    decreases items.len(),
{
    if items.len() == 0 {
        seq![]
    } else {
        items_text(items.drop_last(), open_plain, open_pretty, alternate) + item_text(
            items.len() == 1,
            items.last(),
            open_plain,
            open_pretty,
            alternate,
        )
    }
}

/// A named field or a map entry: `key: value`.
pub open spec fn entry_text(key: Seq<char>, value: Seq<char>) -> Seq<char> {
    key + seq![':', ' '] + value
}

/// The entries of a struct or a map, each as `key: value`.
pub open spec fn entries_text(pairs: Seq<(Seq<char>, Seq<char>)>) -> Seq<Seq<char>> {
    pairs.map_values(|p: (Seq<char>, Seq<char>)| entry_text(p.0, p.1))
}

/// A list: `[a, b]`.
pub open spec fn list_text(entries: Seq<Seq<char>>, alternate: bool) -> Seq<char> {
    seq!['['] + items_text(entries, seq![], seq!['\n'], alternate) + seq![']']
}

/// What closes a tuple: nothing without fields; `,)` for a single field of an
/// unnamed tuple outside pretty mode; `)` otherwise.
pub open spec fn tuple_close(name: Seq<char>, n: nat, alternate: bool) -> Seq<char> {
    if n == 0 {
        seq![]
    } else if n == 1 && name.len() == 0 && !alternate {
        seq![',', ')']
    } else {
        seq![')']
    }
}

/// A tuple, tuple struct or tuple variant: `Name(a, b)`; `Name` alone without fields.
pub open spec fn tuple_text(name: Seq<char>, fields: Seq<Seq<char>>, alternate: bool) -> Seq<char> {
    name + items_text(fields, seq!['('], seq!['(', '\n'], alternate) + tuple_close(
        name,
        fields.len(),
        alternate,
    )
}

/// What closes a struct: nothing without fields, ` }` or, in pretty mode, `}`.
pub open spec fn struct_close(n: nat, alternate: bool) -> Seq<char> {
    if n == 0 {
        seq![]
    } else if alternate {
        seq!['}']
    } else {
        seq![' ', '}']
    }
}

/// A struct or struct variant: `Name { a: x, b: y }`; `Name` alone without fields.
pub open spec fn struct_text(
    name: Seq<char>,
    fields: Seq<(Seq<char>, Seq<char>)>,
    alternate: bool,
) -> Seq<char> {
    name + items_text(entries_text(fields), seq![' ', '{', ' '], seq![' ', '{', '\n'], alternate)
        + struct_close(fields.len(), alternate)
}

/// A map: `{k: v, l: w}`.
pub open spec fn map_text(entries: Seq<(Seq<char>, Seq<char>)>, alternate: bool) -> Seq<char> {
    seq!['{'] + items_text(entries_text(entries), seq![], seq!['\n'], alternate) + seq!['}']
}

/// Appends `item_text(first, item@, open_plain@, open_pretty@, alternate)` to `out`.
pub(crate) fn write_item(
    out: &mut String,
    first: bool,
    item: &str,
    open_plain: &str,
    open_pretty: &str,
    alternate: bool,
)
    ensures
        final(out)@ == old(out)@ + item_text(first, item@, open_plain@, open_pretty@, alternate),
{
    proof {
        reveal_strlit(",\n");
        reveal_strlit(", ");
        assert(",\n"@ =~= seq![',', '\n']);
        assert(", "@ =~= seq![',', ' ']);
    }
    if alternate {
        if first {
            out.append(open_pretty);
        }
        let mut line = String::from_str(item);
        line.append(",\n");
        write_padded(out, line.as_str());
    } else {
        if first {
            out.append(open_plain);
        } else {
            out.append(", ");
        }
        out.append(item);
    }
    assert(final(out)@ =~= old(out)@ + item_text(first, item@, open_plain@, open_pretty@, alternate));
}

} // verus!
