use vstd::prelude::*;
use crate::text::{
    entries_text, entry_text, item_text, items_text, list_text, struct_close, struct_text, tuple_close,
    tuple_text, write_item,
};

verus! {

/// The text of an open nested block: what came before it (`head`), then its
/// items, each written as soon as it is submitted.
pub(crate) struct Block {
    pub(crate) out: String,
    pub(crate) alternate: bool,
    pub(crate) has_items: bool,
    pub(crate) single: bool,
    pub(crate) open_plain: &'static str,
    pub(crate) open_pretty: &'static str,
    pub(crate) head: Ghost<Seq<char>>,
    pub(crate) items: Ghost<Seq<Seq<char>>>,
}

impl Block {
    pub(crate) open spec fn wf(&self) -> bool {
        &&& self.out@ == self.head@ + items_text(
            self.items@,
            self.open_plain@,
            self.open_pretty@,
            self.alternate,
        )
        &&& self.has_items == (self.items@.len() > 0)
        &&& self.single == (self.items@.len() == 1)
    }

    pub(crate) fn new(
        out: String,
        alternate: bool,
        open_plain: &'static str,
        open_pretty: &'static str,
    ) -> (r: Block)
        ensures
            r.wf(),
            r.head@ == out@,
            r.items@ == Seq::<Seq<char>>::empty(),
            r.alternate == alternate,
            r.open_plain == open_plain,
            r.open_pretty == open_pretty,
    {
        let ghost head = out@;
        let r = Block {
            out,
            alternate,
            has_items: false,
            single: false,
            open_plain,
            open_pretty,
            head: Ghost(head),
            items: Ghost(Seq::empty()),
        };
        assert(r.out@ =~= r.head@ + items_text(r.items@, open_plain@, open_pretty@, alternate));
        r
    }

    pub(crate) fn push(&mut self, item: &str)
        requires
            old(self).wf(),
        ensures
            final(self).wf(),
            final(self).items@ == old(self).items@.push(item@),
            final(self).head == old(self).head,
            final(self).alternate == old(self).alternate,
            final(self).open_plain == old(self).open_plain,
            final(self).open_pretty == old(self).open_pretty,
    {
        let first = !self.has_items;
        write_item(&mut self.out, first, item, self.open_plain, self.open_pretty, self.alternate);
        self.single = first;
        self.has_items = true;
        let ghost items = self.items@.push(item@);
        proof {
            assert(items.drop_last() =~= old(self).items@);
            assert(items_text(items, self.open_plain@, self.open_pretty@, self.alternate)
                == items_text(old(self).items@, self.open_plain@, self.open_pretty@, self.alternate)
                + item_text(first, item@, self.open_plain@, self.open_pretty@, self.alternate));
            assert(self.out@ =~= self.head@ + items_text(
                items,
                self.open_plain@,
                self.open_pretty@,
                self.alternate,
            ));
        }
        self.items = Ghost(items);
    }
}

/// A sequence being rendered as `[a, b, ..]`.
pub struct DebugSeq {
    block: Block,
    prefix: Ghost<Seq<char>>,
}

impl DebugSeq {
    pub closed spec fn wf(&self) -> bool {
        &&& self.block.wf()
        &&& self.block.head@ == self.prefix@ + seq!['[']
        &&& self.block.open_plain@ == Seq::<char>::empty()
        &&& self.block.open_pretty@ == seq!['\n']
    }

    /// The text that stood in the target before the sequence began.
    pub closed spec fn prefix(&self) -> Seq<char> {
        self.prefix@
    }

    /// The rendered elements submitted so far.
    pub closed spec fn entries(&self) -> Seq<Seq<char>> {
        self.block.items@
    }

    pub closed spec fn alternate(&self) -> bool {
        self.block.alternate
    }

    /// Opens a sequence after the text `out`.
    pub(crate) fn open(out: String, alternate: bool) -> (r: DebugSeq)
        ensures
            r.wf(),
            r.prefix() == out@,
            r.entries() == Seq::<Seq<char>>::empty(),
            r.alternate() == alternate,
    {
        let ghost prefix = out@;
        let mut out = out;
        proof {
            reveal_strlit("[");
            reveal_strlit("");
            reveal_strlit("\n");
        }
        out.append("[");
        let block = Block::new(out, alternate, "", "\n");
        let r = DebugSeq { block, prefix: Ghost(prefix) };
        assert(r.block.head@ =~= prefix + seq!['[']);
        assert(r.block.open_plain@ =~= Seq::<char>::empty());
        assert(r.block.open_pretty@ =~= seq!['\n']);
        r
    }

    /// Adds the rendered text of the next element.
    pub fn serialize_element(&mut self, v: &str)
        requires
            old(self).wf(),
        ensures
            final(self).wf(),
            final(self).prefix() == old(self).prefix(),
            final(self).alternate() == old(self).alternate(),
            final(self).entries() == old(self).entries().push(v@),
    {
        self.block.push(v);
    }

    /// Closes the sequence and returns the whole text of the target.
    pub fn end(self) -> (r: String)
        requires
            self.wf(),
        ensures
            r@ == self.prefix() + list_text(self.entries(), self.alternate()),
    {
        let mut out = self.block.out;
        proof {
            reveal_strlit("]");
        }
        out.append("]");
        assert(out@ =~= self.prefix() + list_text(self.entries(), self.alternate()));
        out
    }
}

/// A tuple, tuple struct or tuple variant being rendered as `Name(a, b, ..)`.
pub struct DebugTuple {
    block: Block,
    empty_name: bool,
    prefix: Ghost<Seq<char>>,
    name: Ghost<Seq<char>>,
}

impl DebugTuple {
    pub closed spec fn wf(&self) -> bool {
        &&& self.block.wf()
        &&& self.block.head@ == self.prefix@ + self.name@
        &&& self.block.open_plain@ == seq!['(']
        &&& self.block.open_pretty@ == seq!['(', '\n']
        &&& self.empty_name == (self.name@.len() == 0)
    }

    /// The text that stood in the target before the tuple began.
    pub closed spec fn prefix(&self) -> Seq<char> {
        self.prefix@
    }

    /// The name written before the fields; empty for a plain tuple.
    pub closed spec fn name(&self) -> Seq<char> {
        self.name@
    }

    /// The rendered fields submitted so far.
    pub closed spec fn fields(&self) -> Seq<Seq<char>> {
        self.block.items@
    }

    pub closed spec fn alternate(&self) -> bool {
        self.block.alternate
    }

    /// Opens a tuple named `name` after the text `out`.
    pub(crate) fn open(out: String, alternate: bool, name: &str) -> (r: DebugTuple)
        ensures
            r.wf(),
            r.prefix() == out@,
            r.name() == name@,
            r.fields() == Seq::<Seq<char>>::empty(),
            r.alternate() == alternate,
    {
        let ghost prefix = out@;
        let mut out = out;
        out.append(name);
        proof {
            reveal_strlit("(");
            reveal_strlit("(\n");
        }
        let block = Block::new(out, alternate, "(", "(\n");
        let empty_name = name.unicode_len() == 0;
        let r = DebugTuple { block, empty_name, prefix: Ghost(prefix), name: Ghost(name@) };
        assert(r.block.open_plain@ =~= seq!['(']);
        assert(r.block.open_pretty@ =~= seq!['(', '\n']);
        r
    }

    /// Adds the rendered text of the next field.
    pub fn serialize_field(&mut self, v: &str)
        requires
            old(self).wf(),
        ensures
            final(self).wf(),
            final(self).prefix() == old(self).prefix(),
            final(self).name() == old(self).name(),
            final(self).alternate() == old(self).alternate(),
            final(self).fields() == old(self).fields().push(v@),
    {
        self.block.push(v);
    }

    /// Closes the tuple and returns the whole text of the target.
    pub fn end(self) -> (r: String)
        requires
            self.wf(),
        ensures
            r@ == self.prefix() + tuple_text(self.name(), self.fields(), self.alternate()),
    {
        let mut out = self.block.out;
        proof {
            reveal_strlit(",");
            reveal_strlit(")");
        }
        if self.block.has_items {
            if self.block.single && self.empty_name && !self.block.alternate {
                out.append(",");
            }
            out.append(")");
        }
        assert(out@ =~= self.prefix() + tuple_text(self.name(), self.fields(), self.alternate()));
        out
    }
}

/// A struct or struct variant being rendered as `Name { a: x, b: y }`.
pub struct DebugStruct {
    block: Block,
    prefix: Ghost<Seq<char>>,
    name: Ghost<Seq<char>>,
    fields: Ghost<Seq<(Seq<char>, Seq<char>)>>,
}

impl DebugStruct {
    pub closed spec fn wf(&self) -> bool {
        &&& self.block.wf()
        &&& self.block.head@ == self.prefix@ + self.name@
        &&& self.block.open_plain@ == seq![' ', '{', ' ']
        &&& self.block.open_pretty@ == seq![' ', '{', '\n']
        &&& self.block.items@ == entries_text(self.fields@)
    }

    /// The text that stood in the target before the struct began.
    pub closed spec fn prefix(&self) -> Seq<char> {
        self.prefix@
    }

    pub closed spec fn name(&self) -> Seq<char> {
        self.name@
    }

    /// The field names and rendered values submitted so far.
    pub closed spec fn fields(&self) -> Seq<(Seq<char>, Seq<char>)> {
        self.fields@
    }

    pub closed spec fn alternate(&self) -> bool {
        self.block.alternate
    }

    /// Opens a struct named `name` after the text `out`.
    pub(crate) fn open(out: String, alternate: bool, name: &str) -> (r: DebugStruct)
        ensures
            r.wf(),
            r.prefix() == out@,
            r.name() == name@,
            r.fields() == Seq::<(Seq<char>, Seq<char>)>::empty(),
            r.alternate() == alternate,
    {
        let ghost prefix = out@;
        let mut out = out;
        out.append(name);
        proof {
            reveal_strlit(" { ");
            reveal_strlit(" {\n");
        }
        let block = Block::new(out, alternate, " { ", " {\n");
        let r = DebugStruct {
            block,
            prefix: Ghost(prefix),
            name: Ghost(name@),
            fields: Ghost(Seq::empty()),
        };
        assert(r.block.open_plain@ =~= seq![' ', '{', ' ']);
        assert(r.block.open_pretty@ =~= seq![' ', '{', '\n']);
        assert(r.block.items@ =~= entries_text(r.fields@));
        r
    }

    /// Adds the field `k` with the rendered value `v`.
    pub fn serialize_field(&mut self, k: &str, v: &str)
        requires
            old(self).wf(),
        ensures
            final(self).wf(),
            final(self).prefix() == old(self).prefix(),
            final(self).name() == old(self).name(),
            final(self).alternate() == old(self).alternate(),
            final(self).fields() == old(self).fields().push((k@, v@)),
    {
        let mut entry = String::from_str(k);
        proof {
            reveal_strlit(": ");
        }
        entry.append(": ");
        entry.append(v);
        assert(entry@ =~= entry_text(k@, v@));
        self.block.push(entry.as_str());
        let ghost fields = self.fields@.push((k@, v@));
        self.fields = Ghost(fields);
        assert(self.block.items@ =~= entries_text(fields));
    }

    /// Closes the struct and returns the whole text of the target.
    pub fn end(self) -> (r: String)
        requires
            self.wf(),
        ensures
            r@ == self.prefix() + struct_text(self.name(), self.fields(), self.alternate()),
    {
        let mut out = self.block.out;
        proof {
            reveal_strlit(" }");
            reveal_strlit("}");
        }
        if self.block.has_items {
            if self.block.alternate {
                out.append("}");
            } else {
                out.append(" }");
            }
        }
        assert(out@ =~= self.prefix() + struct_text(self.name(), self.fields(), self.alternate()));
        out
    }
}

} // verus!
