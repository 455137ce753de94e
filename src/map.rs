use vstd::prelude::*;
use crate::builders::Block;
use crate::error::Error;
use crate::text::{entries_text, entry_text, item_text, items_text, map_text};

verus! {

/// What a map being rendered holds: the text before it, the entries written
/// so far, the key waiting for its value (if any), and the mode.
pub struct MapState {
    pub prefix: Seq<char>,
    pub entries: Seq<(Seq<char>, Seq<char>)>,
    pub pending: Option<Seq<char>>,
    pub alternate: bool,
}

/// A key submitted on its own: accepted only when no key is pending.
pub open spec fn key_step(m: MapState, k: Seq<char>) -> Option<MapState> {
    if m.pending is None {
        Some(MapState { pending: Some(k), ..m })
    } else {
        None
    }
}

/// A value submitted on its own: accepted only when a key is pending, and
/// written with that key as one entry.
pub open spec fn value_step(m: MapState, v: Seq<char>) -> Option<MapState> {
    match m.pending {
        Some(k) => Some(MapState { entries: m.entries.push((k, v)), pending: None, ..m }),
        None => None,
    }
}

/// A key and a value submitted together: accepted only when no key is pending.
pub open spec fn entry_step(m: MapState, k: Seq<char>, v: Seq<char>) -> Option<MapState> {
    if m.pending is None {
        Some(MapState { entries: m.entries.push((k, v)), ..m })
    } else {
        None
    }
}

/// The text of the target once the map is closed; a pending key is dropped.
pub open spec fn closed_text(m: MapState) -> Seq<char> {
    m.prefix + map_text(m.entries, m.alternate)
}

/// A map being rendered as `{k: v, ..}`. Entries come either whole, or as a
/// key and then its value; the key's text waits in a buffer meanwhile.
pub struct DebugMap {
    block: Block,
    key: Option<String>,
    prefix: Ghost<Seq<char>>,
    entries: Ghost<Seq<(Seq<char>, Seq<char>)>>,
}

impl View for DebugMap {
    type V = MapState;

    closed spec fn view(&self) -> MapState {
        MapState {
            prefix: self.prefix@,
            entries: self.entries@,
            pending: match self.key {
                Some(k) => Some(k@),
                None => None,
            },
            alternate: self.block.alternate,
        }
    }
}

impl DebugMap {
    pub closed spec fn wf(&self) -> bool {
        &&& self.block.wf()
        &&& self.block.head@ == self.prefix@ + seq!['{']
        &&& self.block.open_plain@ == Seq::<char>::empty()
        &&& self.block.open_pretty@ == seq!['\n']
        &&& self.block.items@ == entries_text(self.entries@)
    }

    /// Opens a map after the text `out`.
    pub(crate) fn open(out: String, alternate: bool) -> (r: DebugMap)
        ensures
            r.wf(),
            r@ == (MapState {
                prefix: out@,
                entries: Seq::empty(),
                pending: None,
                alternate,
            }),
    {
        let ghost prefix = out@;
        let mut out = out;
        proof {
            reveal_strlit("{");
            reveal_strlit("");
            reveal_strlit("\n");
        }
        out.append("{");
        let block = Block::new(out, alternate, "", "\n");
        let r = DebugMap {
            block,
            key: None,
            prefix: Ghost(prefix),
            entries: Ghost(Seq::empty()),
        };
        assert(r.block.head@ =~= prefix + seq!['{']);
        assert(r.block.open_plain@ =~= Seq::<char>::empty());
        assert(r.block.open_pretty@ =~= seq!['\n']);
        assert(r.block.items@ =~= entries_text(r.entries@));
        r
    }

    /// Writes the entry `k: v`.
    fn write_entry(&mut self, k: &str, v: &str)
        requires
            old(self).wf(),
        ensures
            final(self).wf(),
            final(self).key == old(self).key,
            final(self)@ == (MapState { entries: old(self)@.entries.push((k@, v@)), ..old(self)@ }),
    {
        let mut entry = String::from_str(k);
        proof {
            reveal_strlit(": ");
        }
        entry.append(": ");
        entry.append(v);
        assert(entry@ =~= entry_text(k@, v@));
        self.block.push(entry.as_str());
        let ghost entries = self.entries@.push((k@, v@));
        self.entries = Ghost(entries);
        assert(self.block.items@ =~= entries_text(entries));
    }

    /// Submits a key and its rendered value together.
    pub fn serialize_entry(&mut self, k: &str, v: &str) -> (r: Result<(), Error>)
        requires
            old(self).wf(),
        ensures
            final(self).wf(),
            r is Ok <==> entry_step(old(self)@, k@, v@) is Some,
            r is Ok ==> Some(final(self)@) == entry_step(old(self)@, k@, v@),
            r is Err ==> *final(self) == *old(self),
    {
        if self.key.is_some() {
            return Err(Error);
        }
        self.write_entry(k, v);
        Ok(())
    }

    /// Submits a rendered key on its own; its value must come next.
    pub fn serialize_key(&mut self, k: &str) -> (r: Result<(), Error>)
        requires
            old(self).wf(),
        ensures
            final(self).wf(),
            r is Ok <==> key_step(old(self)@, k@) is Some,
            r is Ok ==> Some(final(self)@) == key_step(old(self)@, k@),
            r is Err ==> *final(self) == *old(self),
    {
        if self.key.is_some() {
            return Err(Error);
        }
        self.key = Some(String::from_str(k));
        Ok(())
    }

    /// Submits the rendered value of the pending key.
    pub fn serialize_value(&mut self, v: &str) -> (r: Result<(), Error>)
        requires
            old(self).wf(),
        ensures
            final(self).wf(),
            r is Ok <==> value_step(old(self)@, v@) is Some,
            r is Ok ==> Some(final(self)@) == value_step(old(self)@, v@),
            r is Err ==> *final(self) == *old(self),
    {
        let key = match &self.key {
            Some(k) => k.clone(),
            None => {
                return Err(Error);
            },
        };
        self.key = None;
        self.write_entry(key.as_str(), v);
        Ok(())
    }

    /// Closes the map and returns the whole text of the target.
    pub fn end(self) -> (r: String)
        requires
            self.wf(),
        ensures
            r@ == closed_text(self@),
    {
        let mut out = self.block.out;
        proof {
            reveal_strlit("}");
        }
        out.append("}");
        assert(out@ =~= closed_text(self@));
        out
    }
}

/// Submitting a key and a value together leaves a map exactly as submitting
/// the key and then the value does, so both render the same text, in plain and
/// in pretty mode alike.
pub proof fn lemma_entry_is_key_then_value(m: MapState, k: Seq<char>, v: Seq<char>)
    requires
        m.pending is None,
    ensures
        key_step(m, k) is Some,
        entry_step(m, k, v) is Some,
        value_step(key_step(m, k)->0, v) == entry_step(m, k, v),
        closed_text(value_step(key_step(m, k)->0, v)->0) == closed_text(entry_step(m, k, v)->0),
{
}

/// A value with no key pending, and a key or an entry while a key is pending,
/// are refused.
pub proof fn lemma_protocol_violations_refused(m: MapState, k: Seq<char>, v: Seq<char>)
    ensures
        m.pending is None ==> value_step(m, v) is None,
        m.pending is Some ==> key_step(m, k) is None && entry_step(m, k, v) is None,
{
}

} // verus!
