use vstd::prelude::*;
use crate::stream::StreamKind;

verus! {

/// The map that a sequence of (stream index, kind) entries describes; a later
/// entry for the same index replaces an earlier one.
pub open spec fn entries_map(s: Seq<(usize, StreamKind)>) -> Map<usize, StreamKind>
    decreases s.len(),
{
    if s.len() == 0 {
        Map::empty()
    } else {
        entries_map(s.drop_last()).insert(s.last().0, s.last().1)
    }
}

/// No two entries share a stream index.
pub open spec fn keys_unique(s: Seq<(usize, StreamKind)>) -> bool {
    forall|i: int, j: int| 0 <= i < j < s.len() ==> s[i].0 != s[j].0
}

proof fn lemma_entries_map_absent(s: Seq<(usize, StreamKind)>, idx: usize)
    requires
        forall|i: int| 0 <= i < s.len() ==> s[i].0 != idx,
    ensures
        !entries_map(s).contains_key(idx),
    decreases s.len(),
{
    if s.len() > 0 {
        lemma_entries_map_absent(s.drop_last(), idx);
    }
}

proof fn lemma_entries_map_at(s: Seq<(usize, StreamKind)>, i: int)
    requires
        keys_unique(s),
        0 <= i < s.len(),
    ensures
        entries_map(s).contains_key(s[i].0),
        entries_map(s)[s[i].0] == s[i].1,
    decreases s.len(),
{
    if i < s.len() - 1 {
        let t = s.drop_last();
        assert(keys_unique(t));
        lemma_entries_map_at(t, i);
        assert(s.last().0 != s[i].0);
    }
}

/// Which decode worker, by stream kind, receives the packets of each stream
/// index of the container.
pub struct RouteTable {
    entries: Vec<(usize, StreamKind)>,
}

impl View for RouteTable {
    type V = Map<usize, StreamKind>;

    closed spec fn view(&self) -> Map<usize, StreamKind> {
        entries_map(self.entries@)
    }
}

impl RouteTable {
    /// Each stream index is routed at most once.
    pub closed spec fn wf(&self) -> bool {
        keys_unique(self.entries@)
    }

    /// A table that routes nothing.
    pub fn new() -> (r: RouteTable)
        ensures
            r.wf(),
            r@ == Map::<usize, StreamKind>::empty(),
    {
        RouteTable { entries: Vec::new() }
    }

    /// The kind of worker that stream `idx` is routed to, if any.
    pub fn lookup(&self, idx: usize) -> (r: Option<StreamKind>)
        requires
            self.wf(),
        ensures
            r == (if self@.contains_key(idx) { Some(self@[idx]) } else { None::<StreamKind> }),
    {
        let mut i: usize = 0;
        while i < self.entries.len()
            invariant
                self.wf(),
                i <= self.entries@.len(),
                forall|j: int| 0 <= j < i ==> self.entries@[j].0 != idx,
            decreases self.entries@.len() - i,
        {
            if self.entries[i].0 == idx {
                proof {
                    lemma_entries_map_at(self.entries@, i as int);
                }
                return Some(self.entries[i].1);
            }
            i = i + 1;
        }
        proof {
            lemma_entries_map_absent(self.entries@, idx);
        }
        None
    }

    /// Routes stream `idx` to the worker of `kind`. Returns false, and leaves
    /// the table as it was, when `idx` is routed already.
    pub fn add_route(&mut self, idx: usize, kind: StreamKind) -> (r: bool)
        requires
            old(self).wf(),
        ensures
            final(self).wf(),
            r == !old(self)@.contains_key(idx),
            r ==> final(self)@ == old(self)@.insert(idx, kind),
            !r ==> final(self)@ == old(self)@,
    {
        match self.lookup(idx) {
            Some(_) => false,
            None => {
                proof {
                    assert forall|j: int| 0 <= j < self.entries@.len() implies self.entries@[j].0
                        != idx by {
                        if self.entries@[j].0 == idx {
                            lemma_entries_map_at(self.entries@, j);
                        }
                    }
                }
                self.entries.push((idx, kind));
                proof {
                    assert(self.entries@.drop_last() == old(self).entries@);
                }
                true
            },
        }
    }
}

} // verus!
