//! The registry of currently open spans, keyed by the instrumentation
//! source's span identifiers.
//!
//! Identifiers are unique among open spans: opening an identifier that is
//! already present is refused. An identifier may be reused after the span
//! closes and its entry is removed.
use crate::open_span::{wf_open, OpenedSpan};
use vstd::prelude::*;

verus! {

/// One open span together with its place in the span hierarchy.
pub struct RegEntry {
    /// The identifier the instrumentation source uses for this span.
    pub span_id: u64,
    /// The identifier of the parent span at open time, if there was one.
    pub parent: Option<u64>,
    /// The names of the ancestor spans at open time, root first, ending
    /// with the parent's name.
    pub ancestors: Vec<&'static str>,
    /// The span's mutable state.
    pub open: OpenedSpan,
}

/// The set of currently open spans.
pub struct SpanRegistry {
    /// The open entries, in open order.
    pub entries: Vec<RegEntry>,
}

/// Whether some entry carries the given span identifier.
pub open spec fn spec_has_id(s: Seq<RegEntry>, id: u64) -> bool {
    exists|i: int| 0 <= i < s.len() && (#[trigger] s[i]).span_id == id
}

/// Entry identifiers are pairwise distinct.
pub open spec fn spec_ids_unique(s: Seq<RegEntry>) -> bool {
    forall|i: int, j: int|
        0 <= i < j < s.len() ==> (#[trigger] s[i]).span_id != (#[trigger] s[j]).span_id
}

/// The position of the entry carrying the given identifier; meaningful
/// only when some entry does.
pub open spec fn spec_index_of(s: Seq<RegEntry>, id: u64) -> int {
    choose|i: int| 0 <= i < s.len() && (#[trigger] s[i]).span_id == id
}

/// The entry carrying the given identifier, when one does.
pub open spec fn spec_get(s: Seq<RegEntry>, id: u64) -> Option<RegEntry> {
    if spec_has_id(s, id) {
        Some(s[spec_index_of(s, id)])
    } else {
        None
    }
}

/// With unique identifiers, any position whose entry carries the
/// identifier is the position `spec_index_of` picks.
pub proof fn lemma_index_of_unique(s: Seq<RegEntry>, id: u64, i: int)
    requires
        spec_ids_unique(s),
        0 <= i < s.len(),
        s[i].span_id == id,
    ensures
        spec_index_of(s, id) == i,
        spec_get(s, id) == Some(s[i]),
{
    assert(spec_has_id(s, id));
    let j = spec_index_of(s, id);
    if i < j {
        assert(s[i].span_id != s[j].span_id);
    } else if j < i {
        assert(s[j].span_id != s[i].span_id);
    }
}

/// A well-formed registry: identifiers are unique and every open span is
/// well formed.
pub open spec fn wf_registry(s: Seq<RegEntry>) -> bool {
    &&& spec_ids_unique(s)
    &&& forall|i: int| 0 <= i < s.len() ==> wf_open((#[trigger] s[i]).open)
}

impl SpanRegistry {
    /// Returns an empty registry.
    pub fn new() -> (r: SpanRegistry)
        ensures
            r.entries@ =~= Seq::<RegEntry>::empty(),
            wf_registry(r.entries@),
    {
        let r = SpanRegistry { entries: Vec::new() };
        proof {
            assert(r.entries@ =~= Seq::<RegEntry>::empty());
        }
        r
    }

    /// Returns the position of the entry with the given identifier, or
    /// `None` when no open span carries it.
    pub fn find_index(&self, id: u64) -> (r: Option<usize>)
        ensures
            r matches Some(i) ==> i < self.entries@.len() && self.entries@[i as int].span_id == id,
            r is None ==> !spec_has_id(self.entries@, id),
    {
        let mut i: usize = 0;
        while i < self.entries.len()
            invariant
                i <= self.entries@.len(),
                forall|j: int| 0 <= j < i ==> (#[trigger] self.entries@[j]).span_id != id,
            decreases self.entries@.len() - i,
        {
            if self.entries[i].span_id == id {
                return Some(i);
            }
            i = i + 1;
        }
        None
    }

    /// Adds an entry for a newly opened span. Fails, leaving the registry
    /// unchanged, exactly when the identifier is already open.
    pub fn insert(&mut self, entry: RegEntry) -> (r: Result<(), ()>)
        ensures
            r is Ok <==> !spec_has_id(old(self).entries@, entry.span_id),
            r is Ok ==> final(self).entries@ == old(self).entries@.push(entry),
            r is Err ==> final(self).entries@ == old(self).entries@,
            wf_registry(old(self).entries@) && wf_open(entry.open) ==> wf_registry(
                final(self).entries@,
            ),
    {
        match self.find_index(entry.span_id) {
            Some(_) => Err(()),
            None => {
                self.entries.push(entry);
                proof {
                    let s = old(self).entries@;
                    let s2 = final(self).entries@;
                    if wf_registry(s) && wf_open(entry.open) {
                        assert forall|i: int, j: int| 0 <= i < j < s2.len() implies (
                        #[trigger] s2[i]).span_id != (#[trigger] s2[j]).span_id by {
                            if j < s.len() {
                            } else {
                                assert(s2[j] == entry);
                                assert(s2[i] == s[i]);
                                if s[i].span_id == entry.span_id {
                                    assert(spec_has_id(s, entry.span_id));
                                }
                            }
                        }
                        assert forall|i: int| 0 <= i < s2.len() implies wf_open(
                            (#[trigger] s2[i]).open,
                        ) by {
                            if i < s.len() {
                                assert(s2[i] == s[i]);
                            } else {
                                assert(s2[i] == entry);
                            }
                        }
                    }
                }
                Ok(())
            },
        }
    }

    /// Removes and returns the entry with the given identifier, or returns
    /// `None`, leaving the registry unchanged, when no open span carries it.
    pub fn remove(&mut self, id: u64) -> (r: Option<RegEntry>)
        ensures
            r matches Some(e) ==> e.span_id == id && (exists|i: int|
                0 <= i < old(self).entries@.len() && old(self).entries@[i] == e
                    && final(self).entries@ == old(self).entries@.remove(i)),
            r is None ==> !spec_has_id(old(self).entries@, id)
                && final(self).entries@ == old(self).entries@,
            wf_registry(old(self).entries@) ==> wf_registry(final(self).entries@),
    {
        match self.find_index(id) {
            Some(i) => {
                let e = self.entries.remove(i);
                proof {
                    let s = old(self).entries@;
                    let s2 = final(self).entries@;
                    if wf_registry(s) {
                        assert forall|a: int, b: int| 0 <= a < b < s2.len() implies (
                        #[trigger] s2[a]).span_id != (#[trigger] s2[b]).span_id by {
                            let a0 = if a < i { a } else { a + 1 };
                            let b0 = if b < i { b } else { b + 1 };
                            assert(s2[a] == s[a0] && s2[b] == s[b0]);
                        }
                        assert forall|a: int| 0 <= a < s2.len() implies wf_open(
                            (#[trigger] s2[a]).open,
                        ) by {
                            let a0 = if a < i { a } else { a + 1 };
                            assert(s2[a] == s[a0]);
                        }
                    }
                }
                Some(e)
            },
            None => None,
        }
    }
}

} // verus!
