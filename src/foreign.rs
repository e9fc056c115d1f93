use vstd::prelude::*;

verus! {

/// The identities of the documents held by a sequence of entries, in order.
pub open spec fn entry_ids<T>(entries: Seq<(u64, T)>) -> Seq<u64> {
    entries.map_values(|e: (u64, T)| e.0)
}

/// The entries after asking to keep document `doc` alive: unchanged where
/// `doc` is the owner itself or is already kept, else `doc` is appended.
pub open spec fn keep_result<T>(entries: Seq<(u64, T)>, owner: u64, doc: u64, value: T) -> Seq<(u64, T)> {
    if doc == owner || entry_ids(entries).contains(doc) {
        entries
    } else {
        entries.push((doc, value))
    }
}

/// The set of documents that one document keeps alive because its object
/// graph may refer to objects copied from them. Each document is held once,
/// and a document never holds itself.
pub struct ForeignDocuments<T> {
    owner: u64,
    entries: Vec<(u64, T)>,
}

impl<T> View for ForeignDocuments<T> {
    type V = Seq<(u64, T)>;

    /// The kept documents with their identities, in the order they were
    /// first kept.
    closed spec fn view(&self) -> Seq<(u64, T)> {
        self.entries@
    }
}

impl<T> ForeignDocuments<T> {
    /// The identity of the document that owns this set.
    pub closed spec fn owner(&self) -> u64 {
        self.owner
    }

    /// Each document is held once, and the owner is not among them.
    pub closed spec fn wf(&self) -> bool {
        &&& entry_ids(self.entries@).no_duplicates()
        &&& !entry_ids(self.entries@).contains(self.owner)
    }

    /// An empty set for the document with identity `owner`
    pub fn new(owner: u64) -> (r: Self)
        ensures
            r.wf(),
            r.owner() == owner,
            r@ == Seq::<(u64, T)>::empty(),
    {
        let r = ForeignDocuments { owner, entries: Vec::new() };
        assert(entry_ids(r.entries@) =~= Seq::<u64>::empty());
        r
    }

    /// The identity of the owning document
    pub fn owner_id(&self) -> (r: u64)
        ensures
            r == self.owner(),
    {
        self.owner
    }

    /// The number of documents kept alive
    pub fn len(&self) -> (r: usize)
        ensures
            r == self@.len(),
    {
        self.entries.len()
    }

    /// Whether document `doc` is kept alive
    pub fn contains(&self, doc: u64) -> (r: bool)
        ensures
            r == entry_ids(self@).contains(doc),
    {
        let mut i: usize = 0;
        while i < self.entries.len()
            invariant
                i <= self.entries@.len(),
                forall|j: int| 0 <= j < i ==> self.entries@[j].0 != doc,
            decreases self.entries@.len() - i,
        {
            if self.entries[i].0 == doc {
                assert(entry_ids(self.entries@)[i as int] == doc);
                return true;
            }
            i = i + 1;
        }
        assert forall|j: int| 0 <= j < entry_ids(self.entries@).len() implies entry_ids(self.entries@)[j] != doc by {
            assert(self.entries@[j].0 != doc);
        }
        false
    }

    /// Keep document `doc` alive through `value`, before an object of it is
    /// copied or linked into the owning document. Nothing changes where `doc`
    /// is the owner itself or is already kept; returns whether `value` was
    /// taken.
    pub fn keep(&mut self, doc: u64, value: T) -> (r: bool)
        requires
            old(self).wf(),
        ensures
            final(self).wf(),
            final(self).owner() == old(self).owner(),
            final(self)@ == keep_result(old(self)@, old(self).owner(), doc, value),
            r == (final(self)@.len() != old(self)@.len()),
    {
        if doc == self.owner || self.contains(doc) {
            return false;
        }
        let ghost before = self.entries@;
        self.entries.push((doc, value));
        proof {
            assert(entry_ids(self.entries@) =~= entry_ids(before).push(doc));
            assert forall|i: int, j: int|
                0 <= i < entry_ids(self.entries@).len() && 0 <= j < entry_ids(self.entries@).len() && i != j
                implies entry_ids(self.entries@)[i] != entry_ids(self.entries@)[j] by {
                if i < before.len() && j < before.len() {
                    assert(entry_ids(before)[i] != entry_ids(before)[j]);
                } else if i < before.len() {
                    assert(entry_ids(before).contains(entry_ids(before)[i]));
                } else if j < before.len() {
                    assert(entry_ids(before).contains(entry_ids(before)[j]));
                }
            }
            if entry_ids(self.entries@).contains(self.owner) {
                let k = choose|k: int| 0 <= k < entry_ids(self.entries@).len() && entry_ids(self.entries@)[k] == self.owner;
                if k < before.len() {
                    assert(entry_ids(before)[k] == self.owner);
                }
            }
        }
        true
    }
}

/// A document kept alive stays kept whatever is kept after it, and a
/// document other than the owner is kept once it has been asked for: so a
/// copy from another document never outlives its source.
pub proof fn lemma_kept_documents_stay_kept<T>(entries: Seq<(u64, T)>, owner: u64, doc: u64, value: T, other: u64, other_value: T)
    ensures
        doc != owner ==> entry_ids(keep_result(entries, owner, doc, value)).contains(doc),
        doc != owner ==> entry_ids(keep_result(keep_result(entries, owner, doc, value), owner, other, other_value)).contains(doc),
        forall|d: u64| entry_ids(entries).contains(d) ==> entry_ids(keep_result(entries, owner, other, other_value)).contains(d),
{
    lemma_keep_grows(entries, owner, other, other_value);
    lemma_keep_grows(entries, owner, doc, value);
    lemma_keep_grows(keep_result(entries, owner, doc, value), owner, other, other_value);
}

proof fn lemma_keep_grows<T>(entries: Seq<(u64, T)>, owner: u64, doc: u64, value: T)
    ensures
        doc != owner ==> entry_ids(keep_result(entries, owner, doc, value)).contains(doc),
        forall|d: u64| entry_ids(entries).contains(d) ==> entry_ids(keep_result(entries, owner, doc, value)).contains(d),
{
    let after = keep_result(entries, owner, doc, value);
    if !(doc == owner || entry_ids(entries).contains(doc)) {
        assert(entry_ids(after) =~= entry_ids(entries).push(doc));
        assert(entry_ids(after)[entry_ids(entries).len() as int] == doc);
        assert forall|d: u64| entry_ids(entries).contains(d) implies entry_ids(after).contains(d) by {
            let k = choose|k: int| 0 <= k < entry_ids(entries).len() && entry_ids(entries)[k] == d;
            assert(entry_ids(after)[k] == d);
        }
    }
}

} // verus!
