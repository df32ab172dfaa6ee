//! The shared pending-work set of the streaming scheduler.
//!
//! Sector coordinates wait here between being requested and being
//! claimed by a worker. The set keeps insertion order for FIFO-ish
//! fairness, never holds a coordinate twice, and carries the
//! cooperative `exiting` flag that tells workers to shut down. It is
//! backed by an insertion-ordered hash map of an outside crate, used
//! through a handful of trusted wrappers.

use vstd::prelude::*;

use linked_hash_map::LinkedHashMap;

verus! {

/// Declaration of the outside insertion-ordered hash map type.
#[verifier::external_type_specification]
#[verifier::external_body]
#[verifier::reject_recursive_types(K)]
#[verifier::reject_recursive_types(V)]
#[verifier::reject_recursive_types(S)]
pub struct ExLinkedHashMap<K, V, S>(LinkedHashMap<K, V, S>);

/// The entries that the backing map holds, as key-value pairs in its
/// insertion order.
pub uninterp spec fn lhm_entries(m: LinkedHashMap<(i32, i32, i32), bool>) -> Seq<
    ((i32, i32, i32), bool),
>;

/// Relies on `LinkedHashMap::new`: a freshly created map holds no
/// entries.
#[verifier::external_body]
fn lhm_new() -> (r: LinkedHashMap<(i32, i32, i32), bool>)
    ensures
        lhm_entries(r) == Seq::<((i32, i32, i32), bool)>::empty(),
{
    LinkedHashMap::new()
}

/// Relies on `LinkedHashMap::len`: the number of entries in the map.
#[verifier::external_body]
fn lhm_len(m: &LinkedHashMap<(i32, i32, i32), bool>) -> (r: usize)
    ensures
        r == lhm_entries(*m).len(),
{
    m.len()
}

/// Relies on `LinkedHashMap::contains_key`: whether any entry holds
/// this key.
#[verifier::external_body]
fn lhm_contains(m: &LinkedHashMap<(i32, i32, i32), bool>, k: (i32, i32, i32)) -> (r: bool)
    ensures
        r == (exists|i: int| 0 <= i < lhm_entries(*m).len() && lhm_entries(*m)[i].0 == k),
{
    m.contains_key(&k)
}

/// Relies on `LinkedHashMap::insert`: a key not yet present is appended
/// at the back of the insertion order with its value.
#[verifier::external_body]
fn lhm_insert_new(m: &mut LinkedHashMap<(i32, i32, i32), bool>, k: (i32, i32, i32), v: bool)
    requires
        forall|i: int|
            0 <= i < lhm_entries(*old(m)).len() ==> lhm_entries(*old(m))[i].0 != k,
    ensures
        lhm_entries(*final(m)) == lhm_entries(*old(m)).push((k, v)),
{
    let _ = m.insert(k, v);
}

/// Relies on `LinkedHashMap::remove`: the entry holding this key leaves
/// the map and its value is returned; the insertion order of the other
/// entries is kept.
#[verifier::external_body]
fn lhm_remove(m: &mut LinkedHashMap<(i32, i32, i32), bool>, k: (i32, i32, i32)) -> (r: Option<
    bool,
>)
    ensures
        (forall|i: int| 0 <= i < lhm_entries(*old(m)).len() ==> lhm_entries(*old(m))[i].0 != k)
            ==> lhm_entries(*final(m)) == lhm_entries(*old(m)) && r is None,
        (exists|i: int| 0 <= i < lhm_entries(*old(m)).len() && lhm_entries(*old(m))[i].0 == k)
            ==> exists|i: int|
            0 <= i < lhm_entries(*old(m)).len() && lhm_entries(*old(m))[i].0 == k && lhm_entries(
                *final(m),
            ) == lhm_entries(*old(m)).remove(i) && r == Some(lhm_entries(*old(m))[i].1),
{
    m.remove(&k)
}

/// Relies on `LinkedHashMap::iter`: the entries are yielded in
/// insertion order.
#[verifier::external_body]
fn lhm_entries_vec(m: &LinkedHashMap<(i32, i32, i32), bool>) -> (r: Vec<((i32, i32, i32), bool)>)
    ensures
        r@ == lhm_entries(*m),
{
    m.iter().map(|e| (*e.0, *e.1)).collect()
}

/// The information shared between the render thread and the worker
/// pool: the pending-work set and the cooperative shutdown flag.
///
/// Each entry maps a requested sector coordinate to whether it is still
/// unclaimed; entries stay in insertion order and no coordinate occurs
/// twice. Re-requesting a pending coordinate is idempotent.
pub struct PendingSet {
    needed: LinkedHashMap<(i32, i32, i32), bool>,
    exiting: bool,
}

impl View for PendingSet {
    type V = Seq<((i32, i32, i32), bool)>;

    closed spec fn view(&self) -> Seq<((i32, i32, i32), bool)> {
        lhm_entries(self.needed)
    }
}

impl PendingSet {
    /// No coordinate occurs in two entries.
    pub open spec fn wf(self) -> bool {
        forall|i: int, j: int|
            0 <= i < j < self.view().len() ==> (#[trigger] self.view()[i]).0 != (
            #[trigger] self.view()[j]).0
    }

    /// Whether this coordinate is pending.
    pub open spec fn spec_contains(self, k: (i32, i32, i32)) -> bool {
        exists|i: int| 0 <= i < self.view().len() && (#[trigger] self.view()[i]).0 == k
    }

    /// Whether the scheduler is shutting down.
    pub closed spec fn spec_exiting(self) -> bool {
        self.exiting
    }

    /// Create an empty pending set with the shutdown flag clear.
    pub fn new() -> (r: PendingSet)
        ensures
            r@ == Seq::<((i32, i32, i32), bool)>::empty(),
            r.wf(),
            !r.spec_exiting(),
    {
        PendingSet { needed: lhm_new(), exiting: false }
    }

    /// The number of pending requests.
    pub fn len(&self) -> (r: usize)
        ensures
            r == self@.len(),
    {
        lhm_len(&self.needed)
    }

    /// Whether this coordinate is already pending.
    pub fn contains(&self, k: (i32, i32, i32)) -> (r: bool)
        ensures
            r == self.spec_contains(k),
    {
        proof {
            assert(lhm_entries(self.needed) == self@);
        }
        lhm_contains(&self.needed, k)
    }

    /// Request generation of a sector: insert the coordinate as
    /// unclaimed unless it is already pending. Re-requesting a pending
    /// coordinate leaves the set unchanged, so duplicate requests never
    /// grow it.
    pub fn request(&mut self, k: (i32, i32, i32))
        requires
            old(self).wf(),
        ensures
            final(self).wf(),
            old(self).spec_contains(k) ==> final(self)@ == old(self)@,
            !old(self).spec_contains(k) ==> final(self)@ == old(self)@.push((k, true)),
            final(self).spec_exiting() == old(self).spec_exiting(),
    {
        proof {
            assert(lhm_entries(self.needed) == self@);
        }
        if !lhm_contains(&self.needed, k) {
            let ghost es = self@;
            lhm_insert_new(&mut self.needed, k, true);
            proof {
                assert(self@ == es.push((k, true)));
                assert forall|i: int, j: int| 0 <= i < j < self@.len() implies (
                #[trigger] self@[i]).0 != (#[trigger] self@[j]).0 by {
                    if j == es.len() {
                        assert(self@[i] == es[i]);
                        assert(es[i].0 != k);
                    } else {
                        assert(self@[i] == es[i] && self@[j] == es[j]);
                    }
                }
            }
        }
    }

    /// Claim the oldest still-unclaimed request for a worker: it leaves
    /// the set and its coordinate is returned. Returns `None` when no
    /// unclaimed request is waiting.
    pub fn claim_next(&mut self) -> (r: Option<(i32, i32, i32)>)
        requires
            old(self).wf(),
        ensures
            final(self).wf(),
            final(self).spec_exiting() == old(self).spec_exiting(),
            r is None ==> final(self)@ == old(self)@ && forall|i: int|
                0 <= i < old(self)@.len() ==> (#[trigger] old(self)@[i]).1 == false,
            r is Some ==> exists|i: int|
                {
                    &&& 0 <= i < old(self)@.len()
                    &&& (#[trigger] old(self)@[i]).1 == true
                    &&& forall|j: int| 0 <= j < i ==> (#[trigger] old(self)@[j]).1 == false
                    &&& r == Some(old(self)@[i].0)
                    &&& final(self)@ == old(self)@.remove(i)
                },
    {
        let entries = lhm_entries_vec(&self.needed);
        let mut idx: usize = 0;
        let mut found: Option<(i32, i32, i32)> = None;
        let ghost mut found_at: int = 0;
        while idx < entries.len()
            invariant
                idx <= entries@.len(),
                entries@ == self@,
                self.wf(),
                found is None ==> forall|j: int|
                    0 <= j < idx ==> (#[trigger] entries@[j]).1 == false,
                found is Some ==> {
                    &&& 0 <= found_at < idx
                    &&& entries@[found_at].1 == true
                    &&& (forall|j: int| 0 <= j < found_at ==> (#[trigger] entries@[j]).1 == false)
                    &&& found == Some(entries@[found_at].0)
                },
            decreases entries@.len() - idx,
        {
            if found.is_none() {
                let e = entries[idx];
                if e.1 {
                    found = Some(e.0);
                    proof {
                        found_at = idx as int;
                    }
                }
            }
            idx = idx + 1;
        }
        match found {
            Some(k) => {
                let ghost es = self@;
                proof {
                    assert(es[found_at].0 == k);
                }
                let removed = lhm_remove(&mut self.needed, k);
                proof {
                    let i = choose|i: int|
                        0 <= i < es.len() && es[i].0 == k && lhm_entries(self.needed) == es.remove(
                            i,
                        ) && removed == Some(es[i].1);
                    if i != found_at {
                        assert(es[i].0 != es[found_at].0);
                    }
                    assert(self@ == es.remove(found_at));
                    es.remove_ensures(found_at);
                    assert forall|a: int, b: int|
                        0 <= a < b < self@.len() implies (#[trigger] self@[a]).0 != (
                    #[trigger] self@[b]).0 by {
                        assert(self@[a] == if a < found_at {
                            es[a]
                        } else {
                            es[a + 1]
                        });
                        assert(self@[b] == if b < found_at {
                            es[b]
                        } else {
                            es[b + 1]
                        });
                    }
                }
                Some(k)
            },
            None => None,
        }
    }

    /// Raise the cooperative shutdown flag; pending entries are kept so
    /// that teardown can still observe them.
    pub fn set_exiting(&mut self)
        ensures
            final(self)@ == old(self)@,
            final(self).spec_exiting(),
    {
        self.exiting = true;
    }

    /// Whether the scheduler has been told to shut down.
    pub fn is_exiting(&self) -> (r: bool)
        ensures
            r == self.spec_exiting(),
    {
        self.exiting
    }
}

} // verus!
