//! The flat cue chain: a strict ordering of cues plus a lookup by identity.
//!
//! The chain is modelled as the sequence of cues in show order. A cue added
//! under an identity that is already present replaces the earlier cue under
//! that identity everywhere in the chain and is also appended at the end, so
//! every occurrence of an identity always shows the most recently added cue.

use std::collections::HashMap;
use std::sync::Arc;

use vstd::prelude::*;

use crate::model::{share, Cue, CueId};

verus! {

broadcast use vstd::std_specs::hash::group_hash_axioms;

// ─── The chain as a sequence ────────────────────────────────────────────

/// Whether some cue of the chain has the identity.
pub open spec fn has_id(chain: Seq<Cue>, id: CueId) -> bool {
    exists|i: int| 0 <= i < chain.len() && #[trigger] chain[i].id == id
}

/// `i` is the first position of the chain holding the identity.
pub open spec fn is_first_index(chain: Seq<Cue>, id: CueId, i: int) -> bool {
    &&& 0 <= i < chain.len()
    &&& chain[i].id == id
    &&& forall|j: int| 0 <= j < i ==> #[trigger] chain[j].id != id
}

/// The first position of the chain holding the identity (meaningful when
/// `has_id(chain, id)`).
pub open spec fn first_index(chain: Seq<Cue>, id: CueId) -> int {
    choose|i: int| is_first_index(chain, id, i)
}

/// The cue under an identity: the cue at its first position, if any.
pub open spec fn lookup(chain: Seq<Cue>, id: CueId) -> Option<Cue> {
    if has_id(chain, id) {
        Some(chain[first_index(chain, id)])
    } else {
        None
    }
}

/// The chain after adding a cue: every occurrence of its identity now shows
/// the new cue, which is also appended at the end.
pub open spec fn add_to_chain(chain: Seq<Cue>, cue: Cue) -> Seq<Cue> {
    chain.map_values(|c: Cue| if c.id == cue.id { cue } else { c }).push(cue)
}

/// The chain after adding the cues one by one, in order.
pub open spec fn add_all(chain: Seq<Cue>, cues: Seq<Cue>) -> Seq<Cue>
    decreases cues.len(),
{
    if cues.len() == 0 {
        chain
    } else {
        add_to_chain(add_all(chain, cues.drop_last()), cues.last())
    }
}

/// Every occurrence of an identity in the chain holds the same cue.
pub open spec fn ids_determine_cues(chain: Seq<Cue>) -> bool {
    forall|i: int, j: int|
        0 <= i < chain.len() && 0 <= j < chain.len() && #[trigger] chain[i].id == #[trigger] chain[j].id
            ==> chain[i] == chain[j]
}

/// When the identity is present, its first position exists and is unique.
pub proof fn lemma_first_index(chain: Seq<Cue>, id: CueId)
    requires
        has_id(chain, id),
    ensures
        is_first_index(chain, id, first_index(chain, id)),
        forall|k: int| is_first_index(chain, id, k) ==> k == first_index(chain, id),
{
    let w = choose|i: int| 0 <= i < chain.len() && #[trigger] chain[i].id == id;
    lemma_minimal_index_exists(chain, id, w);
    let f = first_index(chain, id);
    assert forall|k: int| is_first_index(chain, id, k) implies k == f by {
        if k < f {
            assert(chain[k].id != id);
        } else if k > f {
            assert(chain[f].id != id);
        }
    }
}

proof fn lemma_minimal_index_exists(chain: Seq<Cue>, id: CueId, w: int)
    requires
        0 <= w < chain.len(),
        chain[w].id == id,
    ensures
        exists|i: int| is_first_index(chain, id, i),
    decreases w,
{
    if exists|j: int| 0 <= j < w && #[trigger] chain[j].id == id {
        let j = choose|j: int| 0 <= j < w && #[trigger] chain[j].id == id;
        lemma_minimal_index_exists(chain, id, j);
    } else {
        assert(is_first_index(chain, id, w));
    }
}

/// A position that holds the identity with no earlier one is its first.
pub proof fn lemma_found_first(chain: Seq<Cue>, id: CueId, i: int)
    requires
        is_first_index(chain, id, i),
    ensures
        has_id(chain, id),
        first_index(chain, id) == i,
{
    assert(chain[i].id == id);
    lemma_first_index(chain, id);
}

// ─── Laws of the chain ─────────────────────────────────────────────────

/// Read your write: right after a cue is added, looking up its identity
/// gives that cue.
pub proof fn lemma_lookup_after_add(chain: Seq<Cue>, cue: Cue)
    ensures
        lookup(add_to_chain(chain, cue), cue.id) == Some(cue),
{
    let after = add_to_chain(chain, cue);
    assert(after[chain.len() as int].id == cue.id);
    lemma_first_index(after, cue.id);
    let f = first_index(after, cue.id);
    if f < chain.len() {
        assert(after[f] == (if chain[f].id == cue.id { cue } else { chain[f] }));
    }
}

/// Adding a cue leaves the lookup of every other identity unchanged.
pub proof fn lemma_lookup_other_after_add(chain: Seq<Cue>, cue: Cue, id: CueId)
    requires
        id != cue.id,
    ensures
        lookup(add_to_chain(chain, cue), id) == lookup(chain, id),
{
    let after = add_to_chain(chain, cue);
    assert forall|i: int| 0 <= i < after.len() && after[i].id == id implies i < chain.len()
        && chain[i] == after[i] by {
        if i == chain.len() {
            assert(after[i] == cue);
        }
    }
    if has_id(chain, id) {
        lemma_first_index(chain, id);
        let f = first_index(chain, id);
        assert(after[f] == chain[f]);
        assert(is_first_index(after, id, f));
        lemma_found_first(after, id, f);
    } else {
        if has_id(after, id) {
            let i = choose|i: int| 0 <= i < after.len() && #[trigger] after[i].id == id;
            assert(chain[i].id == id);
        }
    }
}

/// Adding a cue makes the chain one longer and puts the cue last.
pub proof fn lemma_add_appends(chain: Seq<Cue>, cue: Cue)
    ensures
        add_to_chain(chain, cue).len() == chain.len() + 1,
        add_to_chain(chain, cue).last() == cue,
{
}

/// A cue under a new identity lands at the end: its first position is the
/// old length of the chain.
pub proof fn lemma_new_id_position(chain: Seq<Cue>, cue: Cue)
    requires
        !has_id(chain, cue.id),
    ensures
        has_id(add_to_chain(chain, cue), cue.id),
        first_index(add_to_chain(chain, cue), cue.id) == chain.len(),
{
    let after = add_to_chain(chain, cue);
    assert forall|j: int| 0 <= j < chain.len() implies #[trigger] after[j].id != cue.id by {
        assert(after[j] == chain[j]);
    }
    lemma_found_first(after, cue.id, chain.len() as int);
}

/// Adding cues keeps every occurrence of an identity on the same cue.
pub proof fn lemma_add_keeps_ids_determining(chain: Seq<Cue>, cue: Cue)
    requires
        ids_determine_cues(chain),
    ensures
        ids_determine_cues(add_to_chain(chain, cue)),
{
    let after = add_to_chain(chain, cue);
    assert forall|i: int, j: int|
        0 <= i < after.len() && 0 <= j < after.len() && #[trigger] after[i].id == #[trigger] after[j].id
            implies after[i] == after[j] by {
        if i < chain.len() && j < chain.len() {
            assert(chain[i].id == cue.id <==> chain[j].id == cue.id);
        }
    }
}

/// Every chain built by adding cues to the empty chain keeps every
/// occurrence of an identity on the same cue.
pub proof fn lemma_built_chain_ids_determining(cues: Seq<Cue>)
    ensures
        ids_determine_cues(add_all(Seq::empty(), cues)),
    decreases cues.len(),
{
    if cues.len() > 0 {
        lemma_built_chain_ids_determining(cues.drop_last());
        lemma_add_keeps_ids_determining(add_all(Seq::empty(), cues.drop_last()), cues.last());
    }
}

/// No two cues of the chain share an identity.
pub open spec fn ids_distinct(chain: Seq<Cue>) -> bool {
    forall|i: int, j: int| 0 <= i < j < chain.len() ==> #[trigger] chain[i].id != #[trigger] chain[j].id
}

/// Adding cues in two batches is adding them all in one, in order.
pub proof fn lemma_add_all_concat(chain: Seq<Cue>, first: Seq<Cue>, then: Seq<Cue>)
    ensures
        add_all(add_all(chain, first), then) == add_all(chain, first + then),
    decreases then.len(),
{
    if then.len() == 0 {
        assert(first + then =~= first);
    } else {
        lemma_add_all_concat(chain, first, then.drop_last());
        assert((first + then).drop_last() =~= first + then.drop_last());
        assert((first + then).last() == then.last());
    }
}

/// Building a chain from cues with distinct identities keeps the cues as
/// they are, in the order they were added, and finds each cue under its
/// identity.
pub proof fn lemma_distinct_build_keeps_cues(cues: Seq<Cue>)
    requires
        ids_distinct(cues),
    ensures
        add_all(Seq::empty(), cues) == cues,
        forall|i: int| 0 <= i < cues.len() ==> lookup(cues, #[trigger] cues[i].id) == Some(cues[i]),
    decreases cues.len(),
{
    if cues.len() > 0 {
        let rest = cues.drop_last();
        assert forall|i: int, j: int| 0 <= i < j < rest.len() implies #[trigger] rest[i].id
            != #[trigger] rest[j].id by {
            assert(cues[i].id != cues[j].id);
        }
        lemma_distinct_build_keeps_cues(rest);
        let last = cues.last();
        assert forall|i: int| 0 <= i < rest.len() implies rest[i].id != last.id by {
            assert(cues[i].id != cues[cues.len() - 1].id);
        }
        assert(rest.map_values(|c: Cue| if c.id == last.id { last } else { c }) =~= rest);
        assert(add_to_chain(rest, last) =~= cues);
    }
    assert forall|i: int| 0 <= i < cues.len() implies lookup(cues, #[trigger] cues[i].id) == Some(
        cues[i],
    ) by {
        assert forall|j: int| 0 <= j < i implies #[trigger] cues[j].id != cues[i].id by {
            assert(cues[j].id != cues[i].id);
        }
        lemma_found_first(cues, cues[i].id, i);
    }
}

// ─── The chain type ─────────────────────────────────────────────────────

/// The flat cue chain: the show order of cue identities plus the cue
/// stored under each identity.
#[derive(Debug, PartialEq)]
pub struct Cuelist {
    order: Vec<CueId>,
    cues: HashMap<u128, Arc<Cue>>,
}

impl View for Cuelist {
    type V = Seq<Cue>;

    /// The cues in show order.
    closed spec fn view(&self) -> Seq<Cue> {
        Seq::new(self.order@.len(), |i: int| *self.cues@[self.order@[i].0])
    }
}

/// Every identity of the order has a stored cue carrying that identity, and
/// every stored cue is reached from the order.
spec fn parts_well_formed(order: Seq<CueId>, cues: Map<u128, Arc<Cue>>) -> bool {
    &&& forall|i: int| 0 <= i < order.len() ==> cues.contains_key(#[trigger] order[i].0)
    &&& forall|k: u128| #[trigger] cues.contains_key(k) ==> (*cues[k]).id.0 == k
    &&& forall|k: u128| #[trigger]
        cues.contains_key(k) ==> exists|i: int| 0 <= i < order.len() && #[trigger] order[i].0 == k
}

impl Cuelist {
    /// Every identity of the order has a stored cue carrying that identity,
    /// and every stored cue is reached from the order.
    #[verifier::type_invariant]
    spec fn well_formed(&self) -> bool {
        parts_well_formed(self.order@, self.cues@)
    }

    /// The empty chain.
    pub fn empty() -> (list: Self)
        ensures
            list@ == Seq::<Cue>::empty(),
    {
        let list = Cuelist { order: Vec::new(), cues: HashMap::new() };
        assert(list@ =~= Seq::<Cue>::empty());
        list
    }

    /// A chain holding the given cues, added one by one in order.
    pub fn new(cues: Vec<Cue>) -> (list: Self)
        ensures
            list@ == add_all(Seq::empty(), cues@),
    {
        let mut list = Cuelist::empty();
        list.add_cues(cues);
        list
    }

    /// The number of cues in the chain.
    pub fn len(&self) -> (n: usize)
        ensures
            n == self@.len(),
    {
        self.order.len()
    }

    /// Whether the chain has no cue.
    pub fn is_empty(&self) -> (b: bool)
        ensures
            b == (self@.len() == 0),
    {
        self.order.len() == 0
    }

    /// Adds a cue at the end of the chain. An earlier cue with the same
    /// identity is replaced by it wherever it occurs.
    pub fn add_cue(&mut self, cue: Cue)
        ensures
            final(self)@ == add_to_chain(old(self)@, cue),
    {
        proof {
            use_type_invariant(&*self);
        }
        let ghost before = self@;
        let mut taken = Cuelist::empty();
        std::mem::swap(self, &mut taken);
        let Cuelist { mut order, mut cues } = taken;
        let ghost old_order = order@;
        let ghost old_cues = cues@;
        let id = cue.id;
        let key = id.0;
        cues.insert(key, Arc::new(cue));
        order.push(id);
        proof {
            assert forall|k: u128| #[trigger] cues@.contains_key(k) implies (*cues@[k]).id.0
                == k by {
                if k != key {
                    assert(old_cues.contains_key(k));
                }
            }
            assert forall|i: int| 0 <= i < order@.len() implies cues@.contains_key(
                #[trigger] order@[i].0,
            ) by {
                if i < old_order.len() {
                    assert(old_cues.contains_key(old_order[i].0));
                }
            }
            assert forall|k: u128| #[trigger] cues@.contains_key(k) implies exists|i: int|
                0 <= i < order@.len() && #[trigger] order@[i].0 == k by {
                if k == key {
                    assert(order@[old_order.len() as int].0 == k);
                } else {
                    assert(old_cues.contains_key(k));
                    let i = choose|i: int| 0 <= i < old_order.len() && #[trigger] old_order[i].0 == k;
                    assert(order@[i].0 == k);
                }
            }
        }
        assert(parts_well_formed(order@, cues@));
        *self = Cuelist { order, cues };
        proof {
            let after = add_to_chain(before, cue);
            assert forall|i: int| 0 <= i < self@.len() implies #[trigger] self@[i] == after[i] by {
                if i < before.len() {
                    assert(old_cues.contains_key(old_order[i].0));
                    assert((*old_cues[old_order[i].0]).id.0 == old_order[i].0);
                }
            }
            assert(self@ =~= after);
        }
    }

    /// Adds the cues at the end of the chain, one by one in order.
    pub fn add_cues(&mut self, cues: Vec<Cue>)
        ensures
            final(self)@ == add_all(old(self)@, cues@),
    {
        let ghost start = self@;
        let ghost all = cues@;
        for cue in it: cues.into_iter()
            invariant
                it.seq() == all,
                self@ == add_all(start, all.take(it.index() as int)),
        {
            proof {
                let k = it.index() as int;
                assert(all.take(k + 1).drop_last() =~= all.take(k));
            }
            self.add_cue(cue);
        }
        assert(all.take(all.len() as int) =~= all);
    }

    /// The cue stored under an identity: the cue at its first position.
    pub fn get_cue(&self, id: CueId) -> (cue: Option<&Arc<Cue>>)
        ensures
            match cue {
                Some(c) => lookup(self@, id) == Some(**c),
                None => lookup(self@, id).is_none(),
            },
    {
        proof {
            use_type_invariant(self);
        }
        let found = self.cues.get(&id.0);
        proof {
            match found {
                Some(c) => {
                    assert(self.cues@.contains_key(id.0));
                    let i = choose|i: int| 0 <= i < self.order@.len() && #[trigger] self.order@[i].0 == id.0;
                    assert(self@[i].id == id);
                    lemma_first_index(self@, id);
                    let f = first_index(self@, id);
                    assert(self.order@[f].0 == id.0);
                },
                None => {
                    if has_id(self@, id) {
                        let i = choose|i: int| 0 <= i < self@.len() && #[trigger] self@[i].id == id;
                        assert(self.cues@.contains_key(self.order@[i].0));
                        assert((*self.cues@[self.order@[i].0]).id.0 == self.order@[i].0);
                    }
                },
            }
        }
        found
    }

    /// All cues of the chain, in show order.
    pub fn iter(&self) -> (cues: Vec<Arc<Cue>>)
        ensures
            cues@.len() == self@.len(),
            forall|i: int| 0 <= i < cues@.len() ==> *#[trigger] cues@[i] == self@[i],
    {
        self.cues_from(0)
    }

    /// The cues of the chain from position `start` on, in show order.
    fn cues_from(&self, start: usize) -> (cues: Vec<Arc<Cue>>)
        requires
            start <= self@.len(),
        ensures
            cues@.len() == self@.len() - start,
            forall|i: int| 0 <= i < cues@.len() ==> *#[trigger] cues@[i] == self@[start + i],
    {
        proof {
            use_type_invariant(self);
        }
        let mut out: Vec<Arc<Cue>> = Vec::new();
        let n = self.order.len();
        let mut i = start;
        while i < n
            invariant
                n == self.order@.len(),
                n == self@.len(),
                start <= i <= n,
                out@.len() == i - start,
                forall|j: int| 0 <= j < out@.len() ==> *#[trigger] out@[j] == self@[start + j],
                forall|j: int|
                    0 <= j < self.order@.len() ==> self.cues@.contains_key(#[trigger] self.order@[j].0),
            decreases n - i,
        {
            let key = self.order[i].0;
            assert(self.cues@.contains_key(self.order@[i as int].0));
            let cue = self.cues.get(&key).unwrap();
            out.push(share(cue));
            i = i + 1;
        }
        out
    }

    /// The position in the order of the first occurrence of an identity.
    fn index_of(&self, id: CueId) -> (index: Option<usize>)
        ensures
            match index {
                Some(i) => has_id(self@, id) && is_first_index(self@, id, i as int) && i
                    == first_index(self@, id),
                None => !has_id(self@, id),
            },
    {
        let n = self.order.len();
        let mut i: usize = 0;
        while i < n
            invariant
                n == self@.len(),
                n == self.order@.len(),
                i <= n,
                forall|j: int| 0 <= j < i ==> #[trigger] self@[j].id != id,
            decreases n - i,
        {
            if self.order[i] == id {
                proof {
                    use_type_invariant(self);
                    assert(self.cues@.contains_key(self.order@[i as int].0));
                    assert(self@[i as int].id == id);
                    lemma_found_first(self@, id, i as int);
                }
                return Some(i);
            }
            proof {
                use_type_invariant(self);
                assert(self.cues@.contains_key(self.order@[i as int].0));
            }
            i = i + 1;
        }
        None
    }

    /// The cues after the first occurrence of an identity, in show order;
    /// `None` when the identity is not in the chain.
    pub fn iter_after(&self, id: CueId) -> (cues: Option<Vec<Arc<Cue>>>)
        ensures
            match cues {
                Some(v) => has_id(self@, id) && v@.len() == self@.len() - first_index(self@, id) - 1
                    && forall|i: int|
                    0 <= i < v@.len() ==> *#[trigger] v@[i] == self@[first_index(self@, id) + 1 + i],
                None => !has_id(self@, id),
            },
    {
        let n = self.order.len();
        match self.index_of(id) {
            Some(i) => {
                assert(i < n);
                Some(self.cues_from(i + 1))
            },
            None => None,
        }
    }

    /// The position of the first occurrence of an identity, counting the
    /// first cue as 1.
    pub fn position_of(&self, id: CueId) -> (pos: Option<usize>)
        ensures
            match pos {
                Some(p) => has_id(self@, id) && p == first_index(self@, id) + 1,
                None => !has_id(self@, id),
            },
    {
        let n = self.order.len();
        match self.index_of(id) {
            Some(i) => {
                assert(i < n);
                Some(i + 1)
            },
            None => None,
        }
    }
}

impl Clone for Cuelist {
    fn clone(&self) -> (copy: Self)
        ensures
            copy@ == self@,
    {
        proof {
            use_type_invariant(self);
        }
        let order = self.order.clone();
        let cues = self.cues.clone();
        assert(order@ =~= self.order@);
        let copy = Cuelist { order, cues };
        assert(copy@ =~= self@);
        copy
    }
}

impl Default for Cuelist {
    fn default() -> (list: Self)
        ensures
            list@ == Seq::<Cue>::empty(),
    {
        Cuelist::empty()
    }
}

} // verus!
