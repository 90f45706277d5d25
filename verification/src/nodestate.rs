//! The proposals a node has made and not yet seen settled.
use vstd::prelude::*;
use crate::api::{Supply, Demand};

verus! {

/// The identifiers of a list of supplies, in list order.
pub open spec fn supply_ids(list: Seq<Supply>) -> Seq<u64> {
    Seq::new(list.len(), |i: int| list[i].id)
}

/// The identifiers of a list of demands, in list order.
pub open spec fn demand_ids(list: Seq<Demand>) -> Seq<u64> {
    Seq::new(list.len(), |i: int| list[i].id)
}

/// The index of the first occurrence of `id` in `ids`, or -1 where there is none.
pub open spec fn position_of(ids: Seq<u64>, id: u64) -> int
    decreases ids.len(),
{
    if ids.len() == 0 {
        -1
    } else if ids.first() == id {
        0
    } else {
        let rest = position_of(ids.drop_first(), id);
        if rest < 0 {
            -1
        } else {
            rest + 1
        }
    }
}

/// Whether `pos` is the index of the first occurrence of `id` in `ids`.
pub open spec fn is_first_at(ids: Seq<u64>, id: u64, pos: int) -> bool {
    &&& 0 <= pos < ids.len()
    &&& ids[pos] == id
    &&& forall|j: int| 0 <= j < pos ==> ids[j] != id
}

/// `position_of` is the first occurrence where there is one, and -1 exactly where there
/// is none.
pub proof fn lemma_position_of(ids: Seq<u64>, id: u64)
    ensures
        -1 <= position_of(ids, id) < ids.len(),
        position_of(ids, id) >= 0 ==> is_first_at(ids, id, position_of(ids, id)),
        position_of(ids, id) == -1 <==> !ids.contains(id),
    decreases ids.len(),
{
    if ids.len() == 0 {
    } else if ids.first() == id {
        assert(ids[0] == id);
    } else {
        let rest = ids.drop_first();
        lemma_position_of(rest, id);
        let p = position_of(rest, id);
        if p < 0 {
            assert forall|j: int| 0 <= j < ids.len() implies ids[j] != id by {
                if j > 0 {
                    assert(rest[j - 1] == ids[j]);
                    assert(!rest.contains(id));
                }
            }
        } else {
            assert(rest[p] == ids[p + 1]);
            assert forall|j: int| 0 <= j < p + 1 implies ids[j] != id by {
                if j > 0 {
                    assert(rest[j - 1] == ids[j]);
                }
            }
        }
    }
}

/// An index that is a first occurrence is the one `position_of` gives.
pub proof fn lemma_first_is_position(ids: Seq<u64>, id: u64, pos: int)
    requires
        is_first_at(ids, id, pos),
    ensures
        position_of(ids, id) == pos,
{
    lemma_position_of(ids, id);
    assert(ids.contains(id));
}

/// A list of identifiers without the first occurrence of `id`.
pub open spec fn parted(ids: Seq<u64>, id: u64) -> Seq<u64> {
    if ids.contains(id) {
        ids.remove(position_of(ids, id))
    } else {
        ids
    }
}

/// Taking the first occurrence of an identifier out of a list free of repetitions
/// leaves a list free of repetitions in which the identifier no longer occurs; every
/// other identifier is in it exactly if it was.
pub proof fn lemma_parted(ids: Seq<u64>, id: u64)
    ensures
        ids.no_duplicates() ==> parted(ids, id).no_duplicates() && !parted(
            ids,
            id,
        ).contains(id),
        forall|x: u64| x != id ==> (parted(ids, id).contains(x) <==> ids.contains(x)),
{
    let rest = parted(ids, id);
    lemma_position_of(ids, id);
    if ids.contains(id) {
        let p = position_of(ids, id);
        assert forall|x: u64| x != id implies (rest.contains(x) <==> ids.contains(x)) by {
            if ids.contains(x) {
                let i = choose|i: int| 0 <= i < ids.len() && ids[i] == x;
                if i < p {
                    assert(rest[i] == x);
                } else {
                    assert(rest[i - 1] == x);
                }
            }
            if rest.contains(x) {
                let i = choose|i: int| 0 <= i < rest.len() && rest[i] == x;
                if i < p {
                    assert(ids[i] == x);
                } else {
                    assert(ids[i + 1] == x);
                }
            }
        }
        if ids.no_duplicates() {
            assert forall|i: int, j: int|
                0 <= i < rest.len() && 0 <= j < rest.len() && i != j implies rest[i] != rest[j] by {
                let a = if i < p { i } else { i + 1 };
                let b = if j < p { j } else { j + 1 };
                assert(rest[i] == ids[a]);
                assert(rest[j] == ids[b]);
            }
            if rest.contains(id) {
                let i = choose|i: int| 0 <= i < rest.len() && rest[i] == id;
                let a = if i < p { i } else { i + 1 };
                assert(rest[i] == ids[a]);
            }
        }
    }
}

/// A list free of repetitions stays so when one of its entries is taken out.
pub proof fn lemma_remove_keeps_distinct(ids: Seq<u64>, pos: int)
    requires
        0 <= pos < ids.len(),
    ensures
        ids.no_duplicates() ==> ids.remove(pos).no_duplicates(),
{
    let rest = ids.remove(pos);
    if ids.no_duplicates() {
        assert forall|i: int, j: int|
            0 <= i < rest.len() && 0 <= j < rest.len() && i != j implies rest[i] != rest[j] by {
            let a = if i < pos { i } else { i + 1 };
            let b = if j < pos { j } else { j + 1 };
            assert(rest[i] == ids[a]);
            assert(rest[j] == ids[b]);
        }
    }
}

/// While the identifiers proposed so far are distinct, each is found at the place where
/// it was appended; once one of them is removed it is no longer found, and the others
/// are found in their old order.
pub proof fn lemma_distinct_proposals(ids: Seq<u64>, k: int, j: int)
    requires
        ids.no_duplicates(),
        0 <= k < ids.len(),
        0 <= j < ids.len(),
    ensures
        position_of(ids, ids[k]) == k,
        position_of(ids.remove(k), ids[k]) == -1,
        j < k ==> position_of(ids.remove(k), ids[j]) == j,
        j > k ==> position_of(ids.remove(k), ids[j]) == j - 1,
{
    lemma_first_is_position(ids, ids[k], k);
    let rest = ids.remove(k);
    lemma_position_of(rest, ids[k]);
    if rest.contains(ids[k]) {
        let i = choose|i: int| 0 <= i < rest.len() && rest[i] == ids[k];
        if i < k {
            assert(rest[i] == ids[i]);
        } else {
            assert(rest[i] == ids[i + 1]);
        }
    }
    if j < k {
        assert(rest[j] == ids[j]);
        assert forall|i: int| 0 <= i < j implies rest[i] != ids[j] by {
            assert(rest[i] == ids[i]);
        }
        lemma_first_is_position(rest, ids[j], j);
    }
    if j > k {
        assert(rest[j - 1] == ids[j]);
        assert forall|i: int| 0 <= i < j - 1 implies rest[i] != ids[j] by {
            if i < k {
                assert(rest[i] == ids[i]);
            } else {
                assert(rest[i] == ids[i + 1]);
            }
        }
        lemma_first_is_position(rest, ids[j], j - 1);
    }
}

/// Appending a proposal whose identifier is new keeps the identifiers distinct and puts
/// it at the end, leaving every earlier position as it was.
pub proof fn lemma_propose_fresh(ids: Seq<u64>, id: u64, other: u64)
    requires
        ids.no_duplicates(),
        !ids.contains(id),
    ensures
        ids.push(id).no_duplicates(),
        position_of(ids.push(id), id) == ids.len(),
        other != id ==> position_of(ids.push(id), other) == position_of(ids, other),
{
    let next = ids.push(id);
    assert forall|i: int| 0 <= i < ids.len() implies next[i] != id by {
        assert(next[i] == ids[i]);
    }
    lemma_first_is_position(next, id, ids.len() as int);
    lemma_position_of(ids, other);
    lemma_position_of(next, other);
    if other != id {
        let p = position_of(ids, other);
        if p >= 0 {
            assert(next[p] == ids[p]);
            assert forall|i: int| 0 <= i < p implies next[i] != other by {
                assert(next[i] == ids[i]);
            }
            lemma_first_is_position(next, other, p);
        } else {
            if next.contains(other) {
                let i = choose|i: int| 0 <= i < next.len() && next[i] == other;
                assert(i < ids.len());
                assert(ids[i] == other);
            }
        }
    }
}

/// In a state in which no identifier occurs twice, each proposed supply is found at
/// its own place in the list, and an identifier that no proposed supply bears is not
/// found; once a supply is taken out, its identifier is not found either.
pub proof fn lemma_index_of_proposal(state: NodeState, k: int, id: u64)
    requires
        state.wf(),
        0 <= k < state.proposed_supply@.len(),
    ensures
        position_of(state.supply_ids(), state.proposed_supply@[k].id) == k,
        (forall|j: int| 0 <= j < state.proposed_supply@.len() ==> state.proposed_supply@[j].id
            != id) ==> position_of(state.supply_ids(), id) == -1,
        position_of(parted(state.supply_ids(), state.proposed_supply@[k].id), state.proposed_supply@[k].id)
            == -1,
{
    let ids = state.supply_ids();
    assert(ids[k] == state.proposed_supply@[k].id);
    lemma_distinct_proposals(ids, k, k);
    lemma_position_of(ids, id);
    if ids.contains(id) {
        let j = choose|j: int| 0 <= j < ids.len() && ids[j] == id;
        assert(state.proposed_supply@[j].id == id);
    }
    lemma_parted(ids, ids[k]);
    lemma_position_of(parted(ids, ids[k]), ids[k]);
}

/// What a node has proposed and is waiting on, and whether a move to another server is
/// pending.
#[derive(Debug, PartialEq)]
pub struct NodeState {
    pub proposed_supply: Vec<Supply>,
    pub proposed_demand: Vec<Demand>,
    pub locked: bool,
}

impl NodeState {
    /// Identifiers of the outstanding proposed supplies, oldest first.
    pub open spec fn supply_ids(&self) -> Seq<u64> {
        supply_ids(self.proposed_supply@)
    }

    /// Identifiers of the outstanding proposed demands, oldest first.
    pub open spec fn demand_ids(&self) -> Seq<u64> {
        demand_ids(self.proposed_demand@)
    }

    /// No identifier occurs twice among the proposed supplies, nor among the proposed
    /// demands.
    pub open spec fn wf(&self) -> bool {
        self.supply_ids().no_duplicates() && self.demand_ids().no_duplicates()
    }

    /// Nothing is outstanding: the node may move without losing a negotiation.
    pub open spec fn safe(&self) -> bool {
        self.proposed_supply@.len() == 0 && self.proposed_demand@.len() == 0
    }

    /// A state with no proposals, not locked.
    pub fn new() -> (r: NodeState)
        ensures
            r.proposed_supply@ == Seq::<Supply>::empty(),
            r.proposed_demand@ == Seq::<Demand>::empty(),
            !r.locked,
            r.safe(),
            r.wf(),
    {
        NodeState { proposed_supply: Vec::new(), proposed_demand: Vec::new(), locked: false }
    }

    /// Forgets every proposal and unlocks.
    pub fn init(&mut self)
        ensures
            final(self).proposed_supply@ == Seq::<Supply>::empty(),
            final(self).proposed_demand@ == Seq::<Demand>::empty(),
            !final(self).locked,
            final(self).safe(),
            final(self).wf(),
    {
        self.proposed_supply = Vec::new();
        self.proposed_demand = Vec::new();
        self.locked = false;
    }

    /// Whether both proposal lists are empty.
    pub fn is_safe_state(&self) -> (r: bool)
        ensures
            r == self.safe(),
            r <==> (self.supply_ids().len() == 0 && self.demand_ids().len() == 0),
    {
        self.proposed_supply.len() == 0 && self.proposed_demand.len() == 0
    }

    /// Records a proposed supply behind those already outstanding.
    pub fn propose_supply(&mut self, supply: Supply)
        ensures
            final(self).proposed_supply@ == old(self).proposed_supply@.push(supply),
            final(self).supply_ids() == old(self).supply_ids().push(supply.id),
            old(self).wf() && !old(self).supply_ids().contains(supply.id) ==> final(self).wf(),
            final(self).proposed_demand == old(self).proposed_demand,
            final(self).locked == old(self).locked,
    {
        proof {
            if self.supply_ids().no_duplicates() && !self.supply_ids().contains(supply.id) {
                lemma_propose_fresh(self.supply_ids(), supply.id, supply.id);
            }
        }
        self.proposed_supply.push(supply);
        assert(self.supply_ids() =~= old(self).supply_ids().push(supply.id));
    }

    /// Index of the first outstanding supply with this identifier, if there is one.
    pub fn find_supply(&self, id: u64) -> (r: Option<usize>)
        ensures
            match r {
                Some(i) => position_of(self.supply_ids(), id) == i,
                None => position_of(self.supply_ids(), id) == -1,
            },
    {
        let n = self.proposed_supply.len();
        let mut i: usize = 0;
        while i < n
            invariant
                n == self.proposed_supply@.len(),
                i <= n,
                forall|j: int| 0 <= j < i ==> self.supply_ids()[j] != id,
            decreases n - i,
        {
            if self.proposed_supply[i].id == id {
                proof {
                    lemma_first_is_position(self.supply_ids(), id, i as int);
                }
                return Some(i);
            }
            i += 1;
        }
        proof {
            lemma_position_of(self.supply_ids(), id);
        }
        None
    }

    /// Position of the first outstanding supply with this identifier, or -1.
    pub fn proposed_supply_index(&self, id: u64) -> (r: i64)
        requires
            self.proposed_supply@.len() <= i64::MAX,
        ensures
            r == position_of(self.supply_ids(), id),
    {
        match self.find_supply(id) {
            Some(i) => {
                proof {
                    lemma_position_of(self.supply_ids(), id);
                }
                i as i64
            },
            None => -1,
        }
    }

    /// Takes the supply at `pos` out of the list; those behind it move up by one.
    pub fn remove_proposed_supply_index(&mut self, pos: i64)
        requires
            0 <= pos < old(self).proposed_supply@.len(),
        ensures
            final(self).proposed_supply@ == old(self).proposed_supply@.remove(pos as int),
            final(self).supply_ids() == old(self).supply_ids().remove(pos as int),
            old(self).wf() ==> final(self).wf(),
            final(self).proposed_demand == old(self).proposed_demand,
            final(self).locked == old(self).locked,
    {
        proof {
            lemma_remove_keeps_distinct(self.supply_ids(), pos as int);
        }
        let n = self.proposed_supply.len();
        assert(pos < n);
        self.proposed_supply.remove(pos as usize);
        assert(self.supply_ids() =~= old(self).supply_ids().remove(pos as int));
    }

    /// Settles the first outstanding supply with this identifier. Returns whether there
    /// was one; where there was none the state is unchanged.
    pub fn select_supply(&mut self, id: u64) -> (r: bool)
        ensures
            r == old(self).supply_ids().contains(id),
            r ==> final(self).proposed_supply@ == old(self).proposed_supply@.remove(
                position_of(old(self).supply_ids(), id),
            ),
            r ==> final(self).supply_ids() == old(self).supply_ids().remove(
                position_of(old(self).supply_ids(), id),
            ),
            !r ==> final(self).proposed_supply == old(self).proposed_supply,
            final(self).supply_ids() == parted(old(self).supply_ids(), id),
            old(self).wf() ==> final(self).wf() && !final(self).supply_ids().contains(id),
            final(self).proposed_demand == old(self).proposed_demand,
            final(self).locked == old(self).locked,
    {
        proof {
            lemma_position_of(self.supply_ids(), id);
            lemma_parted(self.supply_ids(), id);
        }
        match self.find_supply(id) {
            Some(pos) => {
                self.proposed_supply.remove(pos);
                assert(self.supply_ids() =~= old(self).supply_ids().remove(pos as int));
                true
            },
            None => false,
        }
    }

    /// Records a proposed demand behind those already outstanding.
    pub fn propose_demand(&mut self, demand: Demand)
        ensures
            final(self).proposed_demand@ == old(self).proposed_demand@.push(demand),
            final(self).demand_ids() == old(self).demand_ids().push(demand.id),
            old(self).wf() && !old(self).demand_ids().contains(demand.id) ==> final(self).wf(),
            final(self).proposed_supply == old(self).proposed_supply,
            final(self).locked == old(self).locked,
    {
        proof {
            if self.demand_ids().no_duplicates() && !self.demand_ids().contains(demand.id) {
                lemma_propose_fresh(self.demand_ids(), demand.id, demand.id);
            }
        }
        self.proposed_demand.push(demand);
        assert(self.demand_ids() =~= old(self).demand_ids().push(demand.id));
    }

    /// Index of the first outstanding demand with this identifier, if there is one.
    pub fn find_demand(&self, id: u64) -> (r: Option<usize>)
        ensures
            match r {
                Some(i) => position_of(self.demand_ids(), id) == i,
                None => position_of(self.demand_ids(), id) == -1,
            },
    {
        let n = self.proposed_demand.len();
        let mut i: usize = 0;
        while i < n
            invariant
                n == self.proposed_demand@.len(),
                i <= n,
                forall|j: int| 0 <= j < i ==> self.demand_ids()[j] != id,
            decreases n - i,
        {
            if self.proposed_demand[i].id == id {
                proof {
                    lemma_first_is_position(self.demand_ids(), id, i as int);
                }
                return Some(i);
            }
            i += 1;
        }
        proof {
            lemma_position_of(self.demand_ids(), id);
        }
        None
    }

    /// Settles the first outstanding demand with this identifier. Returns whether there
    /// was one; where there was none the state is unchanged.
    pub fn select_demand(&mut self, id: u64) -> (r: bool)
        ensures
            r == old(self).demand_ids().contains(id),
            r ==> final(self).proposed_demand@ == old(self).proposed_demand@.remove(
                position_of(old(self).demand_ids(), id),
            ),
            r ==> final(self).demand_ids() == old(self).demand_ids().remove(
                position_of(old(self).demand_ids(), id),
            ),
            !r ==> final(self).proposed_demand == old(self).proposed_demand,
            final(self).demand_ids() == parted(old(self).demand_ids(), id),
            old(self).wf() ==> final(self).wf() && !final(self).demand_ids().contains(id),
            final(self).proposed_supply == old(self).proposed_supply,
            final(self).locked == old(self).locked,
    {
        proof {
            lemma_position_of(self.demand_ids(), id);
            lemma_parted(self.demand_ids(), id);
        }
        match self.find_demand(id) {
            Some(pos) => {
                self.proposed_demand.remove(pos);
                assert(self.demand_ids() =~= old(self).demand_ids().remove(pos as int));
                true
            },
            None => false,
        }
    }
}

} // verus!
