//! The trade record store: durable keyed storage, keyed by the identity
//! derived from each trade's immutable parameters. Creation is create-once
//! (a duplicate identity is rejected, never overwritten) and mutation in
//! place can change nothing but the phase.

use vstd::prelude::*;
use crate::errors::TradeError;
use crate::state::{Phase, Trade, TradeId, with_phase};

verus! {

/// Some record in `s` is stored under identity `id`.
pub open spec fn contains_id(s: Seq<Trade>, id: TradeId) -> bool {
    exists|i: int| 0 <= i < s.len() && s[i].spec_id() == id
}

/// No two records in `s` share a storage identity.
pub open spec fn distinct_ids(s: Seq<Trade>) -> bool {
    forall|i: int, j: int|
        0 <= i < j < s.len() ==> s[i].spec_id() != s[j].spec_id()
}

/// The position of the record stored under `id`; meaningful only when
/// `contains_id(s, id)` holds, and unique when `distinct_ids(s)` holds.
pub open spec fn index_of_id(s: Seq<Trade>, id: TradeId) -> int {
    choose|i: int| 0 <= i < s.len() && s[i].spec_id() == id
}

/// The record stored under `id`; meaningful only when `contains_id(s, id)`.
pub open spec fn record_of(s: Seq<Trade>, id: TradeId) -> Trade {
    s[index_of_id(s, id)]
}

/// The store contents after a create: unchanged when the identity is already
/// taken, extended by the new record otherwise.
pub open spec fn create_next(s: Seq<Trade>, t: Trade) -> Seq<Trade> {
    if contains_id(s, t.spec_id()) {
        s
    } else {
        s.push(t)
    }
}

/// What a create returns: the derived identity on success, `DuplicateRecord`
/// when a record already exists under it.
pub open spec fn create_result(s: Seq<Trade>, t: Trade) -> Result<TradeId, TradeError> {
    if contains_id(s, t.spec_id()) {
        Err(TradeError::DuplicateRecord)
    } else {
        Ok(t.spec_id())
    }
}

/// The store contents after a phase write: the record under `id` changed to
/// phase `p` and nothing else touched, or everything unchanged when no such
/// record exists.
pub open spec fn set_phase_next(s: Seq<Trade>, id: TradeId, p: Phase) -> Seq<Trade> {
    if contains_id(s, id) {
        s.update(index_of_id(s, id), with_phase(record_of(s, id), p))
    } else {
        s
    }
}

/// Durable storage for trade records. Its view is the sequence of stored
/// records, in order of creation.
pub struct TradeStore {
    trades: Vec<Trade>,
}

impl View for TradeStore {
    type V = Seq<Trade>;

    closed spec fn view(&self) -> Seq<Trade> {
        self.trades@
    }
}

impl TradeStore {
    /// Well-formedness: storage identities are unique, which create-once
    /// establishes and every operation preserves.
    pub open spec fn wf(&self) -> bool {
        distinct_ids(self@)
    }

    /// An empty store.
    pub fn new() -> (s: Self)
        ensures
            s@ == Seq::<Trade>::empty(),
            s.wf(),
    {
        TradeStore { trades: Vec::new() }
    }

    /// How many records the store holds.
    pub fn len(&self) -> (n: usize)
        ensures
            n == self@.len(),
    {
        self.trades.len()
    }

    /// The position of the record stored under `id`, if any.
    fn find_index(&self, id: TradeId) -> (r: Option<usize>)
        ensures
            r matches Some(i) ==> 0 <= i < self@.len() && self@[i as int].spec_id() == id,
            r is None ==> !contains_id(self@, id),
    {
        let n = self.trades.len();
        let mut j: usize = 0;
        while j < n
            invariant
                n == self@.len(),
                0 <= j <= n,
                forall|k: int| 0 <= k < j ==> self@[k].spec_id() != id,
            decreases n - j,
        {
            let tid = self.trades[j].id();
            if tid == id {
                return Some(j);
            }
            j += 1;
        }
        None
    }

    /// Whether a record exists under `id`.
    pub fn contains(&self, id: TradeId) -> (r: bool)
        ensures
            r == contains_id(self@, id),
    {
        match self.find_index(id) {
            Some(_) => true,
            None => false,
        }
    }

    /// Looks the record stored under `id` up.
    pub fn get(&self, id: TradeId) -> (r: Option<Trade>)
        requires
            self.wf(),
        ensures
            r == if contains_id(self@, id) {
                Some(record_of(self@, id))
            } else {
                None::<Trade>
            },
    {
        match self.find_index(id) {
            Some(i) => {
                proof {
                    lemma_record_at_found_index(self@, id, i as int);
                }
                Some(self.trades[i])
            },
            None => None,
        }
    }

    /// Creates a record, once: rejects an identity that is already taken and
    /// leaves the store unchanged in that case.
    pub fn create(&mut self, t: Trade) -> (r: Result<TradeId, TradeError>)
        requires
            old(self).wf(),
        ensures
            final(self).wf(),
            final(self)@ == create_next(old(self)@, t),
            r == create_result(old(self)@, t),
            r is Ok <==> !contains_id(old(self)@, t.spec_id()),
    {
        let id = t.id();
        match self.find_index(id) {
            Some(_) => {
                proof {
                    assert(contains_id(self@, t.spec_id()));
                }
                Err(TradeError::DuplicateRecord)
            },
            None => {
                proof {
                    lemma_push_fresh_keeps_distinct(self@, t);
                }
                self.trades.push(t);
                Ok(id)
            },
        }
    }

    /// Mutates the record under `id` in place: only its phase changes; every
    /// other record, and every other field, is untouched. Returns whether the
    /// record existed.
    pub fn set_phase(&mut self, id: TradeId, p: Phase) -> (r: bool)
        requires
            old(self).wf(),
        ensures
            final(self).wf(),
            r == contains_id(old(self)@, id),
            final(self)@ == set_phase_next(old(self)@, id, p),
    {
        match self.find_index(id) {
            Some(i) => {
                proof {
                    lemma_record_at_found_index(self@, id, i as int);
                    lemma_phase_update_keeps_distinct(self@, i as int, p);
                }
                let updated = with_phase_exec(&self.trades[i], p);
                let slot = vstd::std_specs::vec::vec_index_mut(&mut self.trades, i);
                *slot = updated;
                true
            },
            None => false,
        }
    }
}

/// Changes a trade's phase, keeping every other field.
fn with_phase_exec(t: &Trade, p: Phase) -> (r: Trade)
    ensures
        r == with_phase(*t, p),
{
    Trade {
        token_a_pda: t.token_a_pda,
        token_a_mint: t.token_a_mint,
        authority: t.authority,
        token_a_source: t.token_a_source,
        token_a_destination: t.token_a_destination,
        token_b_destination: t.token_b_destination,
        token_a_to_send_amount: t.token_a_to_send_amount,
        token_b_request_amount: t.token_b_request_amount,
        phase: p,
    }
}

/// With distinct identities, any position holding `id` is the position
/// `index_of_id` picks, so the record found there is `record_of`.
proof fn lemma_record_at_found_index(s: Seq<Trade>, id: TradeId, i: int)
    requires
        distinct_ids(s),
        0 <= i < s.len(),
        s[i].spec_id() == id,
    ensures
        index_of_id(s, id) == i,
        record_of(s, id) == s[i],
{
    assert(contains_id(s, id));
    let k = index_of_id(s, id);
    assert(0 <= k < s.len() && s[k].spec_id() == id);
    if k < i {
        assert(s[k].spec_id() != s[i].spec_id());
    } else if i < k {
        assert(s[i].spec_id() != s[k].spec_id());
    }
}

/// Appending a record whose identity is fresh keeps identities distinct.
proof fn lemma_push_fresh_keeps_distinct(s: Seq<Trade>, t: Trade)
    requires
        distinct_ids(s),
        !contains_id(s, t.spec_id()),
    ensures
        distinct_ids(s.push(t)),
{
    let s2 = s.push(t);
    assert forall|i: int, j: int|
        0 <= i < j < s2.len() implies s2[i].spec_id() != s2[j].spec_id() by {
        if j == s.len() {
            assert(s2[i] == s[i]);
            assert(s2[j] == t);
            if s[i].spec_id() == t.spec_id() {
                assert(contains_id(s, t.spec_id()));
            }
        } else {
            assert(s2[i] == s[i]);
            assert(s2[j] == s[j]);
        }
    }
}

/// A phase write leaves every storage identity as it was, so distinctness is
/// kept.
proof fn lemma_phase_update_keeps_distinct(s: Seq<Trade>, i: int, p: Phase)
    requires
        distinct_ids(s),
        0 <= i < s.len(),
    ensures
        distinct_ids(s.update(i, with_phase(s[i], p))),
{
    let s2 = s.update(i, with_phase(s[i], p));
    assert forall|a: int, b: int|
        0 <= a < b < s2.len() implies s2[a].spec_id() != s2[b].spec_id() by {
        assert(s2[a].spec_id() == s[a].spec_id());
        assert(s2[b].spec_id() == s[b].spec_id());
    }
}

} // verus!
