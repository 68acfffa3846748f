//! The ledger record of a bridge instance and its mathematical model.

use vstd::prelude::*;
use crate::address::Address;

verus! {

/// Number of validator slots.
pub const MAX_VALIDATORS: usize = 16;

/// Number of signature slots a withdrawal carries.
pub const MAX_SIGNATURES: usize = 16;

/// The persistent record of one bridge instance.
#[derive(Clone, Copy, Debug, PartialEq, Eq)]
pub struct PoolState {
    pub owner: Address,
    /// Who may take ownership over; empty when no change is pending.
    pub proposed_owner: Address,
    /// The token the pool holds in custody.
    pub usdc_mint: Address,
    /// Gates deposits, withdrawals and fee sweeps.
    pub paused: bool,
    /// Validator slots; unused slots hold the empty address. The index of a
    /// slot is the index of the signature it is checked against.
    pub validators: [Address; 16],
    /// Number of occupied validator slots, and the signature threshold.
    pub required_signatures: u8,
    /// Tax on deposits, in basis points.
    pub tax: u16,
    /// Gross amount moved through the bridge.
    pub total_volume: u64,
    /// Tax held in pool custody until the next sweep.
    pub accumulated_fees: u64,
    /// Where fee sweeps go.
    pub treasury: Address,
    /// Seed that binds the record to its storage address.
    pub bump: u8,
}

/// The ledger as a mathematical value: the fields of [`PoolState`], with the
/// validator slots as a sequence.
pub struct Ledger {
    pub owner: Address,
    pub proposed_owner: Address,
    pub usdc_mint: Address,
    pub paused: bool,
    pub validators: Seq<Address>,
    pub required_signatures: u8,
    pub tax: u16,
    pub total_volume: u64,
    pub accumulated_fees: u64,
    pub treasury: Address,
    pub bump: u8,
}

impl View for PoolState {
    type V = Ledger;

    open spec fn view(&self) -> Ledger {
        Ledger {
            owner: self.owner,
            proposed_owner: self.proposed_owner,
            usdc_mint: self.usdc_mint,
            paused: self.paused,
            validators: self.validators@,
            required_signatures: self.required_signatures,
            tax: self.tax,
            total_volume: self.total_volume,
            accumulated_fees: self.accumulated_fees,
            treasury: self.treasury,
            bump: self.bump,
        }
    }
}

/// Number of slots that hold a validator.
pub open spec fn occupied_count(slots: Seq<Address>) -> nat
    decreases slots.len(),
{
    if slots.len() == 0 {
        0
    } else {
        occupied_count(slots.drop_last()) + if slots.last().is_empty() {
            0nat
        } else {
            1nat
        }
    }
}

/// No gap: every occupied slot comes before every unused one.
pub open spec fn compact(slots: Seq<Address>) -> bool {
    forall|i: int, j: int|
        0 <= i < j < slots.len() && !(#[trigger] slots[j]).is_empty()
            ==> !(#[trigger] slots[i]).is_empty()
}

impl Ledger {
    /// The registry invariant: sixteen slots without a gap, and a threshold
    /// equal to the number of occupied slots.
    pub open spec fn wf(self) -> bool {
        &&& self.validators.len() == MAX_VALIDATORS
        &&& compact(self.validators)
        &&& self.required_signatures == occupied_count(self.validators)
    }

    /// The ledger after `amount` is added to the total volume; the total
    /// stays as it is when the sum would not fit in 64 bits.
    pub open spec fn add_volume(self, amount: u64) -> Ledger {
        if self.total_volume + amount <= u64::MAX {
            Ledger { total_volume: (self.total_volume + amount) as u64, ..self }
        } else {
            self
        }
    }
}

impl PoolState {
    /// The registry invariant of the record; see [`Ledger::wf`].
    pub open spec fn wf(&self) -> bool {
        self@.wf()
    }

    /// Adds `amount` to the total volume, unless the total would overflow.
    pub fn record_volume(&mut self, amount: u64)
        ensures
            final(self)@ == old(self)@.add_volume(amount),
            final(self).total_volume >= old(self).total_volume,
    {
        if let Some(new_total) = self.total_volume.checked_add(amount) {
            self.total_volume = new_total;
        }
    }

    /// Counts the occupied validator slots.
    pub fn occupied_slots(&self) -> (count: u8)
        ensures
            count == occupied_count(self.validators@),
            count <= MAX_VALIDATORS,
    {
        let mut count: u8 = 0;
        let mut i: usize = 0;
        while i < MAX_VALIDATORS
            invariant
                i <= MAX_VALIDATORS,
                count == occupied_count(self.validators@.take(i as int)),
                count <= i,
            decreases MAX_VALIDATORS - i,
        {
            assert(self.validators@.take(i + 1).drop_last() =~= self.validators@.take(i as int));
            if !self.validators[i].is_empty() {
                count += 1;
            }
            i += 1;
        }
        assert(self.validators@.take(MAX_VALIDATORS as int) =~= self.validators@);
        count
    }
}

/// The total volume never goes down.
pub proof fn lemma_volume_never_decreases(ledger: Ledger, amount: u64)
    ensures
        ledger.add_volume(amount).total_volume >= ledger.total_volume,
        ledger.add_volume(amount).total_volume == ledger.total_volume + amount
            || ledger.add_volume(amount).total_volume == ledger.total_volume,
{
}

/// A record is determined by its model.
pub proof fn lemma_state_determined_by_view(a: PoolState, b: PoolState)
    requires
        a@ == b@,
    ensures
        a == b,
{
    assert(a.validators =~= b.validators);
}

/// In a list without a gap the occupied slots are exactly the first
/// `occupied_count` ones.
pub proof fn lemma_compact_prefix(slots: Seq<Address>)
    requires
        compact(slots),
    ensures
        occupied_count(slots) <= slots.len(),
        forall|i: int|
            0 <= i < slots.len() ==> (!(#[trigger] slots[i]).is_empty() <==> i < occupied_count(
                slots,
            )),
    decreases slots.len(),
{
    if slots.len() > 0 {
        let front = slots.drop_last();
        let last = slots.len() - 1;
        assert(compact(front)) by {
            assert forall|i: int, j: int|
                0 <= i < j < front.len() && !(#[trigger] front[j]).is_empty() implies !(
                #[trigger] front[i]).is_empty() by {
                assert(front[j] == slots[j]);
                assert(front[i] == slots[i]);
            }
        }
        lemma_compact_prefix(front);
        if !slots[last].is_empty() {
            assert forall|k: int| 0 <= k < front.len() implies !(#[trigger] front[k]).is_empty() by {
                assert(front[k] == slots[k]);
            }
            lemma_all_occupied(front);
        }
        assert forall|i: int| 0 <= i < slots.len() implies (!(#[trigger] slots[i]).is_empty() <==> i
            < occupied_count(slots)) by {
            if i < last {
                assert(front[i] == slots[i]);
            }
        }
    }
}

/// A list whose slots are all occupied has as many validators as slots.
pub proof fn lemma_all_occupied(slots: Seq<Address>)
    requires
        forall|i: int| 0 <= i < slots.len() ==> !(#[trigger] slots[i]).is_empty(),
    ensures
        occupied_count(slots) == slots.len(),
    decreases slots.len(),
{
    if slots.len() > 0 {
        lemma_all_occupied(slots.drop_last());
    }
}

/// A list whose first `n` slots are occupied and whose other slots are
/// unused has no gap and holds `n` validators.
pub proof fn lemma_prefix_is_compact(slots: Seq<Address>, n: nat)
    requires
        n <= slots.len(),
        forall|i: int| 0 <= i < slots.len() ==> (!(#[trigger] slots[i]).is_empty() <==> i < n),
    ensures
        compact(slots),
        occupied_count(slots) == n,
    decreases slots.len(),
{
    if n == slots.len() {
        lemma_all_occupied(slots);
    } else {
        let front = slots.drop_last();
        assert forall|i: int| 0 <= i < front.len() implies (!(#[trigger] front[i]).is_empty() <==> i
            < n) by {
            assert(front[i] == slots[i]);
        }
        lemma_prefix_is_compact(front, n);
    }
}

} // verus!
