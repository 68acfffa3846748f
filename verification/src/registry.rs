//! The validator registry: an ordered list of up to sixteen validators kept
//! in the first slots of the ledger, without gaps.

use vstd::prelude::*;
use crate::accounts::{AddValidatorContext, RemoveValidatorContext};
use crate::address::{lemma_empty_is_unique, Address};
use crate::error::ErrorCode;
use crate::events::{ValidatorAdded, ValidatorRemoved};
use crate::state::{lemma_compact_prefix, lemma_prefix_is_compact, occupied_count, Ledger,
    PoolState, MAX_VALIDATORS};

verus! {

/// The last slot that holds `address`, if any slot does.
pub open spec fn last_slot_of(slots: Seq<Address>, address: Address) -> Option<int>
    decreases slots.len(),
{
    if slots.len() == 0 {
        None
    } else if slots.last() == address {
        Some(slots.len() - 1)
    } else {
        last_slot_of(slots.drop_last(), address)
    }
}

/// The slot from which `address` would be removed: the last slot that holds
/// it. The empty address is never registered.
pub open spec fn registered_slot(slots: Seq<Address>, address: Address) -> Option<int> {
    if address.is_empty() {
        None
    } else {
        last_slot_of(slots, address)
    }
}

/// The slots after `address` is appended behind the `occupied_count` slots
/// in use.
pub open spec fn slots_after_add(slots: Seq<Address>, address: Address) -> Seq<Address> {
    slots.update(occupied_count(slots) as int, address)
}

/// The slots after slot `slot` is taken out: the later slots move down by
/// one and the last slot becomes empty.
pub open spec fn slots_after_remove(slots: Seq<Address>, slot: int) -> Seq<Address> {
    slots.remove(slot).push(Address::spec_empty())
}

impl Ledger {
    /// The ledger after `address` joins the registry.
    pub open spec fn add_validator(self, address: Address) -> Ledger {
        let slots = slots_after_add(self.validators, address);
        Ledger { validators: slots, required_signatures: occupied_count(slots) as u8, ..self }
    }

    /// The ledger after the validator in slot `slot` leaves the registry.
    pub open spec fn remove_validator(self, slot: int) -> Ledger {
        let slots = slots_after_remove(self.validators, slot);
        Ledger { validators: slots, required_signatures: occupied_count(slots) as u8, ..self }
    }
}

/// What `add_validator` comes to: the next ledger and the record, or the
/// reason for turning the call down.
pub open spec fn add_validator_outcome(
    ledger: Ledger,
    ctx: AddValidatorContext,
    now: i64,
) -> Result<(Ledger, ValidatorAdded), ErrorCode> {
    if ctx.owner != ledger.owner {
        Err(ErrorCode::Unauthorized)
    } else if occupied_count(ledger.validators) >= MAX_VALIDATORS {
        Err(ErrorCode::TooManyValidators)
    } else {
        let next = ledger.add_validator(ctx.new_validator);
        Ok(
            (
                next,
                ValidatorAdded {
                    pool_state: ctx.pool_state,
                    address: ctx.new_validator,
                    required_validators: next.required_signatures,
                    timestamp: now,
                },
            ),
        )
    }
}

/// What `remove_validator` comes to: the next ledger and the record, or the
/// reason for turning the call down.
pub open spec fn remove_validator_outcome(
    ledger: Ledger,
    ctx: RemoveValidatorContext,
    now: i64,
) -> Result<(Ledger, ValidatorRemoved), ErrorCode> {
    if ctx.owner != ledger.owner {
        Err(ErrorCode::Unauthorized)
    } else {
        match registered_slot(ledger.validators, ctx.old_validator) {
            None => Err(ErrorCode::ValidatorDoesNotExist),
            Some(slot) => {
                let next = ledger.remove_validator(slot);
                Ok(
                    (
                        next,
                        ValidatorRemoved {
                            pool_state: ctx.pool_state,
                            address: ctx.old_validator,
                            required_validators: next.required_signatures,
                            timestamp: now,
                        },
                    ),
                )
            },
        }
    }
}

/// `last_slot_of` finds a slot that holds the address, behind which no slot
/// holds it; it finds none exactly when no slot holds the address.
pub proof fn lemma_last_slot_of(slots: Seq<Address>, address: Address)
    ensures
        (match last_slot_of(slots, address) {
            Some(slot) => {
                &&& 0 <= slot < slots.len()
                &&& slots[slot] == address
                &&& forall|j: int| slot < j < slots.len() ==> slots[j] != address
            },
            None => forall|j: int| 0 <= j < slots.len() ==> slots[j] != address,
        }),
    decreases slots.len(),
{
    if slots.len() > 0 && slots.last() != address {
        let front = slots.drop_last();
        lemma_last_slot_of(front, address);
        assert forall|j: int| 0 <= j < front.len() implies front[j] == slots[j] by {}
    }
}

/// Adding a validator keeps the registry invariant. A validator that is not
/// the empty address raises the threshold by one and lands in the first
/// unused slot; the other slots stay as they are.
pub proof fn lemma_add_preserves_wf(ledger: Ledger, address: Address)
    requires
        ledger.wf(),
        occupied_count(ledger.validators) < MAX_VALIDATORS,
    ensures
        ledger.add_validator(address).wf(),
        !address.is_empty() ==> ledger.add_validator(address).required_signatures
            == ledger.required_signatures + 1,
        address.is_empty() ==> ledger.add_validator(address) == ledger,
        ledger.validators[ledger.required_signatures as int].is_empty(),
{
    let slots = ledger.validators;
    let n = occupied_count(slots);
    let after = slots_after_add(slots, address);
    lemma_compact_prefix(slots);
    if address.is_empty() {
        lemma_empty_is_unique(address);
        lemma_empty_is_unique(slots[n as int]);
        assert(after =~= slots);
    } else {
        assert forall|i: int| 0 <= i < after.len() implies (!(#[trigger] after[i]).is_empty() <==> i
            < n + 1) by {
            if i != n {
                assert(after[i] == slots[i]);
            }
        }
        lemma_prefix_is_compact(after, n + 1);
    }
}

/// Removing a registered validator keeps the registry invariant and lowers
/// the threshold by one.
pub proof fn lemma_remove_preserves_wf(ledger: Ledger, slot: int)
    requires
        ledger.wf(),
        0 <= slot < MAX_VALIDATORS,
        !ledger.validators[slot].is_empty(),
    ensures
        ledger.remove_validator(slot).wf(),
        ledger.remove_validator(slot).required_signatures == ledger.required_signatures - 1,
{
    let slots = ledger.validators;
    let n = occupied_count(slots);
    let after = slots_after_remove(slots, slot);
    lemma_compact_prefix(slots);
    assert forall|i: int| 0 <= i < after.len() implies (!(#[trigger] after[i]).is_empty() <==> i < n
        - 1) by {
        if i < slot {
            assert(after[i] == slots[i]);
        } else if i < after.len() - 1 {
            assert(after[i] == slots[i + 1]);
        }
    }
    lemma_prefix_is_compact(after, (n - 1) as nat);
}

/// Registers `ctx.new_validator` behind the validators already in the
/// registry. Only the owner may do this, and only while a slot is free.
pub fn add_validator(
    state: &mut PoolState,
    ctx: &AddValidatorContext,
    now: i64,
) -> (out: Result<ValidatorAdded, ErrorCode>)
    ensures
        (match add_validator_outcome(old(state)@, *ctx, now) {
            Ok((next, event)) => out == Ok::<ValidatorAdded, ErrorCode>(event) && final(state)@
                == next,
            Err(e) => out == Err::<ValidatorAdded, ErrorCode>(e) && *final(state) == *old(state),
        }),
        old(state).wf() ==> final(state).wf(),
        old(state).wf() && out is Ok && !ctx.new_validator.is_empty()
            ==> final(state).required_signatures == old(state).required_signatures + 1,
{
    if ctx.owner != state.owner {
        return Err(ErrorCode::Unauthorized);
    }
    let count = state.occupied_slots();
    if count as usize >= MAX_VALIDATORS {
        return Err(ErrorCode::TooManyValidators);
    }
    proof {
        if state.wf() {
            lemma_add_preserves_wf(state@, ctx.new_validator);
        }
    }
    state.validators[count as usize] = ctx.new_validator;
    state.required_signatures = state.occupied_slots();
    Ok(
        ValidatorAdded {
            pool_state: ctx.pool_state,
            address: ctx.new_validator,
            required_validators: state.required_signatures,
            timestamp: now,
        },
    )
}

/// Finds the last slot that holds `address`.
pub fn find_validator(state: &PoolState, address: &Address) -> (found: Option<usize>)
    ensures
        (match registered_slot(state.validators@, *address) {
            Some(slot) => found == Some(slot as usize) && slot < MAX_VALIDATORS,
            None => found is None,
        }),
{
    if address.is_empty() {
        return None;
    }
    let mut found: Option<usize> = None;
    let mut i: usize = 0;
    while i < MAX_VALIDATORS
        invariant
            i <= MAX_VALIDATORS,
            match last_slot_of(state.validators@.take(i as int), *address) {
                Some(slot) => found == Some(slot as usize) && slot < i,
                None => found is None,
            },
        decreases MAX_VALIDATORS - i,
    {
        assert(state.validators@.take(i + 1).drop_last() =~= state.validators@.take(i as int));
        if state.validators[i] == *address {
            found = Some(i);
        }
        i += 1;
    }
    assert(state.validators@.take(MAX_VALIDATORS as int) =~= state.validators@);
    found
}

/// Takes `ctx.old_validator` out of the registry and closes the gap. Only
/// the owner may do this.
pub fn remove_validator(
    state: &mut PoolState,
    ctx: &RemoveValidatorContext,
    now: i64,
) -> (out: Result<ValidatorRemoved, ErrorCode>)
    ensures
        (match remove_validator_outcome(old(state)@, *ctx, now) {
            Ok((next, event)) => out == Ok::<ValidatorRemoved, ErrorCode>(event) && final(state)@
                == next,
            Err(e) => out == Err::<ValidatorRemoved, ErrorCode>(e) && *final(state) == *old(state),
        }),
        old(state).wf() ==> final(state).wf(),
        old(state).wf() && out is Ok
            ==> final(state).required_signatures + 1 == old(state).required_signatures,
{
    if ctx.owner != state.owner {
        return Err(ErrorCode::Unauthorized);
    }
    let index = match find_validator(state, &ctx.old_validator) {
        None => {
            return Err(ErrorCode::ValidatorDoesNotExist);
        },
        Some(index) => index,
    };
    proof {
        lemma_last_slot_of(state.validators@, ctx.old_validator);
        if state.wf() {
            lemma_remove_preserves_wf(state@, index as int);
        }
    }
    let mut validators = state.validators;
    let mut i: usize = index;
    while i < MAX_VALIDATORS - 1
        invariant
            index <= i <= MAX_VALIDATORS - 1,
            forall|k: int| 0 <= k < index ==> validators@[k] == state.validators@[k],
            forall|k: int| index <= k < i ==> validators@[k] == state.validators@[k + 1],
            forall|k: int| i <= k < MAX_VALIDATORS ==> validators@[k] == state.validators@[k],
        decreases MAX_VALIDATORS - i,
    {
        validators[i] = validators[i + 1];
        i += 1;
    }
    validators[MAX_VALIDATORS - 1] = Address::empty();
    assert(validators@ =~= slots_after_remove(state.validators@, index as int));
    state.validators = validators;
    state.required_signatures = state.occupied_slots();
    Ok(
        ValidatorRemoved {
            pool_state: ctx.pool_state,
            address: ctx.old_validator,
            required_validators: state.required_signatures,
            timestamp: now,
        },
    )
}

/// One call on the registry, with the time it is made at.
#[derive(Clone, Copy, Debug, PartialEq, Eq)]
pub enum RegistryCall {
    Add(AddValidatorContext, i64),
    Remove(RemoveValidatorContext, i64),
}

/// The ledger after one call on the registry; a call that is turned down
/// leaves it as it was.
pub open spec fn after_call(ledger: Ledger, call: RegistryCall) -> Ledger {
    match call {
        RegistryCall::Add(ctx, now) => match add_validator_outcome(ledger, ctx, now) {
            Ok((next, _)) => next,
            Err(_) => ledger,
        },
        RegistryCall::Remove(ctx, now) => match remove_validator_outcome(ledger, ctx, now) {
            Ok((next, _)) => next,
            Err(_) => ledger,
        },
    }
}

/// The ledger after a series of calls on the registry, made in order.
pub open spec fn after_calls(ledger: Ledger, calls: Seq<RegistryCall>) -> Ledger
    decreases calls.len(),
{
    if calls.len() == 0 {
        ledger
    } else {
        after_call(after_calls(ledger, calls.drop_last()), calls.last())
    }
}

/// Whatever additions and removals are made, by whomever and in whatever
/// order, the threshold stays equal to the number of occupied slots and the
/// occupied slots stay in front.
pub proof fn lemma_registry_invariant(ledger: Ledger, calls: Seq<RegistryCall>)
    requires
        ledger.wf(),
    ensures
        after_calls(ledger, calls).wf(),
        after_calls(ledger, calls).required_signatures == occupied_count(
            after_calls(ledger, calls).validators,
        ),
    decreases calls.len(),
{
    if calls.len() > 0 {
        let before = after_calls(ledger, calls.drop_last());
        lemma_registry_invariant(ledger, calls.drop_last());
        match calls.last() {
            RegistryCall::Add(ctx, now) => {
                if add_validator_outcome(before, ctx, now) is Ok {
                    lemma_add_preserves_wf(before, ctx.new_validator);
                }
            },
            RegistryCall::Remove(ctx, now) => {
                if remove_validator_outcome(before, ctx, now) is Ok {
                    let slot = registered_slot(before.validators, ctx.old_validator)->Some_0;
                    lemma_last_slot_of(before.validators, ctx.old_validator);
                    lemma_remove_preserves_wf(before, slot);
                }
            },
        }
    }
}

/// Where the validator of slot `k` stands after slot `slot` is taken out.
pub open spec fn position_after_remove(k: int, slot: int) -> int {
    if k < slot {
        k
    } else {
        k - 1
    }
}

/// Taking a slot out keeps every other validator and their order: the slots
/// in front stay, the slots behind move down by one, and the last slot
/// becomes empty.
pub proof fn lemma_remove_keeps_order(slots: Seq<Address>, slot: int)
    requires
        0 <= slot < slots.len(),
    ensures
        ({
            let after = slots_after_remove(slots, slot);
            &&& after.len() == slots.len()
            &&& forall|i: int| 0 <= i < slot ==> after[i] == slots[i]
            &&& forall|i: int| slot <= i < slots.len() - 1 ==> after[i] == slots[i + 1]
            &&& after[slots.len() - 1].is_empty()
            &&& forall|i: int, j: int|
                0 <= i < j < slots.len() && i != slot && j != slot ==> {
                    &&& position_after_remove(i, slot) < position_after_remove(j, slot)
                    &&& after[position_after_remove(i, slot)] == #[trigger] slots[i]
                    &&& after[position_after_remove(j, slot)] == #[trigger] slots[j]
                }
        }),
{
}

/// A full registry takes no further validator: the owner's call is turned
/// down and the ledger stays as it was.
pub proof fn lemma_full_registry_rejects(ledger: Ledger, ctx: AddValidatorContext, now: i64)
    requires
        ledger.validators.len() == MAX_VALIDATORS,
        occupied_count(ledger.validators) == MAX_VALIDATORS,
        ctx.owner == ledger.owner,
    ensures
        add_validator_outcome(ledger, ctx, now) == Err::<(Ledger, ValidatorAdded), ErrorCode>(
            ErrorCode::TooManyValidators,
        ),
        after_call(ledger, RegistryCall::Add(ctx, now)) == ledger,
{
}

} // verus!
