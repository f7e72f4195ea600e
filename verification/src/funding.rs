//! The signer's funding decisions: whether a change output fits, when a transaction is
//! rejected as dust, and which of the wallet's coins to add while the fee is not covered.
use vstd::prelude::*;

use crate::constants::MIN_FEE;
use crate::error::FundingError;
use crate::bytes::bytes32_eq;
use crate::transaction::final_transaction::{as_signed, FinalInput, FinalTransaction};
use crate::transaction::partial_input::{OutPoint, UTXO};

verus! {

/// A signed 64-bit value reinterpreted as an unsigned one.
pub open spec fn as_unsigned(x: int) -> nat {
    if x >= 0 {
        x as nat
    } else {
        (x + 0x1_0000_0000_0000_0000) as nat
    }
}

/// The amount of the change output when the surplus covers the fee (estimated with a change
/// output present) and leaves at least the minimum fee over; none when it does not, and the
/// transaction is then estimated again without change.
pub fn plan_with_change(available_delta: u64, fee: u64) -> (r: Option<u64>)
    ensures
        r == (if available_delta > fee && available_delta - fee >= MIN_FEE {
            Some((available_delta - fee) as u64)
        } else {
            None::<u64>
        }),
{
    if available_delta > fee && available_delta - fee >= MIN_FEE {
        Some(available_delta - fee)
    } else {
        None
    }
}

/// Without a change output the fee output takes the whole surplus (`Ok`); when the surplus
/// does not cover the fee estimated without change, that fee is reported as required (`Err`).
pub fn plan_without_change(available_delta: u64, fee: u64) -> (r: Result<u64, u64>)
    ensures
        r == (if available_delta < fee {
            Err::<u64, u64>(fee)
        } else {
            Ok::<u64, u64>(available_delta)
        }),
{
    if available_delta < fee {
        Err(fee)
    } else {
        Ok(available_delta)
    }
}

/// The check a transaction whose coins were selected by the caller must pass before its fee
/// is estimated: a surplus below the minimum fee is dust; otherwise the surplus is what the
/// change and fee outputs may take.
pub fn check_strict_fee_delta(policy_amount_delta: i64) -> (r: Result<u64, FundingError>)
    ensures
        r == (if policy_amount_delta < MIN_FEE {
            Err::<u64, FundingError>(FundingError::DustAmount(policy_amount_delta))
        } else {
            Ok::<u64, FundingError>(policy_amount_delta as u64)
        }),
{
    if policy_amount_delta < MIN_FEE as i64 {
        Err(FundingError::DustAmount(policy_amount_delta))
    } else {
        Ok(policy_amount_delta as u64)
    }
}

/// What the signer does next while it funds a transaction from the wallet's coins.
#[derive(Debug, Clone, Copy, PartialEq, Eq)]
pub enum SelectionStep {
    /// Estimate the fee of the transaction as it is, with this policy-asset surplus.
    Estimate(u64),
    /// Add the next (largest remaining) coin as an input and report the new surplus.
    AddNextInput,
    /// Give up: the coins ran out before the fee was covered.
    Fail(FundingError),
}

/// What the signer does next, given the surplus `delta` of the transaction as it is, the
/// number of candidate coins not yet added and the fee currently known to be needed.
pub open spec fn fee_delta_step(remaining: nat, curr_fee: u64, delta: int) -> SelectionStep {
    if delta >= as_signed(curr_fee as nat) {
        SelectionStep::Estimate(as_unsigned(delta) as u64)
    } else if remaining > 0 {
        SelectionStep::AddNextInput
    } else {
        SelectionStep::Fail(FundingError::NotEnoughFunds(curr_fee))
    }
}

/// What the signer does next after an estimate found that `required` is needed.
pub open spec fn estimate_failure_step(remaining: nat, required: u64) -> SelectionStep {
    if remaining > 0 {
        SelectionStep::AddNextInput
    } else {
        SelectionStep::Fail(FundingError::NotEnoughFunds(required))
    }
}

/// The number of candidate coins not yet added after `step`.
pub open spec fn remaining_after(remaining: nat, step: SelectionStep) -> nat {
    if step is AddNextInput {
        (remaining - 1) as nat
    } else {
        remaining
    }
}

/// The sum of the amounts.
pub open spec fn amount_total(amounts: Seq<u64>) -> int
    decreases amounts.len(),
{
    if amounts.len() == 0 {
        0
    } else {
        amounts[0] + amount_total(amounts.drop_first())
    }
}

/// How funding ends when it starts from the surplus `delta` with the fee `curr_fee` to cover
/// and the candidate coins of `amounts` still to add, in that order: each step is the one
/// `fee_delta_step` or `estimate_failure_step` decides; adding a coin raises the surplus by
/// its amount; `estimate(n, d)` is the outcome of estimating with `n` coins left and the
/// surplus `d` (`None`: the fee is covered; `Some(f)`: `f` is needed). `Ok` carries the
/// surplus the transaction is finished with.
pub open spec fn funding_run(
    curr_fee: u64,
    delta: int,
    amounts: Seq<u64>,
    estimate: spec_fn(nat, int) -> Option<u64>,
) -> Result<int, FundingError>
    decreases amounts.len(),
{
    match fee_delta_step(amounts.len(), curr_fee, delta) {
        SelectionStep::Estimate(_) => match estimate(amounts.len(), delta) {
            None => Ok(delta),
            Some(required) => match estimate_failure_step(amounts.len(), required) {
                SelectionStep::Fail(e) => Err(e),
                _ => if amounts.len() > 0 {
                    funding_run(required, delta + amounts[0], amounts.drop_first(), estimate)
                } else {
                    Err(FundingError::NotEnoughFunds(required))
                },
            },
        },
        SelectionStep::Fail(e) => Err(e),
        SelectionStep::AddNextInput => if amounts.len() > 0 {
            funding_run(curr_fee, delta + amounts[0], amounts.drop_first(), estimate)
        } else {
            Err(FundingError::NotEnoughFunds(curr_fee))
        },
    }
}

/// The state of funding a transaction: how many of the wallet's candidate coins have not
/// been added yet, and the fee the transaction is currently known to need.
pub struct CoinSelection {
    remaining: usize,
    curr_fee: u64,
}

impl CoinSelection {
    /// The number of candidate coins not yet added.
    pub closed spec fn spec_remaining(&self) -> nat {
        self.remaining as nat
    }

    /// The fee the transaction is currently known to need.
    pub closed spec fn spec_curr_fee(&self) -> u64 {
        self.curr_fee
    }

    /// Starts funding with `candidates` coins available and the minimum fee as the first
    /// fee to cover.
    pub fn new(candidates: usize) -> (r: CoinSelection)
        ensures
            r.spec_remaining() == candidates,
            r.spec_curr_fee() == MIN_FEE,
    {
        CoinSelection { remaining: candidates, curr_fee: MIN_FEE }
    }

    /// The coins not yet added.
    pub fn remaining(&self) -> (r: usize)
        ensures
            r == self.spec_remaining(),
    {
        self.remaining
    }

    /// The fee the transaction is currently known to need.
    pub fn curr_fee(&self) -> (r: u64)
        ensures
            r == self.spec_curr_fee(),
    {
        self.curr_fee
    }

    /// Decides on the transaction's current policy-asset surplus: estimate when it covers
    /// the current fee; else add the next coin while one is left; else fail with the
    /// current fee.
    pub fn on_fee_delta(&mut self, policy_amount_delta: i64) -> (r: SelectionStep)
        ensures
            r == fee_delta_step(old(self).spec_remaining(), old(self).spec_curr_fee(), policy_amount_delta as int),
            final(self).spec_remaining() == remaining_after(old(self).spec_remaining(), r),
            final(self).spec_curr_fee() == old(self).spec_curr_fee(),
            policy_amount_delta >= as_signed(old(self).spec_curr_fee() as nat) ==> r == SelectionStep::Estimate(
                as_unsigned(policy_amount_delta as int) as u64,
            ) && final(self).spec_remaining() == old(self).spec_remaining(),
            policy_amount_delta < as_signed(old(self).spec_curr_fee() as nat) && old(self).spec_remaining()
                > 0 ==> r == SelectionStep::AddNextInput && final(self).spec_remaining() == old(
                self,
            ).spec_remaining() - 1,
            policy_amount_delta < as_signed(old(self).spec_curr_fee() as nat) && old(self).spec_remaining()
                == 0 ==> r == SelectionStep::Fail(FundingError::NotEnoughFunds(old(self).spec_curr_fee()))
                && final(self).spec_remaining() == 0,
    {
        if policy_amount_delta >= cast_signed_fee(self.curr_fee) {
            SelectionStep::Estimate(cast_unsigned_delta(policy_amount_delta))
        } else if self.remaining > 0 {
            self.remaining = self.remaining - 1;
            SelectionStep::AddNextInput
        } else {
            SelectionStep::Fail(FundingError::NotEnoughFunds(self.curr_fee))
        }
    }

    /// Decides after an estimate found the surplus short of `required_fee`: that fee is now
    /// the one to cover; add the next coin while one is left, else fail with it.
    pub fn on_estimate_failure(&mut self, required_fee: u64) -> (r: SelectionStep)
        ensures
            r == estimate_failure_step(old(self).spec_remaining(), required_fee),
            final(self).spec_remaining() == remaining_after(old(self).spec_remaining(), r),
            final(self).spec_curr_fee() == required_fee,
            old(self).spec_remaining() > 0 ==> r == SelectionStep::AddNextInput
                && final(self).spec_remaining() == old(self).spec_remaining() - 1,
            old(self).spec_remaining() == 0 ==> r == SelectionStep::Fail(
                FundingError::NotEnoughFunds(required_fee),
            ) && final(self).spec_remaining() == 0,
    {
        self.curr_fee = required_fee;
        if self.remaining > 0 {
            self.remaining = self.remaining - 1;
            SelectionStep::AddNextInput
        } else {
            SelectionStep::Fail(FundingError::NotEnoughFunds(required_fee))
        }
    }
}

fn cast_signed_fee(x: u64) -> (r: i64)
    ensures
        r == as_signed(x as nat),
{
    if x <= i64::MAX as u64 {
        x as i64
    } else {
        let below: u64 = u64::MAX - x;
        -(below as i64) - 1
    }
}

fn cast_unsigned_delta(x: i64) -> (r: u64)
    ensures
        r == as_unsigned(x as int),
{
    if x >= 0 {
        x as u64
    } else {
        let magnitude: u64 = ((-(x + 1)) as u64) + 1;
        u64::MAX - magnitude + 1
    }
}

/// Whether some input of the transaction already spends `outpoint`.
pub open spec fn is_spent_by<P>(inputs: Seq<FinalInput<P>>, outpoint: OutPoint) -> bool {
    exists|i: int| 0 <= i < inputs.len() && (#[trigger] inputs[i]).partial_input.spec_outpoint() == outpoint
}

/// The coins the transaction does not already spend, in the order they were given.
pub open spec fn unspent_by<P>(inputs: Seq<FinalInput<P>>, utxos: Seq<UTXO>) -> Seq<UTXO> {
    utxos.filter(|u: UTXO| !is_spent_by(inputs, u.outpoint))
}

/// `u` inserted into `sorted` after every coin of at least its amount.
pub open spec fn insert_by_amount_desc(sorted: Seq<UTXO>, u: UTXO) -> Seq<UTXO>
    decreases sorted.len(),
{
    if sorted.len() == 0 {
        seq![u]
    } else if sorted.last().spec_amount() >= u.spec_amount() {
        sorted.push(u)
    } else {
        insert_by_amount_desc(sorted.drop_last(), u).push(sorted.last())
    }
}

/// The coins ordered by amount, largest first; coins of equal amount keep their order.
pub open spec fn sort_by_amount_desc(utxos: Seq<UTXO>) -> Seq<UTXO>
    decreases utxos.len(),
{
    if utxos.len() == 0 {
        Seq::empty()
    } else {
        insert_by_amount_desc(sort_by_amount_desc(utxos.drop_last()), utxos.last())
    }
}

fn outpoint_eq(a: &OutPoint, b: &OutPoint) -> (r: bool)
    ensures
        r == (*a == *b),
{
    a.vout == b.vout && bytes32_eq(&a.txid, &b.txid)
}

fn spent_by<P>(tx: &FinalTransaction<P>, outpoint: &OutPoint) -> (r: bool)
    ensures
        r == is_spent_by(tx.spec_inputs(), *outpoint),
{
    let inputs = tx.inputs();
    let mut i: usize = 0;
    while i < inputs.len()
        invariant
            inputs@ == tx.spec_inputs(),
            i <= inputs@.len(),
            forall|j: int| 0 <= j < i ==> (#[trigger] inputs@[j]).partial_input.spec_outpoint() != *outpoint,
        decreases inputs@.len() - i,
    {
        let spent = inputs[i].partial_input.outpoint();
        if outpoint_eq(&spent, outpoint) {
            return true;
        }
        i = i + 1;
    }
    false
}

/// Inserting at the place found by scanning from the back past every smaller coin is the
/// stable insertion.
proof fn lemma_insert_at_place(sorted: Seq<UTXO>, u: UTXO, p: int)
    requires
        0 <= p <= sorted.len(),
        forall|j: int| p <= j < sorted.len() ==> (#[trigger] sorted[j]).spec_amount() < u.spec_amount(),
        p > 0 ==> sorted[p - 1].spec_amount() >= u.spec_amount(),
    ensures
        insert_by_amount_desc(sorted, u) == sorted.insert(p, u),
    decreases sorted.len(),
{
    if sorted.len() == 0 {
        assert(sorted.insert(p, u) =~= seq![u]);
    } else if p == sorted.len() {
        assert(sorted.insert(p, u) =~= sorted.push(u));
    } else {
        let rest = sorted.drop_last();
        assert forall|j: int| p <= j < rest.len() implies (#[trigger] rest[j]).spec_amount() < u.spec_amount() by {
            assert(rest[j] == sorted[j]);
        }
        lemma_insert_at_place(rest, u, p);
        assert(sorted.insert(p, u) =~= rest.insert(p, u).push(sorted.last()));
    }
}

/// The wallet coins that can fund the transaction, in the order they are added: those
/// the transaction does not already spend, largest amount first, coins of equal amount in
/// the order they were given.
pub fn spendable_utxos<P>(tx: &FinalTransaction<P>, utxos: Vec<UTXO>) -> (r: Vec<UTXO>)
    requires
        forall|i: int| 0 <= i < utxos@.len() ==> (#[trigger] utxos@[i]).has_known_value(),
    ensures
        r@ == sort_by_amount_desc(unspent_by(tx.spec_inputs(), utxos@)),
{
    let ghost all = utxos@;
    let total = utxos.len();
    let ghost pred = |u: UTXO| !is_spent_by(tx.spec_inputs(), u.outpoint);
    let mut rest = utxos;
    let mut sorted: Vec<UTXO> = Vec::new();
    let mut k: usize = 0;
    assert(all.take(0).filter(pred) =~= Seq::<UTXO>::empty());
    assert(all.skip(0) =~= all);
    while rest.len() > 0
        invariant
            k <= all.len(),
            rest@ == all.skip(k as int),
            all.len() == k + rest@.len(),
            all.len() == total,
            forall|i: int| 0 <= i < all.len() ==> (#[trigger] all[i]).has_known_value(),
            pred == (|u: UTXO| !is_spent_by(tx.spec_inputs(), u.outpoint)),
            sorted@ == sort_by_amount_desc(all.take(k as int).filter(pred)),
            forall|i: int| 0 <= i < sorted@.len() ==> (#[trigger] sorted@[i]).has_known_value(),
        decreases rest@.len(),
    {
        let u = rest.remove(0);
        assert(u == all[k as int]);
        assert(all.skip(k + 1) =~= all.skip(k as int).remove(0));
        assert(all.take(k + 1).drop_last() =~= all.take(k as int));
        assert(all.take(k + 1).last() == u);
        proof {
            reveal_with_fuel(Seq::filter, 1);
        }
        if !spent_by(tx, &u.outpoint) {
            let amount = u.amount();
            let mut p: usize = sorted.len();
            while p > 0 && sorted[p - 1].amount() < amount
                invariant
                    p <= sorted@.len(),
                    amount == u.spec_amount(),
                    forall|i: int| 0 <= i < sorted@.len() ==> (#[trigger] sorted@[i]).has_known_value(),
                    forall|j: int| p <= j < sorted@.len() ==> (#[trigger] sorted@[j]).spec_amount() < amount,
                decreases p,
            {
                p = p - 1;
            }
            proof {
                lemma_insert_at_place(sorted@, u, p as int);
            }
            sorted.insert(p, u);
            let ghost before = all.take(k as int).filter(pred);
            assert(all.take(k + 1).filter(pred) == before.push(u));
            assert(before.push(u).drop_last() =~= before);
        } else {
            assert(all.take(k + 1).filter(pred) == all.take(k as int).filter(pred));
        }
        k = k + 1;
    }
    assert(all.take(k as int) =~= all);
    sorted
}

} // verus!
