//! Properties that relate several operations of the library.
use vstd::prelude::*;

use crate::bytes::is_zero32;
use crate::fee::{first_estimated_at_least, spec_fallback_targets, spec_select_fee_target};
use crate::constants::MIN_FEE;
use crate::error::FundingError;
use crate::funding::{
    amount_total, funding_run, insert_by_amount_desc, is_spent_by, sort_by_amount_desc,
    unspent_by,
};
use crate::issuance::{spec_asset_id_from_entropy, spec_reissuance_token_from_entropy};
use crate::network::{
    spec_network_from_str, SimplicityNetwork, LIQUID_POLICY_ASSET, LIQUID_TESTNET_POLICY_ASSET,
};
use crate::transaction::final_transaction::{
    as_signed, input_policy_value, input_secrets_of, inputs_policy_sum, is_issuance_details_of,
    outputs_policy_sum, FinalInput, FinalTransaction, IssuanceDetails,
};
use crate::transaction::partial_input::{IssuanceInput, PartialInput, TxOutSecrets, UTXO};
use crate::transaction::partial_output::PartialOutput;

verus! {

/// The policy-asset amount an output pays out.
pub open spec fn output_policy_value(o: PartialOutput, policy: [u8; 32]) -> nat {
    if o.asset == policy {
        o.amount as nat
    } else {
        0
    }
}

/// Removing the output that was just added gives it back and leaves the outputs as they
/// were before it was added.
pub proof fn law_remove_output_undoes_add_output(outputs: Seq<PartialOutput>, added: PartialOutput)
    ensures
        outputs.push(added)[outputs.len() as int] == added,
        outputs.push(added).remove(outputs.len() as int) == outputs,
{
    assert(outputs.push(added).remove(outputs.len() as int) =~= outputs);
}

/// Removing the input that was just added gives it back and leaves the inputs as they were
/// before it was added.
pub proof fn law_remove_input_undoes_add_input<P>(inputs: Seq<FinalInput<P>>, added: FinalInput<P>)
    ensures
        inputs.push(added)[inputs.len() as int] == added,
        inputs.push(added).remove(inputs.len() as int) == inputs,
{
    assert(inputs.push(added).remove(inputs.len() as int) =~= inputs);
}

/// The outputs of a concatenation pay out what both parts pay out.
pub proof fn lemma_outputs_policy_sum_concat(a: Seq<PartialOutput>, b: Seq<PartialOutput>, policy: [u8; 32])
    ensures
        outputs_policy_sum(a + b, policy) == outputs_policy_sum(a, policy) + outputs_policy_sum(b, policy),
    decreases b.len(),
{
    if b.len() == 0 {
        assert(a + b =~= a);
    } else {
        lemma_outputs_policy_sum_concat(a, b.drop_last(), policy);
        assert((a + b).drop_last() =~= a + b.drop_last());
        assert((a + b).last() == b.last());
    }
}

/// Adding an output lowers the transaction's policy-asset surplus by the policy-asset
/// amount it pays out, and adding an output of another asset leaves it unchanged.
pub proof fn law_fee_delta_after_add_output<P>(
    before: FinalTransaction<P>,
    after: FinalTransaction<P>,
    added: PartialOutput,
    policy: [u8; 32],
)
    requires
        after.spec_inputs() == before.spec_inputs(),
        after.spec_outputs() == before.spec_outputs().push(added),
        inputs_policy_sum(before.spec_inputs(), policy) <= i64::MAX,
        outputs_policy_sum(after.spec_outputs(), policy) <= i64::MAX,
    ensures
        after.spec_fee_delta(policy) == before.spec_fee_delta(policy) - output_policy_value(added, policy),
{
    assert(after.spec_outputs().drop_last() =~= before.spec_outputs());
}

/// Adding an input raises the transaction's policy-asset surplus by the policy-asset value
/// it brings in.
pub proof fn law_fee_delta_after_add_input<P>(
    before: FinalTransaction<P>,
    after: FinalTransaction<P>,
    added: FinalInput<P>,
    policy: [u8; 32],
)
    requires
        after.spec_outputs() == before.spec_outputs(),
        after.spec_inputs() == before.spec_inputs().push(added),
        inputs_policy_sum(after.spec_inputs(), policy) <= i64::MAX,
        outputs_policy_sum(before.spec_outputs(), policy) <= i64::MAX,
    ensures
        after.spec_fee_delta(policy) == before.spec_fee_delta(policy) + input_policy_value(
            added.partial_input,
            policy,
        ),
{
    assert(after.spec_inputs().drop_last() =~= before.spec_inputs());
}

/// Outputs of the policy asset that together take exactly the policy-asset surplus (the
/// change and the fee of a finalized transaction) leave the transaction balanced: value in
/// equals value out.
pub proof fn law_outputs_taking_surplus_balance<P>(
    before: FinalTransaction<P>,
    after: FinalTransaction<P>,
    taken: Seq<PartialOutput>,
    policy: [u8; 32],
)
    requires
        after.spec_inputs() == before.spec_inputs(),
        after.spec_outputs() == before.spec_outputs() + taken,
        forall|i: int| 0 <= i < taken.len() ==> (#[trigger] taken[i]).asset == policy,
        outputs_policy_sum(taken, policy) == before.spec_fee_delta(policy),
        inputs_policy_sum(before.spec_inputs(), policy) <= i64::MAX,
        outputs_policy_sum(before.spec_outputs(), policy) <= i64::MAX,
    ensures
        after.spec_fee_delta(policy) == 0,
        outputs_policy_sum(after.spec_outputs(), policy) == inputs_policy_sum(after.spec_inputs(), policy),
{
    lemma_outputs_policy_sum_concat(before.spec_outputs(), taken, policy);
}

/// A transaction whose surplus was taken by a change output and a fee output, as the
/// signer settles it when a change output fits, is balanced in the policy asset.
pub proof fn law_change_and_fee_outputs_balance<P>(
    before: FinalTransaction<P>,
    pushed: FinalTransaction<P>,
    settled: FinalTransaction<P>,
    policy: [u8; 32],
    change_amount: u64,
    fee: u64,
)
    requires
        pushed.spec_inputs() == before.spec_inputs(),
        pushed.spec_outputs().len() == before.spec_outputs().len() + 2,
        pushed.spec_outputs().take(before.spec_outputs().len() as int) == before.spec_outputs(),
        pushed.spec_outputs()[before.spec_outputs().len() as int].asset == policy,
        pushed.spec_outputs()[before.spec_outputs().len() + 1int].asset == policy,
        settled.spec_inputs() == pushed.spec_inputs(),
        ({
            let outs = pushed.spec_outputs();
            let n = outs.len() as int;
            settled.spec_outputs() == outs.update(
                n - 2,
                PartialOutput { amount: change_amount, ..outs[n - 2] },
            ).update(n - 1, PartialOutput { amount: fee, ..outs[n - 1] })
        }),
        change_amount + fee == before.spec_fee_delta(policy),
        inputs_policy_sum(before.spec_inputs(), policy) <= i64::MAX,
        outputs_policy_sum(before.spec_outputs(), policy) <= i64::MAX,
    ensures
        settled.spec_fee_delta(policy) == 0,
{
    let n = before.spec_outputs().len() as int;
    let outs = pushed.spec_outputs();
    let taken = seq![
        PartialOutput { amount: change_amount, ..outs[n] },
        PartialOutput { amount: fee, ..outs[n + 1] },
    ];
    assert(settled.spec_outputs() =~= before.spec_outputs() + taken);
    assert(taken.drop_last() =~= seq![taken[0]]);
    assert(seq![taken[0]].drop_last() =~= Seq::<PartialOutput>::empty());
    let first = taken[0];
    assert(first.asset == policy && first.amount == change_amount);
    assert(seq![first].last() == first);
    assert(outputs_policy_sum(Seq::<PartialOutput>::empty(), policy) == 0);
    assert(outputs_policy_sum(seq![first], policy) == change_amount);
    assert(taken.last().asset == policy && taken.last().amount == fee);
    assert(outputs_policy_sum(taken, policy) == change_amount + fee);
    law_outputs_taking_surplus_balance(before, settled, taken, policy);
}

/// A transaction whose change output was dropped and whose fee output took the whole
/// surplus, as the signer settles it when no change output fits, is balanced in the policy
/// asset.
pub proof fn law_fee_output_alone_balances<P>(
    before: FinalTransaction<P>,
    pushed: FinalTransaction<P>,
    dropped: FinalTransaction<P>,
    settled: FinalTransaction<P>,
    policy: [u8; 32],
)
    requires
        before.spec_fee_delta(policy) >= 0,
        pushed.spec_inputs() == before.spec_inputs(),
        pushed.spec_outputs().len() == before.spec_outputs().len() + 2,
        pushed.spec_outputs().take(before.spec_outputs().len() as int) == before.spec_outputs(),
        pushed.spec_outputs()[before.spec_outputs().len() + 1int].asset == policy,
        dropped.spec_inputs() == pushed.spec_inputs(),
        dropped.spec_outputs() == pushed.spec_outputs().remove(before.spec_outputs().len() as int),
        settled.spec_inputs() == dropped.spec_inputs(),
        ({
            let outs = dropped.spec_outputs();
            let n = outs.len() as int;
            settled.spec_outputs() == outs.update(
                n - 1,
                PartialOutput { amount: before.spec_fee_delta(policy) as u64, ..outs[n - 1] },
            )
        }),
        inputs_policy_sum(before.spec_inputs(), policy) <= i64::MAX,
        outputs_policy_sum(before.spec_outputs(), policy) <= i64::MAX,
    ensures
        settled.spec_fee_delta(policy) == 0,
{
    let n = before.spec_outputs().len() as int;
    let outs = pushed.spec_outputs();
    let taken = seq![PartialOutput { amount: before.spec_fee_delta(policy) as u64, ..outs[n + 1] }];
    assert(settled.spec_outputs() =~= before.spec_outputs() + taken);
    assert(taken.drop_last() =~= Seq::<PartialOutput>::empty());
    let delta = before.spec_fee_delta(policy);
    assert(0 <= delta <= i64::MAX);
    assert(taken[0].asset == policy && taken[0].amount == delta);
    assert(taken.last() == taken[0]);
    assert(outputs_policy_sum(Seq::<PartialOutput>::empty(), policy) == 0);
    assert(outputs_policy_sum(taken, policy) == before.spec_fee_delta(policy));
    law_outputs_taking_surplus_balance(before, settled, taken, policy);
}

/// Inserting a coin keeps the coins as a multiset and adds the one coin.
proof fn lemma_insert_by_amount_desc_multiset(sorted: Seq<UTXO>, u: UTXO)
    ensures
        insert_by_amount_desc(sorted, u).to_multiset() == sorted.to_multiset().insert(u),
    decreases sorted.len(),
{
    broadcast use vstd::seq_lib::group_to_multiset_ensures;

    if sorted.len() == 0 {
        assert(seq![u] =~= Seq::<UTXO>::empty().push(u));
    } else if sorted.last().spec_amount() >= u.spec_amount() {
    } else {
        let rest = sorted.drop_last();
        lemma_insert_by_amount_desc_multiset(rest, u);
        assert(sorted =~= rest.push(sorted.last()));
        assert(rest.to_multiset().insert(u).insert(sorted.last()) =~= rest.to_multiset().insert(
            sorted.last(),
        ).insert(u));
    }
}

/// Inserting a coin into coins sorted largest first keeps them sorted.
proof fn lemma_insert_by_amount_desc_sorted(sorted: Seq<UTXO>, u: UTXO)
    requires
        forall|i: int, j: int|
            0 <= i < j < sorted.len() ==> (#[trigger] sorted[i]).spec_amount() >= (#[trigger] sorted[j]).spec_amount(),
    ensures
        insert_by_amount_desc(sorted, u).len() == sorted.len() + 1,
        forall|i: int, j: int|
            0 <= i < j < insert_by_amount_desc(sorted, u).len() ==> (#[trigger] insert_by_amount_desc(
                sorted,
                u,
            )[i]).spec_amount() >= (#[trigger] insert_by_amount_desc(sorted, u)[j]).spec_amount(),
        forall|i: int|
            0 <= i < insert_by_amount_desc(sorted, u).len() ==> #[trigger] insert_by_amount_desc(
                sorted,
                u,
            )[i] == u || sorted.contains(insert_by_amount_desc(sorted, u)[i]),
    decreases sorted.len(),
{
    if sorted.len() == 0 {
    } else if sorted.last().spec_amount() >= u.spec_amount() {
        let r = sorted.push(u);
        assert forall|i: int| 0 <= i < r.len() implies #[trigger] r[i] == u || sorted.contains(r[i]) by {
            if i < sorted.len() {
                assert(r[i] == sorted[i]);
            }
        }
    } else {
        let rest = sorted.drop_last();
        let last = sorted.last();
        lemma_insert_by_amount_desc_sorted(rest, u);
        let inner = insert_by_amount_desc(rest, u);
        let r = inner.push(last);
        assert forall|i: int| 0 <= i < inner.len() implies (#[trigger] inner[i]).spec_amount() >= last.spec_amount() by {
            if inner[i] == u {
            } else {
                assert(rest.contains(inner[i]));
                let k = choose|k: int| 0 <= k < rest.len() && rest[k] == inner[i];
                assert(sorted[k] == rest[k]);
                assert(sorted[k].spec_amount() >= sorted[sorted.len() - 1].spec_amount());
            }
        }
        assert forall|i: int, j: int| 0 <= i < j < r.len() implies (#[trigger] r[i]).spec_amount()
            >= (#[trigger] r[j]).spec_amount() by {
            if j == r.len() - 1 {
                assert(r[i] == inner[i]);
            } else {
                assert(r[i] == inner[i]);
                assert(r[j] == inner[j]);
            }
        }
        assert forall|i: int| 0 <= i < r.len() implies #[trigger] r[i] == u || sorted.contains(r[i]) by {
            if i == r.len() - 1 {
                assert(sorted[sorted.len() - 1] == last);
            } else {
                assert(r[i] == inner[i]);
                if inner[i] != u {
                    let k = choose|k: int| 0 <= k < rest.len() && rest[k] == inner[i];
                    assert(sorted[k] == rest[k]);
                }
            }
        }
    }
}

/// Coins ordered for funding are the same coins, largest amount first.
pub proof fn law_funding_order_is_sorted_permutation(utxos: Seq<UTXO>)
    ensures
        sort_by_amount_desc(utxos).to_multiset() == utxos.to_multiset(),
        forall|i: int, j: int|
            0 <= i < j < sort_by_amount_desc(utxos).len() ==> (#[trigger] sort_by_amount_desc(
                utxos,
            )[i]).spec_amount() >= (#[trigger] sort_by_amount_desc(utxos)[j]).spec_amount(),
    decreases utxos.len(),
{
    broadcast use vstd::seq_lib::group_to_multiset_ensures;

    if utxos.len() == 0 {
    } else {
        let rest = utxos.drop_last();
        law_funding_order_is_sorted_permutation(rest);
        lemma_insert_by_amount_desc_multiset(sort_by_amount_desc(rest), utxos.last());
        lemma_insert_by_amount_desc_sorted(sort_by_amount_desc(rest), utxos.last());
        assert(utxos =~= rest.push(utxos.last()));
    }
}

/// No coin offered for funding is one the transaction already spends, and every coin it
/// does not spend is offered, as many times as it was given.
pub proof fn law_funding_candidates_are_unspent<P>(inputs: Seq<FinalInput<P>>, utxos: Seq<UTXO>)
    ensures
        forall|i: int|
            0 <= i < sort_by_amount_desc(unspent_by(inputs, utxos)).len() ==> !is_spent_by(
                inputs,
                (#[trigger] sort_by_amount_desc(unspent_by(inputs, utxos))[i]).outpoint,
            ),
        sort_by_amount_desc(unspent_by(inputs, utxos)).to_multiset() == unspent_by(
            inputs,
            utxos,
        ).to_multiset(),
{
    broadcast use vstd::seq_lib::group_to_multiset_ensures;

    let pred = |u: UTXO| !is_spent_by(inputs, u.outpoint);
    let filtered = unspent_by(inputs, utxos);
    let sorted = sort_by_amount_desc(filtered);
    law_funding_order_is_sorted_permutation(filtered);
    utxos.filter_lemma(pred);
    assert forall|i: int| 0 <= i < sorted.len() implies !is_spent_by(inputs, (#[trigger] sorted[i]).outpoint) by {
        assert(sorted.contains(sorted[i]));
        assert(sorted.to_multiset().count(sorted[i]) > 0);
        assert(filtered.contains(sorted[i]));
        let k = choose|k: int| 0 <= k < filtered.len() && filtered[k] == sorted[i];
        assert(pred(filtered[k]));
    }
}

/// The target found in the list is one that has an estimate and is at least `min`.
proof fn lemma_first_estimated_at_least(targets: Seq<u32>, estimated: Seq<u32>, min: u32)
    ensures
        first_estimated_at_least(targets, estimated, min) matches Some(t) ==> estimated.contains(t)
            && t >= min && targets.contains(t),
        first_estimated_at_least(targets, estimated, min) is None ==> forall|i: int|
            0 <= i < targets.len() && targets[i] >= min ==> !estimated.contains(#[trigger] targets[i]),
    decreases targets.len(),
{
    if targets.len() > 0 {
        lemma_first_estimated_at_least(targets.drop_first(), estimated, min);
        if first_estimated_at_least(targets, estimated, min) is Some {
            let t = first_estimated_at_least(targets, estimated, min).unwrap();
            if !(targets[0] >= min && estimated.contains(targets[0])) {
                let k = choose|k: int| 0 <= k < targets.drop_first().len() && targets.drop_first()[k] == t;
                assert(targets[k + 1] == t);
            }
        }
        assert forall|i: int| 0 < i < targets.len() implies targets[i] == targets.drop_first()[i - 1] by {}
    }
}

/// The fee-rate lookup only ever answers with a target that has an estimate; it answers
/// the requested target whenever that has one, and it answers at all whenever the
/// requested target or any fallback target has an estimate.
pub proof fn law_fee_target_has_estimate(target_blocks: u32, estimated: Seq<u32>)
    ensures
        spec_select_fee_target(target_blocks, estimated) matches Some(t) ==> estimated.contains(t),
        estimated.contains(target_blocks) ==> spec_select_fee_target(target_blocks, estimated)
            == Some(target_blocks),
        (estimated.contains(target_blocks) || exists|i: int|
            0 <= i < spec_fallback_targets().len() && estimated.contains(
                #[trigger] spec_fallback_targets()[i],
            )) ==> spec_select_fee_target(target_blocks, estimated) is Some,
{
    lemma_first_estimated_at_least(spec_fallback_targets(), estimated, target_blocks);
    lemma_first_estimated_at_least(spec_fallback_targets(), estimated, 0);
}

/// When the surplus and every candidate coin together stay below the minimum fee, funding
/// that starts from the minimum fee adds every coin and then fails, naming the minimum fee,
/// whatever the estimates would have said.
pub proof fn law_funding_fails_below_minimum_fee(
    delta: int,
    amounts: Seq<u64>,
    estimate: spec_fn(nat, int) -> Option<u64>,
)
    requires
        delta + amount_total(amounts) < MIN_FEE,
    ensures
        funding_run(MIN_FEE, delta, amounts, estimate) == Err::<int, FundingError>(
            FundingError::NotEnoughFunds(MIN_FEE),
        ),
    decreases amounts.len(),
{
    lemma_amount_total_nonnegative(amounts);
    if amounts.len() > 0 {
        lemma_amount_total_nonnegative(amounts.drop_first());
        law_funding_fails_below_minimum_fee(delta + amounts[0], amounts.drop_first(), estimate);
    }
}

/// A total of amounts is never negative.
proof fn lemma_amount_total_nonnegative(amounts: Seq<u64>)
    ensures
        amount_total(amounts) >= 0,
    decreases amounts.len(),
{
    if amounts.len() > 0 {
        lemma_amount_total_nonnegative(amounts.drop_first());
    }
}

/// Funding that ends with the fee covered has added the first coins of the candidates, in
/// their order and none skipped: the surplus it ends with is the starting one plus the
/// amounts of some prefix of the candidates.
pub proof fn law_funding_adds_candidates_in_order(
    curr_fee: u64,
    delta: int,
    amounts: Seq<u64>,
    estimate: spec_fn(nat, int) -> Option<u64>,
)
    ensures
        funding_run(curr_fee, delta, amounts, estimate) matches Ok(d) ==> exists|k: int|
            0 <= k <= amounts.len() && d == delta + amount_total(#[trigger] amounts.take(k)),
    decreases amounts.len(),
{
    assert(amounts.take(0) =~= Seq::<u64>::empty());
    assert(amount_total(amounts.take(0)) == 0);
    if amounts.len() > 0 {
        let rest = amounts.drop_first();
        assert forall|k: int| 0 <= k <= rest.len() implies amount_total(
            #[trigger] amounts.take(k + 1),
        ) == amounts[0] + amount_total(rest.take(k)) by {
            assert(amounts.take(k + 1).drop_first() =~= rest.take(k));
        }
        law_funding_adds_candidates_in_order(curr_fee, delta + amounts[0], rest, estimate);
        match estimate(amounts.len(), delta) {
            Some(required) => {
                law_funding_adds_candidates_in_order(required, delta + amounts[0], rest, estimate);
            },
            None => {},
        }
        match funding_run(curr_fee, delta, amounts, estimate) {
            Ok(d) => {
                if d != delta {
                    let k = choose|k: int| 0 <= k <= rest.len() && d == delta + amounts[0]
                        + amount_total(#[trigger] rest.take(k));
                    assert(amount_total(amounts.take(k + 1)) == amounts[0] + amount_total(
                        rest.take(k),
                    ));
                }
            },
            Err(_) => {},
        }
    }
}

/// A wallet coin is offered for funding exactly when no input of the transaction spends
/// its outpoint, the same transaction id and the same output index: a coin that only shares
/// the transaction id of a spent output is still offered.
pub proof fn law_funding_leaves_out_exactly_the_spent_outpoints<P>(
    inputs: Seq<FinalInput<P>>,
    utxos: Seq<UTXO>,
    u: UTXO,
)
    requires
        utxos.contains(u),
    ensures
        sort_by_amount_desc(unspent_by(inputs, utxos)).contains(u) <==> !exists|i: int|
            0 <= i < inputs.len() && (#[trigger] inputs[i]).partial_input.witness_txid
                == u.outpoint.txid && inputs[i].partial_input.witness_output_index == u.outpoint.vout,
{
    broadcast use vstd::seq_lib::group_to_multiset_ensures;

    let pred = |c: UTXO| !is_spent_by(inputs, c.outpoint);
    let filtered = unspent_by(inputs, utxos);
    law_funding_candidates_are_unspent(inputs, utxos);
    utxos.filter_lemma(pred);
    let k = choose|k: int| 0 <= k < utxos.len() && utxos[k] == u;
    assert(utxos[k] == u);
    if filtered.contains(u) {
        let j = choose|j: int| 0 <= j < filtered.len() && filtered[j] == u;
        assert(pred(filtered[j]));
    }
    assert(filtered.contains(u) <==> !is_spent_by(inputs, u.outpoint));
    assert(sort_by_amount_desc(filtered).to_multiset().count(u) == filtered.to_multiset().count(u));
    assert forall|i: int| 0 <= i < inputs.len() implies ((#[trigger] inputs[i]).partial_input.spec_outpoint()
        == u.outpoint) == (inputs[i].partial_input.witness_txid == u.outpoint.txid
        && inputs[i].partial_input.witness_output_index == u.outpoint.vout) by {}
}

/// A reissuance of the entropy an issuance reported reports the same asset and the same
/// reissuance token: the token of any issuance or reissuance is the explicit
/// (non-confidential) token of its entropy, so the wallet holds the token it spends.
pub proof fn law_reissuance_reports_the_issued_token(
    issued: IssuanceDetails,
    issuing_input: PartialInput,
    issuance: IssuanceInput,
    reissued: IssuanceDetails,
    reissuing_input: PartialInput,
    reissuance_amount: u64,
)
    requires
        issuance is Issuance,
        is_issuance_details_of(issued, issuing_input, issuance),
        is_issuance_details_of(
            reissued,
            reissuing_input,
            IssuanceInput::Reissuance {
                issuance_amount: reissuance_amount,
                asset_entropy: issued.asset_entropy,
            },
        ),
    ensures
        reissued.asset_entropy == issued.asset_entropy,
        reissued.asset_id == issued.asset_id,
        reissued.inflation_asset_id == issued.inflation_asset_id,
        issued.inflation_asset_id@ == spec_reissuance_token_from_entropy(issued.asset_entropy@, false),
        reissued.inflation_asset_id@ == spec_reissuance_token_from_entropy(
            reissued.asset_entropy@,
            false,
        ),
{
    assert(reissued.asset_entropy@ =~= issued.asset_entropy@);
    assert(reissued.asset_id@ =~= issued.asset_id@);
    assert(reissued.inflation_asset_id@ =~= issued.inflation_asset_id@);
}

/// Whatever kind of issuance an input carries, the details report the explicit reissuance
/// token and the asset id of the entropy they report.
pub proof fn law_issuance_details_use_the_explicit_token(
    details: IssuanceDetails,
    partial_input: PartialInput,
    issuance: IssuanceInput,
)
    requires
        is_issuance_details_of(details, partial_input, issuance),
    ensures
        details.inflation_asset_id@ == spec_reissuance_token_from_entropy(details.asset_entropy@, false),
        details.asset_id@ == spec_asset_id_from_entropy(details.asset_entropy@),
        issuance matches IssuanceInput::Reissuance { asset_entropy, .. } ==> details.asset_entropy
            == asset_entropy,
{
    if let IssuanceInput::Reissuance { asset_entropy, .. } = issuance {
        assert(details.asset_entropy@ =~= asset_entropy@);
    }
}

/// An unblinded input always has a known policy-asset value, its unblinded value when its
/// asset is the policy asset and nothing otherwise; so the surplus of a transaction whose
/// inputs were all unblinded can be computed whenever the sums fit in 64 bits.
pub proof fn law_unblinded_inputs_are_accountable<P>(tx: FinalTransaction<P>, policy: [u8; 32])
    requires
        forall|i: int|
            0 <= i < tx.spec_inputs().len() ==> (#[trigger] tx.spec_inputs()[i]).partial_input.secrets
                is Some,
        inputs_policy_sum(tx.spec_inputs(), policy) <= u64::MAX,
        outputs_policy_sum(tx.spec_outputs(), policy) <= u64::MAX,
        i64::MIN <= as_signed(inputs_policy_sum(tx.spec_inputs(), policy)) - as_signed(
            outputs_policy_sum(tx.spec_outputs(), policy),
        ) <= i64::MAX,
    ensures
        tx.fee_delta_defined(policy),
        forall|i: int|
            0 <= i < tx.spec_inputs().len() ==> input_policy_value(
                (#[trigger] tx.spec_inputs()[i]).partial_input,
                policy,
            ) == (if tx.spec_inputs()[i].partial_input.secrets.unwrap().spec_asset() == policy {
                tx.spec_inputs()[i].partial_input.secrets.unwrap().spec_value() as nat
            } else {
                0
            }),
{
}

/// The secrets the outputs are blinded against are, for an unblinded input, exactly its own
/// secrets, blinding factors included; for an explicit input, its asset and amount with zero
/// blinding factors.
pub proof fn law_extracted_secrets_are_the_inputs_own(input: PartialInput)
    ensures
        input.secrets matches Some(s) ==> input_secrets_of(input) == s,
        input.secrets matches Some(s) ==> input_secrets_of(input).spec_asset_bf() == s.spec_asset_bf()
            && input_secrets_of(input).spec_value_bf() == s.spec_value_bf(),
        input.secrets is None && input.asset is Some && input.amount is Some ==> {
            &&& input_secrets_of(input).spec_asset() == input.asset.unwrap()
            &&& input_secrets_of(input).spec_value() == input.amount.unwrap()
            &&& is_zero32(input_secrets_of(input).spec_asset_bf())
            &&& is_zero32(input_secrets_of(input).spec_value_bf())
        },
{
    if input.secrets is None {
        TxOutSecrets::lemma_explicit_fields(input.asset.unwrap(), input.amount.unwrap());
    }
}

/// The policy asset tells the public networks apart: two of them pay fees in the same asset
/// only when they are the same network, and only Liquid mainnet pays in L-BTC.
pub proof fn law_public_networks_have_distinct_policy_assets(a: SimplicityNetwork, b: SimplicityNetwork)
    requires
        !(a is ElementsRegtest),
        !(b is ElementsRegtest),
    ensures
        (a.spec_policy_asset() == b.spec_policy_asset()) <==> a == b,
        (a.spec_policy_asset() == LIQUID_POLICY_ASSET) <==> a is Liquid,
        a is LiquidTestnet ==> a.spec_policy_asset() == LIQUID_TESTNET_POLICY_ASSET,
{
    assert(LIQUID_POLICY_ASSET[0] == 0x6d);
    assert(LIQUID_TESTNET_POLICY_ASSET[0] == 0x49);
    assert(LIQUID_POLICY_ASSET != LIQUID_TESTNET_POLICY_ASSET);
}

/// Of the public networks a name resolves to, only the one named `liquid` pays fees in
/// L-BTC; a regtest chain pays in the asset it was set up with.
pub proof fn law_only_liquid_is_named_for_l_btc(name: Seq<char>, policy_asset: [u8; 32])
    ensures
        (match spec_network_from_str(name) {
            Some(n) => !(n is ElementsRegtest) ==> ((n.spec_policy_asset() == LIQUID_POLICY_ASSET)
                <==> name == "liquid"@),
            None => true,
        }),
        (SimplicityNetwork::ElementsRegtest { policy_asset }).spec_policy_asset() == policy_asset,
{
    assert(LIQUID_POLICY_ASSET[0] == 0x6d);
    assert(LIQUID_TESTNET_POLICY_ASSET[0] == 0x49);
    assert(LIQUID_POLICY_ASSET != LIQUID_TESTNET_POLICY_ASSET);
}

} // verus!
