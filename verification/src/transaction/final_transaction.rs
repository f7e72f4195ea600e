use vstd::prelude::*;

use std::collections::HashMap;

use crate::bytes::bytes32_eq;
use crate::constants::PLACEHOLDER_FEE;
use crate::issuance::{
    asset_id_from_entropy, generate_asset_entropy, reissuance_token_from_entropy,
    spec_asset_id_from_entropy, spec_generate_asset_entropy, spec_reissuance_token_from_entropy,
};
use crate::network::SimplicityNetwork;

use super::change_output::ChangeOutput;
use super::partial_input::{IssuanceInput, PartialInput, RequiredSignature, TxOutSecrets};
use super::partial_output::PartialOutput;

verus! {

broadcast use vstd::std_specs::hash::group_hash_axioms;

/// The asset ids an issuance input creates, and the entropy they derive from.
#[derive(Debug, Clone, Copy, PartialEq, Eq)]
pub struct IssuanceDetails {
    /// The issued asset.
    pub asset_id: [u8; 32],
    /// The reissuance (inflation) token of the issued asset.
    pub inflation_asset_id: [u8; 32],
    /// The entropy both ids derive from.
    pub asset_entropy: [u8; 32],
}

/// The entropy an issuance carried by `partial_input` derives its asset ids from: for a new
/// issuance, the entropy of the spent outpoint and the contract hash; for a reissuance,
/// the entropy the reissuance names.
pub open spec fn spec_issuance_entropy(partial_input: PartialInput, issuance: IssuanceInput) -> Seq<u8> {
    match issuance {
        IssuanceInput::Issuance { asset_entropy, .. } => spec_generate_asset_entropy(
            partial_input.witness_txid@,
            partial_input.witness_output_index,
            asset_entropy@,
        ),
        IssuanceInput::Reissuance { asset_entropy, .. } => asset_entropy@,
    }
}

/// Whether `details` are those of the issuance `issuance` carried by `partial_input`: the
/// entropy, the asset id derived from it and the explicit reissuance token derived from it.
pub open spec fn is_issuance_details_of(
    details: IssuanceDetails,
    partial_input: PartialInput,
    issuance: IssuanceInput,
) -> bool {
    let entropy = spec_issuance_entropy(partial_input, issuance);
    &&& details.asset_entropy@ == entropy
    &&& details.asset_id@ == spec_asset_id_from_entropy(entropy)
    &&& details.inflation_asset_id@ == spec_reissuance_token_from_entropy(entropy, false)
}

/// An input of a transaction under construction, with what the signer needs to finalize it.
///
/// `P` is the Simplicity program (with its witness) that locks the spent output, when there
/// is one; the transaction logic only asks whether it is there.
#[derive(Clone)]
pub struct FinalInput<P> {
    /// Holds the base input data required for the operation.
    pub partial_input: PartialInput,
    /// Holds program inputs, which are used for program witness finalization.
    pub program_input: Option<P>,
    /// Contains optional issuance-related information.
    pub issuance_input: Option<IssuanceInput>,
    /// Required signature for finalizing the transaction.
    pub required_sig: RequiredSignature,
}

impl<P> FinalInput<P> {
    /// Creates an input with the given base data and signature requirement, carrying no
    /// program and no issuance.
    pub fn new(partial_input: PartialInput, required_sig: RequiredSignature) -> (r: Self)
        ensures
            r.partial_input == partial_input,
            r.program_input is None,
            r.issuance_input is None,
            r.required_sig == required_sig,
    {
        FinalInput { partial_input, required_sig, program_input: None, issuance_input: None }
    }

    /// The same input, now spending an output locked by `program_input`.
    pub fn with_program(self, program_input: P) -> (r: Self)
        ensures
            r.partial_input == self.partial_input,
            r.program_input == Some(program_input),
            r.issuance_input == self.issuance_input,
            r.required_sig == self.required_sig,
    {
        FinalInput {
            partial_input: self.partial_input,
            program_input: Some(program_input),
            issuance_input: self.issuance_input,
            required_sig: self.required_sig,
        }
    }

    /// The same input, now also carrying `issuance_input`.
    pub fn with_issuance(self, issuance_input: IssuanceInput) -> (r: Self)
        ensures
            r.partial_input == self.partial_input,
            r.program_input == self.program_input,
            r.issuance_input == Some(issuance_input),
            r.required_sig == self.required_sig,
    {
        FinalInput {
            partial_input: self.partial_input,
            program_input: self.program_input,
            issuance_input: Some(issuance_input),
            required_sig: self.required_sig,
        }
    }

    /// The asset ids this input's issuance creates, when it carries one.
    pub fn get_issuance_details(&self) -> (r: Option<IssuanceDetails>)
        ensures
            match self.issuance_input {
                None => r is None,
                Some(issuance) => r matches Some(d) && is_issuance_details_of(
                    d,
                    self.partial_input,
                    issuance,
                ),
            },
    {
        match &self.issuance_input {
            Some(issuance_input) => {
                let asset_entropy = match issuance_input {
                    IssuanceInput::Issuance { asset_entropy, .. } => generate_asset_entropy(
                        self.partial_input.witness_txid,
                        self.partial_input.witness_output_index,
                        *asset_entropy,
                    ),
                    IssuanceInput::Reissuance { asset_entropy, .. } => *asset_entropy,
                };
                let asset_id = asset_id_from_entropy(asset_entropy);
                let inflation_asset_id = reissuance_token_from_entropy(asset_entropy, false);
                Some(IssuanceDetails { asset_id, inflation_asset_id, asset_entropy })
            },
            None => None,
        }
    }

    /// The issuance blinding nonce this input's PSET entry carries: the asset blinding
    /// factor of the spent (confidential) output for a reissuance, none otherwise.
    pub fn issuance_blinding_nonce(&self) -> (r: Option<[u8; 32]>)
        requires
            self.issuance_input matches Some(IssuanceInput::Reissuance { .. })
                ==> self.partial_input.secrets is Some,
        ensures
            r == (if self.issuance_input matches Some(IssuanceInput::Reissuance { .. }) {
                Some(self.partial_input.secrets.unwrap().spec_asset_bf())
            } else {
                None::<[u8; 32]>
            }),
    {
        match &self.issuance_input {
            Some(IssuanceInput::Reissuance { .. }) => {
                let secrets = self.partial_input.secrets.unwrap();
                Some(secrets.asset_bf())
            },
            _ => None,
        }
    }
}

/// Whether the signer can read the policy-asset value of an input: it was unblinded, or it
/// is explicit with a known asset, and a known amount when that asset is the policy asset.
pub open spec fn input_value_known(input: PartialInput, policy: [u8; 32]) -> bool {
    input.secrets is Some || (input.asset is Some && (input.asset.unwrap() == policy
        ==> input.amount is Some))
}

/// How much of the policy asset an input brings in.
pub open spec fn input_policy_value(input: PartialInput, policy: [u8; 32]) -> nat {
    match input.secrets {
        Some(s) => if s.spec_asset() == policy {
            s.spec_value() as nat
        } else {
            0
        },
        None => if input.asset == Some(policy) {
            input.amount.unwrap() as nat
        } else {
            0
        },
    }
}

/// How much of the policy asset a sequence of inputs brings in.
pub open spec fn inputs_policy_sum<P>(inputs: Seq<FinalInput<P>>, policy: [u8; 32]) -> nat
    decreases inputs.len(),
{
    if inputs.len() == 0 {
        0
    } else {
        inputs_policy_sum(inputs.drop_last(), policy) + input_policy_value(
            inputs.last().partial_input,
            policy,
        )
    }
}

/// How much of the policy asset a sequence of outputs pays out.
pub open spec fn outputs_policy_sum(outputs: Seq<PartialOutput>, policy: [u8; 32]) -> nat
    decreases outputs.len(),
{
    if outputs.len() == 0 {
        0
    } else {
        outputs_policy_sum(outputs.drop_last(), policy) + (if outputs.last().asset == policy {
            outputs.last().amount as nat
        } else {
            0
        })
    }
}

/// A 64-bit unsigned value read as a two's complement signed one.
pub open spec fn as_signed(x: nat) -> int {
    if x <= i64::MAX {
        x as int
    } else {
        x - 0x1_0000_0000_0000_0000
    }
}

/// The secrets the signer blinds with for an input: those of the unblinded output, or the
/// explicit asset and amount with zero blinding factors.
pub open spec fn input_secrets_of(input: PartialInput) -> TxOutSecrets {
    match input.secrets {
        Some(s) => s,
        None => TxOutSecrets::spec_explicit(input.asset.unwrap(), input.amount.unwrap()),
    }
}

/// A final (but not yet signed) transaction: its inputs, its outputs and where its change goes.
#[derive(Clone)]
pub struct FinalTransaction<P> {
    inputs: Vec<FinalInput<P>>,
    outputs: Vec<PartialOutput>,
    change: Option<ChangeOutput>,
}

impl<P> FinalTransaction<P> {
    /// The inputs, in order.
    pub closed spec fn spec_inputs(&self) -> Seq<FinalInput<P>> {
        self.inputs@
    }

    /// The outputs, in order.
    pub closed spec fn spec_outputs(&self) -> Seq<PartialOutput> {
        self.outputs@
    }

    /// Where the change goes, when the caller said.
    pub closed spec fn spec_change(&self) -> Option<ChangeOutput> {
        self.change
    }

    /// Whether the policy-asset surplus of the transaction can be computed: every input's
    /// value is known, and both sums fit in 64 bits, and so does their signed difference.
    pub open spec fn fee_delta_defined(&self, policy: [u8; 32]) -> bool {
        &&& forall|i: int|
            0 <= i < self.spec_inputs().len() ==> input_value_known(
                #[trigger] self.spec_inputs()[i].partial_input,
                policy,
            )
        &&& inputs_policy_sum(self.spec_inputs(), policy) <= u64::MAX
        &&& outputs_policy_sum(self.spec_outputs(), policy) <= u64::MAX
        &&& i64::MIN <= as_signed(inputs_policy_sum(self.spec_inputs(), policy)) - as_signed(
            outputs_policy_sum(self.spec_outputs(), policy),
        ) <= i64::MAX
    }

    /// The policy-asset surplus of the inputs over the outputs, each sum read as a signed
    /// 64-bit value.
    pub open spec fn spec_fee_delta(&self, policy: [u8; 32]) -> int {
        as_signed(inputs_policy_sum(self.spec_inputs(), policy)) - as_signed(
            outputs_policy_sum(self.spec_outputs(), policy),
        )
    }

    /// Whether every input's secrets can be given: it was unblinded, or its asset and amount
    /// are explicit.
    pub open spec fn inputs_have_secrets(&self) -> bool {
        forall|i: int|
            0 <= i < self.spec_inputs().len() ==> {
                let input = #[trigger] self.spec_inputs()[i].partial_input;
                input.secrets is Some || (input.asset is Some && input.amount is Some)
            }
    }

    /// Creates an empty transaction with no change target.
    pub fn new() -> (r: Self)
        ensures
            r.spec_inputs() == Seq::<FinalInput<P>>::empty(),
            r.spec_outputs() == Seq::<PartialOutput>::empty(),
            r.spec_change() is None,
    {
        FinalTransaction { inputs: Vec::new(), outputs: Vec::new(), change: None }
    }

    /// Sets where this transaction's change should go.
    pub fn add_change(&mut self, change: ChangeOutput)
        ensures
            final(self).spec_change() == Some(change),
            final(self).spec_inputs() == old(self).spec_inputs(),
            final(self).spec_outputs() == old(self).spec_outputs(),
    {
        self.change = Some(change);
    }

    /// Drops the change target, returning to the signer's own address.
    pub fn remove_change(&mut self)
        ensures
            final(self).spec_change() is None,
            final(self).spec_inputs() == old(self).spec_inputs(),
            final(self).spec_outputs() == old(self).spec_outputs(),
    {
        self.change = None;
    }

    /// Adds a plain input, signed with ECDSA or not at all.
    pub fn add_input(&mut self, partial_input: PartialInput, required_sig: RequiredSignature)
        requires
            !(required_sig is Witness),
            !(required_sig is WitnessWithPath),
        ensures
            final(self).spec_inputs().len() == old(self).spec_inputs().len() + 1,
            final(self).spec_inputs().drop_last() == old(self).spec_inputs(),
            final(self).spec_inputs().last().partial_input == partial_input,
            final(self).spec_inputs().last().program_input is None,
            final(self).spec_inputs().last().issuance_input is None,
            final(self).spec_inputs().last().required_sig == required_sig,
            final(self).spec_outputs() == old(self).spec_outputs(),
            final(self).spec_change() == old(self).spec_change(),
    {
        let _ = self.push_new_input(FinalInput::new(partial_input, required_sig));
    }

    /// Adds an input spending an output locked by a Simplicity program, which a Schnorr
    /// signature in its witness may authorize or nothing at all.
    pub fn add_program_input(
        &mut self,
        partial_input: PartialInput,
        program_input: P,
        required_sig: RequiredSignature,
    )
        requires
            !(required_sig is NativeEcdsa),
        ensures
            final(self).spec_inputs().len() == old(self).spec_inputs().len() + 1,
            final(self).spec_inputs().drop_last() == old(self).spec_inputs(),
            final(self).spec_inputs().last().partial_input == partial_input,
            final(self).spec_inputs().last().program_input == Some(program_input),
            final(self).spec_inputs().last().issuance_input is None,
            final(self).spec_inputs().last().required_sig == required_sig,
            final(self).spec_outputs() == old(self).spec_outputs(),
            final(self).spec_change() == old(self).spec_change(),
    {
        let _ = self.push_new_input(
            FinalInput::new(partial_input, required_sig).with_program(program_input),
        );
    }

    /// Adds a plain input carrying an issuance (or reissuance), and returns the asset ids
    /// the issuance creates.
    pub fn add_issuance_input(
        &mut self,
        partial_input: PartialInput,
        issuance_input: IssuanceInput,
        required_sig: RequiredSignature,
    ) -> (r: IssuanceDetails)
        requires
            !(required_sig is Witness),
            !(required_sig is WitnessWithPath),
        ensures
            final(self).spec_inputs().len() == old(self).spec_inputs().len() + 1,
            final(self).spec_inputs().drop_last() == old(self).spec_inputs(),
            final(self).spec_inputs().last().partial_input == partial_input,
            final(self).spec_inputs().last().program_input is None,
            final(self).spec_inputs().last().issuance_input == Some(issuance_input),
            final(self).spec_inputs().last().required_sig == required_sig,
            final(self).spec_outputs() == old(self).spec_outputs(),
            final(self).spec_change() == old(self).spec_change(),
            is_issuance_details_of(r, partial_input, issuance_input),
    {
        let details = self.push_new_input(
            FinalInput::new(partial_input, required_sig).with_issuance(issuance_input),
        );
        details.unwrap()
    }

    /// Adds an input spending an output locked by a Simplicity program and carrying an
    /// issuance, and returns the asset ids the issuance creates.
    pub fn add_program_issuance_input(
        &mut self,
        partial_input: PartialInput,
        program_input: P,
        issuance_input: IssuanceInput,
        required_sig: RequiredSignature,
    ) -> (r: IssuanceDetails)
        requires
            !(required_sig is NativeEcdsa),
        ensures
            final(self).spec_inputs().len() == old(self).spec_inputs().len() + 1,
            final(self).spec_inputs().drop_last() == old(self).spec_inputs(),
            final(self).spec_inputs().last().partial_input == partial_input,
            final(self).spec_inputs().last().program_input == Some(program_input),
            final(self).spec_inputs().last().issuance_input == Some(issuance_input),
            final(self).spec_inputs().last().required_sig == required_sig,
            final(self).spec_outputs() == old(self).spec_outputs(),
            final(self).spec_change() == old(self).spec_change(),
            is_issuance_details_of(r, partial_input, issuance_input),
    {
        let details = self.push_new_input(
            FinalInput::new(partial_input, required_sig).with_program(program_input).with_issuance(
                issuance_input,
            ),
        );
        details.unwrap()
    }

    /// Removes the input at `index` and returns it; an index past the end changes nothing.
    pub fn remove_input(&mut self, index: usize) -> (r: Option<FinalInput<P>>)
        ensures
            index < old(self).spec_inputs().len() ==> r == Some(old(self).spec_inputs()[index as int])
                && final(self).spec_inputs() == old(self).spec_inputs().remove(index as int),
            index >= old(self).spec_inputs().len() ==> r is None && final(self).spec_inputs()
                == old(self).spec_inputs(),
            final(self).spec_outputs() == old(self).spec_outputs(),
            final(self).spec_change() == old(self).spec_change(),
    {
        if index < self.inputs.len() {
            return Some(self.inputs.remove(index));
        }
        None
    }

    /// Adds an output at the end.
    pub fn add_output(&mut self, partial_output: PartialOutput)
        ensures
            final(self).spec_outputs() == old(self).spec_outputs().push(partial_output),
            final(self).spec_inputs() == old(self).spec_inputs(),
            final(self).spec_change() == old(self).spec_change(),
    {
        self.outputs.push(partial_output);
    }

    /// Removes the output at `index` and returns it; an index past the end changes nothing.
    pub fn remove_output(&mut self, index: usize) -> (r: Option<PartialOutput>)
        ensures
            index < old(self).spec_outputs().len() ==> r == Some(
                old(self).spec_outputs()[index as int],
            ) && final(self).spec_outputs() == old(self).spec_outputs().remove(index as int),
            index >= old(self).spec_outputs().len() ==> r is None && final(self).spec_outputs()
                == old(self).spec_outputs(),
            final(self).spec_inputs() == old(self).spec_inputs(),
            final(self).spec_change() == old(self).spec_change(),
    {
        if index < self.outputs.len() {
            return Some(self.outputs.remove(index));
        }
        None
    }

    /// Where this transaction's change should go, when the caller said.
    pub fn change(&self) -> (r: Option<&ChangeOutput>)
        ensures
            match self.spec_change() {
                Some(c) => r matches Some(rc) && *rc == c,
                None => r is None,
            },
    {
        self.change.as_ref()
    }

    /// Where this transaction's change should go, for a caller that needs to amend it.
    pub fn change_mut(&mut self) -> (r: Option<&mut ChangeOutput>)
        ensures
            match old(self).spec_change() {
                Some(c) => r is Some && *r.unwrap() == c && final(self).spec_change() == Some(
                    *final(r.unwrap()),
                ),
                None => r is None && final(self).spec_change() is None,
            },
            final(self).spec_inputs() == old(self).spec_inputs(),
            final(self).spec_outputs() == old(self).spec_outputs(),
    {
        self.change.as_mut()
    }

    /// The inputs, in order.
    pub fn inputs(&self) -> (r: &[FinalInput<P>])
        ensures
            r@ == self.spec_inputs(),
    {
        self.inputs.as_slice()
    }

    /// The inputs, in order, for a caller that needs to amend them.
    pub fn inputs_mut(&mut self) -> (r: &mut [FinalInput<P>])
        ensures
            r@ == old(self).spec_inputs(),
            final(self).spec_inputs() == final(r)@,
            final(self).spec_outputs() == old(self).spec_outputs(),
            final(self).spec_change() == old(self).spec_change(),
    {
        self.inputs.as_mut_slice()
    }

    /// The outputs, in order.
    pub fn outputs(&self) -> (r: &[PartialOutput])
        ensures
            r@ == self.spec_outputs(),
    {
        self.outputs.as_slice()
    }

    /// The outputs, in order, for a caller that needs to amend them.
    pub fn outputs_mut(&mut self) -> (r: &mut [PartialOutput])
        ensures
            r@ == old(self).spec_outputs(),
            final(self).spec_outputs() == final(r)@,
            final(self).spec_inputs() == old(self).spec_inputs(),
            final(self).spec_change() == old(self).spec_change(),
    {
        self.outputs.as_mut_slice()
    }

    /// The number of inputs.
    pub fn n_inputs(&self) -> (r: usize)
        ensures
            r == self.spec_inputs().len(),
    {
        self.inputs.len()
    }

    /// The number of outputs.
    pub fn n_outputs(&self) -> (r: usize)
        ensures
            r == self.spec_outputs().len(),
    {
        self.outputs.len()
    }

    /// Whether some output is to be confidential, that is, has a blinding key.
    pub fn needs_blinding(&self) -> (r: bool)
        ensures
            r == exists|i: int|
                0 <= i < self.spec_outputs().len() && (#[trigger] self.spec_outputs()[i]).blinding_key is Some,
    {
        let mut i: usize = 0;
        while i < self.outputs.len()
            invariant
                i <= self.outputs@.len(),
                forall|j: int| 0 <= j < i ==> (#[trigger] self.outputs@[j]).blinding_key is None,
            decreases self.outputs@.len() - i,
        {
            if self.outputs[i].blinding_key.is_some() {
                return true;
            }
            i = i + 1;
        }
        false
    }

    /// The policy-asset surplus of the inputs over the outputs: what is left for the fee
    /// (and the change). Inputs are counted by their unblinded secrets when they have them,
    /// else by their explicit asset and amount.
    pub fn calculate_fee_delta(&self, network: &SimplicityNetwork) -> (r: i64)
        requires
            self.fee_delta_defined(network.spec_policy_asset()),
        ensures
            r == self.spec_fee_delta(network.spec_policy_asset()),
    {
        let policy = network.policy_asset();
        let mut available_amount: u64 = 0;
        let mut i: usize = 0;
        while i < self.inputs.len()
            invariant
                policy == network.spec_policy_asset(),
                self.fee_delta_defined(policy),
                i <= self.inputs@.len(),
                available_amount == inputs_policy_sum(self.inputs@.take(i as int), policy),
            decreases self.inputs@.len() - i,
        {
            proof {
                lemma_inputs_policy_sum_prefix(self.inputs@, policy, i as int);
                lemma_inputs_policy_sum_prefix_le(self.inputs@, policy, i + 1);
                assert(self.inputs@.take(i + 1).drop_last() =~= self.inputs@.take(i as int));
                assert(input_value_known(self.spec_inputs()[i as int].partial_input, policy));
            }
            let input = &self.inputs[i];
            match &input.partial_input.secrets {
                Some(secrets) => {
                    if bytes32_eq(&secrets.asset(), &policy) {
                        available_amount = available_amount + secrets.value();
                    }
                },
                None => {
                    if bytes32_eq(&input.partial_input.asset.unwrap(), &policy) {
                        let amount = input.partial_input.amount.unwrap();
                        available_amount = available_amount + amount;
                    }
                },
            }
            i = i + 1;
        }
        assert(self.inputs@.take(i as int) =~= self.inputs@);
        let mut consumed_amount: u64 = 0;
        let mut j: usize = 0;
        while j < self.outputs.len()
            invariant
                policy == network.spec_policy_asset(),
                self.fee_delta_defined(policy),
                j <= self.outputs@.len(),
                consumed_amount == outputs_policy_sum(self.outputs@.take(j as int), policy),
            decreases self.outputs@.len() - j,
        {
            proof {
                lemma_outputs_policy_sum_prefix(self.outputs@, policy, j as int);
                lemma_outputs_policy_sum_prefix_le(self.outputs@, policy, j + 1);
                assert(self.outputs@.take(j + 1).drop_last() =~= self.outputs@.take(j as int));
            }
            let output = &self.outputs[j];
            if bytes32_eq(&output.asset, &policy) {
                consumed_amount = consumed_amount + output.amount;
            }
            j = j + 1;
        }
        assert(self.outputs@.take(j as int) =~= self.outputs@);
        cast_signed(available_amount) - cast_signed(consumed_amount)
    }

    /// Whether the policy-asset surplus can be computed for this transaction on `network`
    /// (the precondition of `calculate_fee_delta`, checked at run time).
    pub fn can_calculate_fee_delta(&self, network: &SimplicityNetwork) -> (r: bool)
        ensures
            r == self.fee_delta_defined(network.spec_policy_asset()),
    {
        let policy = network.policy_asset();
        let mut available: u64 = 0;
        let mut i: usize = 0;
        while i < self.inputs.len()
            invariant
                policy == network.spec_policy_asset(),
                i <= self.inputs@.len(),
                forall|j: int| 0 <= j < i ==> input_value_known(
                    #[trigger] self.inputs@[j].partial_input,
                    policy,
                ),
                available == inputs_policy_sum(self.inputs@.take(i as int), policy),
            decreases self.inputs@.len() - i,
        {
            proof {
                lemma_inputs_policy_sum_prefix(self.inputs@, policy, i as int);
            }
            let input = &self.inputs[i].partial_input;
            let value: u64 = match &input.secrets {
                Some(secrets) => if bytes32_eq(&secrets.asset(), &policy) {
                    secrets.value()
                } else {
                    0
                },
                None => match (&input.asset, &input.amount) {
                    (Some(asset), Some(amount)) => if bytes32_eq(asset, &policy) {
                        *amount
                    } else {
                        0
                    },
                    (Some(asset), None) => {
                        if bytes32_eq(asset, &policy) {
                            return false;
                        }
                        0
                    },
                    (None, _) => {
                        return false;
                    },
                },
            };
            match available.checked_add(value) {
                Some(sum) => {
                    available = sum;
                },
                None => {
                    proof {
                        lemma_inputs_policy_sum_prefix_le(self.inputs@, policy, i + 1);
                    }
                    return false;
                },
            }
            i = i + 1;
        }
        assert(self.inputs@.take(i as int) =~= self.inputs@);
        let mut consumed: u64 = 0;
        let mut j: usize = 0;
        while j < self.outputs.len()
            invariant
                policy == network.spec_policy_asset(),
                j <= self.outputs@.len(),
                consumed == outputs_policy_sum(self.outputs@.take(j as int), policy),
            decreases self.outputs@.len() - j,
        {
            proof {
                lemma_outputs_policy_sum_prefix(self.outputs@, policy, j as int);
            }
            let output = &self.outputs[j];
            let value: u64 = if bytes32_eq(&output.asset, &policy) {
                output.amount
            } else {
                0
            };
            match consumed.checked_add(value) {
                Some(sum) => {
                    consumed = sum;
                },
                None => {
                    proof {
                        lemma_outputs_policy_sum_prefix_le(self.outputs@, policy, j + 1);
                    }
                    return false;
                },
            }
            j = j + 1;
        }
        assert(self.outputs@.take(j as int) =~= self.outputs@);
        let difference: i128 = cast_signed(available) as i128 - cast_signed(consumed) as i128;
        i64::MIN as i128 <= difference && difference <= i64::MAX as i128
    }

    /// Whether every input's secrets can be given (the precondition of
    /// `extract_input_secrets`, checked at run time).
    pub fn can_extract_input_secrets(&self) -> (r: bool)
        ensures
            r == self.inputs_have_secrets(),
    {
        let mut i: usize = 0;
        while i < self.inputs.len()
            invariant
                i <= self.inputs@.len(),
                forall|j: int|
                    0 <= j < i ==> {
                        let input = #[trigger] self.inputs@[j].partial_input;
                        input.secrets is Some || (input.asset is Some && input.amount is Some)
                    },
            decreases self.inputs@.len() - i,
        {
            let input = &self.inputs[i].partial_input;
            if input.secrets.is_none() && (input.asset.is_none() || input.amount.is_none()) {
                return false;
            }
            i = i + 1;
        }
        true
    }

    /// The secrets of each input, keyed by the input's index, that the signer blinds the
    /// outputs against: an unblinded input's own secrets, or an explicit input's asset and
    /// amount with zero blinding factors.
    pub fn extract_input_secrets(&self) -> (r: HashMap<usize, TxOutSecrets>)
        requires
            self.inputs_have_secrets(),
        ensures
            r@ == Map::new(
                |i: usize| i < self.spec_inputs().len(),
                |i: usize| input_secrets_of(self.spec_inputs()[i as int].partial_input),
            ),
    {
        let mut input_secrets: HashMap<usize, TxOutSecrets> = HashMap::new();
        let mut i: usize = 0;
        while i < self.inputs.len()
            invariant
                self.inputs_have_secrets(),
                i <= self.inputs@.len(),
                input_secrets@ == Map::new(
                    |k: usize| k < i,
                    |k: usize| input_secrets_of(self.inputs@[k as int].partial_input),
                ),
            decreases self.inputs@.len() - i,
        {
            assert({
                let input = self.spec_inputs()[i as int].partial_input;
                input.secrets is Some || (input.asset is Some && input.amount is Some)
            });
            let partial_input = &self.inputs[i].partial_input;
            let secrets = match &partial_input.secrets {
                Some(secrets) => *secrets,
                None => TxOutSecrets::explicit(
                    partial_input.asset.unwrap(),
                    partial_input.amount.unwrap(),
                ),
            };
            input_secrets.insert(i, secrets);
            i = i + 1;
            assert(input_secrets@ =~= Map::new(
                |k: usize| k < i,
                |k: usize| input_secrets_of(self.inputs@[k as int].partial_input),
            ));
        }
        input_secrets
    }

    /// Adds the two outputs a fee estimate works with, both of the policy asset and of a
    /// placeholder amount: first the change output, paying to the change target, then the
    /// fee output, with an empty script.
    pub fn push_change_and_fee_outputs(&mut self, change: ChangeOutput, policy: [u8; 32])
        ensures
            final(self).spec_outputs().len() == old(self).spec_outputs().len() + 2,
            final(self).spec_outputs().take(old(self).spec_outputs().len() as int)
                == old(self).spec_outputs(),
            ({
                let o = final(self).spec_outputs()[old(self).spec_outputs().len() as int];
                &&& o.script_pubkey == change.script_pubkey
                &&& o.amount == PLACEHOLDER_FEE
                &&& o.asset == policy
                &&& o.blinding_key == change.blinding_key
            }),
            ({
                let o = final(self).spec_outputs()[old(self).spec_outputs().len() + 1int];
                &&& o.script_pubkey@ == Seq::<u8>::empty()
                &&& o.amount == PLACEHOLDER_FEE
                &&& o.asset == policy
                &&& o.blinding_key is None
            }),
            final(self).spec_inputs() == old(self).spec_inputs(),
            final(self).spec_change() == old(self).spec_change(),
    {
        let change_output = PartialOutput {
            script_pubkey: change.script_pubkey,
            amount: PLACEHOLDER_FEE,
            asset: policy,
            blinding_key: change.blinding_key,
        };
        self.outputs.push(change_output);
        self.outputs.push(PartialOutput::new(Vec::new(), PLACEHOLDER_FEE, policy));
        assert(self.outputs@.take(old(self).outputs@.len() as int) =~= old(self).outputs@);
    }

    /// Gives the second-to-last output (the change) and the last output (the fee) their
    /// final amounts.
    pub fn settle_change_and_fee(&mut self, change_amount: u64, fee: u64)
        requires
            old(self).spec_outputs().len() >= 2,
        ensures
            ({
                let outs = old(self).spec_outputs();
                let n = outs.len() as int;
                final(self).spec_outputs() == outs.update(
                    n - 2,
                    PartialOutput { amount: change_amount, ..outs[n - 2] },
                ).update(n - 1, PartialOutput { amount: fee, ..outs[n - 1] })
            }),
            final(self).spec_inputs() == old(self).spec_inputs(),
            final(self).spec_change() == old(self).spec_change(),
    {
        let n = self.outputs.len();
        self.outputs[n - 2].amount = change_amount;
        self.outputs[n - 1].amount = fee;
    }

    /// Gives the last output (the fee) its final amount.
    pub fn settle_fee(&mut self, fee: u64)
        requires
            old(self).spec_outputs().len() >= 1,
        ensures
            ({
                let outs = old(self).spec_outputs();
                let n = outs.len() as int;
                final(self).spec_outputs() == outs.update(n - 1, PartialOutput { amount: fee, ..outs[n - 1] })
            }),
            final(self).spec_inputs() == old(self).spec_inputs(),
            final(self).spec_change() == old(self).spec_change(),
    {
        let n = self.outputs.len();
        self.outputs[n - 1].amount = fee;
    }

    fn push_new_input(&mut self, new_input: FinalInput<P>) -> (r: Option<IssuanceDetails>)
        ensures
            final(self).spec_inputs() == old(self).spec_inputs().push(new_input),
            final(self).spec_outputs() == old(self).spec_outputs(),
            final(self).spec_change() == old(self).spec_change(),
            match new_input.issuance_input {
                None => r is None,
                Some(issuance) => r matches Some(d) && is_issuance_details_of(
                    d,
                    new_input.partial_input,
                    issuance,
                ),
            },
    {
        let issuance_details = new_input.get_issuance_details();
        self.inputs.push(new_input);
        issuance_details
    }
}

/// A 64-bit unsigned value reinterpreted as a two's complement signed one.
fn cast_signed(x: u64) -> (r: i64)
    ensures
        r == as_signed(x as nat),
{
    if x <= i64::MAX as u64 {
        x as i64
    } else {
        let below: u64 = u64::MAX - x;
        -(below as i64) - 1
    }
}

/// The policy-asset sum of one more input extends the sum of the shorter prefix.
pub proof fn lemma_inputs_policy_sum_prefix<P>(inputs: Seq<FinalInput<P>>, policy: [u8; 32], i: int)
    requires
        0 <= i < inputs.len(),
    ensures
        inputs_policy_sum(inputs.take(i + 1), policy) == inputs_policy_sum(inputs.take(i), policy)
            + input_policy_value(inputs[i].partial_input, policy),
{
    assert(inputs.take(i + 1).drop_last() =~= inputs.take(i));
}

/// The policy-asset sum of one more output extends the sum of the shorter prefix.
pub proof fn lemma_outputs_policy_sum_prefix(outputs: Seq<PartialOutput>, policy: [u8; 32], i: int)
    requires
        0 <= i < outputs.len(),
    ensures
        outputs_policy_sum(outputs.take(i + 1), policy) == outputs_policy_sum(outputs.take(i), policy)
            + (if outputs[i].asset == policy {
            outputs[i].amount as nat
        } else {
            0
        }),
{
    assert(outputs.take(i + 1).drop_last() =~= outputs.take(i));
}

/// A prefix of the inputs brings in no more of the policy asset than all of them.
pub proof fn lemma_inputs_policy_sum_prefix_le<P>(inputs: Seq<FinalInput<P>>, policy: [u8; 32], k: int)
    requires
        0 <= k <= inputs.len(),
    ensures
        inputs_policy_sum(inputs.take(k), policy) <= inputs_policy_sum(inputs, policy),
    decreases inputs.len(),
{
    if k < inputs.len() {
        lemma_inputs_policy_sum_prefix_le(inputs.drop_last(), policy, k);
        assert(inputs.drop_last().take(k) =~= inputs.take(k));
    } else {
        assert(inputs.take(k) =~= inputs);
    }
}

/// A prefix of the outputs pays out no more of the policy asset than all of them.
pub proof fn lemma_outputs_policy_sum_prefix_le(outputs: Seq<PartialOutput>, policy: [u8; 32], k: int)
    requires
        0 <= k <= outputs.len(),
    ensures
        outputs_policy_sum(outputs.take(k), policy) <= outputs_policy_sum(outputs, policy),
    decreases outputs.len(),
{
    if k < outputs.len() {
        lemma_outputs_policy_sum_prefix_le(outputs.drop_last(), policy, k);
        assert(outputs.drop_last().take(k) =~= outputs.take(k));
    } else {
        assert(outputs.take(k) =~= outputs);
    }
}

} // verus!
