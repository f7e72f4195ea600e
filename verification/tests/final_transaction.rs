use std::collections::HashMap;

use simplicityhl::elements::encode::serialize;
use simplicityhl::elements::issuance::{AssetEntropy, ContractHash};
use simplicityhl::elements::{AssetId, OutPoint as ElementsOutPoint, TxOut, Txid};

use smplx::network::SimplicityNetwork;
use smplx::transaction::change_output::ChangeOutput;
use smplx::transaction::final_transaction::{FinalInput, FinalTransaction};
use smplx::transaction::partial_input::{
    IssuanceInput, OutPoint, PartialInput, RequiredSignature, TxOutSecrets, UTXO,
};
use smplx::transaction::partial_output::{BlindingKey, PartialOutput};

const KEY_HEX: &str = "0279be667ef9dcbbac55a06295ce870b07029bfcdb2dce28d959f2815b16f81798";

fn key() -> BlindingKey {
    BlindingKey::parse(KEY_HEX).unwrap()
}

fn dummy_asset_id(byte: u8) -> [u8; 32] {
    [byte; 32]
}

fn dummy_txid(byte: u8) -> [u8; 32] {
    [byte; 32]
}

fn explicit_utxo(txid_byte: u8, vout: u32, amount: u64, asset: [u8; 32]) -> UTXO {
    UTXO {
        outpoint: OutPoint::new(dummy_txid(txid_byte), vout),
        txout: serialize(&TxOut::new_fee(amount, AssetId::from_byte_array(asset))),
        explicit_asset: Some(asset),
        explicit_value: Some(amount),
        secrets: None,
    }
}

fn confidential_utxo(txid_byte: u8, vout: u32, asset: [u8; 32], value: u64) -> UTXO {
    UTXO {
        outpoint: OutPoint::new(dummy_txid(txid_byte), vout),
        txout: serialize(&TxOut::default()),
        explicit_asset: None,
        explicit_value: None,
        secrets: Some(TxOutSecrets::new(asset, [0u8; 32], value, [0u8; 32]).unwrap()),
    }
}

type Tx = FinalTransaction<()>;

#[test]
fn extract_pst_single_explicit_input_single_output() {
    let policy = dummy_asset_id(0xAA);

    let utxo = explicit_utxo(0x01, 0, 5000, policy);
    let partial_input = PartialInput::new(utxo);
    let partial_output = PartialOutput::new(Vec::new(), 4000, policy);

    let mut ft: Tx = FinalTransaction::new();
    ft.add_input(partial_input.clone(), RequiredSignature::NotRequired);
    ft.add_output(partial_output.clone());

    let expected_secrets: HashMap<usize, TxOutSecrets> =
        HashMap::from([(0, TxOutSecrets::new(policy, [0u8; 32], 5000, [0u8; 32]).unwrap())]);

    assert_eq!(ft.inputs().len(), 1);
    assert_eq!(ft.inputs()[0].partial_input, partial_input);
    assert_eq!(ft.outputs(), &[partial_output][..]);
    assert_eq!(ft.extract_input_secrets(), expected_secrets);
}

#[test]
fn extract_pst_single_confidential_input() {
    let policy = dummy_asset_id(0xAA);

    let utxo = confidential_utxo(0x01, 0, policy, 3000);
    let partial_input = PartialInput::new(utxo);
    let partial_output = PartialOutput::new(Vec::new(), 2000, policy);

    let mut ft: Tx = FinalTransaction::new();
    ft.add_input(partial_input.clone(), RequiredSignature::NotRequired);
    ft.add_output(partial_output.clone());

    let expected_secrets =
        HashMap::from([(0, TxOutSecrets::new(policy, [0u8; 32], 3000, [0u8; 32]).unwrap())]);

    assert_eq!(ft.inputs()[0].partial_input, partial_input);
    assert_eq!(ft.outputs(), &[partial_output][..]);
    assert_eq!(ft.extract_input_secrets(), expected_secrets);
}

#[test]
fn extract_pst_mixed_inputs_multiple_outputs() {
    let policy = dummy_asset_id(0xAA);
    let other = dummy_asset_id(0xBB);

    let explicit_utxo = explicit_utxo(0x01, 0, 5000, policy);
    let conf_utxo = confidential_utxo(0x02, 1, other, 1000);

    let explicit_partial = PartialInput::new(explicit_utxo);
    let conf_partial = PartialInput::new(conf_utxo);

    let output_a = PartialOutput::new(Vec::new(), 3000, policy);
    let output_b = PartialOutput::new(Vec::new(), 800, other);

    let mut ft: Tx = FinalTransaction::new();
    ft.add_input(explicit_partial.clone(), RequiredSignature::NotRequired);
    ft.add_input(conf_partial.clone(), RequiredSignature::NotRequired);
    ft.add_output(output_a.clone());
    ft.add_output(output_b.clone());

    let expected_secrets = HashMap::from([
        (0, TxOutSecrets::new(policy, [0u8; 32], 5000, [0u8; 32]).unwrap()),
        (1, TxOutSecrets::new(other, [0u8; 32], 1000, [0u8; 32]).unwrap()),
    ]);

    assert_eq!(ft.inputs()[0].partial_input, explicit_partial);
    assert_eq!(ft.inputs()[1].partial_input, conf_partial);
    assert_eq!(ft.outputs(), &[output_a, output_b][..]);
    assert_eq!(ft.extract_input_secrets(), expected_secrets);
}

#[test]
fn extract_pst_with_issuance_input() {
    let policy = dummy_asset_id(0xAA);
    let entropy = [0x42u8; 32];
    let issuance_amount = 1_000_000u64;

    let utxo = explicit_utxo(0x01, 0, 5000, policy);
    let partial_input = PartialInput::new(utxo);
    let issuance = IssuanceInput::new_issuance(issuance_amount, 0, entropy);
    let partial_output = PartialOutput::new(Vec::new(), 4000, policy);

    let mut ft: Tx = FinalTransaction::new();
    ft.add_issuance_input(partial_input.clone(), issuance, RequiredSignature::NotRequired);
    ft.add_output(partial_output.clone());

    let expected_secrets =
        HashMap::from([(0, TxOutSecrets::new(policy, [0u8; 32], 5000, [0u8; 32]).unwrap())]);

    assert_eq!(ft.inputs()[0].partial_input, partial_input);
    assert_eq!(ft.inputs()[0].issuance_input, Some(issuance));
    assert_eq!(ft.inputs()[0].issuance_blinding_nonce(), None);
    assert_eq!(ft.outputs(), &[partial_output][..]);
    assert_eq!(ft.extract_input_secrets(), expected_secrets);
}

#[test]
fn extract_pst_with_reissuance_input() {
    let policy = dummy_asset_id(0xAA);
    let entropy = [0x42u8; 32];
    let issuance_amount = 1_000_000u64;

    let conf_utxo = confidential_utxo(0x02, 0, policy, 1000);
    let partial_input = PartialInput::new(conf_utxo);
    let reissuance_input = IssuanceInput::new_reissuance(issuance_amount, entropy);
    let partial_output = PartialOutput::new(Vec::new(), 1000, policy);

    let mut ft: Tx = FinalTransaction::new();
    ft.add_issuance_input(partial_input.clone(), reissuance_input, RequiredSignature::NotRequired);
    ft.add_output(partial_output.clone());

    let expected_secrets =
        HashMap::from([(0, TxOutSecrets::new(policy, [0u8; 32], 1000, [0u8; 32]).unwrap())]);

    assert_eq!(ft.inputs()[0].issuance_input, Some(reissuance_input));
    assert_eq!(
        ft.inputs()[0].issuance_blinding_nonce(),
        Some(partial_input.secrets.unwrap().asset_bf())
    );
    assert_eq!(ft.outputs(), &[partial_output][..]);
    assert_eq!(ft.extract_input_secrets(), expected_secrets);
}

#[test]
fn issuance_details_match_elements() {
    let policy = dummy_asset_id(0xAA);
    let contract_hash = [0x42u8; 32];
    let partial_input = PartialInput::new(explicit_utxo(0x07, 3, 5000, policy));

    let mut ft: Tx = FinalTransaction::new();
    let details = ft.add_issuance_input(
        partial_input,
        IssuanceInput::new_issuance(10, 1, contract_hash),
        RequiredSignature::NativeEcdsa,
    );

    let outpoint = ElementsOutPoint::new(Txid::from_byte_array([0x07; 32]), 3);
    let entropy = AssetId::generate_asset_entropy(outpoint, ContractHash::from_byte_array(contract_hash));
    assert_eq!(details.asset_entropy, entropy.to_byte_array());
    assert_eq!(details.asset_id, AssetId::from_entropy(entropy).to_byte_array());
    assert_eq!(
        details.inflation_asset_id,
        AssetId::reissuance_token_from_entropy(entropy, false).to_byte_array()
    );
    assert_ne!(details.asset_entropy, contract_hash);
    assert_ne!(details.asset_id, details.asset_entropy);
    assert_ne!(details.inflation_asset_id, details.asset_id);

    let reissue = ft.add_issuance_input(
        PartialInput::new(confidential_utxo(0x08, 0, policy, 1)),
        IssuanceInput::new_reissuance(5, details.asset_entropy),
        RequiredSignature::NotRequired,
    );
    assert_eq!(reissue.asset_entropy, details.asset_entropy);
    assert_eq!(reissue.asset_id, details.asset_id);
    assert_eq!(
        reissue.asset_id,
        AssetId::from_entropy(AssetEntropy::from_byte_array(details.asset_entropy)).to_byte_array()
    );
}

#[test]
fn inputs_without_issuance_have_no_details() {
    let input: FinalInput<()> = FinalInput::new(
        PartialInput::new(explicit_utxo(1, 0, 1, [1; 32])),
        RequiredSignature::NotRequired,
    );
    assert_eq!(input.get_issuance_details(), None);
    let with_program = input.with_program(());
    assert!(with_program.program_input.is_some());
    assert_eq!(with_program.issuance_input, None);
}

#[test]
fn fee_delta_counts_policy_asset_only() {
    let network = SimplicityNetwork::ElementsRegtest { policy_asset: [0xAA; 32] };
    let mut ft: Tx = FinalTransaction::new();
    ft.add_input(PartialInput::new(explicit_utxo(1, 0, 5000, [0xAA; 32])), RequiredSignature::NativeEcdsa);
    ft.add_input(PartialInput::new(confidential_utxo(2, 0, [0xAA; 32], 700)), RequiredSignature::NativeEcdsa);
    ft.add_input(PartialInput::new(explicit_utxo(3, 0, 9999, [0xBB; 32])), RequiredSignature::NativeEcdsa);
    ft.add_input(PartialInput::new(confidential_utxo(4, 0, [0xBB; 32], 9999)), RequiredSignature::NativeEcdsa);
    assert_eq!(ft.calculate_fee_delta(&network), 5700);

    ft.add_output(PartialOutput::new(Vec::new(), 4000, [0xAA; 32]));
    ft.add_output(PartialOutput::new(Vec::new(), 123, [0xBB; 32]));
    assert_eq!(ft.calculate_fee_delta(&network), 1700);

    ft.add_output(PartialOutput::new(Vec::new(), 2000, [0xAA; 32]));
    assert_eq!(ft.calculate_fee_delta(&network), -300);
}

#[test]
fn removing_the_added_output_restores_the_outputs() {
    let mut ft: Tx = FinalTransaction::new();
    let a = PartialOutput::new(vec![1], 1, [1; 32]);
    let b = PartialOutput::new(vec![2], 2, [2; 32]);
    ft.add_output(a.clone());
    ft.add_output(b.clone());
    assert_eq!(ft.remove_output(1), Some(b));
    assert_eq!(ft.outputs(), &[a.clone()][..]);
    assert_eq!(ft.remove_output(5), None);
    assert_eq!(ft.n_outputs(), 1);
    assert_eq!(ft.remove_output(0), Some(a));
    assert_eq!(ft.n_outputs(), 0);
}

#[test]
fn removing_inputs_by_index() {
    let mut ft: Tx = FinalTransaction::new();
    let first = PartialInput::new(explicit_utxo(1, 0, 1, [1; 32]));
    let second = PartialInput::new(explicit_utxo(2, 0, 2, [1; 32]));
    ft.add_input(first.clone(), RequiredSignature::NativeEcdsa);
    ft.add_program_input(second.clone(), (), RequiredSignature::Witness("SIG".to_string()));
    assert_eq!(ft.n_inputs(), 2);
    assert!(ft.remove_input(2).is_none());
    let removed = ft.remove_input(0).unwrap();
    assert_eq!(removed.partial_input, first);
    assert_eq!(removed.required_sig, RequiredSignature::NativeEcdsa);
    assert_eq!(ft.n_inputs(), 1);
    assert_eq!(ft.inputs()[0].partial_input, second);
    assert!(ft.inputs()[0].program_input.is_some());
}

#[test]
fn change_target_is_set_and_cleared() {
    let mut ft: Tx = FinalTransaction::new();
    assert!(ft.change().is_none());
    ft.add_change(ChangeOutput::new(vec![0x00, 0x14]));
    assert_eq!(ft.change(), Some(&ChangeOutput::new(vec![0x00, 0x14])));
    if let Some(change) = ft.change_mut() {
        change.blinding_key = Some(key());
    }
    assert_eq!(ft.change().unwrap().blinding_key, Some(key()));
    ft.remove_change();
    assert!(ft.change().is_none());
}

#[test]
fn needs_blinding_iff_an_output_has_a_key() {
    let mut ft: Tx = FinalTransaction::new();
    assert!(!ft.needs_blinding());
    ft.add_output(PartialOutput::new(vec![1], 1, [1; 32]));
    assert!(!ft.needs_blinding());
    ft.add_output(PartialOutput::new(vec![1], 1, [1; 32]).with_blinding_key(key()));
    assert!(ft.needs_blinding());
    assert_eq!(ft.outputs()[1].blinder_index(), Some(0));
    assert_eq!(ft.outputs()[0].blinder_index(), None);
}

#[test]
fn settled_change_and_fee_balance_the_policy_asset() {
    let network = SimplicityNetwork::ElementsRegtest { policy_asset: [0xAA; 32] };
    let mut ft: Tx = FinalTransaction::new();
    ft.add_input(PartialInput::new(explicit_utxo(1, 0, 10_000, [0xAA; 32])), RequiredSignature::NativeEcdsa);
    ft.add_output(PartialOutput::new(vec![0x51], 6_000, [0xAA; 32]));
    let delta = ft.calculate_fee_delta(&network);
    assert_eq!(delta, 4_000);

    ft.push_change_and_fee_outputs(ChangeOutput::new(vec![0x52]), [0xAA; 32]);
    assert_eq!(ft.n_outputs(), 3);
    assert_eq!(ft.outputs()[1].script_pubkey, vec![0x52]);
    assert_eq!(ft.outputs()[1].amount, 1);
    assert!(ft.outputs()[2].script_pubkey.is_empty());
    assert_eq!(ft.calculate_fee_delta(&network), 3_998);

    ft.settle_change_and_fee(3_700, 300);
    assert_eq!(ft.calculate_fee_delta(&network), 0);

    // Without change: the fee output takes the whole surplus.
    ft.remove_output(1);
    ft.settle_fee(4_000);
    assert_eq!(ft.calculate_fee_delta(&network), 0);
}
