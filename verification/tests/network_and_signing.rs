use simplicityhl::elements::Script;

use smplx::error::{NetworkError, ProviderError};
use smplx::network::{
    network_from_str, SimplicityNetwork, DEFAULT_REGTEST_POLICY_ASSET, LIQUID_POLICY_ASSET,
};
use smplx::signing::{signing_plan, slip77_descriptor, wpkh_descriptor, SigningPlan};
use smplx::transaction::final_transaction::FinalInput;
use smplx::transaction::partial_input::{with_sequence, OutPoint, PartialInput, RequiredSignature, UTXO};
use smplx::transaction::partial_output::{BlindingKey, ChangeTarget, PartialOutput};

fn input() -> PartialInput {
    PartialInput::new(UTXO {
        outpoint: OutPoint::new([9; 32], 1),
        txout: Vec::new(),
        explicit_asset: Some([1; 32]),
        explicit_value: Some(1),
        secrets: None,
    })
}

#[test]
fn network_names_resolve() {
    assert_eq!(network_from_str("liquid"), Ok(SimplicityNetwork::Liquid));
    assert_eq!(network_from_str("liquid-testnet"), Ok(SimplicityNetwork::LiquidTestnet));
    assert_eq!(network_from_str("liquidtestnet"), Ok(SimplicityNetwork::LiquidTestnet));
    for name in ["elements-regtest", "elementsregtest", "regtest"] {
        assert_eq!(network_from_str(name), Ok(SimplicityNetwork::default_regtest()));
    }
    assert_eq!(network_from_str("Liquid"), Err(NetworkError::Unknown("Liquid".to_string())));
    assert_eq!(network_from_str(""), Err(NetworkError::Unknown(String::new())));
}

#[test]
fn networks_know_their_policy_asset_and_path() {
    assert_eq!(SimplicityNetwork::Liquid.policy_asset(), LIQUID_POLICY_ASSET);
    assert_eq!(
        SimplicityNetwork::Liquid.policy_asset(),
        simplicityhl::elements::AssetId::LIQUID_BTC.to_byte_array()
    );
    assert_eq!(SimplicityNetwork::default_regtest().policy_asset(), DEFAULT_REGTEST_POLICY_ASSET);
    assert!(SimplicityNetwork::Liquid.is_mainnet());
    assert!(!SimplicityNetwork::LiquidTestnet.is_mainnet());
    assert_eq!(SimplicityNetwork::Liquid.coin_type(), 1776);
    assert_eq!(SimplicityNetwork::LiquidTestnet.coin_type(), 1);
    assert_eq!(SimplicityNetwork::Liquid.account_derivation_path(), "m/84h/1776h/0h");
    assert_eq!(SimplicityNetwork::default_regtest().account_derivation_path(), "m/84h/1h/0h");
}

#[test]
fn descriptors_are_assembled() {
    let wpkh = wpkh_descriptor("73c5da0a", "84'/1'/0'", "tpubXYZ");
    assert_eq!(wpkh, "elwpkh([73c5da0a/84'/1'/0']tpubXYZ/<0;1>/*)");
    assert_eq!(slip77_descriptor("abcd", &wpkh), format!("ct(slip77(abcd),{wpkh})"));
}

#[test]
fn signing_follows_the_program_and_the_requested_signature() {
    let plain: FinalInput<()> = FinalInput::new(input(), RequiredSignature::NotRequired);
    assert!(matches!(signing_plan(&plain), SigningPlan::Ecdsa));

    let unsigned = FinalInput::new(input(), RequiredSignature::NotRequired).with_program(());
    assert!(matches!(signing_plan(&unsigned), SigningPlan::UnsignedWitness));

    let named = FinalInput::new(input(), RequiredSignature::Witness("SIG".to_string())).with_program(());
    match signing_plan(&named) {
        SigningPlan::SignedWitness { witness_name, sig_path } => {
            assert_eq!(witness_name, "SIG");
            assert!(sig_path.is_none());
        }
        _ => panic!("expected a signed witness"),
    }

    let path = vec!["Left".to_string(), "0".to_string()];
    let at_path = FinalInput::new(input(), RequiredSignature::WitnessWithPath("W".to_string(), path.clone()))
        .with_program(());
    match signing_plan(&at_path) {
        SigningPlan::SignedWitness { witness_name, sig_path } => {
            assert_eq!(witness_name, "W");
            assert_eq!(sig_path, Some(&path));
        }
        _ => panic!("expected a signed witness"),
    }
}

#[test]
fn sequences_apply_only_when_declared() {
    assert_eq!(with_sequence(input(), None), input());
    assert_eq!(with_sequence(input(), Some(144)).sequence, Some(144));
    assert_eq!(input().with_derivation_path(vec![0, 5]).derivation_path, Some(vec![0, 5]));
}

#[test]
fn metadata_outputs_carry_an_op_return_script() {
    let data = [7u8; 3];
    let out = PartialOutput::new_metadata(&data);
    assert_eq!(out.script_pubkey, vec![0x6a, 3, 7, 7, 7]);
    assert_eq!(out.script_pubkey, Script::new_op_return(&data).into_bytes());
    assert_eq!(out.amount, 0);
    assert_eq!(out.asset, [0u8; 32]);

    let long = vec![1u8; 80];
    let out = PartialOutput::new_metadata(&long);
    assert_eq!(&out.script_pubkey[..3], &[0x6a, 0x4c, 80]);
    assert_eq!(out.script_pubkey.len(), 83);
}

#[test]
fn change_targets_take_a_blinding_key() {
    let key = BlindingKey::parse("0279be667ef9dcbbac55a06295ce870b07029bfcdb2dce28d959f2815b16f81798").unwrap();
    let target = ChangeTarget::new(vec![1, 2]).with_blinding_key(key.clone());
    assert_eq!(target.script_pubkey, vec![1, 2]);
    assert_eq!(target.blinding_key, Some(key));
}

#[test]
fn provider_errors_carry_their_details() {
    let err = ProviderError::BroadcastRejected {
        status: 400,
        url: "http://localhost".to_string(),
        message: "bad-txns".to_string(),
    };
    assert!(matches!(err, ProviderError::BroadcastRejected { status: 400, .. }));
    assert_ne!(ProviderError::Confirmation(), ProviderError::BadResponse());
}
