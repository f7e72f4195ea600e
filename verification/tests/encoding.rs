use std::str::FromStr;

use simplicityhl::elements::encode::serialize;
use simplicityhl::elements::{AssetId, Script, TxOut, Txid};

use smplx::encoding::{decode_extra_leaves, is_blank, parse_extra_leaf};
use smplx::error::{InputError, OutputError};
use smplx::script::op_return_script;
use smplx::transaction::change_output::change_from_encoding;
use smplx::transaction::partial_input::{
    check_blinding_factor, covenant_signature, wallet_input_from_encoding, OutPoint,
    RequiredSignature, TxOutSecrets, UTXO, SECP256K1_ORDER,
};
use smplx::transaction::partial_output::{output_from_encoding, BlindingKey};

const COMPRESSED_G: &str = "0279be667ef9dcbbac55a06295ce870b07029bfcdb2dce28d959f2815b16f81798";
const UNCOMPRESSED_G: &str = "0479BE667EF9DCBBAC55A06295CE870B07029BFCDB2DCE28D959F2815B16F81798483ADA7726A3C4655DA4FBFC0E1108A8FD17B448A68554199C47D08FFB10D4B8";

fn last_byte_one() -> String {
    format!("{}01", "00".repeat(31))
}

fn explicit_txout_hex(amount: u64, asset: [u8; 32]) -> String {
    hex::encode(serialize(&TxOut::new_fee(amount, AssetId::from_byte_array(asset))))
}

#[test]
fn wallet_input_reads_txid_and_explicit_output() {
    let mut asset = [0u8; 32];
    asset[0] = 7;
    asset[31] = 9;
    let txid_text = last_byte_one();
    let input = wallet_input_from_encoding(&txid_text, 3, &explicit_txout_hex(5_000, asset), None).unwrap();

    let mut expected_txid = [0u8; 32];
    expected_txid[0] = 1;
    assert_eq!(input.witness_txid, expected_txid);
    assert_eq!(input.witness_txid, Txid::from_str(&txid_text).unwrap().to_byte_array());
    assert_eq!(input.witness_output_index, 3);
    assert_eq!(input.asset, Some(asset));
    assert_eq!(input.amount, Some(5_000));
    assert_eq!(input.txout, serialize(&TxOut::new_fee(5_000, AssetId::from_byte_array(asset))));
    assert_eq!(input.secrets, None);
    assert_eq!(input.sequence, None);
    assert_eq!(input.derivation_path, None);
}

#[test]
fn wallet_input_applies_a_declared_sequence() {
    let input =
        wallet_input_from_encoding(&last_byte_one(), 0, &explicit_txout_hex(1, [1; 32]), Some(144)).unwrap();
    assert_eq!(input.sequence, Some(144));
}

#[test]
fn wallet_input_of_a_confidential_output_has_no_explicit_parts() {
    let hex_text = hex::encode(serialize(&TxOut::default()));
    let input = wallet_input_from_encoding(&last_byte_one(), 0, &hex_text, None).unwrap();
    assert_eq!(input.asset, None);
    assert_eq!(input.amount, None);
}

#[test]
fn wallet_input_errors_in_order() {
    let good_out = explicit_txout_hex(1, [1; 32]);
    assert_eq!(wallet_input_from_encoding("zz", 0, "nothex", None), Err(InputError::InvalidTxid));
    assert_eq!(wallet_input_from_encoding(&"0".repeat(62), 0, &good_out, None), Err(InputError::InvalidTxid));
    assert_eq!(wallet_input_from_encoding(&last_byte_one(), 0, "abc", None), Err(InputError::InvalidOutputEncoding));
    assert_eq!(wallet_input_from_encoding(&last_byte_one(), 0, "00", None), Err(InputError::InvalidOutput));
    let trailing = format!("{good_out}00");
    assert_eq!(wallet_input_from_encoding(&last_byte_one(), 0, &trailing, None), Err(InputError::InvalidOutput));
}

#[test]
fn utxo_from_encoding_ties_the_explicit_parts_to_the_bytes() {
    let bytes = serialize(&TxOut::new_fee(42, AssetId::from_byte_array([3; 32])));
    let utxo = UTXO::from_encoding(OutPoint::new([5; 32], 2), bytes.clone(), None).unwrap();
    assert_eq!(utxo.explicit_asset, Some([3; 32]));
    assert_eq!(utxo.explicit_value, Some(42));
    assert_eq!(utxo.txout, bytes);
    assert_eq!(utxo.outpoint, OutPoint::new([5; 32], 2));
    assert!(UTXO::from_encoding(OutPoint::new([5; 32], 2), vec![1, 2, 3], None).is_none());
}

#[test]
fn output_from_encoding_parses_every_part() {
    let asset_text = last_byte_one();
    let out = output_from_encoding("0014ab", 900, &asset_text, Some(COMPRESSED_G)).unwrap();
    assert_eq!(out.script_pubkey, vec![0x00, 0x14, 0xab]);
    assert_eq!(out.amount, 900);
    let mut expected_asset = [0u8; 32];
    expected_asset[0] = 1;
    assert_eq!(out.asset, expected_asset);
    assert_eq!(out.asset, AssetId::from_str(&asset_text).unwrap().to_byte_array());
    let key = out.blinding_key.unwrap();
    assert_eq!(key.as_bytes(), &hex::decode(COMPRESSED_G).unwrap()[..]);

    let plain = output_from_encoding("51", 1, &asset_text, None).unwrap();
    assert!(plain.blinding_key.is_none());
}

#[test]
fn output_from_encoding_errors_in_order() {
    let asset_text = last_byte_one();
    assert_eq!(output_from_encoding("0g", 1, "x", Some("y")), Err(OutputError::InvalidScript));
    assert_eq!(output_from_encoding("51", 1, "x", Some("y")), Err(OutputError::InvalidAssetId));
    assert_eq!(output_from_encoding("51", 1, &asset_text, Some("y")), Err(OutputError::InvalidBlindingKey));
    assert_eq!(
        output_from_encoding("51", 1, &asset_text, Some(&"00".repeat(33))),
        Err(OutputError::InvalidBlindingKey)
    );
}

#[test]
fn blinding_keys_are_only_valid_points() {
    assert_eq!(BlindingKey::parse(UNCOMPRESSED_G).unwrap().as_bytes().len(), 65);
    assert_eq!(BlindingKey::parse(COMPRESSED_G).unwrap().as_bytes().len(), 33);
    assert!(BlindingKey::parse(&format!("02{}", "ff".repeat(32))).is_none());
    assert!(BlindingKey::parse("").is_none());
}

#[test]
fn extra_leaves_strip_one_prefix_then_decode() {
    assert_eq!(parse_extra_leaf("0xdead"), Some(vec![0xde, 0xad]));
    assert_eq!(parse_extra_leaf("DEAD"), Some(vec![0xde, 0xad]));
    assert_eq!(parse_extra_leaf("0x"), Some(vec![]));
    assert_eq!(parse_extra_leaf(""), Some(vec![]));
    assert_eq!(parse_extra_leaf("0x0xab"), None);
    assert_eq!(parse_extra_leaf("abc"), None);
    assert_eq!(parse_extra_leaf("0X01"), None);
}

#[test]
fn extra_leaves_report_the_first_bad_index() {
    let good = vec!["0x01".to_string(), "02".to_string()];
    assert_eq!(decode_extra_leaves(&good), Ok(vec![vec![1], vec![2]]));
    let bad = vec!["01".to_string(), "zz".to_string(), "0x".to_string()];
    assert_eq!(decode_extra_leaves(&bad), Err(1));
    assert_eq!(decode_extra_leaves(&Vec::new()), Ok(vec![]));
}

#[test]
fn covenant_signature_needs_a_non_blank_name() {
    assert_eq!(covenant_signature(None), RequiredSignature::NotRequired);
    assert_eq!(covenant_signature(Some(String::new())), RequiredSignature::NotRequired);
    assert_eq!(covenant_signature(Some(" \t\n".to_string())), RequiredSignature::NotRequired);
    assert_eq!(covenant_signature(Some("\u{3000}".to_string())), RequiredSignature::NotRequired);
    assert_eq!(covenant_signature(Some("SIG".to_string())), RequiredSignature::Witness("SIG".to_string()));
    assert_eq!(covenant_signature(Some(" a ".to_string())), RequiredSignature::Witness(" a ".to_string()));
}

#[test]
fn blank_means_what_trim_removes() {
    for text in ["", " ", "\t\r\n", "\u{a0}\u{2028}\u{205f}", "\u{85}"] {
        assert!(is_blank(text));
        assert_eq!(is_blank(text), text.trim().is_empty());
    }
    for text in ["a", " x ", "\u{200b}"] {
        assert!(!is_blank(text));
        assert_eq!(is_blank(text), text.trim().is_empty());
    }
}

#[test]
fn op_return_scripts_match_elements() {
    for len in [0usize, 1, 75, 76, 255, 256, 300, 65_535, 65_536] {
        let data: Vec<u8> = (0..len).map(|i| (i % 251) as u8).collect();
        assert_eq!(op_return_script(&data), Script::new_op_return(&data).into_bytes(), "length {len}");
    }
    assert_eq!(op_return_script(&[9u8; 300])[..4], [0x6a, 0x4d, 0x2c, 0x01]);
    assert_eq!(op_return_script(&vec![0u8; 65_536])[..6], [0x6a, 0x4e, 0x00, 0x00, 0x01, 0x00]);
}

#[test]
fn blinding_factors_must_be_below_the_group_order() {
    let mut below = SECP256K1_ORDER;
    below[31] -= 1;
    let mut above = SECP256K1_ORDER;
    above[0] = 0xff;
    above[31] = 0xff;
    assert!(check_blinding_factor(&[0u8; 32]));
    assert!(check_blinding_factor(&below));
    assert!(!check_blinding_factor(&SECP256K1_ORDER));
    assert!(!check_blinding_factor(&[0xff; 32]));
    assert!(!check_blinding_factor(&above));

    assert!(TxOutSecrets::new([1; 32], below, 5, [0; 32]).is_some());
    assert!(TxOutSecrets::new([1; 32], SECP256K1_ORDER, 5, [0; 32]).is_none());
    assert!(TxOutSecrets::new([1; 32], [0; 32], 5, [0xff; 32]).is_none());
    let secrets = TxOutSecrets::new([1; 32], below, 5, [2; 32]).unwrap();
    assert_eq!(secrets.asset(), [1; 32]);
    assert_eq!(secrets.asset_bf(), below);
    assert_eq!(secrets.value(), 5);
    assert_eq!(secrets.value_bf(), [2; 32]);
    let explicit = TxOutSecrets::explicit([4; 32], 8);
    assert_eq!((explicit.asset(), explicit.asset_bf(), explicit.value(), explicit.value_bf()), ([4; 32], [0; 32], 8, [0; 32]));
}

#[test]
fn change_from_encoding_parses_script_then_key() {
    let change = change_from_encoding("0014aa", Some(COMPRESSED_G)).unwrap();
    assert_eq!(change.script_pubkey, vec![0x00, 0x14, 0xaa]);
    assert_eq!(change.blinding_key, BlindingKey::parse(COMPRESSED_G));
    assert!(change_from_encoding("51", None).unwrap().blinding_key.is_none());
    assert_eq!(change_from_encoding("5", Some("zz")), Err(OutputError::InvalidScript));
    assert_eq!(change_from_encoding("51", Some("zz")), Err(OutputError::InvalidBlindingKey));
}
