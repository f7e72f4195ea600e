//! Asset ids and entropies of issuances, computed by the `elements` crate.
use vstd::prelude::*;

use simplicityhl::elements::issuance::{AssetEntropy, ContractHash};
use simplicityhl::elements::{AssetId, OutPoint, Txid};

verus! {

/// The entropy `elements` derives for a new issuance from the spent outpoint (transaction id
/// and output index) and the contract hash.
pub uninterp spec fn spec_generate_asset_entropy(txid: Seq<u8>, vout: u32, contract_hash: Seq<u8>) -> Seq<u8>;

/// The asset id `elements` derives from an asset entropy.
pub uninterp spec fn spec_asset_id_from_entropy(entropy: Seq<u8>) -> Seq<u8>;

/// The reissuance-token asset id `elements` derives from an asset entropy, for an explicit
/// (`confidential == false`) or confidential issuance.
pub uninterp spec fn spec_reissuance_token_from_entropy(entropy: Seq<u8>, confidential: bool) -> Seq<u8>;

/// Calls `elements::AssetId::generate_asset_entropy` on the outpoint `txid:vout` and the
/// contract hash; the result is the named hash of those three values, nothing more is claimed.
#[verifier::external_body]
pub(crate) fn generate_asset_entropy(txid: [u8; 32], vout: u32, contract_hash: [u8; 32]) -> (r: [u8; 32])
    ensures
        r@ == spec_generate_asset_entropy(txid@, vout, contract_hash@),
{
    let prevout = OutPoint::new(Txid::from_byte_array(txid), vout);
    AssetId::generate_asset_entropy(prevout, ContractHash::from_byte_array(contract_hash)).to_byte_array()
}

/// Calls `elements::AssetId::from_entropy`; the result is the named hash of the entropy.
#[verifier::external_body]
pub(crate) fn asset_id_from_entropy(entropy: [u8; 32]) -> (r: [u8; 32])
    ensures
        r@ == spec_asset_id_from_entropy(entropy@),
{
    AssetId::from_entropy(AssetEntropy::from_byte_array(entropy)).to_byte_array()
}

/// Calls `elements::AssetId::reissuance_token_from_entropy`; the result is the named hash of
/// the entropy and the confidentiality flag.
#[verifier::external_body]
pub(crate) fn reissuance_token_from_entropy(entropy: [u8; 32], confidential: bool) -> (r: [u8; 32])
    ensures
        r@ == spec_reissuance_token_from_entropy(entropy@, confidential),
{
    AssetId::reissuance_token_from_entropy(AssetEntropy::from_byte_array(entropy), confidential).to_byte_array()
}

} // verus!
