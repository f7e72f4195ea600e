use vstd::prelude::*;

use crate::bytes::{is_zero32, zero32};
use crate::encoding::{
    hex_decode, parse_asset_id, parse_public_key, spec_hex_decode, spec_parse_hash32,
    spec_parse_public_key,
};
use crate::error::OutputError;
use crate::script::{op_return_script, spec_op_return_script};

verus! {

/// Whether `bytes` is what some text parses to as a public key.
pub open spec fn is_public_key(bytes: Seq<u8>) -> bool {
    exists|s: Seq<char>| #[trigger] spec_parse_public_key(s) == Some(bytes)
}

/// A blinding public key: the serialization of a valid secp256k1 point. It is had only by
/// parsing one, so no output carries a key that the blinder would refuse.
#[derive(Debug, PartialEq, Eq)]
pub struct BlindingKey {
    bytes: Vec<u8>,
}

impl Clone for BlindingKey {
    fn clone(&self) -> (r: BlindingKey)
        ensures
            r@ == self@,
    {
        proof {
            use_type_invariant(self);
        }
        let bytes = self.bytes.clone();
        assert(bytes@ == self.bytes@);
        BlindingKey { bytes }
    }
}

impl View for BlindingKey {
    type V = Seq<u8>;

    closed spec fn view(&self) -> Seq<u8> {
        self.bytes@
    }
}

impl BlindingKey {
    #[verifier::type_invariant]
    spec fn is_parsed(self) -> bool {
        is_public_key(self.bytes@)
    }

    /// Parses a public key given as hex, compressed or not.
    pub fn parse(s: &str) -> (r: Option<BlindingKey>)
        ensures
            (match spec_parse_public_key(s@) {
                Some(b) => r matches Some(k) && k@ == b,
                None => r is None,
            }),
    {
        match parse_public_key(s) {
            Some(bytes) => {
                assert(spec_parse_public_key(s@) == Some(bytes@));
                Some(BlindingKey { bytes })
            },
            None => None,
        }
    }

    /// The serialized key.
    pub fn as_bytes(&self) -> (r: &[u8])
        ensures
            r@ == self@,
            is_public_key(self@),
    {
        proof {
            use_type_invariant(self);
        }
        self.bytes.as_slice()
    }
}

/// Where a transaction's change should go, supplied by the caller.
///
/// A host that owns its own wallet derives change addresses itself; without this the
/// signer would send change to the single address it derives internally.
#[derive(Debug, Clone, PartialEq, Eq)]
pub struct ChangeTarget {
    /// The script the change output pays to.
    pub script_pubkey: Vec<u8>,
    /// The serialized blinding public key, when the change output is confidential.
    pub blinding_key: Option<BlindingKey>,
}

impl ChangeTarget {
    /// Creates an explicit (unblinded) change target.
    pub fn new(script_pubkey: Vec<u8>) -> (r: ChangeTarget)
        ensures
            r == (ChangeTarget { script_pubkey, blinding_key: None }),
    {
        ChangeTarget { script_pubkey, blinding_key: None }
    }

    /// Attaches a blinding public key, making the change output confidential.
    pub fn with_blinding_key(self, blinding_key: BlindingKey) -> (r: ChangeTarget)
        ensures
            r == (ChangeTarget { script_pubkey: self.script_pubkey, blinding_key: Some(blinding_key) }),
    {
        ChangeTarget { script_pubkey: self.script_pubkey, blinding_key: Some(blinding_key) }
    }
}

/// An output under construction.
#[derive(Debug, Clone, PartialEq, Eq)]
pub struct PartialOutput {
    /// The script the output pays to.
    pub script_pubkey: Vec<u8>,
    /// The amount of the output.
    pub amount: u64,
    /// The asset of the output, in internal byte order.
    pub asset: [u8; 32],
    /// The serialized blinding public key, when the output is to be confidential.
    pub blinding_key: Option<BlindingKey>,
}

impl PartialOutput {
    /// An explicit output paying `amount` of `asset` to `script`.
    pub fn new(script: Vec<u8>, amount: u64, asset: [u8; 32]) -> (r: PartialOutput)
        ensures
            r == (PartialOutput { script_pubkey: script, amount, asset, blinding_key: None }),
    {
        PartialOutput { script_pubkey: script, amount, asset, blinding_key: None }
    }

    /// An `OP_RETURN` output carrying `data`, of amount zero and the null asset.
    pub fn new_metadata(data: &[u8]) -> (r: PartialOutput)
        requires
            data@.len() < 0x1_0000_0000,
        ensures
            r.script_pubkey@ == spec_op_return_script(data@),
            r.amount == 0,
            is_zero32(r.asset),
            r.blinding_key is None,
    {
        PartialOutput {
            script_pubkey: op_return_script(data),
            amount: 0,
            asset: zero32(),
            blinding_key: None,
        }
    }

    /// The same output with a blinding public key attached, making it confidential.
    pub fn with_blinding_key(self, blinding_key: BlindingKey) -> (r: PartialOutput)
        ensures
            r == (PartialOutput { blinding_key: Some(blinding_key), ..self }),
    {
        PartialOutput { blinding_key: Some(blinding_key), ..self }
    }

    /// The blinder index the output gets in the PSET: input 0 when it is to be blinded
    /// (the wallet is the only signer), none otherwise.
    pub fn blinder_index(&self) -> (r: Option<u32>)
        ensures
            r == (if self.blinding_key is Some { Some(0u32) } else { None::<u32> }),
    {
        if self.blinding_key.is_some() {
            Some(0)
        } else {
            None
        }
    }
}

/// Whether the parts of an output, given encoded, all parse: the script's hex, the asset id,
/// and the blinding key when there is one.
pub open spec fn output_parses(
    script_hex: Seq<char>,
    asset_hex: Seq<char>,
    blinding_key_hex: Option<Seq<char>>,
) -> bool {
    &&& spec_hex_decode(script_hex) is Some
    &&& spec_parse_hash32(asset_hex) is Some
    &&& blinding_key_hex matches Some(k) ==> spec_parse_public_key(k) is Some
}

/// The view of an optional text.
pub open spec fn opt_text(s: Option<&str>) -> Option<Seq<char>> {
    match s {
        Some(t) => Some(t@),
        None => None,
    }
}

/// The output paying `amount` of the asset `asset_hex` (64 hex digits, shown reversed) to the
/// script whose hex is `script_hex`, confidential when a blinding key is given. The first
/// part that does not parse, in that order, decides the error.
pub fn output_from_encoding(
    script_hex: &str,
    amount: u64,
    asset_hex: &str,
    blinding_key_hex: Option<&str>,
) -> (r: Result<PartialOutput, OutputError>)
    ensures
        spec_hex_decode(script_hex@) is None ==> r == Err::<PartialOutput, OutputError>(
            OutputError::InvalidScript,
        ),
        spec_hex_decode(script_hex@) is Some && spec_parse_hash32(asset_hex@) is None ==> r == Err::<
            PartialOutput,
            OutputError,
        >(OutputError::InvalidAssetId),
        spec_hex_decode(script_hex@) is Some && spec_parse_hash32(asset_hex@) is Some && (
        blinding_key_hex matches Some(k) && spec_parse_public_key(k@) is None) ==> r == Err::<
            PartialOutput,
            OutputError,
        >(OutputError::InvalidBlindingKey),
        r is Ok <==> output_parses(script_hex@, asset_hex@, opt_text(blinding_key_hex)),
        r matches Ok(o) ==> {
            &&& o.script_pubkey@ == spec_hex_decode(script_hex@).unwrap()
            &&& o.amount == amount
            &&& o.asset@ == spec_parse_hash32(asset_hex@).unwrap()
            &&& (match blinding_key_hex {
                Some(k) => o.blinding_key matches Some(b) && b@ == spec_parse_public_key(k@).unwrap(),
                None => o.blinding_key is None,
            })
        },
{
    let script = match hex_decode(script_hex) {
        Some(s) => s,
        None => return Err(OutputError::InvalidScript),
    };
    let asset = match parse_asset_id(asset_hex) {
        Some(a) => a,
        None => return Err(OutputError::InvalidAssetId),
    };
    let output = PartialOutput::new(script, amount, asset);
    match blinding_key_hex {
        Some(k) => match BlindingKey::parse(k) {
            Some(key) => Ok(output.with_blinding_key(key)),
            None => Err(OutputError::InvalidBlindingKey),
        },
        None => Ok(output),
    }
}

} // verus!
