use vstd::prelude::*;

use crate::encoding::{hex_decode, spec_hex_decode, spec_parse_public_key};
use crate::error::OutputError;
use crate::transaction::partial_output::BlindingKey;

verus! {

/// Where a transaction's change should go, supplied by the caller.
///
/// Without this the signer would send change to the single address it derives internally.
#[derive(Debug, Clone, PartialEq, Eq)]
pub struct ChangeOutput {
    /// The script the change output pays to.
    pub script_pubkey: Vec<u8>,
    /// The serialized blinding public key, when the change output is confidential.
    pub blinding_key: Option<BlindingKey>,
}

impl ChangeOutput {
    /// Creates an explicit (unblinded) change target.
    pub fn new(script_pubkey: Vec<u8>) -> (r: ChangeOutput)
        ensures
            r == (ChangeOutput { script_pubkey, blinding_key: None }),
    {
        ChangeOutput { script_pubkey, blinding_key: None }
    }

    /// Attaches a blinding public key, making the change output confidential.
    pub fn with_blinding_key(self, blinding_key: BlindingKey) -> (r: ChangeOutput)
        ensures
            r == (ChangeOutput { script_pubkey: self.script_pubkey, blinding_key: Some(blinding_key) }),
    {
        ChangeOutput { script_pubkey: self.script_pubkey, blinding_key: Some(blinding_key) }
    }
}

/// The change target paying to the script whose hex is `script_hex`, confidential when a
/// blinding key is given: an unreadable script is refused first, then an invalid key.
pub fn change_from_encoding(script_hex: &str, blinding_key_hex: Option<&str>) -> (r: Result<
    ChangeOutput,
    OutputError,
>)
    ensures
        spec_hex_decode(script_hex@) is None ==> r == Err::<ChangeOutput, OutputError>(
            OutputError::InvalidScript,
        ),
        spec_hex_decode(script_hex@) is Some && (blinding_key_hex matches Some(k)
            && spec_parse_public_key(k@) is None) ==> r == Err::<ChangeOutput, OutputError>(
            OutputError::InvalidBlindingKey,
        ),
        r is Ok <==> (spec_hex_decode(script_hex@) is Some && (blinding_key_hex matches Some(k)
            ==> spec_parse_public_key(k@) is Some)),
        r matches Ok(c) ==> {
            &&& c.script_pubkey@ == spec_hex_decode(script_hex@).unwrap()
            &&& (match blinding_key_hex {
                Some(k) => c.blinding_key matches Some(b) && b@ == spec_parse_public_key(k@).unwrap(),
                None => c.blinding_key is None,
            })
        },
{
    let script = match hex_decode(script_hex) {
        Some(s) => s,
        None => return Err(OutputError::InvalidScript),
    };
    let change = ChangeOutput::new(script);
    match blinding_key_hex {
        Some(k) => match BlindingKey::parse(k) {
            Some(key) => Ok(change.with_blinding_key(key)),
            None => Err(OutputError::InvalidBlindingKey),
        },
        None => Ok(change),
    }
}

} // verus!
