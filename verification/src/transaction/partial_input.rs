use vstd::prelude::*;

use crate::bytes::{is_zero32, spec_zero32, zero32};
use crate::encoding::{
    decode_txout, hex_decode, is_blank, parse_txid, spec_decode_txout, spec_hex_decode,
    spec_is_blank, spec_parse_hash32,
};
use crate::error::InputError;

verus! {

/// The output an input spends: a transaction id (internal byte order) and an output index.
#[derive(Debug, Clone, Copy, PartialEq, Eq)]
pub struct OutPoint {
    /// The referenced transaction's id.
    pub txid: [u8; 32],
    /// The index of the referenced output in that transaction.
    pub vout: u32,
}

impl OutPoint {
    /// Creates an outpoint.
    pub fn new(txid: [u8; 32], vout: u32) -> (r: OutPoint)
        ensures
            r == (OutPoint { txid, vout }),
    {
        OutPoint { txid, vout }
    }
}

/// The order of the secp256k1 group, `n`.
pub const SECP256K1_ORDER: [u8; 32] = [
    0xff, 0xff, 0xff, 0xff, 0xff, 0xff, 0xff, 0xff, 0xff, 0xff, 0xff, 0xff, 0xff, 0xff, 0xff, 0xfe,
    0xba, 0xae, 0xdc, 0xe6, 0xaf, 0x48, 0xa0, 0x3b, 0xbf, 0xd2, 0x5e, 0x8c, 0xd0, 0x36, 0x41, 0x41,
];

/// Whether the big-endian number `a` is below the big-endian number `b`, both of the same
/// length: at the first byte where they differ, `a`'s is the smaller.
pub open spec fn be_less(a: Seq<u8>, b: Seq<u8>) -> bool {
    exists|i: int|
        0 <= i < a.len() && a.len() == b.len() && a[i] < b[i] && #[trigger] a.take(i) == b.take(i)
}

/// Whether 32 bytes are a blinding factor: a number, read big-endian, below the group order
/// (zero, the factor of an explicit output, among them).
pub open spec fn is_blinding_factor(bf: [u8; 32]) -> bool {
    be_less(bf@, SECP256K1_ORDER@)
}

/// Whether `bf` is a blinding factor: compared with the group order byte by byte.
pub fn check_blinding_factor(bf: &[u8; 32]) -> (r: bool)
    ensures
        r == is_blinding_factor(*bf),
{
    let order = SECP256K1_ORDER;
    let mut i: usize = 0;
    while i < 32
        invariant
            i <= 32,
            order@ == SECP256K1_ORDER@,
            bf@.take(i as int) == order@.take(i as int),
        decreases 32 - i,
    {
        if bf[i] < order[i] {
            return true;
        }
        if bf[i] > order[i] {
            proof {
                assert forall|j: int| 0 <= j < 32 implies !(bf@[j] < order@[j] && #[trigger] bf@.take(j) == order@.take(j)) by {
                    if j > i {
                        assert(bf@.take(j)[i as int] == bf@[i as int]);
                        assert(order@.take(j)[i as int] == order@[i as int]);
                    } else if j < i {
                        assert(bf@[j] == bf@.take(i as int)[j]);
                        assert(order@[j] == order@.take(i as int)[j]);
                    }
                }
            }
            return false;
        }
        assert(bf@.take(i + 1) =~= bf@.take(i as int).push(bf@[i as int]));
        assert(order@.take(i + 1) =~= order@.take(i as int).push(order@[i as int]));
        i = i + 1;
    }
    proof {
        assert forall|j: int| 0 <= j < 32 implies !(bf@[j] < order@[j] && #[trigger] bf@.take(j) == order@.take(j)) by {
            assert(bf@[j] == bf@.take(32)[j]);
            assert(order@[j] == order@.take(32)[j]);
        }
    }
    false
}

/// The unblinded contents of an output: asset and value with their blinding factors. Both
/// factors are below the group order; a value of this type is had only through `new`, which
/// checks them, or `explicit`.
#[derive(Debug, Clone, Copy, PartialEq, Eq)]
pub struct TxOutSecrets {
    /// The asset.
    pub(crate) asset: [u8; 32],
    /// The asset blinding factor.
    pub(crate) asset_bf: [u8; 32],
    /// The value.
    pub(crate) value: u64,
    /// The value blinding factor.
    pub(crate) value_bf: [u8; 32],
}

impl TxOutSecrets {
    #[verifier::type_invariant]
    spec fn factors_in_range(self) -> bool {
        is_blinding_factor(self.asset_bf) && is_blinding_factor(self.value_bf)
    }

    /// The asset.
    pub closed spec fn spec_asset(self) -> [u8; 32] {
        self.asset
    }

    /// The asset blinding factor.
    pub closed spec fn spec_asset_bf(self) -> [u8; 32] {
        self.asset_bf
    }

    /// The value.
    pub closed spec fn spec_value(self) -> u64 {
        self.value
    }

    /// The value blinding factor.
    pub closed spec fn spec_value_bf(self) -> [u8; 32] {
        self.value_bf
    }

    /// The secrets of an explicit output: its asset and value with zero blinding factors.
    pub closed spec fn spec_explicit(asset: [u8; 32], value: u64) -> TxOutSecrets {
        TxOutSecrets { asset, asset_bf: spec_zero32(), value, value_bf: spec_zero32() }
    }

    /// The fields of the secrets of an explicit output.
    pub proof fn lemma_explicit_fields(asset: [u8; 32], value: u64)
        ensures
            Self::spec_explicit(asset, value).spec_asset() == asset,
            Self::spec_explicit(asset, value).spec_value() == value,
            is_zero32(Self::spec_explicit(asset, value).spec_asset_bf()),
            is_zero32(Self::spec_explicit(asset, value).spec_value_bf()),
    {
    }

    /// The secrets of an output, when both blinding factors are below the group order;
    /// nothing otherwise.
    pub fn new(asset: [u8; 32], asset_bf: [u8; 32], value: u64, value_bf: [u8; 32]) -> (r: Option<
        TxOutSecrets,
    >)
        ensures
            (if is_blinding_factor(asset_bf) && is_blinding_factor(value_bf) {
                r matches Some(s) && s.spec_asset() == asset && s.spec_asset_bf() == asset_bf
                    && s.spec_value() == value && s.spec_value_bf() == value_bf
            } else {
                r is None
            }),
    {
        if check_blinding_factor(&asset_bf) && check_blinding_factor(&value_bf) {
            Some(TxOutSecrets { asset, asset_bf, value, value_bf })
        } else {
            None
        }
    }

    /// The secrets of an explicit output: its asset and value with zero blinding factors.
    pub fn explicit(asset: [u8; 32], value: u64) -> (r: TxOutSecrets)
        ensures
            r == Self::spec_explicit(asset, value),
            r.spec_asset() == asset,
            r.spec_value() == value,
            is_zero32(r.spec_asset_bf()),
            is_zero32(r.spec_value_bf()),
    {
        let zero = zero32();
        proof {
            assert(zero@.take(0) =~= SECP256K1_ORDER@.take(0));
            assert(zero@[0] < SECP256K1_ORDER@[0]);
        }
        TxOutSecrets { asset, asset_bf: zero, value, value_bf: zero }
    }

    /// The asset.
    pub fn asset(&self) -> (r: [u8; 32])
        ensures
            r == self.spec_asset(),
    {
        self.asset
    }

    /// The asset blinding factor.
    pub fn asset_bf(&self) -> (r: [u8; 32])
        ensures
            r == self.spec_asset_bf(),
            is_blinding_factor(r),
    {
        proof {
            use_type_invariant(self);
        }
        self.asset_bf
    }

    /// The value.
    pub fn value(&self) -> (r: u64)
        ensures
            r == self.spec_value(),
    {
        self.value
    }

    /// The value blinding factor.
    pub fn value_bf(&self) -> (r: [u8; 32])
        ensures
            r == self.spec_value_bf(),
            is_blinding_factor(r),
    {
        proof {
            use_type_invariant(self);
        }
        self.value_bf
    }
}

/// An unspent output the wallet can fund a transaction with.
#[derive(Debug, Clone, PartialEq, Eq)]
pub struct UTXO {
    /// Where the output is.
    pub outpoint: OutPoint,
    /// The consensus encoding of the output.
    pub txout: Vec<u8>,
    /// The output's asset, when it is explicit.
    pub explicit_asset: Option<[u8; 32]>,
    /// The output's value, when it is explicit.
    pub explicit_value: Option<u64>,
    /// The unblinded asset and value, when the output is confidential and was unblinded.
    pub secrets: Option<TxOutSecrets>,
}

impl UTXO {
    /// Whether the output's value is known, unblinded or explicit.
    pub open spec fn has_known_value(self) -> bool {
        self.secrets is Some || self.explicit_value is Some
    }

    /// The output's value: the unblinded one when there are secrets, else the explicit one.
    pub open spec fn spec_amount(self) -> u64 {
        match self.secrets {
            Some(s) => s.spec_value(),
            None => self.explicit_value.unwrap(),
        }
    }

    /// Whether the explicit asset and value are those that the encoded output carries.
    pub open spec fn is_decoded(self) -> bool {
        spec_decode_txout(self.txout@) == Some((self.explicit_asset, self.explicit_value))
    }

    /// The unspent output at `outpoint` whose consensus encoding is `txout`, its explicit
    /// asset and value read from the encoding; nothing when the bytes are no output.
    pub fn from_encoding(outpoint: OutPoint, txout: Vec<u8>, secrets: Option<TxOutSecrets>) -> (r:
        Option<UTXO>)
        ensures
            (match spec_decode_txout(txout@) {
                Some((asset, value)) => r matches Some(u) && u.outpoint == outpoint && u.txout@
                    == txout@ && u.explicit_asset == asset && u.explicit_value == value
                    && u.secrets == secrets,
                None => r is None,
            }),
            r matches Some(u) ==> u.is_decoded(),
    {
        match decode_txout(txout.as_slice()) {
            Some((explicit_asset, explicit_value)) => Some(
                UTXO { outpoint, txout, explicit_asset, explicit_value, secrets },
            ),
            None => None,
        }
    }

    /// The output's value: the unblinded one when there are secrets, else the explicit one.
    pub fn amount(&self) -> (r: u64)
        requires
            self.has_known_value(),
        ensures
            r == self.spec_amount(),
    {
        match &self.secrets {
            Some(s) => s.value(),
            None => self.explicit_value.unwrap(),
        }
    }
}

/// The signature an input asks the signer for.
#[derive(Debug, Clone, PartialEq, Eq)]
pub enum RequiredSignature {
    /// No signature.
    NotRequired,
    /// An ECDSA signature over a plain P2WPKH spend.
    NativeEcdsa,
    /// A Schnorr signature placed in the named witness of the input's program.
    Witness(String),
    /// A Schnorr signature placed at a path inside the named witness of the input's program.
    WitnessWithPath(String, Vec<String>),
}

/// An asset issuance or reissuance carried by an input.
#[derive(Debug, Clone, Copy, PartialEq, Eq)]
pub enum IssuanceInput {
    /// A new issuance; `asset_entropy` is the contract hash the entropy is derived from.
    Issuance {
        /// The amount of the new asset issued.
        issuance_amount: u64,
        /// The amount of reissuance tokens issued alongside.
        inflation_amount: u64,
        /// The contract hash.
        asset_entropy: [u8; 32],
    },
    /// A reissuance of an existing asset; `asset_entropy` is that asset's entropy.
    Reissuance {
        /// The amount reissued.
        issuance_amount: u64,
        /// The asset's entropy.
        asset_entropy: [u8; 32],
    },
}

impl IssuanceInput {
    /// A new issuance of `issuance_amount` with `inflation_amount` reissuance tokens.
    pub fn new_issuance(issuance_amount: u64, inflation_amount: u64, asset_entropy: [u8; 32]) -> (r:
        IssuanceInput)
        ensures
            r == (IssuanceInput::Issuance { issuance_amount, inflation_amount, asset_entropy }),
    {
        IssuanceInput::Issuance { issuance_amount, inflation_amount, asset_entropy }
    }

    /// A reissuance of `issuance_amount` of the asset with the given entropy.
    pub fn new_reissuance(issuance_amount: u64, asset_entropy: [u8; 32]) -> (r: IssuanceInput)
        ensures
            r == (IssuanceInput::Reissuance { issuance_amount, asset_entropy }),
    {
        IssuanceInput::Reissuance { issuance_amount, asset_entropy }
    }
}

/// An input under construction: the output it spends and what is known about it.
#[derive(Debug, Clone, PartialEq, Eq)]
pub struct PartialInput {
    /// The id of the transaction whose output is spent.
    pub witness_txid: [u8; 32],
    /// The index of the spent output.
    pub witness_output_index: u32,
    /// The consensus encoding of the spent output.
    pub txout: Vec<u8>,
    /// The spent output's asset, when it is explicit.
    pub asset: Option<[u8; 32]>,
    /// The spent output's value, when it is explicit.
    pub amount: Option<u64>,
    /// The unblinded asset and value, when the spent output is confidential.
    pub secrets: Option<TxOutSecrets>,
    /// The input's sequence number, when one is required.
    pub sequence: Option<u32>,
    /// The key derivation path, relative to the signer's account, of the key that signs it.
    pub derivation_path: Option<Vec<u32>>,
}

impl PartialInput {
    /// The input spending the given output, with no sequence and the default signing key.
    pub fn new(utxo: UTXO) -> (r: PartialInput)
        ensures
            r.witness_txid == utxo.outpoint.txid,
            r.witness_output_index == utxo.outpoint.vout,
            r.txout == utxo.txout,
            r.asset == utxo.explicit_asset,
            r.amount == utxo.explicit_value,
            r.secrets == utxo.secrets,
            r.sequence is None,
            r.derivation_path is None,
            utxo.is_decoded() ==> r.is_decoded(),
    {
        PartialInput {
            witness_txid: utxo.outpoint.txid,
            witness_output_index: utxo.outpoint.vout,
            txout: utxo.txout,
            asset: utxo.explicit_asset,
            amount: utxo.explicit_value,
            secrets: utxo.secrets,
            sequence: None,
            derivation_path: None,
        }
    }

    /// Whether the explicit asset and amount are those that the encoded spent output carries.
    pub open spec fn is_decoded(self) -> bool {
        spec_decode_txout(self.txout@) == Some((self.asset, self.amount))
    }

    /// The outpoint this input spends.
    pub open spec fn spec_outpoint(self) -> OutPoint {
        OutPoint { txid: self.witness_txid, vout: self.witness_output_index }
    }

    /// The outpoint this input spends.
    pub fn outpoint(&self) -> (r: OutPoint)
        ensures
            r == self.spec_outpoint(),
    {
        OutPoint { txid: self.witness_txid, vout: self.witness_output_index }
    }

    /// The same input with the given sequence number.
    pub fn with_sequence(self, sequence: u32) -> (r: PartialInput)
        ensures
            r == (PartialInput { sequence: Some(sequence), ..self }),
    {
        PartialInput { sequence: Some(sequence), ..self }
    }

    /// The same input signed with the key at the given path relative to the signer's account.
    pub fn with_derivation_path(self, path: Vec<u32>) -> (r: PartialInput)
        ensures
            r == (PartialInput { derivation_path: Some(path), ..self }),
    {
        PartialInput { derivation_path: Some(path), ..self }
    }
}

/// Applies a declared sequence to an input, when one was declared; otherwise the input is
/// returned as it is.
pub fn with_sequence(input: PartialInput, sequence: Option<u32>) -> (r: PartialInput)
    ensures
        r == (match sequence {
            Some(value) => PartialInput { sequence: Some(value), ..input },
            None => input,
        }),
{
    match sequence {
        Some(value) => input.with_sequence(value),
        None => input,
    }
}

/// Whether the inputs of a wallet input, given encoded, all parse: the txid, the hex of the
/// spent output, and the output itself.
pub open spec fn wallet_input_parses(txid_hex: Seq<char>, tx_out_hex: Seq<char>) -> bool {
    &&& spec_parse_hash32(txid_hex) is Some
    &&& spec_hex_decode(tx_out_hex) is Some
    &&& spec_decode_txout(spec_hex_decode(tx_out_hex).unwrap()) is Some
}

/// The ordinary wallet input spending output `vout` of the transaction `txid_hex` (64 hex
/// digits, shown reversed), whose consensus encoding is the hex `tx_out_hex`, with the
/// sequence applied when one is given. The first of the three that does not parse decides
/// the error.
pub fn wallet_input_from_encoding(
    txid_hex: &str,
    vout: u32,
    tx_out_hex: &str,
    sequence: Option<u32>,
) -> (r: Result<PartialInput, InputError>)
    ensures
        spec_parse_hash32(txid_hex@) is None ==> r == Err::<PartialInput, InputError>(
            InputError::InvalidTxid,
        ),
        spec_parse_hash32(txid_hex@) is Some && spec_hex_decode(tx_out_hex@) is None ==> r == Err::<
            PartialInput,
            InputError,
        >(InputError::InvalidOutputEncoding),
        spec_parse_hash32(txid_hex@) is Some && spec_hex_decode(tx_out_hex@) is Some
            && spec_decode_txout(spec_hex_decode(tx_out_hex@).unwrap()) is None ==> r == Err::<
            PartialInput,
            InputError,
        >(InputError::InvalidOutput),
        r is Ok <==> wallet_input_parses(txid_hex@, tx_out_hex@),
        r matches Ok(input) ==> {
            let bytes = spec_hex_decode(tx_out_hex@).unwrap();
            &&& input.witness_txid@ == spec_parse_hash32(txid_hex@).unwrap()
            &&& input.witness_output_index == vout
            &&& input.txout@ == bytes
            &&& spec_decode_txout(bytes) == Some((input.asset, input.amount))
            &&& input.secrets is None
            &&& input.sequence == sequence
            &&& input.derivation_path is None
        },
{
    let txid = match parse_txid(txid_hex) {
        Some(t) => t,
        None => return Err(InputError::InvalidTxid),
    };
    let bytes = match hex_decode(tx_out_hex) {
        Some(b) => b,
        None => return Err(InputError::InvalidOutputEncoding),
    };
    let utxo = match UTXO::from_encoding(OutPoint::new(txid, vout), bytes, None) {
        Some(u) => u,
        None => return Err(InputError::InvalidOutput),
    };
    Ok(with_sequence(PartialInput::new(utxo), sequence))
}

/// The signature a covenant input asks for, given the name of the witness the signer is to
/// fill: a name that is not blank asks for a signature in that witness; no name, or a blank
/// one, asks for none.
pub fn covenant_signature(name: Option<String>) -> (r: RequiredSignature)
    ensures
        r == (match name {
            Some(n) => if spec_is_blank(n@) {
                RequiredSignature::NotRequired
            } else {
                RequiredSignature::Witness(n)
            },
            None => RequiredSignature::NotRequired,
        }),
{
    match name {
        Some(n) => {
            if is_blank(n.as_str()) {
                RequiredSignature::NotRequired
            } else {
                RequiredSignature::Witness(n)
            }
        },
        None => RequiredSignature::NotRequired,
    }
}

} // verus!
