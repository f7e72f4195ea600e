//! The signer's per-input signing decisions and the wallet descriptors it derives keys from.
use vstd::prelude::*;
use vstd::string::StringExecFns;

use crate::transaction::final_transaction::FinalInput;
use crate::transaction::partial_input::RequiredSignature;

verus! {

/// How the signer finalizes one input.
pub enum SigningPlan<'a> {
    /// The input spends a program output: build its witness, sign the program's sighash with
    /// Schnorr and inject the signature into the named witness, at the path inside it when
    /// one is given, then prune the program.
    SignedWitness {
        /// The witness that receives the signature.
        witness_name: &'a String,
        /// Where inside that witness the signature goes, when not the witness itself.
        sig_path: Option<&'a Vec<String>>,
    },
    /// The input spends a program output that needs no signature: build its witness and
    /// prune the program.
    UnsignedWitness,
    /// A plain input: sign it with ECDSA and put the signature and public key in its witness.
    Ecdsa,
}

/// How the signer finalizes `input`: by its program's witness when it has a program (signed
/// when a witness is named for the signature), else by an ECDSA signature, whatever
/// signature the input asked for.
pub fn signing_plan<'a, P>(input: &'a FinalInput<P>) -> (r: SigningPlan<'a>)
    ensures
        match input.program_input {
            Some(_) => match input.required_sig {
                RequiredSignature::Witness(name) => r matches SigningPlan::SignedWitness {
                    witness_name,
                    sig_path,
                } && *witness_name == name && sig_path is None,
                RequiredSignature::WitnessWithPath(name, path) => r matches SigningPlan::SignedWitness {
                    witness_name,
                    sig_path,
                } && *witness_name == name && (sig_path matches Some(p) && *p == path),
                _ => r is UnsignedWitness,
            },
            None => r is Ecdsa,
        },
{
    if input.program_input.is_some() {
        match &input.required_sig {
            RequiredSignature::Witness(name) => SigningPlan::SignedWitness {
                witness_name: name,
                sig_path: None,
            },
            RequiredSignature::WitnessWithPath(name, path) => SigningPlan::SignedWitness {
                witness_name: name,
                sig_path: Some(path),
            },
            _ => SigningPlan::UnsignedWitness,
        }
    } else {
        SigningPlan::Ecdsa
    }
}

/// The wallet's native-segwit descriptor: `elwpkh([FINGERPRINT/PATH]XPUB/<0;1>/*)`.
pub open spec fn spec_wpkh_descriptor(fingerprint: Seq<char>, path: Seq<char>, xpub: Seq<char>) -> Seq<char> {
    "elwpkh(["@ + fingerprint + "/"@ + path + "]"@ + xpub + "/<0;1>/*)"@
}

/// The wallet's native-segwit descriptor from the master key fingerprint, the account path
/// and the account xpub, each in its textual form.
pub fn wpkh_descriptor(fingerprint: &str, path: &str, xpub: &str) -> (r: String)
    ensures
        r@ == spec_wpkh_descriptor(fingerprint@, path@, xpub@),
{
    let mut d = String::new();
    d.append("elwpkh([");
    d.append(fingerprint);
    d.append("/");
    d.append(path);
    d.append("]");
    d.append(xpub);
    d.append("/<0;1>/*)");
    assert(d@ =~= spec_wpkh_descriptor(fingerprint@, path@, xpub@));
    d
}

/// The wallet's confidential descriptor: `ct(slip77(KEY),WPKH)`.
pub open spec fn spec_slip77_descriptor(blinding_key: Seq<char>, wpkh_descriptor: Seq<char>) -> Seq<char> {
    "ct(slip77("@ + blinding_key + "),"@ + wpkh_descriptor + ")"@
}

/// The wallet's confidential descriptor from the SLIP77 master blinding key and the
/// native-segwit descriptor, each in its textual form.
pub fn slip77_descriptor(blinding_key: &str, wpkh_descriptor: &str) -> (r: String)
    ensures
        r@ == spec_slip77_descriptor(blinding_key@, wpkh_descriptor@),
{
    let mut d = String::new();
    d.append("ct(slip77(");
    d.append(blinding_key);
    d.append("),");
    d.append(wpkh_descriptor);
    d.append(")");
    assert(d@ =~= spec_slip77_descriptor(blinding_key@, wpkh_descriptor@));
    d
}

} // verus!
