//! Text and byte encodings a host hands in: hex, 32-byte hashes shown reversed, consensus
//! encoded outputs, public keys, and the small rules around them.
use vstd::prelude::*;

use std::str::FromStr;

use elements_miniscript::bitcoin::PublicKey;
use simplicityhl::elements;
use simplicityhl::elements::{AssetId, TxOut, Txid};

verus! {

/// The value of a hexadecimal digit, either case; `None` for any other character.
pub open spec fn spec_hex_nibble(c: char) -> Option<int> {
    let v = c as int;
    if 0x30 <= v <= 0x39 {
        Some(v - 0x30)
    } else if 0x41 <= v <= 0x46 {
        Some(v - 0x41 + 10)
    } else if 0x61 <= v <= 0x66 {
        Some(v - 0x61 + 10)
    } else {
        None
    }
}

/// Whether `s` is hex text: an even number of characters, each a hexadecimal digit.
pub open spec fn is_hex_text(s: Seq<char>) -> bool {
    &&& s.len() % 2 == 0
    &&& forall|i: int| 0 <= i < s.len() ==> (#[trigger] spec_hex_nibble(s[i])) is Some
}

/// The bytes that hex text stands for: each pair of digits, high digit first.
pub open spec fn spec_hex_bytes(s: Seq<char>) -> Seq<u8> {
    Seq::new(
        s.len() / 2,
        |i: int| (16 * spec_hex_nibble(s[2 * i]).unwrap() + spec_hex_nibble(s[2 * i + 1]).unwrap()) as u8,
    )
}

/// What decoding `s` as hex gives: its bytes when it is hex text, else nothing.
pub open spec fn spec_hex_decode(s: Seq<char>) -> Option<Seq<u8>> {
    if is_hex_text(s) {
        Some(spec_hex_bytes(s))
    } else {
        None
    }
}

/// What parsing `s` as a 32-byte hash (a transaction or an asset id) gives: the text is
/// exactly 64 hexadecimal digits, shown with the last byte first.
pub open spec fn spec_parse_hash32(s: Seq<char>) -> Option<Seq<u8>> {
    if s.len() == 64 && is_hex_text(s) {
        Some(spec_hex_bytes(s).reverse())
    } else {
        None
    }
}

/// Whether `c` has the Unicode `White_Space` property.
pub open spec fn is_white_space(c: char) -> bool {
    let v = c as int;
    ||| 0x09 <= v <= 0x0d
    ||| v == 0x20
    ||| v == 0x85
    ||| v == 0xa0
    ||| v == 0x1680
    ||| 0x2000 <= v <= 0x200a
    ||| v == 0x2028
    ||| v == 0x2029
    ||| v == 0x202f
    ||| v == 0x205f
    ||| v == 0x3000
}

/// Whether `s` holds nothing but white space (the empty text included).
pub open spec fn spec_is_blank(s: Seq<char>) -> bool {
    forall|i: int| 0 <= i < s.len() ==> #[trigger] is_white_space(s[i])
}

/// The text of an extra leaf with one leading `0x` taken off, when it has one.
pub open spec fn spec_strip_hex_prefix(s: Seq<char>) -> Seq<char> {
    if s.len() >= 2 && s[0] == '0' && s[1] == 'x' {
        s.subrange(2, s.len() as int)
    } else {
        s
    }
}

/// What an extra leaf's text gives: one leading `0x` taken off, then hex.
pub open spec fn spec_extra_leaf(s: Seq<char>) -> Option<Seq<u8>> {
    spec_hex_decode(spec_strip_hex_prefix(s))
}

/// The explicit asset and value read from a consensus-encoded output, or nothing where the
/// bytes are not exactly one such output.
pub uninterp spec fn spec_decode_txout(bytes: Seq<u8>) -> Option<(Option<[u8; 32]>, Option<u64>)>;

/// The serialized public key that a text parses to, or nothing where it is no valid key.
pub uninterp spec fn spec_parse_public_key(s: Seq<char>) -> Option<Seq<u8>>;

/// Calls `hex::decode`, which accepts an even number of hexadecimal digits of either case
/// and gives one byte per pair, high digit first; any other text is refused.
#[verifier::external_body]
pub(crate) fn hex_decode(s: &str) -> (r: Option<Vec<u8>>)
    ensures
        (match spec_hex_decode(s@) {
            Some(b) => r matches Some(v) && v@ == b,
            None => r is None,
        }),
{
    hex::decode(s).ok()
}

/// Calls `Txid::from_str` of `elements`, which takes exactly 64 hexadecimal digits and
/// reverses the decoded bytes (a txid is shown last byte first); the internal bytes are
/// returned.
#[verifier::external_body]
pub(crate) fn parse_txid(s: &str) -> (r: Option<[u8; 32]>)
    ensures
        (match spec_parse_hash32(s@) {
            Some(b) => r matches Some(a) && a@ == b,
            None => r is None,
        }),
{
    match Txid::from_str(s) {
        Ok(txid) => Some(txid.to_byte_array()),
        Err(_) => None,
    }
}

/// Calls `AssetId::from_str` of `elements`, which takes exactly 64 hexadecimal digits and
/// reverses the decoded bytes; the internal bytes are returned.
#[verifier::external_body]
pub(crate) fn parse_asset_id(s: &str) -> (r: Option<[u8; 32]>)
    ensures
        (match spec_parse_hash32(s@) {
            Some(b) => r matches Some(a) && a@ == b,
            None => r is None,
        }),
{
    match AssetId::from_str(s) {
        Ok(asset) => Some(asset.to_byte_array()),
        Err(_) => None,
    }
}

/// Calls `elements::encode::deserialize` for a `TxOut`, which refuses bytes that are not
/// exactly one encoded output, and reads the output's explicit asset and value. The decoding
/// rules are those of the Elements consensus encoding and are left to the name.
#[verifier::external_body]
pub(crate) fn decode_txout(bytes: &[u8]) -> (r: Option<(Option<[u8; 32]>, Option<u64>)>)
    ensures
        r == spec_decode_txout(bytes@),
{
    match elements::encode::deserialize::<TxOut>(bytes) {
        Ok(txout) => {
            let asset = match txout.asset.explicit() {
                Some(a) => Some(a.to_byte_array()),
                None => None,
            };
            Some((asset, txout.value.explicit()))
        },
        Err(_) => None,
    }
}

/// Calls `PublicKey::from_str` of `bitcoin` and serializes the key it gives. Which texts
/// are keys (66 or 130 hexadecimal digits naming a point on secp256k1) is left to the name.
#[verifier::external_body]
pub(crate) fn parse_public_key(s: &str) -> (r: Option<Vec<u8>>)
    ensures
        (match spec_parse_public_key(s@) {
            Some(b) => r matches Some(v) && v@ == b,
            None => r is None,
        }),
{
    match PublicKey::from_str(s) {
        Ok(key) => Some(key.to_bytes()),
        Err(_) => None,
    }
}

/// Whether `c` has the Unicode `White_Space` property.
pub fn is_white_space_char(c: char) -> (r: bool)
    ensures
        r == is_white_space(c),
{
    let v = c as u32;
    (0x09 <= v && v <= 0x0d) || v == 0x20 || v == 0x85 || v == 0xa0 || v == 0x1680 || (0x2000
        <= v && v <= 0x200a) || v == 0x2028 || v == 0x2029 || v == 0x202f || v == 0x205f || v
        == 0x3000
}

/// Whether `s` holds nothing but white space: what trimming it to nothing means.
pub fn is_blank(s: &str) -> (r: bool)
    ensures
        r == spec_is_blank(s@),
{
    let n = s.unicode_len();
    let mut i: usize = 0;
    while i < n
        invariant
            i <= n,
            n == s@.len(),
            forall|j: int| 0 <= j < i ==> #[trigger] is_white_space(s@[j]),
        decreases n - i,
    {
        if !is_white_space_char(s.get_char(i)) {
            return false;
        }
        i = i + 1;
    }
    true
}

/// Decodes an extra leaf given as hex, with or without one leading `0x`.
pub fn parse_extra_leaf(s: &str) -> (r: Option<Vec<u8>>)
    ensures
        (match spec_extra_leaf(s@) {
            Some(b) => r matches Some(v) && v@ == b,
            None => r is None,
        }),
{
    let n = s.unicode_len();
    if n >= 2 && s.get_char(0) == '0' && s.get_char(1) == 'x' {
        hex_decode(s.substring_char(2, n))
    } else {
        hex_decode(s)
    }
}

/// Decodes every extra leaf in order; the error carries the index of the first leaf that is
/// not hex.
pub fn decode_extra_leaves(leaves: &Vec<String>) -> (r: Result<Vec<Vec<u8>>, usize>)
    ensures
        (match r {
            Ok(v) => {
                &&& v.len() == leaves.len()
                &&& forall|i: int|
                    0 <= i < leaves.len() ==> spec_extra_leaf(#[trigger] leaves[i]@) == Some(
                        v[i]@,
                    )
            },
            Err(k) => {
                &&& k < leaves.len()
                &&& spec_extra_leaf(leaves[k as int]@) is None
                &&& forall|j: int| 0 <= j < k ==> (#[trigger] spec_extra_leaf(leaves[j]@)) is Some
            },
        }),
{
    let mut out: Vec<Vec<u8>> = Vec::new();
    let mut i: usize = 0;
    while i < leaves.len()
        invariant
            i <= leaves.len(),
            out.len() == i,
            forall|j: int| 0 <= j < i ==> spec_extra_leaf(#[trigger] leaves[j]@) == Some(out[j]@),
        decreases leaves.len() - i,
    {
        match parse_extra_leaf(leaves[i].as_str()) {
            Some(bytes) => out.push(bytes),
            None => return Err(i),
        }
        i = i + 1;
    }
    Ok(out)
}

} // verus!
