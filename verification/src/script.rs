//! The script of an `OP_RETURN` data-carrier output.
use vstd::prelude::*;

verus! {

/// The opcode that marks an output provably unspendable and carries data.
pub const OP_RETURN: u8 = 0x6a;

/// The bytes that announce a data push of `n` bytes: the length itself below 0x4c, else
/// `OP_PUSHDATA1`, `OP_PUSHDATA2` or `OP_PUSHDATA4` followed by the length, little-endian.
pub open spec fn push_prefix(n: nat) -> Seq<u8> {
    if n < 0x4c {
        seq![n as u8]
    } else if n < 0x100 {
        seq![0x4cu8, n as u8]
    } else if n < 0x1_0000 {
        seq![0x4du8, (n % 0x100) as u8, (n / 0x100) as u8]
    } else {
        seq![
            0x4eu8,
            (n % 0x100) as u8,
            ((n / 0x100) % 0x100) as u8,
            ((n / 0x1_0000) % 0x100) as u8,
            (n / 0x100_0000) as u8,
        ]
    }
}

/// The script of an `OP_RETURN` output carrying `data`: the opcode, then one push of the data.
pub open spec fn spec_op_return_script(data: Seq<u8>) -> Seq<u8> {
    seq![OP_RETURN] + push_prefix(data.len()) + data
}

/// The script of an `OP_RETURN` output carrying `data`, as `elements` builds it with
/// `Script::new_op_return`: the opcode, then the shortest push of the data.
pub fn op_return_script(data: &[u8]) -> (r: Vec<u8>)
    requires
        data@.len() < 0x1_0000_0000,
    ensures
        r@ == spec_op_return_script(data@),
{
    let n = data.len();
    let mut r: Vec<u8> = Vec::new();
    r.push(OP_RETURN);
    if n < 0x4c {
        r.push(n as u8);
    } else if n < 0x100 {
        r.push(0x4c);
        r.push(n as u8);
    } else if n < 0x1_0000 {
        r.push(0x4d);
        r.push((n % 0x100) as u8);
        r.push((n / 0x100) as u8);
    } else {
        r.push(0x4e);
        r.push((n % 0x100) as u8);
        r.push(((n / 0x100) % 0x100) as u8);
        r.push(((n / 0x1_0000) % 0x100) as u8);
        r.push((n / 0x100_0000) as u8);
    }
    let ghost prefix = r@;
    assert(prefix =~= seq![OP_RETURN] + push_prefix(n as nat));
    let mut i: usize = 0;
    while i < n
        invariant
            i <= n,
            n == data@.len(),
            r@ =~= prefix + data@.subrange(0, i as int),
        decreases n - i,
    {
        r.push(data[i]);
        i = i + 1;
        assert(r@ =~= prefix + data@.subrange(0, i as int));
    }
    assert(data@.subrange(0, n as int) =~= data@);
    r
}

} // verus!
