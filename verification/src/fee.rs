//! Fee arithmetic and the fee-rate lookup.
use vstd::prelude::*;

use crate::constants::WITNESS_SCALE_FACTOR;

verus! {

/// The confirmation targets (in blocks) tried, in this order, when no estimate exists for
/// the requested target.
pub const FEE_FALLBACK_TARGETS: [u32; 28] = [
    1, 2, 3, 4, 5, 6, 7, 8, 9, 10, 11, 12, 13, 14, 15, 16, 17, 18, 19, 20, 21, 22, 23, 24, 25,
    144, 504, 1008,
];

/// The fallback confirmation targets, in the order they are tried.
pub open spec fn spec_fallback_targets() -> Seq<u32> {
    seq![
        1u32, 2, 3, 4, 5, 6, 7, 8, 9, 10, 11, 12, 13, 14, 15, 16, 17, 18, 19, 20, 21, 22, 23,
        24, 25, 144, 504, 1008,
    ]
}

/// The virtual size of a transaction of the given weight: the weight divided by the
/// witness scale factor, rounded up.
pub open spec fn spec_virtual_size(weight: nat) -> nat {
    ((weight + 3) / 4) as nat
}

/// The virtual size of a transaction of the given weight: the weight divided by the
/// witness scale factor (four), rounded up.
pub fn virtual_size(weight: usize) -> (r: usize)
    ensures
        r == spec_virtual_size(weight as nat),
        r * 4 >= weight,
        r * 4 < weight + 4,
{
    let q = weight / WITNESS_SCALE_FACTOR;
    if weight % WITNESS_SCALE_FACTOR == 0 {
        q
    } else {
        q + 1
    }
}

/// The first target of `targets` that is at least `min` and has an estimate.
pub open spec fn first_estimated_at_least(targets: Seq<u32>, estimated: Seq<u32>, min: u32) -> Option<u32>
    decreases targets.len(),
{
    if targets.len() == 0 {
        None
    } else if targets[0] >= min && estimated.contains(targets[0]) {
        Some(targets[0])
    } else {
        first_estimated_at_least(targets.drop_first(), estimated, min)
    }
}

/// The confirmation target whose estimate is used for `target_blocks`: the target itself
/// when it has an estimate; else the first fallback target at least as long that has one;
/// else the first fallback target that has one at all; else none.
pub open spec fn spec_select_fee_target(target_blocks: u32, estimated: Seq<u32>) -> Option<u32> {
    if estimated.contains(target_blocks) {
        Some(target_blocks)
    } else {
        match first_estimated_at_least(spec_fallback_targets(), estimated, target_blocks) {
            Some(t) => Some(t),
            None => first_estimated_at_least(spec_fallback_targets(), estimated, 0),
        }
    }
}

fn contains_target(estimated: &[u32], target: u32) -> (r: bool)
    ensures
        r == estimated@.contains(target),
{
    let mut i: usize = 0;
    while i < estimated.len()
        invariant
            i <= estimated@.len(),
            forall|j: int| 0 <= j < i ==> estimated@[j] != target,
        decreases estimated@.len() - i,
    {
        if estimated[i] == target {
            return true;
        }
        i = i + 1;
    }
    false
}

fn first_fallback_at_least(estimated: &[u32], min: u32) -> (r: Option<u32>)
    ensures
        r == first_estimated_at_least(spec_fallback_targets(), estimated@, min),
{
    let targets = FEE_FALLBACK_TARGETS;
    assert(targets@ =~= spec_fallback_targets());
    assert(spec_fallback_targets().skip(0) =~= spec_fallback_targets());
    let mut i: usize = 0;
    while i < 28
        invariant
            i <= 28,
            targets@ == spec_fallback_targets(),
            first_estimated_at_least(spec_fallback_targets(), estimated@, min)
                == first_estimated_at_least(spec_fallback_targets().skip(i as int), estimated@, min),
        decreases 28 - i,
    {
        let target = targets[i];
        assert(spec_fallback_targets().skip(i as int).drop_first() =~= spec_fallback_targets().skip(i + 1));
        if target >= min && contains_target(estimated, target) {
            return Some(target);
        }
        i = i + 1;
    }
    None
}

/// The confirmation target whose fee estimate answers a request for `target_blocks`, given
/// the targets the estimates cover; none when no target the lookup tries is covered.
pub fn select_fee_target(target_blocks: u32, estimated: &[u32]) -> (r: Option<u32>)
    ensures
        r == spec_select_fee_target(target_blocks, estimated@),
{
    if contains_target(estimated, target_blocks) {
        return Some(target_blocks);
    }
    match first_fallback_at_least(estimated, target_blocks) {
        Some(t) => Some(t),
        None => first_fallback_at_least(estimated, 0),
    }
}

} // verus!
