use vstd::prelude::*;

verus! {

/// Weight units per virtual byte, used to turn a transaction weight into its virtual size.
pub const WITNESS_SCALE_FACTOR: usize = 4;

/// A placeholder amount given to the change and fee outputs while a transaction is estimated.
pub const PLACEHOLDER_FEE: u64 = 1;

/// The smallest policy-asset amount a transaction may leave for its fee, and the smallest
/// change output worth creating.
pub const MIN_FEE: u64 = 10;

/// The standard timeout duration (in seconds) applied to Esplora REST API requests.
pub const DEFAULT_ESPLORA_TIMEOUT_SECS: u64 = 10;

} // verus!
