use vstd::prelude::*;

verus! {

/// Defines standard errors possible when using a blockchain interaction provider.
#[derive(Debug, PartialEq, Eq)]
pub enum ProviderError {
    /// A standard HTTP request to a provider (such as an Esplora REST instance) failed.
    Request(String),
    /// The configured timeout to wait for transaction confirmation elapsed without confirmation.
    Confirmation(),
    /// A provider returned a non-success response explicitly rejecting a broadcasted transaction.
    BroadcastRejected {
        /// The HTTP status code indicating the failure.
        status: u16,
        /// The URL that the broadcast was sent to.
        url: String,
        /// The error message returned by the provider.
        message: String,
    },
    /// A provider's raw response body could not be deserialized.
    Deserialize(String),
    /// An incorrectly formatted transaction ID string was encountered.
    InvalidTxid(String),
    /// The RPC returned a malformed response.
    BadResponse(),
}

/// Why a transaction could not be funded with enough of the policy asset.
#[derive(Debug, Clone, Copy, PartialEq, Eq)]
pub enum FundingError {
    /// The wallet's coins, all of them added, still do not cover the fee; carries the last
    /// fee that was found to be required.
    NotEnoughFunds(u64),
    /// The policy-asset surplus of the inputs over the outputs is below the minimum fee;
    /// carries that surplus.
    DustAmount(i64),
    /// The surplus (first) does not cover the fee the transaction turned out to need (second).
    NotEnoughFeeAmount(i64, u64),
}

/// Why an input given in its encoded form could not be read.
#[derive(Debug, Clone, Copy, PartialEq, Eq)]
pub enum InputError {
    /// The transaction id is not 64 hexadecimal digits.
    InvalidTxid,
    /// The spent output's encoding is not hex.
    InvalidOutputEncoding,
    /// The decoded bytes are not exactly one consensus-encoded output.
    InvalidOutput,
}

/// Why an output given in its encoded form could not be read.
#[derive(Debug, Clone, Copy, PartialEq, Eq)]
pub enum OutputError {
    /// The script is not hex.
    InvalidScript,
    /// The asset id is not 64 hexadecimal digits.
    InvalidAssetId,
    /// The blinding key is not a valid public key.
    InvalidBlindingKey,
}

/// A network name that names no known network.
#[derive(Debug, PartialEq, Eq)]
pub enum NetworkError {
    /// Carries the name that was given.
    Unknown(String),
}

} // verus!
