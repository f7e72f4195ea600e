use vstd::prelude::*;

use crate::bytes::str_equals;
use crate::error::NetworkError;

verus! {

/// The policy asset (L-BTC) of Liquid, in internal byte order.
pub const LIQUID_POLICY_ASSET: [u8; 32] = [
    0x6d, 0x52, 0x1c, 0x38, 0xec, 0x1e, 0xa1, 0x57, 0x34, 0xae, 0x22, 0xb7, 0xc4, 0x60, 0x64, 0x41,
    0x28, 0x29, 0xc0, 0xd0, 0x57, 0x9f, 0x0a, 0x71, 0x3d, 0x1c, 0x04, 0xed, 0xe9, 0x79, 0x02, 0x6f,
];

/// The policy asset of Liquid testnet, in internal byte order.
pub const LIQUID_TESTNET_POLICY_ASSET: [u8; 32] = [
    0x49, 0x9a, 0x81, 0x85, 0x45, 0xf6, 0xba, 0xe3, 0x9f, 0xc0, 0x3b, 0x63, 0x7f, 0x2a, 0x4e, 0x1e,
    0x64, 0xe5, 0x90, 0xca, 0xc1, 0xbc, 0x3a, 0x6f, 0x6d, 0x71, 0xaa, 0x44, 0x43, 0x65, 0x4c, 0x14,
];

/// The policy asset an `elementsd -chain=elementsregtest` node starts with, in internal byte order.
pub const DEFAULT_REGTEST_POLICY_ASSET: [u8; 32] = [
    0x25, 0xb2, 0x51, 0x07, 0x0e, 0x29, 0xca, 0x19, 0x04, 0x3c, 0xf3, 0x3c, 0xcd, 0x73, 0x24, 0xe2,
    0xdd, 0xab, 0x03, 0xec, 0xc4, 0xae, 0x0b, 0x5e, 0x77, 0xc4, 0xfc, 0x0e, 0x5c, 0xf6, 0xc9, 0x5a,
];

/// The network a transaction is built for.
#[derive(Debug, Clone, Copy, PartialEq, Eq)]
pub enum SimplicityNetwork {
    /// Liquid mainnet.
    Liquid,
    /// Liquid testnet.
    LiquidTestnet,
    /// A local Elements regtest chain with the given policy asset.
    ElementsRegtest {
        /// The chain's policy asset, in internal byte order.
        policy_asset: [u8; 32],
    },
}

impl SimplicityNetwork {
    /// The asset that pays fees on this network.
    pub open spec fn spec_policy_asset(self) -> [u8; 32] {
        match self {
            SimplicityNetwork::Liquid => LIQUID_POLICY_ASSET,
            SimplicityNetwork::LiquidTestnet => LIQUID_TESTNET_POLICY_ASSET,
            SimplicityNetwork::ElementsRegtest { policy_asset } => policy_asset,
        }
    }

    /// The asset that pays fees on this network.
    pub fn policy_asset(&self) -> (r: [u8; 32])
        ensures
            r == self.spec_policy_asset(),
    {
        match self {
            SimplicityNetwork::Liquid => LIQUID_POLICY_ASSET,
            SimplicityNetwork::LiquidTestnet => LIQUID_TESTNET_POLICY_ASSET,
            SimplicityNetwork::ElementsRegtest { policy_asset } => *policy_asset,
        }
    }

    /// A regtest network with the policy asset a fresh `elementsd` regtest chain uses.
    pub fn default_regtest() -> (r: SimplicityNetwork)
        ensures
            r == (SimplicityNetwork::ElementsRegtest { policy_asset: DEFAULT_REGTEST_POLICY_ASSET }),
    {
        SimplicityNetwork::ElementsRegtest { policy_asset: DEFAULT_REGTEST_POLICY_ASSET }
    }

    /// Whether this is Liquid mainnet.
    pub fn is_mainnet(&self) -> (r: bool)
        ensures
            r == (*self is Liquid),
    {
        match self {
            SimplicityNetwork::Liquid => true,
            _ => false,
        }
    }

    /// The BIP44 coin type of the wallet's account path: 1776 on Liquid mainnet, 1 elsewhere.
    pub fn coin_type(&self) -> (r: u32)
        ensures
            r == (if *self is Liquid { 1776u32 } else { 1u32 }),
    {
        if self.is_mainnet() {
            1776
        } else {
            1
        }
    }

    /// The BIP84 account derivation path of the signer's wallet on this network:
    /// `m/84h/1776h/0h` on Liquid mainnet, `m/84h/1h/0h` elsewhere.
    pub fn account_derivation_path(&self) -> (r: String)
        ensures
            r@ == (if *self is Liquid { "m/84h/1776h/0h"@ } else { "m/84h/1h/0h"@ }),
    {
        if self.is_mainnet() {
            "m/84h/1776h/0h".to_owned()
        } else {
            "m/84h/1h/0h".to_owned()
        }
    }
}

/// The network a name denotes: `liquid`; `liquid-testnet` or `liquidtestnet`; and
/// `elements-regtest`, `elementsregtest` or `regtest` for the default regtest chain.
pub open spec fn spec_network_from_str(name: Seq<char>) -> Option<SimplicityNetwork> {
    if name == "liquid"@ {
        Some(SimplicityNetwork::Liquid)
    } else if name == "liquid-testnet"@ || name == "liquidtestnet"@ {
        Some(SimplicityNetwork::LiquidTestnet)
    } else if name == "elements-regtest"@ || name == "elementsregtest"@ || name == "regtest"@ {
        Some(SimplicityNetwork::ElementsRegtest { policy_asset: DEFAULT_REGTEST_POLICY_ASSET })
    } else {
        None
    }
}

/// Resolves a network name to the network it denotes; any other name is refused and
/// handed back in the error.
pub fn network_from_str(network: &str) -> (r: Result<SimplicityNetwork, NetworkError>)
    ensures
        match spec_network_from_str(network@) {
            Some(n) => r == Ok::<SimplicityNetwork, NetworkError>(n),
            None => r matches Err(NetworkError::Unknown(name)) && name@ == network@,
        },
{
    if str_equals(network, "liquid") {
        Ok(SimplicityNetwork::Liquid)
    } else if str_equals(network, "liquid-testnet") || str_equals(network, "liquidtestnet") {
        Ok(SimplicityNetwork::LiquidTestnet)
    } else if str_equals(network, "elements-regtest") || str_equals(network, "elementsregtest")
        || str_equals(network, "regtest") {
        Ok(SimplicityNetwork::default_regtest())
    } else {
        Err(NetworkError::Unknown(network.to_owned()))
    }
}

} // verus!
