//! The closed set of chain variants that canonical consensus records exist for.

use vstd::prelude::*;

verus! {

/// Protocol version of a test network.
#[derive(Clone, Copy, Debug, PartialEq, Eq, Structural)]
pub enum TestnetVersion {
    /// The long-running third test network.
    V3,
    /// The fourth test network.
    V4,
}

/// A chain variant. The enumeration is closed: every variant has exactly one
/// canonical consensus record, selected by an exhaustive match, so a new
/// variant cannot compile until a record is chosen for it.
#[derive(Clone, Copy, Debug, PartialEq, Eq, Structural)]
pub enum Network {
    /// The main chain.
    MainChain,
    /// A test network, by protocol version.
    Testnet(TestnetVersion),
    /// The signed test network.
    Signet,
    /// Local regression testing.
    Regtest,
}

} // verus!
