//! Per-network consensus parameters: one immutable canonical record per chain
//! variant, plus the derived retarget-interval calculation.

use vstd::prelude::*;

use crate::network::{Network, TestnetVersion};

verus! {

/// A 256-bit proof-of-work target, held as two 128-bit limbs.
///
/// Only the difficulty ceilings that appear in the canonical records are
/// needed here; the value is `hi * 2^128 + lo`.
#[derive(Clone, Copy, Debug, PartialEq, Eq, Structural)]
pub struct Target {
    /// The upper 128 bits of the target.
    pub hi: u128,
    /// The lower 128 bits of the target.
    pub lo: u128,
}

impl Target {
    /// The numeric value of this target as a mathematical integer.
    pub open spec fn value(self) -> int {
        self.hi * 0x100000000000000000000000000000000 + self.lo
    }
}

/// A derived calculation was asked of a record whose `pow_target_spacing` is
/// zero: a configuration error of a custom record, never of a canonical one.
#[derive(Clone, Copy, Debug, PartialEq, Eq, Structural)]
pub struct ZeroPowTargetSpacingError;

/// Parameters that influence chain consensus.
///
/// Every field is set at construction and never mutated. A canonical record
/// exists for each [`Network`] variant; a custom record (say, for a custom
/// signet) may be built directly and composes wherever a canonical one is
/// accepted, through [`AsParams`].
#[derive(Clone, Copy, Debug, PartialEq, Eq, Structural)]
pub struct Params {
    /// Network for which the parameters are valid.
    pub network: Network,
    /// Time when BIP16 becomes active.
    pub bip16_time: u32,
    /// Block height at which BIP34 becomes active.
    pub bip34_height: u32,
    /// Block height at which BIP65 becomes active.
    pub bip65_height: u32,
    /// Block height at which BIP66 becomes active.
    pub bip66_height: u32,
    /// Number of blocks that must signal within a retargeting period for a
    /// soft-fork rule change to activate.
    pub rule_change_activation_threshold: u32,
    /// Number of blocks with the same set of rules.
    pub miner_confirmation_window: u32,
    /// The maximum attainable target: the proof-of-work difficulty ceiling,
    /// expressible exactly in compact form.
    pub max_attainable_target: Target,
    /// Expected number of seconds to mine one block.
    pub pow_target_spacing: u64,
    /// Number of seconds in a difficulty-recalculation period.
    pub pow_target_timespan: u32,
    /// Whether minimal-difficulty blocks may be used.
    pub allow_min_difficulty_blocks: bool,
    /// Whether difficulty retargeting is disabled for this network.
    pub no_pow_retargeting: bool,
}

impl Params {
    /// The canonical record for `network`.
    pub open spec fn spec_new(network: Network) -> Params {
        match network {
            Network::MainChain => Params {
                network: Network::MainChain,
                bip16_time: 1333238400,  // Apr 1 2012
                bip34_height: 227931,
                bip65_height: 388381,
                bip66_height: 363725,
                rule_change_activation_threshold: 1916,  // 95%
                miner_confirmation_window: 2016,
                max_attainable_target: Target { hi: 0x0000_0000_ffff_0000_0000_0000_0000_0000, lo: 0 },
                pow_target_spacing: 600,  // 10 minutes.
                pow_target_timespan: 1_209_600,  // 2 weeks.
                allow_min_difficulty_blocks: false,
                no_pow_retargeting: false,
            },
            Network::Testnet(TestnetVersion::V3) => Params {
                network: Network::Testnet(TestnetVersion::V3),
                bip16_time: 1333238400,  // Apr 1 2012
                bip34_height: 21111,
                bip65_height: 581885,
                bip66_height: 330776,
                rule_change_activation_threshold: 1512,  // 75%
                miner_confirmation_window: 2016,
                max_attainable_target: Target { hi: 0x0000_0000_ffff_0000_0000_0000_0000_0000, lo: 0 },
                pow_target_spacing: 600,  // 10 minutes.
                pow_target_timespan: 1_209_600,  // 2 weeks.
                allow_min_difficulty_blocks: true,
                no_pow_retargeting: false,
            },
            Network::Testnet(TestnetVersion::V4) => Params {
                network: Network::Testnet(TestnetVersion::V4),
                bip16_time: 1333238400,  // Apr 1 2012
                bip34_height: 1,
                bip65_height: 1,
                bip66_height: 1,
                rule_change_activation_threshold: 1512,  // 75%
                miner_confirmation_window: 2016,
                max_attainable_target: Target { hi: 0x0000_0000_ffff_0000_0000_0000_0000_0000, lo: 0 },
                pow_target_spacing: 600,  // 10 minutes.
                pow_target_timespan: 1_209_600,  // 2 weeks.
                allow_min_difficulty_blocks: true,
                no_pow_retargeting: false,
            },
            Network::Signet => Params {
                network: Network::Signet,
                bip16_time: 1333238400,  // Apr 1 2012
                bip34_height: 1,
                bip65_height: 1,
                bip66_height: 1,
                rule_change_activation_threshold: 1916,  // 95%
                miner_confirmation_window: 2016,
                max_attainable_target: Target { hi: 0x0000_0377_ae00_0000_0000_0000_0000_0000, lo: 0 },
                pow_target_spacing: 600,  // 10 minutes.
                pow_target_timespan: 1_209_600,  // 2 weeks.
                allow_min_difficulty_blocks: false,
                no_pow_retargeting: false,
            },
            Network::Regtest => Params {
                network: Network::Regtest,
                bip16_time: 1333238400,  // Apr 1 2012
                bip34_height: 100000000,  // not activated on regtest
                bip65_height: 1351,
                bip66_height: 1251,  // used only in rpc tests
                rule_change_activation_threshold: 108,  // 75%
                miner_confirmation_window: 144,
                max_attainable_target: Target { hi: 0x7fff_ff00_0000_0000_0000_0000_0000_0000, lo: 0 },
                pow_target_spacing: 600,  // 10 minutes.
                pow_target_timespan: 1_209_600,  // 2 weeks.
                allow_min_difficulty_blocks: true,
                no_pow_retargeting: true,
            },
        }
    }

    /// Selects the canonical record for the given network.
    ///
    /// Total over the closed enumeration: every variant has a record, and the
    /// match is checked exhaustive at compile time.
    pub fn new(network: Network) -> (params: Params)
        ensures
            params == Params::spec_new(network),
    {
        match network {
            Network::MainChain => Params {
                network: Network::MainChain,
                bip16_time: 1333238400,  // Apr 1 2012
                bip34_height: 227931,
                bip65_height: 388381,
                bip66_height: 363725,
                rule_change_activation_threshold: 1916,  // 95%
                miner_confirmation_window: 2016,
                max_attainable_target: Target { hi: 0x0000_0000_ffff_0000_0000_0000_0000_0000, lo: 0 },
                pow_target_spacing: 600,  // 10 minutes.
                pow_target_timespan: 1_209_600,  // 2 weeks.
                allow_min_difficulty_blocks: false,
                no_pow_retargeting: false,
            },
            Network::Testnet(TestnetVersion::V3) => Params {
                network: Network::Testnet(TestnetVersion::V3),
                bip16_time: 1333238400,  // Apr 1 2012
                bip34_height: 21111,
                bip65_height: 581885,
                bip66_height: 330776,
                rule_change_activation_threshold: 1512,  // 75%
                miner_confirmation_window: 2016,
                max_attainable_target: Target { hi: 0x0000_0000_ffff_0000_0000_0000_0000_0000, lo: 0 },
                pow_target_spacing: 600,  // 10 minutes.
                pow_target_timespan: 1_209_600,  // 2 weeks.
                allow_min_difficulty_blocks: true,
                no_pow_retargeting: false,
            },
            Network::Testnet(TestnetVersion::V4) => Params {
                network: Network::Testnet(TestnetVersion::V4),
                bip16_time: 1333238400,  // Apr 1 2012
                bip34_height: 1,
                bip65_height: 1,
                bip66_height: 1,
                rule_change_activation_threshold: 1512,  // 75%
                miner_confirmation_window: 2016,
                max_attainable_target: Target { hi: 0x0000_0000_ffff_0000_0000_0000_0000_0000, lo: 0 },
                pow_target_spacing: 600,  // 10 minutes.
                pow_target_timespan: 1_209_600,  // 2 weeks.
                allow_min_difficulty_blocks: true,
                no_pow_retargeting: false,
            },
            Network::Signet => Params {
                network: Network::Signet,
                bip16_time: 1333238400,  // Apr 1 2012
                bip34_height: 1,
                bip65_height: 1,
                bip66_height: 1,
                rule_change_activation_threshold: 1916,  // 95%
                miner_confirmation_window: 2016,
                max_attainable_target: Target { hi: 0x0000_0377_ae00_0000_0000_0000_0000_0000, lo: 0 },
                pow_target_spacing: 600,  // 10 minutes.
                pow_target_timespan: 1_209_600,  // 2 weeks.
                allow_min_difficulty_blocks: false,
                no_pow_retargeting: false,
            },
            Network::Regtest => Params {
                network: Network::Regtest,
                bip16_time: 1333238400,  // Apr 1 2012
                bip34_height: 100000000,  // not activated on regtest
                bip65_height: 1351,
                bip66_height: 1251,  // used only in rpc tests
                rule_change_activation_threshold: 108,  // 75%
                miner_confirmation_window: 144,
                max_attainable_target: Target { hi: 0x7fff_ff00_0000_0000_0000_0000_0000_0000, lo: 0 },
                pow_target_spacing: 600,  // 10 minutes.
                pow_target_timespan: 1_209_600,  // 2 weeks.
                allow_min_difficulty_blocks: true,
                no_pow_retargeting: true,
            },
        }
    }

    /// The number of blocks between difficulty adjustments, or a configuration
    /// error when the record's target spacing is zero.
    pub open spec fn spec_difficulty_adjustment_interval(self) -> Result<
        u64,
        ZeroPowTargetSpacingError,
    > {
        if self.pow_target_spacing == 0 {
            Err(ZeroPowTargetSpacingError)
        } else {
            Ok((self.pow_target_timespan as u64) / self.pow_target_spacing)
        }
    }

    /// Calculates the number of blocks between difficulty adjustments, by
    /// integer (floor) division of the timespan by the spacing.
    ///
    /// Every canonical record has a nonzero spacing; a custom record with zero
    /// spacing gets the configuration error rather than a crash.
    pub fn difficulty_adjustment_interval(&self) -> (interval: Result<
        u64,
        ZeroPowTargetSpacingError,
    >)
        ensures
            interval == self.spec_difficulty_adjustment_interval(),
    {
        if self.pow_target_spacing == 0 {
            Err(ZeroPowTargetSpacingError)
        } else {
            Ok((self.pow_target_timespan as u64) / self.pow_target_spacing)
        }
    }

    /// Deprecated alias of [`Params::max_attainable_target`], kept for
    /// backward compatibility only and scheduled for removal.
    pub fn pow_limit(&self) -> (target: Target)
        ensures
            target == self.max_attainable_target,
    {
        self.max_attainable_target
    }
}

/// The capability to expose a consensus-parameters view.
///
/// Both [`Network`] (through its canonical record) and [`Params`] itself
/// implement it, and a custom chain configuration may implement it too, so
/// that it composes wherever a canonical record is accepted.
pub trait AsParams {
    /// The record this value exposes.
    spec fn spec_params(&self) -> Params;

    /// Returns the consensus-parameters view of this value.
    fn params(&self) -> (params: Params)
        ensures
            params == self.spec_params(),
    ;
}

impl AsParams for Params {
    open spec fn spec_params(&self) -> Params {
        *self
    }

    fn params(&self) -> (params: Params) {
        *self
    }
}

impl AsParams for Network {
    open spec fn spec_params(&self) -> Params {
        Params::spec_new(*self)
    }

    fn params(&self) -> (params: Params) {
        Params::new(*self)
    }
}

impl From<Network> for Params {
    fn from(network: Network) -> (params: Params) {
        Params::new(network)
    }
}

impl vstd::std_specs::convert::FromSpecImpl<Network> for Params {
    open spec fn obeys_from_spec() -> bool {
        true
    }

    open spec fn from_spec(network: Network) -> Params {
        Params::spec_new(network)
    }
}

/// Every canonical record keeps the two-week timespan at ten-minute spacing,
/// so the retarget interval of every built-in network is 2016 blocks.
pub proof fn lemma_canonical_retarget_interval(network: Network)
    ensures
        Params::spec_new(network).pow_target_timespan == 1_209_600,
        Params::spec_new(network).pow_target_spacing == 600,
        Params::spec_new(network).spec_difficulty_adjustment_interval() == Ok::<
            u64,
            ZeroPowTargetSpacingError,
        >(2016),
{
    assert(1_209_600u64 / 600u64 == 2016u64) by (nonlinear_arith);
}

} // verus!
