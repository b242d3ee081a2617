//! Failures that the keeper reports.

use vstd::prelude::*;

verus! {

/// A startup parameter of the keeper.
#[derive(Clone, Copy, Debug, PartialEq, Eq, Structural)]
pub enum ConfigField {
    RpcUrl,
    KeeperWalletPrivateKey,
    UsdcAddress,
    ZaiAddress,
    UniswapRouterAddress,
    UniswapFactoryAddress,
    UniswapFeeRate,
    StabilityModuleAddress,
    AdapterUniswapV2Address,
    AdapterName,
}

/// Why a step of the keeper could not be completed.
#[derive(Clone, Copy, Debug, PartialEq, Eq, Structural)]
pub enum KeeperError {
    /// A startup parameter is absent.
    ConfigMissing(ConfigField),
    /// A startup parameter is present but malformed.
    ConfigInvalid(ConfigField),
    /// The node or the transport failed on a read.
    RpcError,
    /// The factory knows no pool for the pair.
    PoolNotFound,
    /// The pool holds none of the second token, so it has no price.
    DivisionByZero,
    /// The sized swap came out negative.
    InvariantViolation,
    /// A quantity does not fit the decimal type or its base-unit integer.
    ArithmeticOverflow,
}

} // verus!
