//! The keeper's configuration.

use crate::decimal::{decimal_from_text, parse_decimal, Decimal, DecimalValue};
use crate::error::{ConfigField, KeeperError};
use crate::token::{address_from_text, parse_address, Address, Token, TokenPair};
use vstd::pervasive::unreached;
use vstd::prelude::*;

verus! {

/// Everything the keeper is told at startup.
pub struct Config {
    pub rpc_url: String,
    pub delay_between_checks_ms: i32,
    pub token_pairs: Vec<TokenPair>,
    pub keeper_wallet_private_key: String,
    pub uniswap_router_address: Address,
    pub uniswap_factory_address: Address,
    pub uniswap_fee_rate: Decimal,
    pub stability_module_address: Address,
    /// The band of prices inside which the keeper leaves the pool alone.
    pub ratio_range_allowed: (Decimal, Decimal),
    /// The band of prices that a corrective swap aims for.
    pub ratio_range_targets: (Decimal, Decimal),
    pub adapter_name: String,
    pub adapter_uniswap_v2_address: Address,
    pub tx_confirmations_required: usize,
}

/// The settings as they were found in the process environment, each absent or
/// present as text.
pub struct Environment {
    pub rpc_url: Option<String>,
    pub keeper_wallet_private_key: Option<String>,
    pub usdc_address: Option<String>,
    pub zai_address: Option<String>,
    pub uniswap_router_address: Option<String>,
    pub uniswap_factory_address: Option<String>,
    pub uniswap_fee_rate: Option<String>,
    pub stability_module_address: Option<String>,
    pub adapter_uniswap_v2_address: Option<String>,
}

/// Decimal places of both configured tokens.
pub const TOKEN_DECIMALS: u8 = 18;

/// Milliseconds between two wake-ups.
pub const DELAY_BETWEEN_CHECKS_MS: i32 = 3_000;

/// Confirmations after which a transaction counts as final.
pub const TX_CONFIRMATIONS_REQUIRED: usize = 3;

/// What is wrong with a setting that has to hold an address, if anything.
pub open spec fn address_problem(value: Option<String>, field: ConfigField) -> Option<KeeperError> {
    match value {
        None => Some(KeeperError::ConfigMissing(field)),
        Some(text) => if address_from_text(text@) is None {
            Some(KeeperError::ConfigInvalid(field))
        } else {
            None
        },
    }
}

/// What is wrong with a setting that only has to be present, if anything.
pub open spec fn presence_problem(value: Option<String>, field: ConfigField) -> Option<
    KeeperError,
> {
    match value {
        None => Some(KeeperError::ConfigMissing(field)),
        Some(_) => None,
    }
}

/// The first of two problems.
pub open spec fn or_else(first: Option<KeeperError>, second: Option<KeeperError>) -> Option<
    KeeperError,
> {
    match first {
        Some(e) => Some(e),
        None => second,
    }
}

/// The first thing wrong with the environment, in the order in which the
/// settings are looked at; `None` where every setting is present and well
/// formed.
pub open spec fn first_problem(env: Environment) -> Option<KeeperError> {
    or_else(
        address_problem(env.usdc_address, ConfigField::UsdcAddress),
        or_else(
            address_problem(env.zai_address, ConfigField::ZaiAddress),
            or_else(
                presence_problem(env.uniswap_fee_rate, ConfigField::UniswapFeeRate),
                or_else(
                    address_problem(
                        env.stability_module_address,
                        ConfigField::StabilityModuleAddress,
                    ),
                    or_else(
                        address_problem(
                            env.adapter_uniswap_v2_address,
                            ConfigField::AdapterUniswapV2Address,
                        ),
                        or_else(
                            presence_problem(env.rpc_url, ConfigField::RpcUrl),
                            or_else(
                                presence_problem(
                                    env.keeper_wallet_private_key,
                                    ConfigField::KeeperWalletPrivateKey,
                                ),
                                or_else(
                                    address_problem(
                                        env.uniswap_router_address,
                                        ConfigField::UniswapRouterAddress,
                                    ),
                                    or_else(
                                        address_problem(
                                            env.uniswap_factory_address,
                                            ConfigField::UniswapFactoryAddress,
                                        ),
                                        if decimal_from_text(env.uniswap_fee_rate->0@) is None {
                                            Some(
                                                KeeperError::ConfigInvalid(
                                                    ConfigField::UniswapFeeRate,
                                                ),
                                            )
                                        } else {
                                            None
                                        },
                                    ),
                                ),
                            ),
                        ),
                    ),
                ),
            ),
        ),
    )
}

/// The number `thousandths / 1000`.
pub open spec fn thousandths(n: int) -> DecimalValue {
    DecimalValue { mantissa: n, scale: 3 }
}

/// A token of the configured pair.
pub open spec fn is_token(token: Token, symbol: Seq<char>, address: Option<Address>) -> bool {
    token.symbol@ == symbol && Some(token.address) == address && token.decimals == TOKEN_DECIMALS
}

/// The configuration that a complete environment gives: what the environment
/// sets, read as it stands, around what is fixed: one pair, USDC/ZAI, with 18
/// decimal places each; an allowed band of 0.996 to 1.002 and a target band of
/// 0.997 to 1.001; the adapter named USDC; three confirmations; three seconds
/// between wake-ups.
pub open spec fn is_config_of(config: Config, env: Environment) -> bool {
    &&& Some(config.rpc_url) == env.rpc_url
    &&& Some(config.keeper_wallet_private_key) == env.keeper_wallet_private_key
    &&& Some(config.uniswap_router_address) == address_from_text(env.uniswap_router_address->0@)
    &&& Some(config.uniswap_factory_address) == address_from_text(
        env.uniswap_factory_address->0@,
    )
    &&& Some(config.stability_module_address) == address_from_text(
        env.stability_module_address->0@,
    )
    &&& Some(config.adapter_uniswap_v2_address) == address_from_text(
        env.adapter_uniswap_v2_address->0@,
    )
    &&& Some(config.uniswap_fee_rate@) == decimal_from_text(env.uniswap_fee_rate->0@)
    &&& config.delay_between_checks_ms == DELAY_BETWEEN_CHECKS_MS
    &&& config.tx_confirmations_required == TX_CONFIRMATIONS_REQUIRED
    &&& config.adapter_name@ == "USDC"@
    &&& config.ratio_range_allowed.0@ == thousandths(996)
    &&& config.ratio_range_allowed.1@ == thousandths(1002)
    &&& config.ratio_range_targets.0@ == thousandths(997)
    &&& config.ratio_range_targets.1@ == thousandths(1001)
    &&& config.token_pairs@.len() == 1
    &&& config.token_pairs@[0].symbol@ == "USDC/ZAI"@
    &&& is_token(config.token_pairs@[0].token_0, "USDC"@, address_from_text(env.usdc_address->0@))
    &&& is_token(config.token_pairs@[0].token_1, "ZAI"@, address_from_text(env.zai_address->0@))
}

fn required(value: Option<String>, field: ConfigField) -> (r: Result<String, KeeperError>)
    ensures
        match presence_problem(value, field) {
            Some(e) => r == Err::<String, KeeperError>(e),
            None => Some(r->Ok_0) == value && r is Ok,
        },
{
    match value {
        Some(text) => Ok(text),
        None => Err(KeeperError::ConfigMissing(field)),
    }
}

fn required_address(value: &Option<String>, field: ConfigField) -> (r: Result<
    Address,
    KeeperError,
>)
    ensures
        match address_problem(*value, field) {
            Some(e) => r == Err::<Address, KeeperError>(e),
            None => r is Ok && Some(r->Ok_0) == address_from_text(value->0@),
        },
{
    match value {
        None => Err(KeeperError::ConfigMissing(field)),
        Some(text) => match parse_address(text.as_str()) {
            Some(address) => Ok(address),
            None => Err(KeeperError::ConfigInvalid(field)),
        },
    }
}

fn in_thousandths(n: u16) -> (d: Decimal)
    ensures
        d@ == thousandths(n as int),
{
    match Decimal::try_new(n as i128, 3) {
        Some(d) => d,
        None => unreached(),
    }
}

/// Builds the configuration from the settings found in the environment. Every
/// setting is required: the first one that is absent or malformed is named in
/// the error.
pub fn generate_config(environment: Environment) -> (r: Result<Config, KeeperError>)
    ensures
        match first_problem(environment) {
            Some(e) => r matches Err(f) && f == e,
            None => r matches Ok(config) && is_config_of(config, environment),
        },
{
    let usdc = Token {
        symbol: "USDC".to_owned(),
        address: required_address(&environment.usdc_address, ConfigField::UsdcAddress)?,
        decimals: TOKEN_DECIMALS,
    };
    let zai = Token {
        symbol: "ZAI".to_owned(),
        address: required_address(&environment.zai_address, ConfigField::ZaiAddress)?,
        decimals: TOKEN_DECIMALS,
    };
    let mut token_pairs: Vec<TokenPair> = Vec::new();
    token_pairs.push(TokenPair { symbol: "USDC/ZAI".to_owned(), token_0: usdc, token_1: zai });
    let uniswap_fee_rate_string = required(
        environment.uniswap_fee_rate,
        ConfigField::UniswapFeeRate,
    )?;
    let stability_module_address = required_address(
        &environment.stability_module_address,
        ConfigField::StabilityModuleAddress,
    )?;
    let adapter_uniswap_v2_address = required_address(
        &environment.adapter_uniswap_v2_address,
        ConfigField::AdapterUniswapV2Address,
    )?;
    let rpc_url = required(environment.rpc_url, ConfigField::RpcUrl)?;
    let keeper_wallet_private_key = required(
        environment.keeper_wallet_private_key,
        ConfigField::KeeperWalletPrivateKey,
    )?;
    let uniswap_router_address = required_address(
        &environment.uniswap_router_address,
        ConfigField::UniswapRouterAddress,
    )?;
    let uniswap_factory_address = required_address(
        &environment.uniswap_factory_address,
        ConfigField::UniswapFactoryAddress,
    )?;
    let uniswap_fee_rate = match parse_decimal(uniswap_fee_rate_string.as_str()) {
        Some(rate) => rate,
        None => { return Err(KeeperError::ConfigInvalid(ConfigField::UniswapFeeRate)); },
    };
    Ok(
        Config {
            rpc_url,
            delay_between_checks_ms: DELAY_BETWEEN_CHECKS_MS,
            token_pairs,
            keeper_wallet_private_key,
            uniswap_router_address,
            uniswap_factory_address,
            uniswap_fee_rate,
            stability_module_address,
            ratio_range_allowed: (in_thousandths(996), in_thousandths(1002)),
            ratio_range_targets: (in_thousandths(997), in_thousandths(1001)),
            adapter_name: "USDC".to_owned(),
            adapter_uniswap_v2_address,
            tx_confirmations_required: TX_CONFIRMATIONS_REQUIRED,
        },
    )
}

} // verus!
