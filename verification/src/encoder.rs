//! The payload that the stability module hands to its swap adapter.
//!
//! The adapter expects one `bytes` argument holding the ABI encoding of
//! `(uint256 amountIn, uint256 amountOutMin, address[] path, uint256 deadline,
//! address router)`. The order and the types of that tuple are fixed here; the
//! byte layout of the ABI is that of the `ethers` crate.

use crate::config::Config;
use crate::error::KeeperError;
use crate::rebalance::{SwapDetails, SwapDetailsView};
use crate::token::{copy_addresses, Address};
use crate::uint::U256;
use crate::units::{base_units, decimal_to_u256};
use vstd::prelude::*;
use vstd::string::StringSliceAdditionalSpecFns;

verus! {

/// Seconds that a swap stays valid after it is built.
pub const SWAP_DEADLINE_SECONDS: u64 = 120;

/// A value that goes into an ABI encoding.
#[derive(Debug)]
pub enum AbiToken {
    Uint(U256),
    Address(Address),
    AddressArray(Vec<Address>),
    Bytes(Vec<u8>),
}

/// An ABI value as the contracts see it.
pub enum AbiValue {
    Uint(nat),
    Address(Address),
    AddressArray(Seq<Address>),
    Bytes(Seq<u8>),
}

impl View for AbiToken {
    type V = AbiValue;

    open spec fn view(&self) -> AbiValue {
        match self {
            AbiToken::Uint(v) => AbiValue::Uint(v@),
            AbiToken::Address(a) => AbiValue::Address(*a),
            AbiToken::AddressArray(p) => AbiValue::AddressArray(p@),
            AbiToken::Bytes(b) => AbiValue::Bytes(b@),
        }
    }
}

/// The ABI encoding of a list of values, as `ethers` produces it.
pub uninterp spec fn abi_encoding(values: Seq<AbiValue>) -> Seq<u8>;

/// The four-byte selector of a function signature, as `ethers` computes it.
pub uninterp spec fn function_selector(signature: Seq<char>) -> Seq<u8>;

/// `ethers::abi::encode`: the ABI encoding of the values, in their order.
#[verifier::external_body]
pub(crate) fn abi_encode(tokens: &Vec<AbiToken>) -> (r: Vec<u8>)
    ensures
        r@ == abi_encoding(tokens@.map_values(|t: AbiToken| t@)),
{
    let converted: Vec<ethers::abi::Token> = tokens.iter().map(|token| match token {
        AbiToken::Uint(v) => ethers::abi::Token::Uint(ethers::types::U256(v.limbs)),
        AbiToken::Address(a) => ethers::abi::Token::Address(ethers::types::H160(a.bytes)),
        AbiToken::AddressArray(p) => ethers::abi::Token::Array(
            p.iter().map(|a| ethers::abi::Token::Address(ethers::types::H160(a.bytes))).collect(),
        ),
        AbiToken::Bytes(b) => ethers::abi::Token::Bytes(b.clone()),
    }).collect();
    ethers::abi::encode(&converted)
}

/// `ethers::utils::id`: the selector of a function signature, four bytes.
#[verifier::external_body]
pub(crate) fn selector(signature: &str) -> (r: [u8; 4])
    ensures
        r@ == function_selector(signature@),
{
    ethers::utils::id(signature)
}

/// The bytes of a text, followed by zero bytes up to a length of 32.
pub open spec fn padded_to_32(bytes: Seq<u8>) -> Seq<u8> {
    bytes + Seq::new((32 - bytes.len()) as nat, |i: int| 0u8)
}

/// `ethers::utils::format_bytes32_string`: the UTF-8 bytes of `text` padded
/// with zero bytes to 32, or nothing where the text is longer than 32 bytes.
#[verifier::external_body]
pub(crate) fn bytes32_of_text(text: &str) -> (r: Option<[u8; 32]>)
    ensures
        r is Some <==> text.spec_bytes().len() <= 32,
        r matches Some(b) ==> b@ == padded_to_32(text.spec_bytes()),
{
    ethers::utils::format_bytes32_string(text).ok()
}

/// The moment until which a swap built at `now` may execute.
pub fn swap_deadline(now: u64, horizon_seconds: u64) -> (deadline: U256)
    ensures
        deadline@ == now + horizon_seconds,
{
    U256::from_u128(now as u128 + horizon_seconds as u128)
}

/// The deadline of a swap built at `now`, seconds since the epoch: two minutes
/// later. It is to be taken right before the swap is submitted.
pub fn get_swap_deadline_from_now(now: u64) -> (deadline: U256)
    ensures
        deadline@ == now + SWAP_DEADLINE_SECONDS,
{
    swap_deadline(now, SWAP_DEADLINE_SECONDS)
}

/// The adapter's five arguments, in the order of its tuple.
pub open spec fn adapter_swap_arguments(
    amount_in: nat,
    amount_out_min: nat,
    path: Seq<Address>,
    deadline: nat,
    router: Address,
) -> Seq<AbiValue> {
    seq![
        AbiValue::Uint(amount_in),
        AbiValue::Uint(amount_out_min),
        AbiValue::AddressArray(path),
        AbiValue::Uint(deadline),
        AbiValue::Address(router),
    ]
}

/// Encodes the adapter's swap arguments as the tuple it expects.
pub fn encode_adapter_swap(
    amount_in: U256,
    amount_out_min: U256,
    path: &Vec<Address>,
    deadline: U256,
    router_address: Address,
) -> (r: Vec<u8>)
    ensures
        r@ == abi_encoding(
            adapter_swap_arguments(
                amount_in@,
                amount_out_min@,
                path@,
                deadline@,
                router_address,
            ),
        ),
{
    let mut tokens: Vec<AbiToken> = Vec::new();
    tokens.push(AbiToken::Uint(amount_in));
    tokens.push(AbiToken::Uint(amount_out_min));
    tokens.push(AbiToken::AddressArray(copy_addresses(path)));
    tokens.push(AbiToken::Uint(deadline));
    tokens.push(AbiToken::Address(router_address));
    assert(tokens@.map_values(|t: AbiToken| t@) =~= adapter_swap_arguments(
        amount_in@,
        amount_out_min@,
        path@,
        deadline@,
        router_address,
    ));
    abi_encode(&tokens)
}

/// The call data of the adapter's `swap(bytes)` for a swap built at `now`:
/// the function's selector, then the encoding of its one argument, which is
/// the encoded tuple. The amounts are the swap's, in base units of the token
/// sold and of the token bought. There is none where an amount has no base
/// units.
pub open spec fn delegate_call_data(router: Address, details: SwapDetailsView, now: nat) -> Option<
    Seq<u8>,
> {
    match (
        base_units(details.amount_to_sell, details.token_to_sell.decimals as nat),
        base_units(details.amount_to_buy_min, details.token_to_buy.decimals as nat),
    ) {
        (Some(amount_in), Some(amount_out_min)) => Some(
            function_selector("swap(bytes)"@) + abi_encoding(
                seq![
                    AbiValue::Bytes(
                        abi_encoding(
                            adapter_swap_arguments(
                                amount_in,
                                amount_out_min,
                                details.path,
                                now + SWAP_DEADLINE_SECONDS as nat,
                                router,
                            ),
                        ),
                    ),
                ],
            ),
        ),
        _ => None,
    }
}

/// Builds the payload that the stability module passes on to the adapter.
/// `now` is the current time in seconds since the epoch, read right before the
/// call is submitted.
pub fn generate_delegate_call_data(config: &Config, swap_details: &SwapDetails, now: u64) -> (r:
    Result<Vec<u8>, KeeperError>)
    ensures
        match delegate_call_data(config.uniswap_router_address, swap_details@, now as nat) {
            Some(data) => r matches Ok(bytes) && bytes@ == data,
            None => r == Err::<Vec<u8>, KeeperError>(KeeperError::ArithmeticOverflow),
        },
{
    let amount_in = decimal_to_u256(swap_details.amount_to_sell, swap_details.token_to_sell.decimals)?;
    let amount_out_min = decimal_to_u256(
        swap_details.amount_to_buy_min,
        swap_details.token_to_buy.decimals,
    )?;
    let deadline = get_swap_deadline_from_now(now);
    let adapter_swap_data = encode_adapter_swap(
        amount_in,
        amount_out_min,
        &swap_details.path,
        deadline,
        config.uniswap_router_address,
    );
    let ghost tuple = adapter_swap_data@;
    let mut arguments: Vec<AbiToken> = Vec::new();
    arguments.push(AbiToken::Bytes(adapter_swap_data));
    assert(arguments@.map_values(|t: AbiToken| t@) =~= seq![AbiValue::Bytes(tuple)]);
    let mut encoded_arguments = abi_encode(&arguments);
    let swap_selector = selector("swap(bytes)");
    let mut calldata: Vec<u8> = Vec::new();
    calldata.push(swap_selector[0]);
    calldata.push(swap_selector[1]);
    calldata.push(swap_selector[2]);
    calldata.push(swap_selector[3]);
    assert(calldata@ =~= swap_selector@);
    calldata.append(&mut encoded_arguments);
    Ok(calldata)
}

} // verus!
