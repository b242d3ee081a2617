//! The call that carries an action to the stability module, and what came of
//! it once it was sent.

use crate::config::Config;
use crate::encoder::{
    bytes32_of_text, delegate_call_data, generate_delegate_call_data, padded_to_32,
};
use crate::error::{ConfigField, KeeperError};
use crate::rebalance::{KeeperAction, KeeperActionView, SwapDetails, SwapDetailsView};
use crate::uint::U256;
use crate::units::{base_units, decimal_to_u256};
use vstd::prelude::*;
use vstd::utf8::encode_utf8;

verus! {

/// A call to the stability module.
#[derive(Debug)]
pub enum ModuleCall {
    /// `expand_and_buy(adapter_id, delegate_data, mint_amount)`
    ExpandAndBuy { adapter_id: [u8; 32], delegate_data: Vec<u8>, mint_amount: U256 },
    /// `contract_and_sell(adapter_id, delegate_data)`
    ContractAndSell { adapter_id: [u8; 32], delegate_data: Vec<u8> },
}

/// A call as the contracts see it.
pub enum ModuleCallView {
    ExpandAndBuy { adapter_id: Seq<u8>, delegate_data: Seq<u8>, mint_amount: nat },
    ContractAndSell { adapter_id: Seq<u8>, delegate_data: Seq<u8> },
}

impl View for ModuleCall {
    type V = ModuleCallView;

    open spec fn view(&self) -> ModuleCallView {
        match self {
            ModuleCall::ExpandAndBuy {
                adapter_id,
                delegate_data,
                mint_amount,
            } => ModuleCallView::ExpandAndBuy {
                adapter_id: adapter_id@,
                delegate_data: delegate_data@,
                mint_amount: mint_amount@,
            },
            ModuleCall::ContractAndSell { adapter_id, delegate_data } => {
                ModuleCallView::ContractAndSell {
                    adapter_id: adapter_id@,
                    delegate_data: delegate_data@,
                }
            },
        }
    }
}

/// The identifier under which the module knows the adapter: the adapter's name
/// as 32 bytes, padded with zeros. A name of more than 32 bytes has none.
pub open spec fn adapter_id_of(name: Seq<u8>) -> Option<Seq<u8>> {
    if name.len() <= 32 {
        Some(padded_to_32(name))
    } else {
        None
    }
}

/// The call for a swap built at `now`, expanding or contracting.
pub open spec fn swap_call(config: Config, details: SwapDetailsView, expanding: bool, now: nat) -> Result<
    ModuleCallView,
    KeeperError,
> {
    match adapter_id_of(encode_utf8(config.adapter_name@)) {
        None => Err(KeeperError::ConfigInvalid(ConfigField::AdapterName)),
        Some(adapter_id) => match delegate_call_data(config.uniswap_router_address, details, now) {
            None => Err(KeeperError::ArithmeticOverflow),
            Some(delegate_data) => if expanding {
                match base_units(details.amount_to_sell, details.token_to_sell.decimals as nat) {
                    None => Err(KeeperError::ArithmeticOverflow),
                    Some(mint_amount) => Ok(
                        ModuleCallView::ExpandAndBuy { adapter_id, delegate_data, mint_amount },
                    ),
                }
            } else {
                Ok(ModuleCallView::ContractAndSell { adapter_id, delegate_data })
            },
        },
    }
}

/// The call that an action asks for: none for holding; for expanding, the
/// amount to sell is also the amount to mint.
pub open spec fn module_call(config: Config, action: KeeperActionView, now: nat) -> Result<
    Option<ModuleCallView>,
    KeeperError,
> {
    match action {
        KeeperActionView::Hold(_) => Ok(None),
        KeeperActionView::ExpandAndBuy(details) => match swap_call(config, details, true, now) {
            Ok(call) => Ok(Some(call)),
            Err(e) => Err(e),
        },
        KeeperActionView::ContractAndSell(details) => match swap_call(
            config,
            details,
            false,
            now,
        ) {
            Ok(call) => Ok(Some(call)),
            Err(e) => Err(e),
        },
    }
}

/// The view of a call, of there being none, or of the failure to build one.
pub open spec fn call_result(r: Result<Option<ModuleCall>, KeeperError>) -> Result<
    Option<ModuleCallView>,
    KeeperError,
> {
    match r {
        Ok(Some(call)) => Ok(Some(call@)),
        Ok(None) => Ok(None),
        Err(e) => Err(e),
    }
}

fn build_swap_call(config: &Config, details: &SwapDetails, expanding: bool, now: u64) -> (r: Result<
    ModuleCall,
    KeeperError,
>)
    ensures
        match swap_call(*config, details@, expanding, now as nat) {
            Ok(call) => r matches Ok(c) && c@ == call,
            Err(e) => r matches Err(f) && f == e,
        },
{
    let adapter_id = match bytes32_of_text(config.adapter_name.as_str()) {
        Some(id) => id,
        None => { return Err(KeeperError::ConfigInvalid(ConfigField::AdapterName)); },
    };
    let delegate_data = generate_delegate_call_data(config, details, now)?;
    if expanding {
        let mint_amount = decimal_to_u256(details.amount_to_sell, details.token_to_sell.decimals)?;
        Ok(ModuleCall::ExpandAndBuy { adapter_id, delegate_data, mint_amount })
    } else {
        Ok(ModuleCall::ContractAndSell { adapter_id, delegate_data })
    }
}

/// Builds the call to the stability module that an action asks for. `now` is
/// the current time in seconds since the epoch; the swap's deadline is counted
/// from it, so it is read right before the call is sent.
pub fn build_module_call(config: &Config, action: &KeeperAction, now: u64) -> (r: Result<
    Option<ModuleCall>,
    KeeperError,
>)
    ensures
        call_result(r) == module_call(*config, action@, now as nat),
{
    match action {
        KeeperAction::Hold(_) => Ok(None),
        KeeperAction::ExpandAndBuy(details) => {
            let call = build_swap_call(config, details, true, now)?;
            Ok(Some(call))
        },
        KeeperAction::ContractAndSell(details) => {
            let call = build_swap_call(config, details, false, now)?;
            Ok(Some(call))
        },
    }
}

/// How a call failed, as the sender saw it: the error as text and, where the
/// module's declared errors decode it, the reason of the revert.
#[derive(Debug)]
pub struct CallFailure {
    pub error: String,
    pub revert_reason: Option<String>,
}

/// What came of a call that was sent.
#[derive(Debug)]
pub enum TxOutcome {
    /// Mined and confirmed to the required depth.
    Confirmed { transaction_hash: [u8; 32] },
    /// Refused by the module, for a reason it declares.
    Reverted { reason: String },
    /// Lost to the network or the node, or refused for no reason that decodes.
    TransportFailed { error: String },
}

/// A failure with a decoded reason is a revert; any other is a transport
/// failure and keeps the error's text.
pub open spec fn outcome_of_failure(failure: CallFailure) -> TxOutcome {
    match failure.revert_reason {
        Some(reason) => TxOutcome::Reverted { reason },
        None => TxOutcome::TransportFailed { error: failure.error },
    }
}

/// Classifies a failed submission or confirmation.
pub fn classify_failure(failure: CallFailure) -> (r: TxOutcome)
    ensures
        r == outcome_of_failure(failure),
{
    match failure.revert_reason {
        Some(reason) => TxOutcome::Reverted { reason },
        None => TxOutcome::TransportFailed { error: failure.error },
    }
}

} // verus!
