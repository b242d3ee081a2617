//! The keeper as a state machine.
//!
//! The keeper never reads the chain or sends anything itself. It is handed the
//! answer to its last request as an event, decides, and names the next
//! request. Per wake-up it asks for the block height and, on a height it has
//! not handled, takes the configured pairs one after the other: pool, reserves,
//! and outside the allowed band a quote, the time, a submission and its
//! confirmations. A failure ends the turn of one pair only.

use crate::config::Config;
use crate::decimal::{decimal_quotient, Decimal, DecimalValue};
use crate::error::KeeperError;
use crate::executor::{
    build_module_call, classify_failure, module_call, outcome_of_failure, CallFailure, ModuleCall,
    ModuleCallView, TxOutcome,
};
use crate::rebalance::{
    action_for, band, details_of, determine_action_to_take_for_pair, get_token_swap_details,
    normalize_reserves, quote_value, snapshot_of, swap_plan, within_range, KeeperAction,
    KeeperActionView, SwapPlan, SwapPlanView,
};
use crate::token::{copy_addresses, Address};
use crate::uint::U256;
use vstd::prelude::*;

verus! {

/// What the keeper is waiting for.
#[derive(Debug)]
pub enum Phase {
    /// The end of the pause between two wake-ups.
    Sleeping,
    /// The current block height.
    AwaitingBlock,
    /// The pool of the pair in turn.
    AwaitingPool,
    /// The reserves of that pool.
    AwaitingReserves,
    /// The router's quote for the plan.
    AwaitingQuote(SwapPlan),
    /// The time. The action is decided; its call is dated when it is built.
    AwaitingClock(KeeperAction),
    /// Word that the call was accepted. The call is built and handed out.
    AwaitingSubmission,
    /// The confirmations of the call, which is submitted.
    AwaitingConfirmation,
}

/// A phase as the contracts see it.
pub enum PhaseView {
    Sleeping,
    AwaitingBlock,
    AwaitingPool,
    AwaitingReserves,
    AwaitingQuote(SwapPlanView),
    AwaitingClock(KeeperActionView),
    AwaitingSubmission,
    AwaitingConfirmation,
}

impl View for Phase {
    type V = PhaseView;

    open spec fn view(&self) -> PhaseView {
        match self {
            Phase::Sleeping => PhaseView::Sleeping,
            Phase::AwaitingBlock => PhaseView::AwaitingBlock,
            Phase::AwaitingPool => PhaseView::AwaitingPool,
            Phase::AwaitingReserves => PhaseView::AwaitingReserves,
            Phase::AwaitingQuote(plan) => PhaseView::AwaitingQuote(plan@),
            Phase::AwaitingClock(action) => PhaseView::AwaitingClock(action@),
            Phase::AwaitingSubmission => PhaseView::AwaitingSubmission,
            Phase::AwaitingConfirmation => PhaseView::AwaitingConfirmation,
        }
    }
}

/// The keeper's state: the last block height it handled, if any, the pair in
/// turn, and what it is waiting for.
#[derive(Debug)]
pub struct Keeper {
    pub last_block_processed: Option<u64>,
    pub pair_index: usize,
    pub phase: Phase,
}

/// The keeper's state as the contracts see it.
pub struct KeeperView {
    pub last_block_processed: Option<u64>,
    pub pair_index: nat,
    pub phase: PhaseView,
}

impl View for Keeper {
    type V = KeeperView;

    open spec fn view(&self) -> KeeperView {
        KeeperView {
            last_block_processed: self.last_block_processed,
            pair_index: self.pair_index as nat,
            phase: self.phase@,
        }
    }
}

/// What the keeper asks its caller to do next.
#[derive(Debug)]
pub enum Request {
    /// Read the current block height.
    BlockNumber,
    /// Ask the factory for the pool of two tokens.
    Pool { token_a: Address, token_b: Address },
    /// Read the reserves of a pool.
    Reserves { pool: Address },
    /// Ask the router what has to go in for `amount_out` to come out.
    Quote { amount_out: U256, path: Vec<Address> },
    /// Read the time, in seconds since the epoch.
    Clock,
    /// Send a call to the stability module.
    Submit(ModuleCall),
    /// Wait until the call that was sent has this many confirmations.
    Confirmations { count: usize },
    /// Pause before the next wake-up.
    Sleep { milliseconds: u64 },
}

/// A request as the contracts see it.
pub enum RequestView {
    BlockNumber,
    Pool { token_a: Address, token_b: Address },
    Reserves { pool: Address },
    Quote { amount_out: nat, path: Seq<Address> },
    Clock,
    Submit(ModuleCallView),
    Confirmations { count: usize },
    Sleep { milliseconds: u64 },
}

impl View for Request {
    type V = RequestView;

    open spec fn view(&self) -> RequestView {
        match self {
            Request::BlockNumber => RequestView::BlockNumber,
            Request::Pool { token_a, token_b } => RequestView::Pool {
                token_a: *token_a,
                token_b: *token_b,
            },
            Request::Reserves { pool } => RequestView::Reserves { pool: *pool },
            Request::Quote { amount_out, path } => RequestView::Quote {
                amount_out: amount_out@,
                path: path@,
            },
            Request::Clock => RequestView::Clock,
            Request::Submit(call) => RequestView::Submit(call@),
            Request::Confirmations { count } => RequestView::Confirmations { count: *count },
            Request::Sleep { milliseconds } => RequestView::Sleep { milliseconds: *milliseconds },
        }
    }
}

/// The answer to a request. A read that failed on the way is `None`.
#[derive(Debug)]
pub enum Event {
    /// The pause is over.
    Slept,
    BlockNumber(Option<u64>),
    Pool(Option<Address>),
    /// The pool's two reserves, in the pool's own order.
    Reserves(Option<(U256, U256)>),
    /// The amount to put in, the first of the amounts the router returns.
    Quote(Option<U256>),
    Clock(u64),
    Submitted(Result<(), CallFailure>),
    /// The hash of the confirmed transaction.
    Confirmed(Result<[u8; 32], CallFailure>),
}

/// What a step settled, for the caller's log.
#[derive(Debug)]
pub enum Report {
    /// The block height is the one handled last; nothing was done.
    BlockAlreadyHandled { block_number: u64 },
    /// The price of the pair in turn is inside the allowed band.
    NoAction { dex_price: Decimal },
    /// The call for the pair in turn was sent, with this outcome.
    Finished(TxOutcome),
    /// The turn of the pair, or the wake-up, ended on a failure.
    Failed(KeeperError),
}

/// A report as the contracts see it.
pub enum ReportView {
    BlockAlreadyHandled { block_number: u64 },
    NoAction { dex_price: DecimalValue },
    Finished(TxOutcome),
    Failed(KeeperError),
}

impl View for Report {
    type V = ReportView;

    open spec fn view(&self) -> ReportView {
        match self {
            Report::BlockAlreadyHandled { block_number } => ReportView::BlockAlreadyHandled {
                block_number: *block_number,
            },
            Report::NoAction { dex_price } => ReportView::NoAction { dex_price: dex_price@ },
            Report::Finished(outcome) => ReportView::Finished(*outcome),
            Report::Failed(e) => ReportView::Failed(*e),
        }
    }
}

/// One step of the keeper: its state afterwards, its next request, and what
/// the step settled, if anything.
#[derive(Debug)]
pub struct Step {
    pub keeper: Keeper,
    pub request: Request,
    pub report: Option<Report>,
}

/// A step as the contracts see it.
pub struct StepView {
    pub keeper: KeeperView,
    pub request: RequestView,
    pub report: Option<ReportView>,
}

impl View for Step {
    type V = StepView;

    open spec fn view(&self) -> StepView {
        StepView {
            keeper: self.keeper@,
            request: self.request@,
            report: match self.report {
                Some(report) => Some(report@),
                None => None,
            },
        }
    }
}

/// The pause between two wake-ups; a negative setting counts as none.
pub open spec fn pause(config: Config) -> u64 {
    if config.delay_between_checks_ms < 0 {
        0
    } else {
        config.delay_between_checks_ms as u64
    }
}

/// The keeper goes to sleep.
pub open spec fn go_to_sleep(
    config: Config,
    last_block_processed: Option<u64>,
    pair_index: nat,
    report: Option<ReportView>,
) -> StepView {
    StepView {
        keeper: KeeperView { last_block_processed, pair_index, phase: PhaseView::Sleeping },
        request: RequestView::Sleep { milliseconds: pause(config) },
        report,
    }
}

/// The keeper turns to the pair at `pair_index`: it asks for that pair's pool,
/// or goes to sleep when every pair has had its turn.
pub open spec fn turn_to_pair(
    config: Config,
    last_block_processed: Option<u64>,
    pair_index: nat,
    report: Option<ReportView>,
) -> StepView {
    if pair_index < config.token_pairs@.len() {
        let pair = config.token_pairs@[pair_index as int];
        StepView {
            keeper: KeeperView {
                last_block_processed,
                pair_index,
                phase: PhaseView::AwaitingPool,
            },
            request: RequestView::Pool {
                token_a: pair.token_0.address,
                token_b: pair.token_1.address,
            },
            report,
        }
    } else {
        go_to_sleep(config, last_block_processed, pair_index, report)
    }
}

/// The keeper stays with the pair in turn and asks for the next thing.
pub open spec fn carry_on(
    last_block_processed: Option<u64>,
    pair_index: nat,
    phase: PhaseView,
    request: RequestView,
) -> StepView {
    StepView {
        keeper: KeeperView { last_block_processed, pair_index, phase },
        request,
        report: None,
    }
}

/// The step on the reserves of the pair in turn. Inside the allowed band the
/// pair's turn ends with no action and no quote is asked for; outside it the
/// keeper asks the router for a quote.
pub open spec fn step_on_reserves(
    config: Config,
    last_block_processed: Option<u64>,
    pair_index: nat,
    reserve_0: nat,
    reserve_1: nat,
) -> StepView {
    let pair = config.token_pairs@[pair_index as int];
    let next = pair_index + 1;
    match snapshot_of(pair, reserve_0, reserve_1) {
        None => turn_to_pair(
            config,
            last_block_processed,
            next as nat,
            Some(ReportView::Failed(KeeperError::ArithmeticOverflow)),
        ),
        Some(supplies) => match swap_plan(
            pair,
            supplies.0,
            supplies.1,
            band(config.ratio_range_allowed),
            band(config.ratio_range_targets),
        ) {
            Err(e) => turn_to_pair(
                config,
                last_block_processed,
                next as nat,
                Some(ReportView::Failed(e)),
            ),
            Ok(SwapPlanView::Hold { price }) => turn_to_pair(
                config,
                last_block_processed,
                next as nat,
                Some(ReportView::NoAction { dex_price: price }),
            ),
            Ok(
                SwapPlanView::Quote {
                    price,
                    token_0_is_overvalued,
                    quantity_to_buy,
                    amount_out,
                    path,
                },
            ) => carry_on(
                last_block_processed,
                pair_index,
                PhaseView::AwaitingQuote(
                    SwapPlanView::Quote {
                        price,
                        token_0_is_overvalued,
                        quantity_to_buy,
                        amount_out,
                        path,
                    },
                ),
                RequestView::Quote { amount_out, path },
            ),
        },
    }
}

/// The step of the keeper while a pair is in turn.
pub open spec fn step_on_pair(
    config: Config,
    last_block_processed: Option<u64>,
    pair_index: nat,
    phase: PhaseView,
    event: Event,
) -> StepView {
    let pair = config.token_pairs@[pair_index as int];
    let next = (pair_index + 1) as nat;
    match (phase, event) {
        (PhaseView::AwaitingPool, Event::Pool(None)) => turn_to_pair(
            config,
            last_block_processed,
            next,
            Some(ReportView::Failed(KeeperError::RpcError)),
        ),
        (PhaseView::AwaitingPool, Event::Pool(Some(pool))) => if pool.is_zero() {
            turn_to_pair(
                config,
                last_block_processed,
                next,
                Some(ReportView::Failed(KeeperError::PoolNotFound)),
            )
        } else {
            carry_on(
                last_block_processed,
                pair_index,
                PhaseView::AwaitingReserves,
                RequestView::Reserves { pool },
            )
        },
        (PhaseView::AwaitingReserves, Event::Reserves(None)) => turn_to_pair(
            config,
            last_block_processed,
            next,
            Some(ReportView::Failed(KeeperError::RpcError)),
        ),
        (PhaseView::AwaitingReserves, Event::Reserves(Some(reserves))) => step_on_reserves(
            config,
            last_block_processed,
            pair_index,
            reserves.0@,
            reserves.1@,
        ),
        (PhaseView::AwaitingQuote(plan), Event::Quote(answer)) => match action_for(
            pair,
            plan,
            quote_value(answer),
        ) {
            Err(e) => turn_to_pair(
                config,
                last_block_processed,
                next,
                Some(ReportView::Failed(e)),
            ),
            Ok(action) => carry_on(
                last_block_processed,
                pair_index,
                PhaseView::AwaitingClock(action),
                RequestView::Clock,
            ),
        },
        (PhaseView::AwaitingClock(action), Event::Clock(now)) => match module_call(
            config,
            action,
            now as nat,
        ) {
            Err(e) => turn_to_pair(
                config,
                last_block_processed,
                next,
                Some(ReportView::Failed(e)),
            ),
            Ok(None) => turn_to_pair(
                config,
                last_block_processed,
                next,
                Some(ReportView::NoAction { dex_price: details_of(action).dex_price }),
            ),
            Ok(Some(call)) => carry_on(
                last_block_processed,
                pair_index,
                PhaseView::AwaitingSubmission,
                RequestView::Submit(call),
            ),
        },
        (PhaseView::AwaitingSubmission, Event::Submitted(Ok(_))) => carry_on(
            last_block_processed,
            pair_index,
            PhaseView::AwaitingConfirmation,
            RequestView::Confirmations { count: config.tx_confirmations_required },
        ),
        (PhaseView::AwaitingSubmission, Event::Submitted(Err(failure))) => turn_to_pair(
            config,
            last_block_processed,
            next,
            Some(ReportView::Finished(outcome_of_failure(failure))),
        ),
        (PhaseView::AwaitingConfirmation, Event::Confirmed(Ok(transaction_hash))) => turn_to_pair(
            config,
            last_block_processed,
            next,
            Some(ReportView::Finished(TxOutcome::Confirmed { transaction_hash })),
        ),
        (PhaseView::AwaitingConfirmation, Event::Confirmed(Err(failure))) => turn_to_pair(
            config,
            last_block_processed,
            next,
            Some(ReportView::Finished(outcome_of_failure(failure))),
        ),
        _ => go_to_sleep(
            config,
            last_block_processed,
            pair_index,
            Some(ReportView::Failed(KeeperError::InvariantViolation)),
        ),
    }
}

/// The step of the keeper on an event. After a pause it asks for the block
/// height. A height equal to the one handled last sends it back to sleep; any
/// other becomes the height handled last, and the first pair is taken up.
/// While a pair is in turn `step_on_pair` decides. An event that answers no
/// pending request sends the keeper to sleep with `InvariantViolation`.
pub open spec fn keeper_step(config: Config, keeper: KeeperView, event: Event) -> StepView {
    let last = keeper.last_block_processed;
    let index = keeper.pair_index;
    match keeper.phase {
        PhaseView::Sleeping => match event {
            Event::Slept => carry_on(last, index, PhaseView::AwaitingBlock, RequestView::BlockNumber),
            _ => go_to_sleep(
                config,
                last,
                index,
                Some(ReportView::Failed(KeeperError::InvariantViolation)),
            ),
        },
        PhaseView::AwaitingBlock => match event {
            Event::BlockNumber(None) => go_to_sleep(
                config,
                last,
                index,
                Some(ReportView::Failed(KeeperError::RpcError)),
            ),
            Event::BlockNumber(Some(block_number)) => if last == Some(block_number) {
                go_to_sleep(
                    config,
                    last,
                    index,
                    Some(ReportView::BlockAlreadyHandled { block_number }),
                )
            } else {
                turn_to_pair(config, Some(block_number), 0, None)
            },
            _ => go_to_sleep(
                config,
                last,
                index,
                Some(ReportView::Failed(KeeperError::InvariantViolation)),
            ),
        },
        phase => if index < config.token_pairs@.len() {
            step_on_pair(config, last, index, phase, event)
        } else {
            go_to_sleep(
                config,
                last,
                index,
                Some(ReportView::Failed(KeeperError::InvariantViolation)),
            )
        },
    }
}

fn sleep(config: &Config, last_block_processed: Option<u64>, pair_index: usize, report: Option<
    Report,
>) -> (r: Step)
    ensures
        r@ == go_to_sleep(
            *config,
            last_block_processed,
            pair_index as nat,
            match report {
                Some(x) => Some(x@),
                None => None,
            },
        ),
{
    let milliseconds: u64 = if config.delay_between_checks_ms < 0 {
        0
    } else {
        config.delay_between_checks_ms as u64
    };
    Step {
        keeper: Keeper { last_block_processed, pair_index, phase: Phase::Sleeping },
        request: Request::Sleep { milliseconds },
        report,
    }
}

fn turn_to(config: &Config, last_block_processed: Option<u64>, pair_index: usize, report: Option<
    Report,
>) -> (r: Step)
    ensures
        r@ == turn_to_pair(
            *config,
            last_block_processed,
            pair_index as nat,
            match report {
                Some(x) => Some(x@),
                None => None,
            },
        ),
{
    if pair_index < config.token_pairs.len() {
        let pair = &config.token_pairs[pair_index];
        Step {
            keeper: Keeper { last_block_processed, pair_index, phase: Phase::AwaitingPool },
            request: Request::Pool {
                token_a: pair.token_0.address,
                token_b: pair.token_1.address,
            },
            report,
        }
    } else {
        sleep(config, last_block_processed, pair_index, report)
    }
}

fn proceed(last_block_processed: Option<u64>, pair_index: usize, phase: Phase, request: Request) -> (r:
    Step)
    ensures
        r@ == carry_on(last_block_processed, pair_index as nat, phase@, request@),
{
    Step { keeper: Keeper { last_block_processed, pair_index, phase }, request, report: None }
}

fn on_reserves(
    config: &Config,
    last_block_processed: Option<u64>,
    pair_index: usize,
    reserve_0: &U256,
    reserve_1: &U256,
) -> (r: Step)
    requires
        pair_index < config.token_pairs@.len(),
    ensures
        r@ == step_on_reserves(
            *config,
            last_block_processed,
            pair_index as nat,
            reserve_0@,
            reserve_1@,
        ),
{
    let pairs = config.token_pairs.len();
    let pair = &config.token_pairs[pair_index];
    let next = pair_index + 1;
    let snapshot = match normalize_reserves(pair, reserve_0, reserve_1) {
        Ok(snapshot) => snapshot,
        Err(e) => { return turn_to(config, last_block_processed, next, Some(Report::Failed(e))); },
    };
    match get_token_swap_details(config, pair, &snapshot) {
        Err(e) => turn_to(config, last_block_processed, next, Some(Report::Failed(e))),
        Ok(SwapPlan::Hold(dex_price)) => turn_to(
            config,
            last_block_processed,
            next,
            Some(Report::NoAction { dex_price }),
        ),
        Ok(SwapPlan::Quote(query)) => {
            let request = Request::Quote {
                amount_out: query.amount_out,
                path: copy_addresses(&query.path),
            };
            proceed(
                last_block_processed,
                pair_index,
                Phase::AwaitingQuote(SwapPlan::Quote(query)),
                request,
            )
        },
    }
}

fn on_pair(
    config: &Config,
    last_block_processed: Option<u64>,
    pair_index: usize,
    phase: Phase,
    event: Event,
) -> (r: Step)
    requires
        pair_index < config.token_pairs@.len(),
    ensures
        r@ == step_on_pair(*config, last_block_processed, pair_index as nat, phase@, event),
{
    let pairs = config.token_pairs.len();
    let pair = &config.token_pairs[pair_index];
    let next = pair_index + 1;
    let last = last_block_processed;
    match (phase, event) {
        (Phase::AwaitingPool, Event::Pool(None)) => turn_to(
            config,
            last,
            next,
            Some(Report::Failed(KeeperError::RpcError)),
        ),
        (Phase::AwaitingPool, Event::Pool(Some(pool))) => {
            if pool.is_zero() {
                turn_to(config, last, next, Some(Report::Failed(KeeperError::PoolNotFound)))
            } else {
                proceed(last, pair_index, Phase::AwaitingReserves, Request::Reserves { pool })
            }
        },
        (Phase::AwaitingReserves, Event::Reserves(None)) => turn_to(
            config,
            last,
            next,
            Some(Report::Failed(KeeperError::RpcError)),
        ),
        (Phase::AwaitingReserves, Event::Reserves(Some(reserves))) => on_reserves(
            config,
            last,
            pair_index,
            &reserves.0,
            &reserves.1,
        ),
        (Phase::AwaitingQuote(plan), Event::Quote(answer)) => {
            match determine_action_to_take_for_pair(pair, &plan, answer) {
                Err(e) => turn_to(config, last, next, Some(Report::Failed(e))),
                Ok(action) => proceed(
                    last,
                    pair_index,
                    Phase::AwaitingClock(action),
                    Request::Clock,
                ),
            }
        },
        (Phase::AwaitingClock(action), Event::Clock(now)) => {
            match build_module_call(config, &action, now) {
                Err(e) => turn_to(config, last, next, Some(Report::Failed(e))),
                Ok(None) => {
                    let dex_price = match &action {
                        KeeperAction::ExpandAndBuy(d) => d.dex_price,
                        KeeperAction::ContractAndSell(d) => d.dex_price,
                        KeeperAction::Hold(d) => d.dex_price,
                    };
                    turn_to(config, last, next, Some(Report::NoAction { dex_price }))
                },
                Ok(Some(call)) => proceed(
                    last,
                    pair_index,
                    Phase::AwaitingSubmission,
                    Request::Submit(call),
                ),
            }
        },
        (Phase::AwaitingSubmission, Event::Submitted(Ok(_))) => proceed(
            last,
            pair_index,
            Phase::AwaitingConfirmation,
            Request::Confirmations { count: config.tx_confirmations_required },
        ),
        (Phase::AwaitingSubmission, Event::Submitted(Err(failure))) => turn_to(
            config,
            last,
            next,
            Some(Report::Finished(classify_failure(failure))),
        ),
        (Phase::AwaitingConfirmation, Event::Confirmed(Ok(transaction_hash))) => turn_to(
            config,
            last,
            next,
            Some(Report::Finished(TxOutcome::Confirmed { transaction_hash })),
        ),
        (Phase::AwaitingConfirmation, Event::Confirmed(Err(failure))) => turn_to(
            config,
            last,
            next,
            Some(Report::Finished(classify_failure(failure))),
        ),
        _ => sleep(config, last, pair_index, Some(Report::Failed(KeeperError::InvariantViolation))),
    }
}

impl Keeper {
    /// A keeper that has handled no block yet, and its first request.
    pub fn start() -> (r: (Keeper, Request))
        ensures
            r.0@ == (KeeperView {
                last_block_processed: None,
                pair_index: 0,
                phase: PhaseView::AwaitingBlock,
            }),
            r.1@ == RequestView::BlockNumber,
    {
        (
            Keeper { last_block_processed: None, pair_index: 0, phase: Phase::AwaitingBlock },
            Request::BlockNumber,
        )
    }
}

/// Advances the keeper by one event: the answer to the request it made last.
/// The step holds the keeper's next request; the caller carries it out and
/// comes back with its answer.
pub fn tick_keeper_loop(config: &Config, keeper: Keeper, event: Event) -> (r: Step)
    ensures
        r@ == keeper_step(*config, keeper@, event),
{
    let last = keeper.last_block_processed;
    let index = keeper.pair_index;
    match keeper.phase {
        Phase::Sleeping => match event {
            Event::Slept => proceed(last, index, Phase::AwaitingBlock, Request::BlockNumber),
            _ => sleep(config, last, index, Some(Report::Failed(KeeperError::InvariantViolation))),
        },
        Phase::AwaitingBlock => match event {
            Event::BlockNumber(None) => sleep(
                config,
                last,
                index,
                Some(Report::Failed(KeeperError::RpcError)),
            ),
            Event::BlockNumber(Some(block_number)) => {
                let seen = match last {
                    Some(handled) => handled == block_number,
                    None => false,
                };
                if seen {
                    sleep(config, last, index, Some(Report::BlockAlreadyHandled { block_number }))
                } else {
                    turn_to(config, Some(block_number), 0, None)
                }
            },
            _ => sleep(config, last, index, Some(Report::Failed(KeeperError::InvariantViolation))),
        },
        phase => {
            if index < config.token_pairs.len() {
                on_pair(config, last, index, phase, event)
            } else {
                sleep(config, last, index, Some(Report::Failed(KeeperError::InvariantViolation)))
            }
        },
    }
}

/// Whether an event is the answer to what a phase is waiting for.
pub open spec fn answers(phase: PhaseView, event: Event) -> bool {
    match (phase, event) {
        (PhaseView::Sleeping, Event::Slept) => true,
        (PhaseView::AwaitingBlock, Event::BlockNumber(_)) => true,
        (PhaseView::AwaitingPool, Event::Pool(_)) => true,
        (PhaseView::AwaitingReserves, Event::Reserves(_)) => true,
        (PhaseView::AwaitingQuote(_), Event::Quote(_)) => true,
        (PhaseView::AwaitingClock(_), Event::Clock(_)) => true,
        (PhaseView::AwaitingSubmission, Event::Submitted(_)) => true,
        (PhaseView::AwaitingConfirmation, Event::Confirmed(_)) => true,
        _ => false,
    }
}

/// A read that fails while a pair is in turn ends the turn of that pair and
/// nothing else: the keeper reports `RpcError` and turns to the next pair,
/// whose pool it asks for. Only after the last pair does it go to sleep.
pub proof fn lemma_failed_read_moves_on(config: Config, keeper: KeeperView, event: Event)
    requires
        keeper.pair_index < config.token_pairs@.len(),
        (keeper.phase is AwaitingPool && event == Event::Pool(None)) || (keeper.phase
            is AwaitingReserves && event == Event::Reserves(None)) || (keeper.phase matches PhaseView::AwaitingQuote(
            plan,
        ) && plan is Quote && event == Event::Quote(None)),
    ensures
        keeper_step(config, keeper, event) == turn_to_pair(
            config,
            keeper.last_block_processed,
            keeper.pair_index + 1,
            Some(ReportView::Failed(KeeperError::RpcError)),
        ),
        keeper.pair_index + 1 < config.token_pairs@.len() ==> {
            let step = keeper_step(config, keeper, event);
            let next_pair = config.token_pairs@[(keeper.pair_index + 1) as int];
            &&& step.keeper.phase is AwaitingPool
            &&& step.keeper.pair_index == keeper.pair_index + 1
            &&& step.request == RequestView::Pool {
                token_a: next_pair.token_0.address,
                token_b: next_pair.token_1.address,
            }
        },
{
}

/// Whatever answer arrives while a pair is in turn, the keeper either stays
/// with that pair and reports nothing, or reports and turns to the next pair.
/// No outcome of one pair keeps the pairs after it from their turn.
pub proof fn lemma_every_pair_gets_its_turn(config: Config, keeper: KeeperView, event: Event)
    requires
        keeper.pair_index < config.token_pairs@.len(),
        !(keeper.phase is Sleeping),
        !(keeper.phase is AwaitingBlock),
        answers(keeper.phase, event),
    ensures
        ({
            let step = keeper_step(config, keeper, event);
            ||| (step.report is None && step.keeper.pair_index == keeper.pair_index && !(
            step.keeper.phase is Sleeping))
            ||| (step.report is Some && step == turn_to_pair(
                config,
                keeper.last_block_processed,
                keeper.pair_index + 1,
                step.report,
            ))
        }),
{
}

/// On reserves whose price is inside the allowed band the keeper asks the
/// router for nothing: it reports that no action is due, with the price, and
/// turns to the next pair.
pub proof fn lemma_inside_band_asks_no_quote(
    config: Config,
    keeper: KeeperView,
    reserves: (U256, U256),
    supplies: (DecimalValue, DecimalValue),
    price: DecimalValue,
)
    requires
        keeper.pair_index < config.token_pairs@.len(),
        keeper.phase is AwaitingReserves,
        snapshot_of(config.token_pairs@[keeper.pair_index as int], reserves.0@, reserves.1@)
            == Some(supplies),
        supplies.1.mantissa != 0,
        decimal_quotient(supplies.0, supplies.1) == Some(price),
        within_range(price, config.ratio_range_allowed.0@, config.ratio_range_allowed.1@),
    ensures
        ({
            let step = keeper_step(config, keeper, Event::Reserves(Some(reserves)));
            &&& !(step.request is Quote)
            &&& step.report == Some(ReportView::NoAction { dex_price: price })
            &&& step == turn_to_pair(
                config,
                keeper.last_block_processed,
                keeper.pair_index + 1,
                step.report,
            )
        }),
{
}

/// The block height is handled once: the same height again sends the keeper
/// back to sleep with nothing asked of the chain, and any other height becomes
/// the height handled last.
pub proof fn lemma_block_is_handled_once(config: Config, keeper: KeeperView, block_number: u64)
    requires
        keeper.phase is AwaitingBlock,
    ensures
        ({
            let step = keeper_step(config, keeper, Event::BlockNumber(Some(block_number)));
            if keeper.last_block_processed == Some(block_number) {
                &&& step.keeper.phase is Sleeping
                &&& step.request is Sleep
                &&& step.keeper.last_block_processed == keeper.last_block_processed
            } else {
                &&& step.keeper.last_block_processed == Some(block_number)
                &&& step == turn_to_pair(config, Some(block_number), 0, None)
            }
        }),
{
}

} // verus!
