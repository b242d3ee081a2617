use azos_keeper::config::Config;
use azos_keeper::decimal::Decimal;
use azos_keeper::error::KeeperError;
use azos_keeper::executor::{CallFailure, ModuleCall, TxOutcome};
use azos_keeper::keeper::{tick_keeper_loop, Event, Keeper, Phase, Report, Request, Step};
use azos_keeper::token::{Address, Token, TokenPair};
use azos_keeper::uint::U256;

const KP_E18: u128 = 1_000_000_000_000_000_000;

fn kp_dec(mantissa: i128, scale: u32) -> Decimal {
    Decimal::try_new(mantissa, scale).unwrap()
}

fn kp_address(fill: u8) -> Address {
    Address { bytes: [fill; 20] }
}

fn kp_pair(symbol: &str, fill_0: u8, fill_1: u8) -> TokenPair {
    TokenPair {
        symbol: symbol.to_string(),
        token_0: Token { symbol: "A".to_string(), address: kp_address(fill_0), decimals: 18 },
        token_1: Token { symbol: "B".to_string(), address: kp_address(fill_1), decimals: 18 },
    }
}

fn kp_config(pairs: Vec<TokenPair>, delay: i32) -> Config {
    Config {
        rpc_url: "http://localhost:8545".to_string(),
        delay_between_checks_ms: delay,
        token_pairs: pairs,
        keeper_wallet_private_key: String::new(),
        uniswap_router_address: kp_address(0xaa),
        uniswap_factory_address: kp_address(0xbb),
        uniswap_fee_rate: kp_dec(3, 3),
        stability_module_address: kp_address(0xcc),
        ratio_range_allowed: (kp_dec(996, 3), kp_dec(1002, 3)),
        ratio_range_targets: (kp_dec(997, 3), kp_dec(1001, 3)),
        adapter_name: "USDC".to_string(),
        adapter_uniswap_v2_address: kp_address(0xdd),
        tx_confirmations_required: 3,
    }
}

fn kp_two_pairs() -> Config {
    kp_config(vec![kp_pair("first", 0x11, 0x22), kp_pair("second", 0x33, 0x44)], 3_000)
}

fn kp_reserves(supply_0: u128, supply_1: u128) -> Event {
    Event::Reserves(Some((U256::from_u128(supply_0 * KP_E18), U256::from_u128(supply_1 * KP_E18))))
}

fn kp_at(phase: Phase, pair_index: usize) -> Keeper {
    Keeper { last_block_processed: Some(10), pair_index, phase }
}

fn kp_asks_pool_of(step: &Step, index: usize, fill_0: u8, fill_1: u8) {
    assert!(matches!(step.keeper.phase, Phase::AwaitingPool));
    assert_eq!(step.keeper.pair_index, index);
    match &step.request {
        Request::Pool { token_a, token_b } => {
            assert_eq!(token_a.bytes, [fill_0; 20]);
            assert_eq!(token_b.bytes, [fill_1; 20]);
        }
        other => panic!("expected a pool request, got {:?}", other),
    }
}

fn kp_sleeps(step: &Step, milliseconds: u64) {
    assert!(matches!(step.keeper.phase, Phase::Sleeping));
    match &step.request {
        Request::Sleep { milliseconds: m } => assert_eq!(*m, milliseconds),
        other => panic!("expected to sleep, got {:?}", other),
    }
}

fn kp_failed_with(step: &Step, error: KeeperError) {
    match &step.report {
        Some(Report::Failed(e)) => assert_eq!(*e, error),
        other => panic!("expected a failure, got {:?}", other),
    }
}

#[test]
fn keeper_starts_by_asking_for_the_block() {
    let (keeper, request) = Keeper::start();
    assert!(keeper.last_block_processed.is_none());
    assert_eq!(keeper.pair_index, 0);
    assert!(matches!(keeper.phase, Phase::AwaitingBlock));
    assert!(matches!(request, Request::BlockNumber));
}

#[test]
fn new_block_starts_with_the_first_pair() {
    let config = kp_two_pairs();
    let (keeper, _) = Keeper::start();
    let step = tick_keeper_loop(&config, keeper, Event::BlockNumber(Some(0)));
    assert_eq!(step.keeper.last_block_processed, Some(0));
    assert!(step.report.is_none());
    kp_asks_pool_of(&step, 0, 0x11, 0x22);
}

#[test]
fn same_block_is_not_handled_twice() {
    let config = kp_two_pairs();
    let step = tick_keeper_loop(&config, kp_at(Phase::AwaitingBlock, 2), Event::BlockNumber(Some(10)));
    kp_sleeps(&step, 3_000);
    assert_eq!(step.keeper.last_block_processed, Some(10));
    match step.report {
        Some(Report::BlockAlreadyHandled { block_number }) => assert_eq!(block_number, 10),
        other => panic!("expected the block to be known, got {:?}", other),
    }
}

#[test]
fn any_other_block_is_handled() {
    let config = kp_two_pairs();
    for block in [9u64, 11] {
        let step =
            tick_keeper_loop(&config, kp_at(Phase::AwaitingBlock, 2), Event::BlockNumber(Some(block)));
        assert_eq!(step.keeper.last_block_processed, Some(block));
        kp_asks_pool_of(&step, 0, 0x11, 0x22);
    }
}

#[test]
fn failed_block_read_waits_for_the_next_wake_up() {
    let config = kp_two_pairs();
    let step = tick_keeper_loop(&config, kp_at(Phase::AwaitingBlock, 0), Event::BlockNumber(None));
    kp_sleeps(&step, 3_000);
    kp_failed_with(&step, KeeperError::RpcError);
    assert_eq!(step.keeper.last_block_processed, Some(10));
}

#[test]
fn waking_up_asks_for_the_block() {
    let config = kp_two_pairs();
    let step = tick_keeper_loop(&config, kp_at(Phase::Sleeping, 2), Event::Slept);
    assert!(matches!(step.keeper.phase, Phase::AwaitingBlock));
    assert!(matches!(step.request, Request::BlockNumber));
    assert!(step.report.is_none());
}

#[test]
fn no_pairs_means_straight_back_to_sleep() {
    let config = kp_config(vec![], -5);
    let step = tick_keeper_loop(&config, kp_at(Phase::AwaitingBlock, 0), Event::BlockNumber(Some(11)));
    kp_sleeps(&step, 0);
    assert_eq!(step.keeper.last_block_processed, Some(11));
    assert!(step.report.is_none());
}

#[test]
fn known_pool_leads_to_its_reserves() {
    let config = kp_two_pairs();
    let step =
        tick_keeper_loop(&config, kp_at(Phase::AwaitingPool, 0), Event::Pool(Some(kp_address(0x77))));
    assert!(matches!(step.keeper.phase, Phase::AwaitingReserves));
    assert_eq!(step.keeper.pair_index, 0);
    match step.request {
        Request::Reserves { pool } => assert_eq!(pool.bytes, [0x77; 20]),
        other => panic!("expected a reserves request, got {:?}", other),
    }
}

#[test]
fn zero_pool_address_skips_the_pair() {
    let config = kp_two_pairs();
    let step =
        tick_keeper_loop(&config, kp_at(Phase::AwaitingPool, 0), Event::Pool(Some(kp_address(0))));
    kp_failed_with(&step, KeeperError::PoolNotFound);
    kp_asks_pool_of(&step, 1, 0x33, 0x44);
}

#[test]
fn failed_reserve_read_does_not_stop_the_next_pair() {
    let config = kp_two_pairs();
    let step = tick_keeper_loop(&config, kp_at(Phase::AwaitingReserves, 0), Event::Reserves(None));
    kp_failed_with(&step, KeeperError::RpcError);
    kp_asks_pool_of(&step, 1, 0x33, 0x44);
    assert_eq!(step.keeper.last_block_processed, Some(10));
}

#[test]
fn failed_pool_read_does_not_stop_the_next_pair() {
    let config = kp_two_pairs();
    let step = tick_keeper_loop(&config, kp_at(Phase::AwaitingPool, 0), Event::Pool(None));
    kp_failed_with(&step, KeeperError::RpcError);
    kp_asks_pool_of(&step, 1, 0x33, 0x44);
}

#[test]
fn failure_on_the_last_pair_ends_the_tick() {
    let config = kp_two_pairs();
    let step = tick_keeper_loop(&config, kp_at(Phase::AwaitingReserves, 1), Event::Reserves(None));
    kp_failed_with(&step, KeeperError::RpcError);
    kp_sleeps(&step, 3_000);
    assert_eq!(step.keeper.pair_index, 2);
}

#[test]
fn reserves_inside_the_band_ask_for_no_quote() {
    let config = kp_two_pairs();
    let step =
        tick_keeper_loop(&config, kp_at(Phase::AwaitingReserves, 0), kp_reserves(998_000, 1_000_000));
    match &step.report {
        Some(Report::NoAction { dex_price }) => {
            assert_eq!(dex_price.mantissa() * 1000, 998 * 10i128.pow(dex_price.scale()));
        }
        other => panic!("expected no action, got {:?}", other),
    }
    kp_asks_pool_of(&step, 1, 0x33, 0x44);
}

#[test]
fn reserves_outside_the_band_ask_for_a_quote() {
    let config = kp_two_pairs();
    let step =
        tick_keeper_loop(&config, kp_at(Phase::AwaitingReserves, 0), kp_reserves(1_050_000, 950_000));
    assert!(step.report.is_none());
    assert_eq!(step.keeper.pair_index, 0);
    assert!(matches!(step.keeper.phase, Phase::AwaitingQuote(_)));
    match &step.request {
        Request::Quote { amount_out, path } => {
            let expected = 49_500 * KP_E18;
            assert_eq!(amount_out.limbs, [expected as u64, (expected >> 64) as u64, 0, 0]);
            assert_eq!(path.len(), 2);
            assert_eq!(path[0].bytes, [0x22; 20]);
            assert_eq!(path[1].bytes, [0x11; 20]);
        }
        other => panic!("expected a quote request, got {:?}", other),
    }
}

#[test]
fn empty_pool_is_reported_and_skipped() {
    let config = kp_two_pairs();
    let step = tick_keeper_loop(&config, kp_at(Phase::AwaitingReserves, 0), kp_reserves(5, 0));
    kp_failed_with(&step, KeeperError::DivisionByZero);
    kp_asks_pool_of(&step, 1, 0x33, 0x44);
}

#[test]
fn a_swap_runs_from_quote_to_confirmation() {
    let config = kp_two_pairs();
    let step =
        tick_keeper_loop(&config, kp_at(Phase::AwaitingReserves, 0), kp_reserves(1_050_000, 950_000));
    let step =
        tick_keeper_loop(&config, step.keeper, Event::Quote(Some(U256::from_u128(52_000 * KP_E18))));
    assert!(matches!(step.keeper.phase, Phase::AwaitingClock(_)));
    assert!(matches!(step.request, Request::Clock));
    assert!(step.report.is_none());

    let step = tick_keeper_loop(&config, step.keeper, Event::Clock(1_700_000_000));
    assert!(matches!(step.keeper.phase, Phase::AwaitingSubmission));
    match &step.request {
        Request::Submit(ModuleCall::ExpandAndBuy { adapter_id, delegate_data, mint_amount }) => {
            assert_eq!(&adapter_id[..4], b"USDC");
            assert_eq!(&delegate_data[..4], &[0x62, 0x7d, 0xd5, 0x6a]);
            let minted = 52_000 * KP_E18;
            assert_eq!(mint_amount.limbs, [minted as u64, (minted >> 64) as u64, 0, 0]);
        }
        other => panic!("expected an expanding call, got {:?}", other),
    }

    let step = tick_keeper_loop(&config, step.keeper, Event::Submitted(Ok(())));
    assert!(matches!(step.keeper.phase, Phase::AwaitingConfirmation));
    match step.request {
        Request::Confirmations { count } => assert_eq!(count, 3),
        other => panic!("expected to wait for confirmations, got {:?}", other),
    }

    let step = tick_keeper_loop(&config, step.keeper, Event::Confirmed(Ok([0x5a; 32])));
    match &step.report {
        Some(Report::Finished(TxOutcome::Confirmed { transaction_hash })) => {
            assert_eq!(*transaction_hash, [0x5a; 32]);
        }
        other => panic!("expected a confirmation, got {:?}", other),
    }
    kp_asks_pool_of(&step, 1, 0x33, 0x44);
}

#[test]
fn a_contraction_submits_the_contracting_call() {
    let config = kp_two_pairs();
    let step =
        tick_keeper_loop(&config, kp_at(Phase::AwaitingReserves, 1), kp_reserves(995_000, 1_000_000));
    let step =
        tick_keeper_loop(&config, step.keeper, Event::Quote(Some(U256::from_u128(1_010 * KP_E18))));
    let step = tick_keeper_loop(&config, step.keeper, Event::Clock(1_700_000_000));
    assert!(matches!(step.request, Request::Submit(ModuleCall::ContractAndSell { .. })));
    assert_eq!(step.keeper.pair_index, 1);
}

#[test]
fn missing_quote_skips_the_pair() {
    let config = kp_two_pairs();
    let step =
        tick_keeper_loop(&config, kp_at(Phase::AwaitingReserves, 0), kp_reserves(1_050_000, 950_000));
    let step = tick_keeper_loop(&config, step.keeper, Event::Quote(None));
    kp_failed_with(&step, KeeperError::RpcError);
    kp_asks_pool_of(&step, 1, 0x33, 0x44);
}

#[test]
fn rejected_submission_is_classified_and_the_tick_goes_on() {
    let config = kp_two_pairs();
    let failure = CallFailure {
        error: "execution reverted".to_string(),
        revert_reason: Some("Paused".to_string()),
    };
    let step =
        tick_keeper_loop(&config, kp_at(Phase::AwaitingSubmission, 0), Event::Submitted(Err(failure)));
    match &step.report {
        Some(Report::Finished(TxOutcome::Reverted { reason })) => assert_eq!(reason, "Paused"),
        other => panic!("expected a revert, got {:?}", other),
    }
    kp_asks_pool_of(&step, 1, 0x33, 0x44);
}

#[test]
fn failed_confirmation_is_a_transport_failure() {
    let config = kp_two_pairs();
    let failure = CallFailure { error: "timed out".to_string(), revert_reason: None };
    let step = tick_keeper_loop(
        &config,
        kp_at(Phase::AwaitingConfirmation, 1),
        Event::Confirmed(Err(failure)),
    );
    match &step.report {
        Some(Report::Finished(TxOutcome::TransportFailed { error })) => {
            assert_eq!(error, "timed out")
        }
        other => panic!("expected a transport failure, got {:?}", other),
    }
    kp_sleeps(&step, 3_000);
}

#[test]
fn an_answer_to_nothing_pending_sends_the_keeper_to_sleep() {
    let config = kp_two_pairs();
    let step = tick_keeper_loop(&config, kp_at(Phase::AwaitingPool, 0), Event::Clock(5));
    kp_failed_with(&step, KeeperError::InvariantViolation);
    kp_sleeps(&step, 3_000);
    let step = tick_keeper_loop(&config, kp_at(Phase::Sleeping, 0), Event::BlockNumber(Some(3)));
    kp_failed_with(&step, KeeperError::InvariantViolation);
    kp_sleeps(&step, 3_000);
    let step = tick_keeper_loop(&config, kp_at(Phase::AwaitingBlock, 0), Event::Slept);
    kp_failed_with(&step, KeeperError::InvariantViolation);
    let step = tick_keeper_loop(&config, kp_at(Phase::AwaitingReserves, 7), Event::Reserves(None));
    kp_failed_with(&step, KeeperError::InvariantViolation);
    kp_sleeps(&step, 3_000);
}
