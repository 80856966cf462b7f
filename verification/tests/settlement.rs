use mu_smart_contract::app::record_cycles_charge;
use mu_smart_contract::app::request_cycles;
use mu_smart_contract::app::resume_request_cycles;
use mu_smart_contract::app::ActiveApp;
use mu_smart_contract::app::App;
use mu_smart_contract::app::AppState;
use mu_smart_contract::app::AppUsage;
use mu_smart_contract::app::UsageKind;
use mu_smart_contract::developer::register_developer;
use mu_smart_contract::error::Error;
use mu_smart_contract::ledger::AccountIdentifier;
use mu_smart_contract::ledger::Subaccount;
use mu_smart_contract::ledger::Timestamp;
use mu_smart_contract::ledger::Tokens;
use mu_smart_contract::ledger::TransferArgs;
use mu_smart_contract::memory::State;
use mu_smart_contract::principal::PrincipalId;
use mu_smart_contract::settings::init_canister;
use mu_smart_contract::settings::InitArgs;
use mu_smart_contract::utils::exchange::exchange_rate_request;
use mu_smart_contract::utils::exchange::get_and_update_icp_cycles_exchange_rate;
use mu_smart_contract::utils::exchange::icp_cycles_exchange_rate;
use mu_smart_contract::utils::exchange::icp_needed;
use mu_smart_contract::utils::exchange::mainnet_cycle_minter_canister_id;
use mu_smart_contract::utils::exchange::notify_top_up;
use mu_smart_contract::utils::exchange::top_up_canister;
use mu_smart_contract::utils::exchange::top_up_resume;
use mu_smart_contract::utils::exchange::Asset;
use mu_smart_contract::utils::exchange::AssetClass;
use mu_smart_contract::utils::exchange::GetExchangeRateRequest;
use mu_smart_contract::utils::exchange::NotifyTopUpArg;
use mu_smart_contract::utils::exchange::TopUp;
use mu_smart_contract::utils::exchange::TopUpReply;
use mu_smart_contract::utils::exchange::TopUpRequest;
use mu_smart_contract::utils::exchange::TopUpStep;
use mu_smart_contract::utils::exchange::EXCHANGE_RATE_QUERY_CYCLES;
use mu_smart_contract::utils::exchange::MEMO_TOP_UP_CANISTER;
use mu_smart_contract::utils::get_developer_escrow_balance;
use mu_smart_contract::utils::transfer_tokens;
use mu_smart_contract::utils::CallReply;

const SECOND: u64 = 1_000_000_000;

fn id(byte: u8) -> PrincipalId {
    PrincipalId::try_from_slice(&[byte; 10]).unwrap()
}

/// A state with one developer, whose escrow subaccount is 5 over, and one app
/// of that developer.
fn state() -> State {
    let mut state = State::default();
    init_canister(
        &mut state,
        InitArgs {
            minimum_escrow_balance_for_deploy: Tokens::from_e8s(100),
            max_apps_per_developer: 2,
            commition_rate_bits: 0,
            exchange_rate_timeout_seconds: 10,
        },
    );
    register_developer(&mut state, id(1), &[5; 32]).unwrap();
    let app = App {
        developer_id: id(1),
        state: AppState::Active(ActiveApp { revision: 1, name: String::from("app"), data: vec![] }),
        usages: Vec::new(),
    };
    state.register_app(id(7), app).unwrap();
    state
}

fn top_up_transfer(app_id: PrincipalId, e8s: u64) -> TransferArgs {
    TransferArgs {
        memo: 1347768404,
        amount: Tokens::from_e8s(e8s),
        fee: Tokens::from_e8s(10_000),
        from_subaccount: Some(Subaccount([5; 32])),
        to: AccountIdentifier::new(
            &mainnet_cycle_minter_canister_id(),
            &Subaccount::from_principal(&app_id),
        ),
        created_at_time: None,
    }
}

/// What the outside answers, and what it was asked.
struct Outside {
    rate: CallReply<u64>,
    notification: CallReply<u128>,
    oracle_queries: u32,
    transfers: Vec<TransferArgs>,
    notifications: Vec<NotifyTopUpArg>,
}

impl Outside {
    fn new(rate: u64, cycles: u128) -> Self {
        Outside {
            rate: CallReply::Replied(rate),
            notification: CallReply::Replied(cycles),
            oracle_queries: 0,
            transfers: Vec::new(),
            notifications: Vec::new(),
        }
    }

    fn perform(&mut self, request: TopUpRequest) -> TopUpReply {
        match request {
            TopUpRequest::ExchangeRate(request) => {
                assert_eq!(request, exchange_rate_request());
                self.oracle_queries += 1;
                TopUpReply::ExchangeRate(self.rate.clone())
            }
            TopUpRequest::Transfer(args) => {
                self.transfers.push(args);
                TopUpReply::Transfer(CallReply::Replied(self.transfers.len() as u64))
            }
            TopUpRequest::NotifyTopUp(arg) => {
                self.notifications.push(arg);
                TopUpReply::NotifyTopUp(self.notification.clone())
            }
        }
    }
}

/// Runs a request for cycles as the request handler does.
fn run(state: &mut State, outside: &mut Outside, app_id: PrincipalId, cycles: u64, now: u64) -> Result<u128, Error> {
    let mut step = request_cycles(state, app_id, cycles, now);
    loop {
        match step {
            TopUpStep::Next(top_up, request) => {
                let reply = outside.perform(request);
                step = resume_request_cycles(state, top_up, reply, now);
            }
            TopUpStep::Done(cycles, _) => return Ok(cycles),
            TopUpStep::Failed(error) => return Err(error),
        }
    }
}

#[test]
fn the_tokens_needed_are_whole_tokens() {
    assert_eq!(icp_needed(10, 3), Ok(Tokens::from_e8s(300_000_000)));
    assert_eq!(icp_needed(2, 3), Ok(Tokens::from_e8s(0)));
    assert_eq!(icp_needed(3, 3), Ok(Tokens::from_e8s(100_000_000)));
    assert_eq!(icp_needed(0, 1), Ok(Tokens::from_e8s(0)));
    assert_eq!(
        icp_needed(184_467_440_737, 1),
        Ok(Tokens::from_e8s(18_446_744_073_700_000_000))
    );
}

#[test]
fn the_tokens_needed_fail_on_a_zero_rate_and_beyond_the_range() {
    assert_eq!(icp_needed(10, 0), Err(Error::Internal(String::from("Exchange rate is zero"))));
    assert_eq!(
        icp_needed(184_467_440_738, 1),
        Err(Error::Internal(String::from("Amount of tokens is out of range")))
    );
    assert_eq!(
        icp_needed(u64::MAX, 1),
        Err(Error::Internal(String::from("Amount of tokens is out of range")))
    );
}

#[test]
fn the_rate_is_asked_for_the_token_in_cycles() {
    assert_eq!(
        exchange_rate_request(),
        GetExchangeRateRequest {
            quote_asset: Asset {
                symbol: String::from("Cycles"),
                class: AssetClass::Cryptocurrency
            },
            base_asset: Asset { symbol: String::from("ICP"), class: AssetClass::Cryptocurrency },
            timestamp: None,
        }
    );
    assert_eq!(EXCHANGE_RATE_QUERY_CYCLES, 1_000_000_000);
    assert_eq!(MEMO_TOP_UP_CANISTER, 1347768404);
    assert_eq!(
        mainnet_cycle_minter_canister_id().to_vec(),
        vec![0x00, 0x00, 0x00, 0x00, 0x00, 0x00, 0x00, 0x04, 0x01, 0x01]
    );
}

#[test]
fn replies_become_answers_or_internal_errors() {
    assert_eq!(icp_cycles_exchange_rate(CallReply::Replied(7)), Ok(7));
    assert_eq!(
        icp_cycles_exchange_rate(CallReply::Rejected {
            error_code: String::from("SysTransient"),
            reason: String::from("busy")
        }),
        Err(Error::Internal(String::from(
            "Failed to fetch exchange rate, error_code: SysTransient, reason: busy"
        )))
    );
    assert_eq!(
        icp_cycles_exchange_rate(CallReply::Refused { error: String::from("RateLimited") }),
        Err(Error::Internal(String::from("Failed to fetch exchange rate, error: RateLimited")))
    );
    assert_eq!(transfer_tokens(CallReply::Replied(12)), Ok(12));
    assert_eq!(
        transfer_tokens(CallReply::Rejected {
            error_code: String::from("CanisterError"),
            reason: String::from("trapped")
        }),
        Err(Error::Internal(String::from(
            "Failed to call transfer on ic_ledger, error_code: CanisterError, reason: trapped"
        )))
    );
    assert_eq!(
        transfer_tokens(CallReply::Refused { error: String::from("bad fee") }),
        Err(Error::Internal(String::from("Transfer failed, reason: bad fee")))
    );
    assert_eq!(notify_top_up(CallReply::Replied(5)), Ok(5));
    assert_eq!(
        notify_top_up(CallReply::Rejected {
            error_code: String::from("DestinationInvalid"),
            reason: String::from("gone")
        }),
        Err(Error::Internal(String::from(
            "Failed to send notify top-up message, error_code: DestinationInvalid, reason: gone"
        )))
    );
    assert_eq!(
        notify_top_up(CallReply::Refused { error: String::from("Processing") }),
        Err(Error::Internal(String::from("Notify top-up failed, error_code: Processing")))
    );
    assert_eq!(
        get_developer_escrow_balance(CallReply::Replied(Tokens::from_e8s(3))),
        Ok(Tokens::from_e8s(3))
    );
    assert_eq!(
        get_developer_escrow_balance(CallReply::Rejected {
            error_code: String::from("SysFatal"),
            reason: String::from("down")
        }),
        Err(Error::Internal(String::from(
            "Failed to fetch account balance, error_code: SysFatal, reason: down"
        )))
    );
}

#[test]
fn the_rate_is_fetched_once_and_again_after_it_expired() {
    let mut state = state();
    let mut outside = Outside::new(3, 9);
    let start = 50 * SECOND;

    assert_eq!(state.cached_exchange_rate(start), None);
    assert_eq!(run(&mut state, &mut outside, id(7), 10, start), Ok(9));
    assert_eq!(outside.oracle_queries, 1);

    // within the ten seconds of the settings, the last nanosecond included
    assert_eq!(run(&mut state, &mut outside, id(7), 10, start + 1), Ok(9));
    assert_eq!(run(&mut state, &mut outside, id(7), 10, start + 10 * SECOND), Ok(9));
    assert_eq!(outside.oracle_queries, 1);
    assert_eq!(state.cached_exchange_rate(start + 10 * SECOND), Some(3));
    assert_eq!(state.cached_exchange_rate(start + 10 * SECOND + 1), None);

    // after them
    outside.rate = CallReply::Replied(5);
    assert_eq!(run(&mut state, &mut outside, id(7), 10, start + 10 * SECOND + 1), Ok(9));
    assert_eq!(outside.oracle_queries, 2);
    assert_eq!(state.cached_exchange_rate(start + 20 * SECOND + 1), Some(5));
    assert_eq!(state.cached_exchange_rate(start + 20 * SECOND + 2), None);
}

#[test]
fn a_failed_fetch_keeps_nothing_and_the_next_top_up_asks_again() {
    let mut state = state();
    let mut outside = Outside::new(3, 9);
    outside.rate = CallReply::Refused { error: String::from("Pending") };
    assert_eq!(
        run(&mut state, &mut outside, id(7), 10, 0),
        Err(Error::Internal(String::from("Failed to fetch exchange rate, error: Pending")))
    );
    assert_eq!(state.cached_exchange_rate(0), None);
    assert!(outside.transfers.is_empty());
    outside.rate = CallReply::Replied(3);
    assert_eq!(run(&mut state, &mut outside, id(7), 10, 1), Ok(9));
    assert_eq!(outside.oracle_queries, 2);
}

#[test]
fn a_fetched_rate_is_kept_from_the_time_of_the_reply() {
    let mut state = state();
    assert_eq!(get_and_update_icp_cycles_exchange_rate(&mut state, CallReply::Replied(4), 7), Ok(4));
    assert_eq!(state.cached_exchange_rate(7 + 10 * SECOND), Some(4));
    assert_eq!(state.cached_exchange_rate(8 + 10 * SECOND), None);
    state.record_exchange_rate(6, u64::MAX);
    assert_eq!(state.cached_exchange_rate(u64::MAX), Some(6));
}

#[test]
fn a_top_up_transfers_notifies_and_records() {
    let mut state = state();
    let mut outside = Outside::new(3, 900);
    assert_eq!(run(&mut state, &mut outside, id(7), 10, 123), Ok(900));
    assert_eq!(outside.transfers, vec![top_up_transfer(id(7), 300_000_000)]);
    assert_eq!(outside.notifications, vec![NotifyTopUpArg { block_index: 1, canister_id: id(7) }]);
    assert_eq!(
        state.get_app(&id(7)).unwrap().usages,
        vec![AppUsage {
            kind: UsageKind::CyclesCharge { cylces: 900 },
            timestamp: Timestamp { timestamp_nanos: 123 },
            amount: Tokens::from_e8s(300_000_000),
            is_paid: true,
        }]
    );
}

#[test]
fn a_top_up_of_an_unknown_app_asks_for_nothing() {
    let mut state = state();
    let mut outside = Outside::new(3, 900);
    assert_eq!(run(&mut state, &mut outside, id(8), 10, 123), Err(Error::AppNotFound));
    assert_eq!(outside.oracle_queries, 0);
    assert!(outside.transfers.is_empty());
}

#[test]
fn a_top_up_is_not_idempotent_after_a_failed_notification() {
    let mut state = state();
    let mut outside = Outside::new(3, 900);
    outside.notification = CallReply::Refused { error: String::from("Processing") };

    let failed = Err(Error::Internal(String::from("Notify top-up failed, error_code: Processing")));
    assert_eq!(run(&mut state, &mut outside, id(7), 10, 123), failed);
    assert_eq!(outside.transfers.len(), 1);
    assert_eq!(state.get_app(&id(7)).unwrap().usages, vec![]);

    // the same request again: the escrow is debited a second time
    assert_eq!(run(&mut state, &mut outside, id(7), 10, 124), failed);
    assert_eq!(
        outside.transfers,
        vec![top_up_transfer(id(7), 300_000_000), top_up_transfer(id(7), 300_000_000)]
    );
    assert_eq!(outside.notifications.len(), 2);
    assert_eq!(state.get_app(&id(7)).unwrap().usages, vec![]);
}

#[test]
fn a_failed_transfer_ends_the_top_up_before_the_notification() {
    let mut state = state();
    state.record_exchange_rate(3, 0);
    let step = top_up_canister(&state, Subaccount([5; 32]), id(7), 10, 1);
    let top_up = match step {
        TopUpStep::Next(top_up, TopUpRequest::Transfer(args)) => {
            assert_eq!(args, top_up_transfer(id(7), 300_000_000));
            top_up
        }
        other => panic!("{other:?}"),
    };
    assert_eq!(
        top_up,
        TopUp::AwaitingTransfer { app_id: id(7), icp_needed: Tokens::from_e8s(300_000_000) }
    );
    let step = top_up_resume(
        &mut state,
        top_up,
        TopUpReply::Transfer(CallReply::Refused { error: String::from("insufficient funds") }),
        1,
    );
    assert_eq!(
        step,
        TopUpStep::Failed(Error::Internal(String::from(
            "Transfer failed, reason: insufficient funds"
        )))
    );
    assert_eq!(state.get_app(&id(7)).unwrap().usages, vec![]);
}

#[test]
fn a_reply_to_another_request_ends_the_top_up() {
    let mut state = state();
    let top_up = TopUp::AwaitingNotify { app_id: id(7), icp_needed: Tokens::from_e8s(1) };
    assert_eq!(
        top_up_resume(&mut state, top_up, TopUpReply::Transfer(CallReply::Replied(1)), 1),
        TopUpStep::Failed(Error::Internal(String::from("Reply does not answer the request")))
    );
    assert_eq!(
        top_up_resume(&mut state, top_up, TopUpReply::NotifyTopUp(CallReply::Replied(4)), 1),
        TopUpStep::Done(4, Tokens::from_e8s(1))
    );
}

#[test]
fn a_zero_rate_ends_the_top_up_without_a_transfer() {
    let mut state = state();
    let mut outside = Outside::new(0, 900);
    assert_eq!(
        run(&mut state, &mut outside, id(7), 10, 123),
        Err(Error::Internal(String::from("Exchange rate is zero")))
    );
    assert!(outside.transfers.is_empty());
}

#[test]
fn a_charge_for_a_removed_app_is_not_recorded() {
    let mut state = state();
    assert_eq!(state.remove_app(id(1), id(7)), Ok(()));
    assert_eq!(
        record_cycles_charge(&mut state, id(7), 900, Tokens::from_e8s(3), 5),
        Err(Error::AppNotFound)
    );
    let top_up = TopUp::AwaitingNotify { app_id: id(7), icp_needed: Tokens::from_e8s(3) };
    assert_eq!(
        resume_request_cycles(&mut state, top_up, TopUpReply::NotifyTopUp(CallReply::Replied(900)), 5),
        TopUpStep::Failed(Error::AppNotFound)
    );
}

#[test]
fn a_charge_is_recorded_with_the_time_of_the_credit() {
    let mut state = state();
    assert_eq!(record_cycles_charge(&mut state, id(7), 900, Tokens::from_e8s(3), 5), Ok(900));
    let top_up = TopUp::AwaitingNotify { app_id: id(7), icp_needed: Tokens::from_e8s(4) };
    assert_eq!(
        resume_request_cycles(&mut state, top_up, TopUpReply::NotifyTopUp(CallReply::Replied(800)), 6),
        TopUpStep::Done(800, Tokens::from_e8s(4))
    );
    assert_eq!(
        state.get_app(&id(7)).unwrap().usages,
        vec![
            AppUsage {
                kind: UsageKind::CyclesCharge { cylces: 900 },
                timestamp: Timestamp { timestamp_nanos: 5 },
                amount: Tokens::from_e8s(3),
                is_paid: true,
            },
            AppUsage {
                kind: UsageKind::CyclesCharge { cylces: 800 },
                timestamp: Timestamp { timestamp_nanos: 6 },
                amount: Tokens::from_e8s(4),
                is_paid: true,
            },
        ]
    );
}
