//! The settlement of resource top-ups: an exchange rate, a transfer out of
//! escrow, and the minting service's credit for it.
//!
//! A top-up chains three calls to external services. The ledger decides and
//! the caller performs: each function here says what to ask next, and takes
//! the reply to the previous request.

use vstd::prelude::*;
use vstd::string::StringExecFns;

use crate::app::AppID;
use crate::error::result_view;
use crate::error::Error;
use crate::error::ErrorView;
use crate::ledger::account_identifier_bytes;
use crate::ledger::principal_subaccount;
use crate::ledger::spec_subdividable_by;
use crate::ledger::AccountIdentifier;
use crate::ledger::BlockIndex;
use crate::ledger::Subaccount;
use crate::ledger::Tokens;
use crate::ledger::TransferArgs;
use crate::ledger::TransferArgsView;
use crate::memory::State;
use crate::memory::StateView;
use crate::principal::PrincipalId;
use crate::utils::reply_outcome;
use crate::utils::reply_result;
use crate::utils::spec_transfer_args;
use crate::utils::transfer_args;
use crate::utils::transfer_refused;
use crate::utils::transfer_rejected;
use crate::utils::transfer_tokens;
use crate::utils::CallReply;
use crate::utils::CallReplyView;

verus! {

/// The memo that marks a transfer as a top-up.
pub const MEMO_TOP_UP_CANISTER: u64 = 1347768404_u64;

/// The cycles to send along with each query of the exchange rate.
pub const EXCHANGE_RATE_QUERY_CYCLES: u64 = 1_000_000_000;

/// The identity of the minting service.
pub open spec fn spec_mainnet_cycle_minter_canister_id() -> Seq<u8> {
    seq![0x00u8, 0x00u8, 0x00u8, 0x00u8, 0x00u8, 0x00u8, 0x00u8, 0x04u8, 0x01u8, 0x01u8]
}

/// The identity of the minting service.
pub fn mainnet_cycle_minter_canister_id() -> (id: PrincipalId)
    ensures
        id@ == spec_mainnet_cycle_minter_canister_id(),
{
    let bytes: [u8; 10] = [0x00, 0x00, 0x00, 0x00, 0x00, 0x00, 0x00, 0x04, 0x01, 0x01];
    assert(bytes@ =~= spec_mainnet_cycle_minter_canister_id());
    PrincipalId::try_from_slice(bytes.as_slice()).unwrap()
}

/// The class of an asset of the price oracle.
#[derive(Debug, Clone, Copy, PartialEq, Eq, Structural)]
pub enum AssetClass {
    Cryptocurrency,
    FiatCurrency,
}

/// An asset of the price oracle.
#[derive(Debug, Clone, PartialEq, Eq)]
pub struct Asset {
    pub symbol: String,
    pub class: AssetClass,
}

/// A query of the price oracle: the price of the base asset in the quote
/// asset, at a time or now.
#[derive(Debug, Clone, PartialEq, Eq)]
pub struct GetExchangeRateRequest {
    pub base_asset: Asset,
    pub quote_asset: Asset,
    pub timestamp: Option<u64>,
}

/// An asset as a mathematical value.
pub struct AssetView {
    pub symbol: Seq<char>,
    pub class: AssetClass,
}

/// A query of the price oracle as a mathematical value.
pub struct GetExchangeRateRequestView {
    pub base_asset: AssetView,
    pub quote_asset: AssetView,
    pub timestamp: Option<u64>,
}

impl View for GetExchangeRateRequest {
    type V = GetExchangeRateRequestView;

    open spec fn view(&self) -> GetExchangeRateRequestView {
        GetExchangeRateRequestView {
            base_asset: AssetView { symbol: self.base_asset.symbol@, class: self.base_asset.class },
            quote_asset: AssetView {
                symbol: self.quote_asset.symbol@,
                class: self.quote_asset.class,
            },
            timestamp: self.timestamp,
        }
    }
}

/// The query for the current price of the ledger's token in cycles.
pub open spec fn spec_exchange_rate_request() -> GetExchangeRateRequestView {
    GetExchangeRateRequestView {
        base_asset: AssetView { symbol: "ICP"@, class: AssetClass::Cryptocurrency },
        quote_asset: AssetView { symbol: "Cycles"@, class: AssetClass::Cryptocurrency },
        timestamp: None,
    }
}

/// The query for the current price of the ledger's token in cycles.
pub fn exchange_rate_request() -> (request: GetExchangeRateRequest)
    ensures
        request@ == spec_exchange_rate_request(),
{
    GetExchangeRateRequest {
        base_asset: Asset { symbol: String::from_str("ICP"), class: AssetClass::Cryptocurrency },
        quote_asset: Asset {
            symbol: String::from_str("Cycles"),
            class: AssetClass::Cryptocurrency,
        },
        timestamp: None,
    }
}

/// What failed when the query of the exchange rate was rejected.
pub open spec fn exchange_rate_rejected() -> Seq<char> {
    "Failed to fetch exchange rate"@
}

/// What precedes the oracle's error when it refused the query.
pub open spec fn exchange_rate_refused() -> Seq<char> {
    "Failed to fetch exchange rate, error: "@
}

/// The exchange rate, from the oracle's reply to the query.
pub fn icp_cycles_exchange_rate(reply: CallReply<u64>) -> (r: Result<u64, Error>)
    ensures
        result_view(r) == reply_outcome(reply@, exchange_rate_rejected(), exchange_rate_refused()),
{
    reply_result(reply, "Failed to fetch exchange rate", "Failed to fetch exchange rate, error: ")
}

/// The outcome of the oracle's reply `reply` arriving at the nanosecond
/// `now`: a rate is kept for the time that the settings give, a failure
/// leaves the state as it was.
pub open spec fn spec_get_and_update_icp_cycles_exchange_rate(
    state: StateView,
    reply: CallReplyView<u64>,
    now: u64,
) -> (StateView, Result<u64, ErrorView>)
    recommends
        state.settings is Some,
{
    match reply_outcome(reply, exchange_rate_rejected(), exchange_rate_refused()) {
        Err(error) => (state, Err(error)),
        Ok(rate) => (state.record_exchange_rate(rate, now), Ok(rate)),
    }
}

/// Takes the oracle's reply, which arrived at the nanosecond `now`, and keeps
/// the rate it brought.
pub fn get_and_update_icp_cycles_exchange_rate(state: &mut State, reply: CallReply<u64>, now: u64) -> (r:
    Result<u64, Error>)
    requires
        old(state)@.settings is Some,
    ensures
        (final(state)@, result_view(r)) == spec_get_and_update_icp_cycles_exchange_rate(
            old(state)@,
            reply@,
            now,
        ),
{
    match icp_cycles_exchange_rate(reply) {
        Err(error) => Err(error),
        Ok(rate) => {
            state.record_exchange_rate(rate, now);
            Ok(rate)
        },
    }
}

/// The text of the error for an exchange rate of zero.
pub open spec fn zero_exchange_rate() -> Seq<char> {
    "Exchange rate is zero"@
}

/// The text of the error for an amount of tokens beyond what the ledger
/// counts.
pub open spec fn tokens_out_of_range() -> Seq<char> {
    "Amount of tokens is out of range"@
}

/// The tokens to pay for `amount` cycles at the rate `rate`: as many whole
/// tokens as the rate goes into the amount, in units.
pub open spec fn spec_icp_needed(amount: u64, rate: u64) -> Result<Tokens, ErrorView> {
    if rate == 0 {
        Err(ErrorView::Internal(zero_exchange_rate()))
    } else if (amount / rate) * spec_subdividable_by() > u64::MAX {
        Err(ErrorView::Internal(tokens_out_of_range()))
    } else {
        Ok(Tokens { e8s: ((amount / rate) * spec_subdividable_by()) as u64 })
    }
}

/// The tokens to pay for `amount` cycles at the rate `rate`.
pub fn icp_needed(amount: u64, rate: u64) -> (r: Result<Tokens, Error>)
    ensures
        result_view(r) == spec_icp_needed(amount, rate),
{
    if rate == 0 {
        return Err(Error::Internal(String::from_str("Exchange rate is zero")));
    }
    let whole: u64 = amount / rate;
    match whole.checked_mul(Tokens::units_per_token()) {
        Some(e8s) => Ok(Tokens::from_e8s(e8s)),
        None => Err(Error::Internal(String::from_str("Amount of tokens is out of range"))),
    }
}

/// What the minting service is told of a transfer: its block, and the app to
/// credit.
#[derive(Debug, Clone, Copy, PartialEq, Eq)]
pub struct NotifyTopUpArg {
    pub block_index: BlockIndex,
    pub canister_id: PrincipalId,
}

/// A notification as a mathematical value.
pub struct NotifyTopUpArgView {
    pub block_index: BlockIndex,
    pub canister_id: Seq<u8>,
}

impl View for NotifyTopUpArg {
    type V = NotifyTopUpArgView;

    open spec fn view(&self) -> NotifyTopUpArgView {
        NotifyTopUpArgView { block_index: self.block_index, canister_id: self.canister_id@ }
    }
}

/// What failed when the notification was rejected.
pub open spec fn notify_rejected() -> Seq<char> {
    "Failed to send notify top-up message"@
}

/// What precedes the minting service's error when it refused to credit.
pub open spec fn notify_refused() -> Seq<char> {
    "Notify top-up failed, error_code: "@
}

/// The cycles credited, from the minting service's reply to the
/// notification.
pub fn notify_top_up(reply: CallReply<u128>) -> (r: Result<u128, Error>)
    ensures
        result_view(r) == reply_outcome(reply@, notify_rejected(), notify_refused()),
{
    reply_result(reply, "Failed to send notify top-up message", "Notify top-up failed, error_code: ")
}

/// Where a top-up stands: what it waits for, and what it will need then.
#[derive(Debug, Clone, Copy, PartialEq, Eq)]
pub enum TopUp {
    /// Waiting for the exchange rate.
    AwaitingRate { from: Subaccount, app_id: AppID, amount: u64 },
    /// Waiting for the ledger to move `icp_needed` out of escrow.
    AwaitingTransfer { app_id: AppID, icp_needed: Tokens },
    /// Waiting for the minting service to credit the app.
    AwaitingNotify { app_id: AppID, icp_needed: Tokens },
}

/// What a top-up asks of an external service.
#[derive(Debug, Clone, PartialEq, Eq)]
pub enum TopUpRequest {
    ExchangeRate(GetExchangeRateRequest),
    Transfer(TransferArgs),
    NotifyTopUp(NotifyTopUpArg),
}

/// The reply to what a top-up asked.
#[derive(Debug, Clone, PartialEq, Eq)]
pub enum TopUpReply {
    ExchangeRate(CallReply<u64>),
    Transfer(CallReply<BlockIndex>),
    NotifyTopUp(CallReply<u128>),
}

/// How a top-up goes on.
#[derive(Debug, Clone, PartialEq, Eq)]
pub enum TopUpStep {
    /// The request is to be made, and its reply handed back with the
    /// top-up.
    Next(TopUp, TopUpRequest),
    /// The app was credited with the cycles, for the tokens.
    Done(u128, Tokens),
    /// The top-up failed. Tokens that left escrow before are not returned.
    Failed(Error),
}

/// A top-up as a mathematical value.
pub enum TopUpView {
    AwaitingRate { from: Seq<u8>, app_id: Seq<u8>, amount: u64 },
    AwaitingTransfer { app_id: Seq<u8>, icp_needed: Tokens },
    AwaitingNotify { app_id: Seq<u8>, icp_needed: Tokens },
}

/// A request as a mathematical value.
pub enum TopUpRequestView {
    ExchangeRate(GetExchangeRateRequestView),
    Transfer(TransferArgsView),
    NotifyTopUp(NotifyTopUpArgView),
}

/// A reply as a mathematical value.
pub enum TopUpReplyView {
    ExchangeRate(CallReplyView<u64>),
    Transfer(CallReplyView<BlockIndex>),
    NotifyTopUp(CallReplyView<u128>),
}

/// A step as a mathematical value.
pub enum TopUpStepView {
    Next(TopUpView, TopUpRequestView),
    Done(u128, Tokens),
    Failed(ErrorView),
}

impl View for TopUp {
    type V = TopUpView;

    open spec fn view(&self) -> TopUpView {
        match *self {
            TopUp::AwaitingRate { from, app_id, amount } => TopUpView::AwaitingRate {
                from: from@,
                app_id: app_id@,
                amount,
            },
            TopUp::AwaitingTransfer { app_id, icp_needed } => TopUpView::AwaitingTransfer {
                app_id: app_id@,
                icp_needed,
            },
            TopUp::AwaitingNotify { app_id, icp_needed } => TopUpView::AwaitingNotify {
                app_id: app_id@,
                icp_needed,
            },
        }
    }
}

impl View for TopUpRequest {
    type V = TopUpRequestView;

    open spec fn view(&self) -> TopUpRequestView {
        match *self {
            TopUpRequest::ExchangeRate(request) => TopUpRequestView::ExchangeRate(request@),
            TopUpRequest::Transfer(args) => TopUpRequestView::Transfer(args@),
            TopUpRequest::NotifyTopUp(arg) => TopUpRequestView::NotifyTopUp(arg@),
        }
    }
}

impl View for TopUpReply {
    type V = TopUpReplyView;

    open spec fn view(&self) -> TopUpReplyView {
        match *self {
            TopUpReply::ExchangeRate(reply) => TopUpReplyView::ExchangeRate(reply@),
            TopUpReply::Transfer(reply) => TopUpReplyView::Transfer(reply@),
            TopUpReply::NotifyTopUp(reply) => TopUpReplyView::NotifyTopUp(reply@),
        }
    }
}

impl View for TopUpStep {
    type V = TopUpStepView;

    open spec fn view(&self) -> TopUpStepView {
        match *self {
            TopUpStep::Next(top_up, request) => TopUpStepView::Next(top_up@, request@),
            TopUpStep::Done(cycles, tokens) => TopUpStepView::Done(cycles, tokens),
            TopUpStep::Failed(error) => TopUpStepView::Failed(error@),
        }
    }
}

/// The account of the minting service to which the tokens for the app
/// `app_id` go.
pub open spec fn top_up_account(app_id: Seq<u8>) -> Seq<u8> {
    account_identifier_bytes(spec_mainnet_cycle_minter_canister_id(), principal_subaccount(app_id))
}

/// How a top-up of `amount` cycles goes on once the rate `rate` is known:
/// with the transfer of the tokens needed out of `from` to the minting
/// service, marked as a top-up.
pub open spec fn spec_transfer_step(from: Seq<u8>, app_id: Seq<u8>, amount: u64, rate: u64) -> TopUpStepView {
    match spec_icp_needed(amount, rate) {
        Err(error) => TopUpStepView::Failed(error),
        Ok(icp_needed) => TopUpStepView::Next(
            TopUpView::AwaitingTransfer { app_id, icp_needed },
            TopUpRequestView::Transfer(
                spec_transfer_args(from, top_up_account(app_id), icp_needed, MEMO_TOP_UP_CANISTER),
            ),
        ),
    }
}

/// How a top-up of the app `app_id` with `amount` cycles, paid out of the
/// escrow subaccount `from`, starts at the nanosecond `now`: with the
/// transfer where a fetched rate is still in use, else with the query for a
/// rate.
pub open spec fn spec_top_up_canister(
    state: StateView,
    from: Seq<u8>,
    app_id: Seq<u8>,
    amount: u64,
    now: u64,
) -> TopUpStepView {
    match state.cached_exchange_rate(now) {
        Some(rate) => spec_transfer_step(from, app_id, amount, rate),
        None => TopUpStepView::Next(
            TopUpView::AwaitingRate { from, app_id, amount },
            TopUpRequestView::ExchangeRate(spec_exchange_rate_request()),
        ),
    }
}

/// The text of the error for a reply to another request than the one made.
pub open spec fn unexpected_reply() -> Seq<char> {
    "Reply does not answer the request"@
}

/// How the top-up `top_up` goes on when `reply` arrives at the nanosecond
/// `now`. A rate is kept and the transfer asked for. After the transfer the
/// minting service is told of its block. Its credit ends the top-up. Any
/// failure ends it too, with nothing undone.
pub open spec fn spec_top_up_resume(
    state: StateView,
    top_up: TopUpView,
    reply: TopUpReplyView,
    now: u64,
) -> (StateView, TopUpStepView)
    recommends
        state.settings is Some,
{
    match (top_up, reply) {
        (TopUpView::AwaitingRate { from, app_id, amount }, TopUpReplyView::ExchangeRate(reply)) => {
            match spec_get_and_update_icp_cycles_exchange_rate(state, reply, now) {
                (after, Err(error)) => (after, TopUpStepView::Failed(error)),
                (after, Ok(rate)) => (after, spec_transfer_step(from, app_id, amount, rate)),
            }
        },
        (TopUpView::AwaitingTransfer { app_id, icp_needed }, TopUpReplyView::Transfer(reply)) => {
            match reply_outcome(reply, transfer_rejected(), transfer_refused()) {
                Err(error) => (state, TopUpStepView::Failed(error)),
                Ok(block_index) => (
                    state,
                    TopUpStepView::Next(
                        TopUpView::AwaitingNotify { app_id, icp_needed },
                        TopUpRequestView::NotifyTopUp(
                            NotifyTopUpArgView { block_index, canister_id: app_id },
                        ),
                    ),
                ),
            }
        },
        (TopUpView::AwaitingNotify { app_id, icp_needed }, TopUpReplyView::NotifyTopUp(reply)) => {
            match reply_outcome(reply, notify_rejected(), notify_refused()) {
                Err(error) => (state, TopUpStepView::Failed(error)),
                Ok(cycles) => (state, TopUpStepView::Done(cycles, icp_needed)),
            }
        },
        _ => (state, TopUpStepView::Failed(ErrorView::Internal(unexpected_reply()))),
    }
}

/// The step that asks for the transfer, once the rate is known.
fn transfer_step(from: Subaccount, app_id: AppID, amount: u64, rate: u64) -> (step: TopUpStep)
    ensures
        step@ == spec_transfer_step(from@, app_id@, amount, rate),
{
    let icp_needed = match icp_needed(amount, rate) {
        Ok(icp_needed) => icp_needed,
        Err(error) => {
            return TopUpStep::Failed(error);
        },
    };
    let minter = mainnet_cycle_minter_canister_id();
    let to = AccountIdentifier::new(&minter, &Subaccount::from_principal(&app_id));
    TopUpStep::Next(
        TopUp::AwaitingTransfer { app_id, icp_needed },
        TopUpRequest::Transfer(transfer_args(from, to, icp_needed, MEMO_TOP_UP_CANISTER)),
    )
}

/// Starts a top-up of the app `app_id` with `amount` cycles, paid out of the
/// escrow subaccount `from`, at the nanosecond `now`.
pub fn top_up_canister(state: &State, from: Subaccount, app_id: AppID, amount: u64, now: u64) -> (step:
    TopUpStep)
    ensures
        step@ == spec_top_up_canister(state@, from@, app_id@, amount, now),
{
    match state.cached_exchange_rate(now) {
        Some(rate) => transfer_step(from, app_id, amount, rate),
        None => TopUpStep::Next(
            TopUp::AwaitingRate { from, app_id, amount },
            TopUpRequest::ExchangeRate(exchange_rate_request()),
        ),
    }
}

/// Goes on with the top-up `top_up` when `reply` arrives at the nanosecond
/// `now`.
pub fn top_up_resume(state: &mut State, top_up: TopUp, reply: TopUpReply, now: u64) -> (step:
    TopUpStep)
    requires
        old(state)@.settings is Some,
    ensures
        (final(state)@, step@) == spec_top_up_resume(old(state)@, top_up@, reply@, now),
{
    match (top_up, reply) {
        (TopUp::AwaitingRate { from, app_id, amount }, TopUpReply::ExchangeRate(reply)) => {
            match get_and_update_icp_cycles_exchange_rate(state, reply, now) {
                Err(error) => TopUpStep::Failed(error),
                Ok(rate) => transfer_step(from, app_id, amount, rate),
            }
        },
        (TopUp::AwaitingTransfer { app_id, icp_needed }, TopUpReply::Transfer(reply)) => {
            match transfer_tokens(reply) {
                Err(error) => TopUpStep::Failed(error),
                Ok(block_index) => TopUpStep::Next(
                    TopUp::AwaitingNotify { app_id, icp_needed },
                    TopUpRequest::NotifyTopUp(NotifyTopUpArg { block_index, canister_id: app_id }),
                ),
            }
        },
        (TopUp::AwaitingNotify { app_id, icp_needed }, TopUpReply::NotifyTopUp(reply)) => {
            match notify_top_up(reply) {
                Err(error) => TopUpStep::Failed(error),
                Ok(cycles) => TopUpStep::Done(cycles, icp_needed),
            }
        },
        _ => TopUpStep::Failed(
            Error::Internal(String::from_str("Reply does not answer the request")),
        ),
    }
}

/// A top-up is not idempotent. Where the transfer succeeded and the
/// minting service then failed, the top-up fails and leaves the state as it
/// was when the transfer was asked for. A second top-up with the same
/// arguments, started while the same rate is in use, asks for the same
/// transfer again: the escrow is debited twice.
pub proof fn lemma_retry_after_failed_notification_transfers_again(
    state: StateView,
    from: Seq<u8>,
    app_id: Seq<u8>,
    amount: u64,
    rate: u64,
    first: u64,
    block_index: BlockIndex,
    notification: CallReplyView<u128>,
    second: u64,
)
    requires
        state.cached_exchange_rate(first) == Some(rate),
        state.cached_exchange_rate(second) == Some(rate),
        spec_icp_needed(amount, rate) is Ok,
        !(notification is Replied),
    ensures
        ({
            let icp_needed = spec_icp_needed(amount, rate)->Ok_0;
            let transfer = TopUpRequestView::Transfer(
                spec_transfer_args(from, top_up_account(app_id), icp_needed, MEMO_TOP_UP_CANISTER),
            );
            let awaiting_transfer = TopUpView::AwaitingTransfer { app_id, icp_needed };
            let awaiting_notify = TopUpView::AwaitingNotify { app_id, icp_needed };
            let transferred = spec_top_up_resume(
                state,
                awaiting_transfer,
                TopUpReplyView::Transfer(CallReplyView::Replied(block_index)),
                first,
            );
            let notified = spec_top_up_resume(
                transferred.0,
                awaiting_notify,
                TopUpReplyView::NotifyTopUp(notification),
                first,
            );
            &&& spec_top_up_canister(state, from, app_id, amount, first) == TopUpStepView::Next(
                awaiting_transfer,
                transfer,
            )
            &&& transferred == (
                state,
                TopUpStepView::Next(
                    awaiting_notify,
                    TopUpRequestView::NotifyTopUp(
                        NotifyTopUpArgView { block_index, canister_id: app_id },
                    ),
                ),
            )
            &&& notified.0 == state
            &&& notified.1 is Failed
            &&& spec_top_up_canister(notified.0, from, app_id, amount, second)
                == TopUpStepView::Next(awaiting_transfer, transfer)
        }),
{
}

/// A top-up that has to fetch the rate keeps it: where the oracle answered
/// with the rate `rate` at the nanosecond `fetched_at`, a top-up started no
/// later than the rate expires goes straight to the transfer, at that rate.
pub proof fn lemma_top_up_uses_the_fetched_rate(
    state: StateView,
    from: Seq<u8>,
    app_id: Seq<u8>,
    amount: u64,
    rate: u64,
    fetched_at: u64,
    now: u64,
)
    requires
        state.settings is Some,
        fetched_at <= now <= fetched_at + state.settings->0.exchange_rate_timeout_seconds
            * 1_000_000_000,
    ensures
        ({
            let fetched = spec_top_up_resume(
                state,
                TopUpView::AwaitingRate { from, app_id, amount },
                TopUpReplyView::ExchangeRate(CallReplyView::Replied(rate)),
                fetched_at,
            );
            &&& fetched.1 == spec_transfer_step(from, app_id, amount, rate)
            &&& spec_top_up_canister(fetched.0, from, app_id, amount, now) == spec_transfer_step(
                from,
                app_id,
                amount,
                rate,
            )
        }),
{
    state.lemma_fetched_rate_is_used_until_it_expires(rate, fetched_at, now);
}

} // verus!
