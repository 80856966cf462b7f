//! Deployed apps and the record of what they used.

use vstd::prelude::*;

use crate::developer::Developer;
use crate::developer::DeveloperID;
use crate::error::result_view;
use crate::error::Error;
use crate::error::ErrorView;
use crate::ledger::Timestamp;
use crate::ledger::Tokens;
use crate::memory::State;
use crate::memory::StateView;
use crate::principal::PrincipalId;
use crate::utils::CallReplyView;
use crate::utils::exchange::spec_top_up_canister;
use crate::utils::exchange::spec_top_up_resume;
use crate::utils::exchange::top_up_canister;
use crate::utils::exchange::top_up_resume;
use crate::utils::exchange::TopUp;
use crate::utils::exchange::TopUpReply;
use crate::utils::exchange::TopUpReplyView;
use crate::utils::exchange::TopUpStep;
use crate::utils::exchange::TopUpStepView;
use crate::utils::exchange::TopUpView;

pub mod dto;

verus! {

pub type AppID = PrincipalId;

/// What a usage record bills for.
#[derive(Debug, Clone, PartialEq, Eq)]
pub enum UsageKind {
    CyclesCharge { cylces: u128 },
    AdditionalServices { details: Vec<u8> },
}

/// A usage kind as a mathematical value.
pub enum UsageKindView {
    CyclesCharge { cylces: u128 },
    AdditionalServices { details: Seq<u8> },
}

impl View for UsageKind {
    type V = UsageKindView;

    open spec fn view(&self) -> UsageKindView {
        match *self {
            UsageKind::CyclesCharge { cylces } => UsageKindView::CyclesCharge { cylces },
            UsageKind::AdditionalServices { details } => UsageKindView::AdditionalServices {
                details: details@,
            },
        }
    }
}

impl UsageKind {
    /// A copy of this usage kind.
    pub fn duplicate(&self) -> (copy: UsageKind)
        ensures
            copy@ == self@,
    {
        match self {
            UsageKind::CyclesCharge { cylces } => UsageKind::CyclesCharge { cylces: *cylces },
            UsageKind::AdditionalServices { details } => UsageKind::AdditionalServices {
                details: details.clone(),
            },
        }
    }
}

/// One billable event of an app.
#[derive(Debug, Clone, PartialEq, Eq)]
pub struct AppUsage {
    pub kind: UsageKind,
    pub timestamp: Timestamp,
    pub amount: Tokens,
    pub is_paid: bool,
}

/// A usage record as a mathematical value.
pub struct AppUsageView {
    pub kind: UsageKindView,
    pub timestamp: Timestamp,
    pub amount: Tokens,
    pub is_paid: bool,
}

impl View for AppUsage {
    type V = AppUsageView;

    open spec fn view(&self) -> AppUsageView {
        AppUsageView {
            kind: self.kind@,
            timestamp: self.timestamp,
            amount: self.amount,
            is_paid: self.is_paid,
        }
    }
}

impl DeepView for AppUsage {
    type V = AppUsageView;

    open spec fn deep_view(&self) -> AppUsageView {
        self@
    }
}

/// The deployed payload of an app.
#[derive(Debug, Clone, PartialEq, Eq)]
pub struct ActiveApp {
    pub revision: u32,
    pub name: String,
    pub data: Vec<u8>,
}

/// Whether an app is deployed.
#[derive(Debug, Clone, PartialEq, Eq)]
pub enum AppState {
    Active(ActiveApp),
    Deleted,
}

/// An app's state as a mathematical value.
pub enum AppStateView {
    Active { revision: u32, name: Seq<char>, data: Seq<u8> },
    Deleted,
}

impl View for AppState {
    type V = AppStateView;

    open spec fn view(&self) -> AppStateView {
        match *self {
            AppState::Active(active) => AppStateView::Active {
                revision: active.revision,
                name: active.name@,
                data: active.data@,
            },
            AppState::Deleted => AppStateView::Deleted,
        }
    }
}

/// A deployed unit of work: its owner, its state and what it used so far.
#[derive(Debug, Clone, PartialEq, Eq)]
pub struct App {
    pub developer_id: DeveloperID,
    pub state: AppState,
    pub usages: Vec<AppUsage>,
}

/// An app as a mathematical value.
pub struct AppView {
    pub developer_id: Seq<u8>,
    pub state: AppStateView,
    pub usages: Seq<AppUsageView>,
}

impl View for App {
    type V = AppView;

    open spec fn view(&self) -> AppView {
        AppView {
            developer_id: self.developer_id@,
            state: self.state@,
            usages: self.usages.deep_view(),
        }
    }
}

impl DeepView for App {
    type V = AppView;

    open spec fn deep_view(&self) -> AppView {
        self@
    }
}

/// What callers see of a usage record: everything but the payment flag.
pub open spec fn usage_dto(usage: AppUsageView) -> dto::AppUsageView {
    dto::AppUsageView { kind: usage.kind, timestamp: usage.timestamp, amount: usage.amount }
}

/// What callers see of the app `app` stored under `id`: its state without the
/// payload, and its usage records in their order.
pub open spec fn app_dto(app: AppView, id: Seq<u8>) -> dto::AppDtoView {
    dto::AppDtoView {
        id,
        state: match app.state {
            AppStateView::Active { revision, name, data } => dto::AppStateView::Active {
                revision,
                name,
            },
            AppStateView::Deleted => dto::AppStateView::Deleted,
        },
        usages: app.usages.map_values(|usage: AppUsageView| usage_dto(usage)),
    }
}

impl App {
    /// What callers see of this app, stored under `id`.
    pub fn as_dto(&self, id: AppID) -> (dto: dto::AppDto)
        ensures
            dto@ == app_dto(self@, id@),
    {
        let state = match &self.state {
            AppState::Active(active) => dto::AppState::Active {
                revision: active.revision,
                name: active.name.clone(),
            },
            AppState::Deleted => dto::AppState::Deleted,
        };
        let mut usages: Vec<dto::AppUsage> = Vec::new();
        let mut i: usize = 0;
        while i < self.usages.len()
            invariant
                i <= self.usages.len(),
                usages@.len() == i,
                forall|j: int| 0 <= j < i ==> (#[trigger] usages@[j])@ == usage_dto(self.usages@[j]@),
            decreases self.usages.len() - i,
        {
            let usage = &self.usages[i];
            usages.push(
                dto::AppUsage {
                    kind: usage.kind.duplicate(),
                    timestamp: usage.timestamp,
                    amount: usage.amount,
                },
            );
            i += 1;
        }
        assert(usages.deep_view() =~= self.usages.deep_view().map_values(
            |usage: AppUsageView| usage_dto(usage),
        ));
        dto::AppDto { id, state, usages }
    }
}

/// What the developer `caller` is shown of the app `app_id`.
pub open spec fn spec_get_app(state: StateView, caller: Seq<u8>, app_id: Seq<u8>) -> Result<
    Option<dto::AppDtoView>,
    ErrorView,
> {
    match state.get_app_of_developer(caller, app_id) {
        Err(error) => Err(error),
        Ok(None) => Ok(None),
        Ok(Some(app)) => Ok(Some(app_dto(app, app_id))),
    }
}

/// What the caller is shown of the app `app_id`: nothing, unless the app is
/// on the caller's list.
pub fn get_app(state: &State, caller: DeveloperID, app_id: AppID) -> (r: Result<
    Option<dto::AppDto>,
    Error,
>)
    ensures
        result_view(r) == spec_get_app(state@, caller@, app_id@),
{
    match state.get_app_of_developer(&caller, &app_id) {
        Err(error) => Err(error),
        Ok(None) => Ok(None),
        Ok(Some(app)) => Ok(Some(app.as_dto(app_id))),
    }
}

/// What the developer `caller` is shown of its apps.
pub open spec fn spec_get_apps(state: StateView, caller: Seq<u8>) -> Result<
    Seq<dto::AppDtoView>,
    ErrorView,
> {
    match state.get_apps_of_developer(caller) {
        Err(error) => Err(error),
        Ok(found) => Ok(found.map_values(|entry: (Seq<u8>, AppView)| app_dto(entry.1, entry.0))),
    }
}

/// What the caller is shown of its apps, in the order of their deployment.
pub fn get_apps(state: &State, caller: DeveloperID) -> (r: Result<Vec<dto::AppDto>, Error>)
    ensures
        result_view(r) == spec_get_apps(state@, caller@),
{
    let found = match state.get_apps_of_developer(&caller) {
        Ok(found) => found,
        Err(error) => {
            return Err(error);
        },
    };
    let mut shown: Vec<dto::AppDto> = Vec::new();
    let mut i: usize = 0;
    while i < found.len()
        invariant
            i <= found.len(),
            shown@.len() == i,
            forall|j: int| 0 <= j < i ==> (#[trigger] shown@[j])@ == app_dto(found@[j].1@, found@[j].0@),
        decreases found.len() - i,
    {
        let entry = &found[i];
        shown.push(entry.1.as_dto(entry.0));
        i += 1;
    }
    proof {
        assert(shown.deep_view() =~= found.deep_view().map_values(
            |entry: (Seq<u8>, AppView)| app_dto(entry.1, entry.0),
        ));
    }
    Ok(shown)
}

/// The app that a deployment stores: owned by `caller`, active at revision 1
/// with the name and the payload asked for, and without usage records.
pub open spec fn deployed_app(caller: Seq<u8>, name: Seq<char>, app_data: Seq<u8>) -> AppView {
    AppView {
        developer_id: caller,
        state: AppStateView::Active { revision: 1, name, data: app_data },
        usages: Seq::empty(),
    }
}

/// The outcome of the developer `caller` deploying an app while its escrow
/// holds `escrow_balance`, with `random` as fresh random bytes. The caller
/// must be registered, its escrow must hold the minimum balance and it must
/// own fewer apps than a developer may. The app is then stored under the
/// first 29 random bytes and added to the caller's list.
pub open spec fn spec_deploy_app(
    state: StateView,
    caller: Seq<u8>,
    name: Seq<char>,
    app_data: Seq<u8>,
    escrow_balance: Tokens,
    random: Seq<u8>,
) -> (StateView, Result<Seq<u8>, ErrorView>)
    recommends
        state.settings is Some,
{
    let settings = state.settings->0;
    match state.get_developer(caller) {
        Err(error) => (state, Err(error)),
        Ok(developer) => if escrow_balance.e8s < settings.minimum_escrow_balance_for_deploy.e8s {
            (
                state,
                Err(
                    ErrorView::InsufficientBalanceForDeploy {
                        was: escrow_balance,
                        needed: settings.minimum_escrow_balance_for_deploy,
                    },
                ),
            )
        } else if developer.apps.len() >= settings.max_apps_per_developer {
            (state, Err(ErrorView::MaxAppsCountReached))
        } else {
            (
                state.register_app(random.take(29), deployed_app(caller, name, app_data)).0,
                Ok(random.take(29)),
            )
        },
    }
}

/// Deploys an app for the caller, whose escrow holds `escrow_balance`, with
/// `random` as fresh random bytes.
pub fn deploy_app(
    state: &mut State,
    caller: DeveloperID,
    request: dto::DeployAppRequest,
    escrow_balance: Tokens,
    random: &[u8; 32],
) -> (r: Result<AppID, Error>)
    requires
        old(state)@.settings is Some,
    ensures
        (final(state)@, result_view(r)) == spec_deploy_app(
            old(state)@,
            caller@,
            request.name@,
            request.app_data@,
            escrow_balance,
            random@,
        ),
{
    let (developer_id, developer) = match Developer::get_caller_developer_account(state, caller) {
        Ok(account) => account,
        Err(error) => {
            return Err(error);
        },
    };
    let minimum = state.settings().minimum_escrow_balance_for_deploy;
    let max_apps = state.settings().max_apps_per_developer;
    match developer.ensure_developer_escorw_has_minimum_balance_for_deploy(escrow_balance, minimum) {
        Ok(()) => {},
        Err(error) => {
            return Err(error);
        },
    }
    match developer.ensure_developer_has_budget_for_new_app(max_apps) {
        Ok(()) => {},
        Err(error) => {
            return Err(error);
        },
    }
    let app_id = PrincipalId::from_leading_bytes(random);
    let app = App {
        developer_id,
        state: AppState::Active(ActiveApp { revision: 1, name: request.name, data: request.app_data }),
        usages: Vec::new(),
    };
    proof {
        assert(app.usages.deep_view() =~= Seq::<AppUsageView>::empty());
    }
    match state.register_app(app_id, app) {
        Ok(()) => Ok(app_id),
        Err(error) => Err(error),
    }
}

/// A deployment succeeds for a registered developer whose escrow holds at
/// least the minimum balance, the minimum itself included, and who owns fewer
/// apps than a developer may. The developer is then shown the app under the
/// identity returned: active at revision 1 under the name asked for, and
/// without usage records.
pub proof fn lemma_deployed_app_is_shown(
    state: StateView,
    caller: Seq<u8>,
    name: Seq<char>,
    app_data: Seq<u8>,
    escrow_balance: Tokens,
    random: Seq<u8>,
)
    requires
        state.settings is Some,
        state.get_developer(caller) is Ok,
        escrow_balance.e8s >= state.settings->0.minimum_escrow_balance_for_deploy.e8s,
        state.get_developer(caller)->Ok_0.apps.len() < state.settings->0.max_apps_per_developer,
    ensures
        ({
            let (deployed, result) = spec_deploy_app(
                state,
                caller,
                name,
                app_data,
                escrow_balance,
                random,
            );
            let app_id = random.take(29);
            &&& result == Ok::<Seq<u8>, ErrorView>(app_id)
            &&& deployed.get_app_of_developer(caller, app_id) == Ok::<Option<AppView>, ErrorView>(
                Some(deployed_app(caller, name, app_data)),
            )
            &&& spec_get_app(deployed, caller, app_id) == Ok::<Option<dto::AppDtoView>, ErrorView>(
                Some(
                    dto::AppDtoView {
                        id: app_id,
                        state: dto::AppStateView::Active { revision: 1, name },
                        usages: Seq::empty(),
                    },
                ),
            )
        }),
{
    let app_id = random.take(29);
    let developer = state.get_developer(caller)->Ok_0;
    assert(developer.apps.push(app_id).last() == app_id);
    assert(deployed_app(caller, name, app_data).usages.map_values(
        |usage: AppUsageView| usage_dto(usage),
    ) =~= Seq::<dto::AppUsageView>::empty());
}

/// A deployment is refused, and changes nothing, while the escrow of the
/// developer holds less than the minimum balance.
pub proof fn lemma_deployment_needs_the_minimum_balance(
    state: StateView,
    caller: Seq<u8>,
    name: Seq<char>,
    app_data: Seq<u8>,
    escrow_balance: Tokens,
    random: Seq<u8>,
)
    requires
        state.settings is Some,
        state.get_developer(caller) is Ok,
        escrow_balance.e8s < state.settings->0.minimum_escrow_balance_for_deploy.e8s,
    ensures
        spec_deploy_app(state, caller, name, app_data, escrow_balance, random) == (
            state,
            Err::<Seq<u8>, ErrorView>(
                ErrorView::InsufficientBalanceForDeploy {
                    was: escrow_balance,
                    needed: state.settings->0.minimum_escrow_balance_for_deploy,
                },
            ),
        ),
{
}

/// Removes the app `app_id` for the caller.
pub fn remove_app(state: &mut State, caller: DeveloperID, app_id: AppID) -> (r: Result<(), Error>)
    ensures
        (final(state)@, result_view(r)) == old(state)@.remove_app(caller@, app_id@),
{
    state.remove_app(caller, app_id)
}

/// How the app `app_id` asking for `cycles` cycles at the nanosecond `now`
/// starts: with a top-up paid out of the escrow of the app's developer.
pub open spec fn spec_request_cycles(state: StateView, app_id: Seq<u8>, cycles: u64, now: u64) -> TopUpStepView {
    match state.get_app(app_id) {
        Err(error) => TopUpStepView::Failed(error),
        Ok(app) => match state.get_developer(app.developer_id) {
            Err(error) => TopUpStepView::Failed(error),
            Ok(developer) => spec_top_up_canister(
                state,
                developer.escrow_account,
                app_id,
                cycles,
                now,
            ),
        },
    }
}

/// Starts the top-up that the app `app_id` asks for at the nanosecond `now`.
pub fn request_cycles(state: &State, app_id: AppID, cycles: u64, now: u64) -> (step: TopUpStep)
    ensures
        step@ == spec_request_cycles(state@, app_id@, cycles, now),
{
    let app = match state.get_app(&app_id) {
        Ok(app) => app,
        Err(error) => {
            return TopUpStep::Failed(error);
        },
    };
    let developer = match state.get_developer(&app.developer_id) {
        Ok(developer) => developer,
        Err(error) => {
            return TopUpStep::Failed(error);
        },
    };
    top_up_canister(state, developer.escrow_account, app_id, cycles, now)
}

/// The usage record of a top-up: the cycles credited, the nanosecond of the
/// record, the tokens charged, and paid.
pub open spec fn cycles_charge(cycles: u128, tokens: Tokens, now: u64) -> AppUsageView {
    AppUsageView {
        kind: UsageKindView::CyclesCharge { cylces: cycles },
        timestamp: Timestamp { timestamp_nanos: now },
        amount: tokens,
        is_paid: true,
    }
}

/// The outcome of recording, at the nanosecond `now`, that the app `app_id`
/// was credited with `cycles` cycles for `tokens`: the usage record is added
/// to the app's records and the cycles are returned.
pub open spec fn spec_record_cycles_charge(
    state: StateView,
    app_id: Seq<u8>,
    cycles: u128,
    tokens: Tokens,
    now: u64,
) -> (StateView, Result<u128, ErrorView>) {
    match state.register_usage(app_id, cycles_charge(cycles, tokens, now)) {
        (after, Ok(_)) => (after, Ok(cycles)),
        (after, Err(error)) => (after, Err(error)),
    }
}

/// Records, at the nanosecond `now`, that the app `app_id` was credited with
/// `cycles` cycles for `tokens`.
pub fn record_cycles_charge(state: &mut State, app_id: AppID, cycles: u128, tokens: Tokens, now: u64) -> (r:
    Result<u128, Error>)
    ensures
        (final(state)@, result_view(r)) == spec_record_cycles_charge(
            old(state)@,
            app_id@,
            cycles,
            tokens,
            now,
        ),
{
    let usage = AppUsage {
        kind: UsageKind::CyclesCharge { cylces: cycles },
        timestamp: Timestamp { timestamp_nanos: now },
        amount: tokens,
        is_paid: true,
    };
    match state.register_usage(app_id, usage) {
        Ok(()) => Ok(cycles),
        Err(error) => Err(error),
    }
}

/// How a request for cycles goes on when `reply` arrives at the nanosecond
/// `now`: as its top-up does, and once the app is credited the charge is
/// recorded. Where it cannot be recorded the request fails, though the app
/// keeps the credit.
pub open spec fn spec_resume_request_cycles(
    state: StateView,
    top_up: TopUpView,
    reply: TopUpReplyView,
    now: u64,
) -> (StateView, TopUpStepView)
    recommends
        state.settings is Some,
{
    match (spec_top_up_resume(state, top_up, reply, now), top_up) {
        (
            (after, TopUpStepView::Done(cycles, tokens)),
            TopUpView::AwaitingNotify { app_id, icp_needed },
        ) => match spec_record_cycles_charge(after, app_id, cycles, tokens, now) {
            (recorded, Ok(_)) => (recorded, TopUpStepView::Done(cycles, tokens)),
            (recorded, Err(error)) => (recorded, TopUpStepView::Failed(error)),
        },
        (resumed, _) => resumed,
    }
}

/// Goes on with a request for cycles when `reply` arrives at the nanosecond
/// `now`.
pub fn resume_request_cycles(state: &mut State, top_up: TopUp, reply: TopUpReply, now: u64) -> (step:
    TopUpStep)
    requires
        old(state)@.settings is Some,
    ensures
        (final(state)@, step@) == spec_resume_request_cycles(old(state)@, top_up@, reply@, now),
{
    let step = top_up_resume(state, top_up, reply, now);
    match (step, top_up) {
        (TopUpStep::Done(cycles, tokens), TopUp::AwaitingNotify { app_id, icp_needed }) => {
            match record_cycles_charge(state, app_id, cycles, tokens, now) {
                Ok(_) => TopUpStep::Done(cycles, tokens),
                Err(error) => TopUpStep::Failed(error),
            }
        },
        (step, _) => step,
    }
}

/// A request for cycles is not idempotent. Where the transfer succeeded and
/// the minting service then failed, the request fails and records nothing:
/// the state is as it was when the transfer was asked for. The same request
/// made again while the same rate is in use asks for the same transfer
/// again, so that the escrow is debited twice.
pub proof fn lemma_repeated_request_transfers_again(
    state: StateView,
    app_id: Seq<u8>,
    cycles: u64,
    first: u64,
    block_index: u64,
    notification: CallReplyView<u128>,
    second: u64,
)
    requires
        spec_request_cycles(state, app_id, cycles, first) matches TopUpStepView::Next(
            TopUpView::AwaitingTransfer { .. },
            _,
        ),
        state.cached_exchange_rate(first) is Some,
        state.cached_exchange_rate(second) == state.cached_exchange_rate(first),
        !(notification is Replied),
    ensures
        ({
            let asked = spec_request_cycles(state, app_id, cycles, first);
            let transferred = spec_resume_request_cycles(
                state,
                asked->Next_0,
                TopUpReplyView::Transfer(CallReplyView::Replied(block_index)),
                first,
            );
            let notified = spec_resume_request_cycles(
                transferred.0,
                transferred.1->Next_0,
                TopUpReplyView::NotifyTopUp(notification),
                first,
            );
            &&& asked->Next_1 is Transfer
            &&& transferred.1 matches TopUpStepView::Next(TopUpView::AwaitingNotify { .. }, _)
            &&& notified.1 is Failed
            &&& notified.0 == state
            &&& spec_request_cycles(notified.0, app_id, cycles, second) == asked
        }),
{
}

} // verus!
