//! Developer accounts.

use vstd::prelude::*;

use crate::app::AppID;
use crate::error::Error;
use crate::error::result_view;
use crate::error::ErrorView;
use crate::ledger::AccountIdentifier;
use crate::ledger::Subaccount;
use crate::ledger::Tokens;
use crate::ledger::TransferArgs;
use crate::ledger::TransferArgsView;
use crate::ledger::account_identifier_bytes;
use crate::memory::State;
use crate::memory::StateView;
use crate::principal::PrincipalId;
use crate::utils::spec_transfer_args;
use crate::utils::transfer_args;

verus! {

pub type DeveloperID = PrincipalId;

/// A registered tenant: its escrow subaccount and the apps it owns, in the
/// order of their deployment.
#[derive(Debug, Clone, PartialEq, Eq)]
pub struct Developer {
    pub escrow_account: Subaccount,
    pub apps: Vec<AppID>,
}

/// A developer as a mathematical value.
pub struct DeveloperView {
    pub escrow_account: Seq<u8>,
    pub apps: Seq<Seq<u8>>,
}

impl View for Developer {
    type V = DeveloperView;

    open spec fn view(&self) -> DeveloperView {
        DeveloperView { escrow_account: self.escrow_account@, apps: self.apps.deep_view() }
    }
}

impl DeepView for Developer {
    type V = DeveloperView;

    open spec fn deep_view(&self) -> DeveloperView {
        self@
    }
}

/// What a caller is told of a developer account.
#[derive(Debug, Clone, Copy, PartialEq, Eq)]
pub struct DeveloperDto {
    pub escrow_account: AccountIdentifier,
}

impl Developer {
    /// A developer without apps, holding its escrow under `escrow_account`.
    pub fn new(escrow_account: Subaccount) -> (developer: Developer)
        ensures
            developer@ == (DeveloperView { escrow_account: escrow_account@, apps: Seq::empty() }),
    {
        let developer = Developer { escrow_account, apps: Vec::new() };
        assert(developer.apps.deep_view() =~= Seq::<Seq<u8>>::empty());
        developer
    }

    /// The escrow account of this developer within the ledger account of the
    /// platform, whose identity is `platform`.
    pub fn as_dto(&self, platform: &PrincipalId) -> (dto: DeveloperDto)
        ensures
            dto.escrow_account@ == account_identifier_bytes(platform@, self@.escrow_account),
    {
        DeveloperDto { escrow_account: AccountIdentifier::new(platform, &self.escrow_account) }
    }

    /// The account of the caller, with the caller's identity.
    pub fn get_caller_developer_account(state: &State, caller: DeveloperID) -> (r: Result<
        (DeveloperID, Developer),
        Error,
    >)
        ensures
            result_view(r) == match state@.get_developer(caller@) {
                Ok(developer) => Ok::<(Seq<u8>, DeveloperView), ErrorView>((caller@, developer)),
                Err(error) => Err(error),
            },
    {
        match state.get_developer(&caller) {
            Ok(developer) => Ok((caller, developer)),
            Err(error) => Err(error),
        }
    }

    /// The caller's identity, unless an account is registered under it.
    pub fn ensure_developer_account_does_not_exist(state: &State, caller: DeveloperID) -> (r:
        Result<DeveloperID, Error>)
        ensures
            result_view(r) == spec_ensure_developer_account_does_not_exist(state@, caller@),
    {
        match state.get_developer(&caller) {
            Err(Error::DeveloperAccountNotFound) => Ok(caller),
            Err(error) => Err(error),
            Ok(_) => Err(Error::DeveloperAccountAlreadyExist),
        }
    }

    /// Refuses a deployment while the escrow holds less than `minimum`.
    pub fn ensure_developer_escorw_has_minimum_balance_for_deploy(
        &self,
        escrow_balance: Tokens,
        minimum: Tokens,
    ) -> (r: Result<(), Error>)
        ensures
            escrow_balance.e8s >= minimum.e8s ==> r is Ok,
            escrow_balance.e8s < minimum.e8s ==> r == Err::<(), Error>(
                Error::InsufficientBalanceForDeploy { was: escrow_balance, needed: minimum },
            ),
    {
        if escrow_balance.e8s < minimum.e8s {
            Err(Error::InsufficientBalanceForDeploy { was: escrow_balance, needed: minimum })
        } else {
            Ok(())
        }
    }

    /// Refuses a deployment once the developer owns `max_apps` apps.
    pub fn ensure_developer_has_budget_for_new_app(&self, max_apps: usize) -> (r: Result<(), Error>)
        ensures
            self@.apps.len() < max_apps ==> r is Ok,
            self@.apps.len() >= max_apps ==> r == Err::<(), Error>(Error::MaxAppsCountReached),
    {
        if self.apps.len() >= max_apps {
            Err(Error::MaxAppsCountReached)
        } else {
            Ok(())
        }
    }
}

/// Whether the identity `caller` is free: it is, unless an account is
/// registered under it or the record stored under it cannot be read.
pub open spec fn spec_ensure_developer_account_does_not_exist(state: StateView, caller: Seq<u8>) -> Result<
    Seq<u8>,
    ErrorView,
> {
    match state.get_developer(caller) {
        Err(ErrorView::DeveloperAccountNotFound) => Ok(caller),
        Err(error) => Err(error),
        Ok(_) => Err(ErrorView::DeveloperAccountAlreadyExist),
    }
}

/// The outcome of the caller registering with the fresh random bytes
/// `random`: an account without apps whose escrow subaccount is `random`,
/// unless the identity is taken.
pub open spec fn spec_register_developer(state: StateView, caller: Seq<u8>, random: Seq<u8>) -> (
    StateView,
    Result<Seq<u8>, ErrorView>,
) {
    match spec_ensure_developer_account_does_not_exist(state, caller) {
        Err(error) => (state, Err(error)),
        Ok(_) => (
            state.register_developer(
                caller,
                DeveloperView { escrow_account: random, apps: Seq::empty() },
            ).0,
            Ok(caller),
        ),
    }
}

/// Registers the caller, with the fresh random bytes `random` as its escrow
/// subaccount.
pub fn register_developer(state: &mut State, caller: DeveloperID, random: &[u8; 32]) -> (r: Result<
    DeveloperID,
    Error,
>)
    ensures
        (final(state)@, result_view(r)) == spec_register_developer(old(state)@, caller@, random@),
{
    let developer_id = match Developer::ensure_developer_account_does_not_exist(state, caller) {
        Ok(developer_id) => developer_id,
        Err(error) => {
            return Err(error);
        },
    };
    let developer = Developer::new(Subaccount(*random));
    match state.register_developer(developer_id, developer) {
        Ok(()) => Ok(developer_id),
        Err(error) => Err(error),
    }
}

/// What the caller is told of its account: its escrow account within the
/// ledger account of the platform, whose identity is `platform`.
pub fn get_developer(state: &State, caller: DeveloperID, platform: &PrincipalId) -> (r: Result<
    DeveloperDto,
    Error,
>)
    ensures
        match state@.get_developer(caller@) {
            Ok(developer) => r is Ok && r->Ok_0.escrow_account@ == account_identifier_bytes(
                platform@,
                developer.escrow_account,
            ),
            Err(error) => r is Err && r->Err_0@ == error,
        },
{
    match Developer::get_caller_developer_account(state, caller) {
        Ok((_, developer)) => Ok(developer.as_dto(platform)),
        Err(error) => Err(error),
    }
}

/// The transfer that withdraws `amount` from the caller's escrow to `to`: out
/// of the caller's escrow subaccount, under the memo 0.
pub fn request_escrow_withdraw(state: &State, caller: DeveloperID, to: AccountIdentifier, amount: Tokens) -> (r:
    Result<TransferArgs, Error>)
    ensures
        result_view(r) == match state@.get_developer(caller@) {
            Ok(developer) => Ok::<TransferArgsView, ErrorView>(
                spec_transfer_args(developer.escrow_account, to@, amount, 0),
            ),
            Err(error) => Err(error),
        },
{
    match Developer::get_caller_developer_account(state, caller) {
        Ok((_, developer)) => Ok(transfer_args(developer.escrow_account, to, amount, 0)),
        Err(error) => Err(error),
    }
}

} // verus!
