//! Requests to the value-transfer ledger and what its replies mean.

use vstd::prelude::*;
use vstd::string::StringExecFns;

use crate::error::result_view;
use crate::error::Error;
use crate::error::ErrorView;
use crate::ledger::AccountIdentifier;
use crate::ledger::BlockIndex;
use crate::ledger::Subaccount;
use crate::ledger::Tokens;
use crate::ledger::TransferArgs;
use crate::ledger::TransferArgsView;
use crate::ledger::account_identifier_bytes;
use crate::ledger::spec_default_fee;
use crate::principal::PrincipalId;

pub mod exchange;

verus! {

/// How a call to an external service ended.
#[derive(Debug, Clone, PartialEq, Eq)]
pub enum CallReply<T> {
    /// The call did not reach the service or was rejected by it: the
    /// rejection code as text, and the reason given.
    Rejected { error_code: String, reason: String },
    /// The service answered with an error, given as text.
    Refused { error: String },
    /// The service answered.
    Replied(T),
}

/// A reply as a mathematical value.
pub enum CallReplyView<T> {
    Rejected { error_code: Seq<char>, reason: Seq<char> },
    Refused { error: Seq<char> },
    Replied(T),
}

impl<T> View for CallReply<T> {
    type V = CallReplyView<T>;

    open spec fn view(&self) -> CallReplyView<T> {
        match *self {
            CallReply::Rejected { error_code, reason } => CallReplyView::Rejected {
                error_code: error_code@,
                reason: reason@,
            },
            CallReply::Refused { error } => CallReplyView::Refused { error: error@ },
            CallReply::Replied(answer) => CallReplyView::Replied(answer),
        }
    }
}

/// The text for a rejected call: what failed, then the code and the reason.
pub open spec fn rejected_text(what: Seq<char>, error_code: Seq<char>, reason: Seq<char>) -> Seq<
    char,
> {
    what + ", error_code: "@ + error_code + ", reason: "@ + reason
}

/// What a reply stands for: the answer, or an internal error whose text is
/// `what` with the code and the reason for a rejected call, and `refused`
/// with the error for a refusal.
pub open spec fn reply_outcome<T>(reply: CallReplyView<T>, what: Seq<char>, refused: Seq<char>) -> Result<
    T,
    ErrorView,
> {
    match reply {
        CallReplyView::Rejected { error_code, reason } => Err(
            ErrorView::Internal(rejected_text(what, error_code, reason)),
        ),
        CallReplyView::Refused { error } => Err(ErrorView::Internal(refused + error)),
        CallReplyView::Replied(answer) => Ok(answer),
    }
}

/// Turns a reply into the answer or an internal error.
pub fn reply_result<T>(reply: CallReply<T>, what: &str, refused: &str) -> (r: Result<T, Error>)
    ensures
        match reply_outcome(reply@, what@, refused@) {
            Ok(answer) => r == Ok::<T, Error>(answer),
            Err(error) => r is Err && r->Err_0@ == error,
        },
{
    match reply {
        CallReply::Rejected { error_code, reason } => {
            let text = String::from_str(what).concat(", error_code: ").concat(
                error_code.as_str(),
            ).concat(", reason: ").concat(reason.as_str());
            Err(Error::Internal(text))
        },
        CallReply::Refused { error } => {
            Err(Error::Internal(String::from_str(refused).concat(error.as_str())))
        },
        CallReply::Replied(answer) => Ok(answer),
    }
}

/// The account whose balance is the escrow of a developer: the subaccount
/// `subaccount` of the platform's own ledger account.
pub fn escrow_account(platform: &PrincipalId, subaccount: &Subaccount) -> (account:
    AccountIdentifier)
    ensures
        account@ == account_identifier_bytes(platform@, subaccount@),
{
    AccountIdentifier::new(platform, subaccount)
}

/// What failed when the ledger's balance query was rejected.
pub open spec fn balance_rejected() -> Seq<char> {
    "Failed to fetch account balance"@
}

/// The balance of a developer's escrow, from the ledger's reply to the
/// balance query.
pub fn get_developer_escrow_balance(reply: CallReply<Tokens>) -> (r: Result<Tokens, Error>)
    ensures
        result_view(r) == reply_outcome(reply@, balance_rejected(), balance_rejected()),
{
    reply_result(reply, "Failed to fetch account balance", "Failed to fetch account balance")
}

/// The transfer of `amount` out of `from_subaccount` to `to`, at the ledger's
/// default fee and without a creation time.
pub open spec fn spec_transfer_args(
    from_subaccount: Seq<u8>,
    to: Seq<u8>,
    amount: Tokens,
    memo: u64,
) -> TransferArgsView {
    TransferArgsView {
        memo,
        amount,
        fee: spec_default_fee(),
        from_subaccount: Some(from_subaccount),
        to,
        created_at_time: None,
    }
}

/// The transfer to ask of the ledger to move `amount` out of
/// `from_subaccount` to `to`.
pub fn transfer_args(from_subaccount: Subaccount, to: AccountIdentifier, amount: Tokens, memo: u64) -> (args:
    TransferArgs)
    ensures
        args@ == spec_transfer_args(from_subaccount@, to@, amount, memo),
{
    TransferArgs {
        memo,
        amount,
        fee: Tokens::default_fee(),
        from_subaccount: Some(from_subaccount),
        to,
        created_at_time: None,
    }
}

/// What failed when the ledger's transfer call was rejected.
pub open spec fn transfer_rejected() -> Seq<char> {
    "Failed to call transfer on ic_ledger"@
}

/// What precedes the ledger's error when it refused a transfer.
pub open spec fn transfer_refused() -> Seq<char> {
    "Transfer failed, reason: "@
}

/// The block of a transfer, from the ledger's reply to the transfer.
pub fn transfer_tokens(reply: CallReply<BlockIndex>) -> (r: Result<BlockIndex, Error>)
    ensures
        result_view(r) == reply_outcome(reply@, transfer_rejected(), transfer_refused()),
{
    reply_result(reply, "Failed to call transfer on ic_ledger", "Transfer failed, reason: ")
}

} // verus!
