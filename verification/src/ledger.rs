//! Values exchanged with the value-transfer ledger: token amounts, timestamps,
//! subaccounts and account identifiers.

use vstd::prelude::*;

use crate::principal::PrincipalId;

verus! {

/// An amount of ledger tokens, counted in units of 10^-8 token.
#[derive(Clone, Copy, Debug, PartialEq, Eq, Structural, Hash)]
pub struct Tokens {
    pub e8s: u64,
}

impl View for Tokens {
    type V = Tokens;

    open spec fn view(&self) -> Tokens {
        *self
    }
}

impl DeepView for Tokens {
    type V = Tokens;

    open spec fn deep_view(&self) -> Tokens {
        *self
    }
}

impl Tokens {
    /// The amount of `e8s` units.
    pub fn from_e8s(e8s: u64) -> (tokens: Tokens)
        ensures
            tokens.e8s == e8s,
    {
        Tokens { e8s }
    }

    /// The number of units in this amount.
    pub fn e8s(&self) -> (e8s: u64)
        ensures
            e8s == self.e8s,
    {
        self.e8s
    }
}

/// Nanoseconds since the UNIX epoch.
#[derive(Clone, Copy, Debug, PartialEq, Eq, Structural, Hash)]
pub struct Timestamp {
    pub timestamp_nanos: u64,
}

/// Index of a block of the ledger.
pub type BlockIndex = u64;

/// A 32-byte sub-address of a ledger account.
#[derive(Clone, Copy, Debug, PartialEq, Eq, Hash)]
pub struct Subaccount(pub [u8; 32]);

impl View for Subaccount {
    type V = Seq<u8>;

    open spec fn view(&self) -> Seq<u8> {
        self.0@
    }
}

/// The subaccount that `ic_ledger_types` derives from a principal: the length
/// of the principal, then its bytes, then zeros up to 32 bytes.
pub open spec fn principal_subaccount(principal: Seq<u8>) -> Seq<u8>
    recommends
        principal.len() <= 29,
{
    seq![principal.len() as u8] + principal + Seq::new((31 - principal.len()) as nat, |i: int| 0u8)
}

/// `<ic_ledger_types::Subaccount as From<Principal>>::from`. Its source fills
/// a zeroed array of 32 bytes with the principal's length at index 0 and the
/// principal's bytes from index 1 on.
#[verifier::external_body]
fn subaccount_from_principal(principal: &Vec<u8>) -> (subaccount: [u8; 32])
    requires
        principal@.len() <= 29,
    ensures
        subaccount@ == principal_subaccount(principal@),
{
    ic_ledger_types::Subaccount::from(candid::Principal::from_slice(principal)).0
}

impl Subaccount {
    /// The subaccount under which an account is kept for `principal`.
    pub fn from_principal(principal: &PrincipalId) -> (subaccount: Subaccount)
        ensures
            subaccount@ == principal_subaccount(principal@),
    {
        let bytes = principal.to_vec();
        Subaccount(subaccount_from_principal(&bytes))
    }

    /// The subaccount made of `bytes`, which must be exactly 32.
    pub fn try_from_slice(bytes: &[u8]) -> (subaccount: Option<Subaccount>)
        ensures
            subaccount is Some <==> bytes@.len() == 32,
            subaccount is Some ==> subaccount->0@ == bytes@,
    {
        if bytes.len() != 32 {
            return None;
        }
        let mut buffer: [u8; 32] = [0u8; 32];
        let mut i: usize = 0;
        while i < 32
            invariant
                i <= 32 == bytes@.len(),
                forall|j: int| 0 <= j < i ==> buffer@[j] == bytes@[j],
            decreases 32 - i,
        {
            buffer[i] = bytes[i];
            i += 1;
        }
        assert(buffer@ =~= bytes@);
        Some(Subaccount(buffer))
    }

    /// The 32 bytes of the subaccount.
    pub fn to_vec(&self) -> (bytes: Vec<u8>)
        ensures
            bytes@ == self@,
    {
        let mut bytes: Vec<u8> = Vec::new();
        let mut i: usize = 0;
        while i < 32
            invariant
                i <= 32,
                bytes@ == self.0@.take(i as int),
            decreases 32 - i,
        {
            bytes.push(self.0[i]);
            i += 1;
            assert(self.0@.take(i as int) =~= self.0@.take(i - 1).push(self.0@[i - 1]));
        }
        assert(self.0@.take(32) =~= self.0@);
        bytes
    }
}

/// The account identifier that `ic_ledger_types` computes for an owner and a
/// subaccount: a checksum followed by a hash of the two.
pub uninterp spec fn account_identifier_bytes(owner: Seq<u8>, subaccount: Seq<u8>) -> Seq<u8>;

/// `ic_ledger_types::AccountIdentifier::new`, which hashes a domain
/// separator, the owner's bytes and the subaccount with SHA-224 and puts the
/// CRC-32 of the hash in front of it. The result depends on the owner and the
/// subaccount alone.
#[verifier::external_body]
fn account_identifier_new(owner: &Vec<u8>, subaccount: &[u8; 32]) -> (bytes: [u8; 32])
    requires
        owner@.len() <= 29,
    ensures
        bytes@ == account_identifier_bytes(owner@, subaccount@),
{
    let owner = candid::Principal::from_slice(owner);
    let id = ic_ledger_types::AccountIdentifier::new(&owner, &ic_ledger_types::Subaccount(*subaccount));
    let mut bytes = [0u8; 32];
    bytes.copy_from_slice(id.as_ref());
    bytes
}

/// The address of an account of the ledger.
#[derive(Clone, Copy, Debug, PartialEq, Eq, Hash)]
pub struct AccountIdentifier(pub [u8; 32]);

impl View for AccountIdentifier {
    type V = Seq<u8>;

    open spec fn view(&self) -> Seq<u8> {
        self.0@
    }
}

impl AccountIdentifier {
    /// The account of `owner` under `subaccount`.
    pub fn new(owner: &PrincipalId, subaccount: &Subaccount) -> (account: AccountIdentifier)
        ensures
            account@ == account_identifier_bytes(owner@, subaccount@),
    {
        let owner_bytes = owner.to_vec();
        AccountIdentifier(account_identifier_new(&owner_bytes, &subaccount.0))
    }
}

/// `ic_ledger_types::DEFAULT_FEE`, the fee of a ledger transaction: 10 000
/// units.
#[verifier::external_body]
fn default_fee() -> (fee: u64)
    ensures
        fee == 10_000,
{
    ic_ledger_types::DEFAULT_FEE.e8s()
}

/// `ic_ledger_types::Tokens::SUBDIVIDABLE_BY`, the number of units in one
/// token: 100 000 000.
#[verifier::external_body]
fn subdividable_by() -> (units: u64)
    ensures
        units == 100_000_000,
{
    ic_ledger_types::Tokens::SUBDIVIDABLE_BY
}

/// Units in one whole token.
pub open spec fn spec_subdividable_by() -> int {
    100_000_000
}

/// The ledger's fee for one transfer.
pub open spec fn spec_default_fee() -> Tokens {
    Tokens { e8s: 10_000 }
}

impl Tokens {
    /// The ledger's fee for one transfer.
    pub fn default_fee() -> (fee: Tokens)
        ensures
            fee == spec_default_fee(),
    {
        Tokens { e8s: default_fee() }
    }

    /// Units in one whole token.
    pub fn units_per_token() -> (units: u64)
        ensures
            units == spec_subdividable_by(),
    {
        subdividable_by()
    }
}

/// A transfer to ask of the ledger.
#[derive(Clone, Copy, Debug, PartialEq, Eq)]
pub struct TransferArgs {
    pub memo: u64,
    pub amount: Tokens,
    pub fee: Tokens,
    pub from_subaccount: Option<Subaccount>,
    pub to: AccountIdentifier,
    pub created_at_time: Option<Timestamp>,
}

/// A transfer as a mathematical value.
pub struct TransferArgsView {
    pub memo: u64,
    pub amount: Tokens,
    pub fee: Tokens,
    pub from_subaccount: Option<Seq<u8>>,
    pub to: Seq<u8>,
    pub created_at_time: Option<Timestamp>,
}

impl View for TransferArgs {
    type V = TransferArgsView;

    open spec fn view(&self) -> TransferArgsView {
        TransferArgsView {
            memo: self.memo,
            amount: self.amount,
            fee: self.fee,
            from_subaccount: match self.from_subaccount {
                Some(subaccount) => Some(subaccount@),
                None => None,
            },
            to: self.to@,
            created_at_time: self.created_at_time,
        }
    }
}

impl DeepView for TransferArgs {
    type V = TransferArgsView;

    open spec fn deep_view(&self) -> TransferArgsView {
        self@
    }
}

} // verus!
