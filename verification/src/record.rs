//! The stored form of developers and apps.
//!
//! A record is first laid out as a row of plain values and the row is then
//! written as Candid.

use vstd::prelude::*;

use crate::app::ActiveApp;
use crate::app::App;
use crate::app::AppState;
use crate::app::AppStateView;
use crate::app::AppUsage;
use crate::app::AppUsageView;
use crate::app::AppView;
use crate::app::UsageKind;
use crate::app::UsageKindView;
use crate::developer::Developer;
use crate::developer::DeveloperView;
use crate::ledger::Subaccount;
use crate::ledger::Timestamp;
use crate::ledger::Tokens;
use crate::principal::PrincipalId;

verus! {

/// The row of a developer: the escrow subaccount, then the apps.
pub type DeveloperRow = (Vec<u8>, Vec<Vec<u8>>);

/// A developer's row as a mathematical value.
pub type DeveloperRowView = (Seq<u8>, Seq<Seq<u8>>);

/// The view of a vector of bytes taken element by element is its view.
pub proof fn lemma_bytes_deep_view(bytes: Vec<u8>)
    ensures
        bytes.deep_view() == bytes@,
{
    assert(bytes.deep_view() =~= bytes@);
}

/// The row that Candid reads from `bytes` as a developer's row, if it reads
/// one.
pub uninterp spec fn candid_developer_row(bytes: Seq<u8>) -> Option<DeveloperRowView>;

/// `candid::decode_one` at the type of a developer's row. What it reads is a
/// function of the bytes; a failure to read is `None`.
#[verifier::external_body]
fn candid_decode_developer_row(bytes: &Vec<u8>) -> (row: Option<DeveloperRow>)
    ensures
        row.deep_view() == candid_developer_row(bytes@),
{
    candid::decode_one(bytes).ok()
}

/// `candid::encode_one` at the type of a developer's row. Its serializer
/// fails only on an empty type or on a type name it does not know, neither
/// of which occurs in a tuple of byte vectors; and `candid::decode_one` reads
/// a row back from the bytes that were written for it.
#[verifier::external_body]
fn candid_encode_developer_row(row: &DeveloperRow) -> (bytes: Vec<u8>)
    ensures
        candid_developer_row(bytes@) == Some(row.deep_view()),
{
    candid::encode_one(row).unwrap()
}

/// The row of a developer.
pub open spec fn developer_row(developer: DeveloperView) -> DeveloperRowView {
    (developer.escrow_account, developer.apps)
}

/// Whether a row is that of a developer: 32 bytes of subaccount, and apps of
/// at most 29 bytes each.
pub open spec fn is_developer_row(row: DeveloperRowView) -> bool {
    &&& row.0.len() == 32
    &&& forall|i: int| 0 <= i < row.1.len() ==> (#[trigger] row.1[i]).len() <= 29
}

/// The developer that a row stands for.
pub open spec fn row_developer(row: DeveloperRowView) -> Option<DeveloperView> {
    if is_developer_row(row) {
        Some(DeveloperView { escrow_account: row.0, apps: row.1 })
    } else {
        None
    }
}

/// The developer that is stored as `bytes`, if they hold one.
pub open spec fn stored_developer(bytes: Seq<u8>) -> Option<DeveloperView> {
    match candid_developer_row(bytes) {
        Some(row) => row_developer(row),
        None => None,
    }
}

/// Lays a developer out as a row.
pub fn developer_to_row(developer: &Developer) -> (row: DeveloperRow)
    ensures
        row.deep_view() == developer_row(developer@),
        row_developer(row.deep_view()) == Some(developer@),
{
    let escrow = developer.escrow_account.to_vec();
    let mut apps: Vec<Vec<u8>> = Vec::new();
    let mut i: usize = 0;
    while i < developer.apps.len()
        invariant
            i <= developer.apps.len(),
            apps@.len() == i,
            forall|j: int| 0 <= j < i ==> (#[trigger] apps@[j])@ == developer.apps@[j]@,
            forall|j: int| 0 <= j < i ==> (#[trigger] apps@[j])@.len() <= 29,
        decreases developer.apps.len() - i,
    {
        apps.push(developer.apps[i].to_vec());
        i += 1;
    }
    let row = (escrow, apps);
    proof {
        lemma_bytes_deep_view(row.0);
        assert forall|j: int| 0 <= j < row.1@.len() implies (#[trigger] row.1.deep_view()[j])
            == developer.apps.deep_view()[j] by {
            lemma_bytes_deep_view(row.1@[j]);
        }
        assert(row.1.deep_view() =~= developer.apps.deep_view());
    }
    row
}

/// Reads a developer from a row.
pub fn developer_from_row(row: DeveloperRow) -> (developer: Option<Developer>)
    ensures
        developer.is_some() == row_developer(row.deep_view()).is_some(),
        developer matches Some(read) ==> Some(read@) == row_developer(row.deep_view()),
{
    let ghost view = row.deep_view();
    let (escrow, app_rows) = row;
    proof {
        lemma_bytes_deep_view(escrow);
        assert forall|j: int| 0 <= j < app_rows@.len() implies (#[trigger] view.1[j])
            == app_rows@[j]@ by {
            lemma_bytes_deep_view(app_rows@[j]);
        }
    }
    let escrow_account = match Subaccount::try_from_slice(escrow.as_slice()) {
        Some(subaccount) => subaccount,
        None => {
            return None;
        },
    };
    let mut apps: Vec<PrincipalId> = Vec::new();
    let mut i: usize = 0;
    while i < app_rows.len()
        invariant
            i <= app_rows.len(),
            apps@.len() == i,
            view == row.deep_view(),
            view.1.len() == app_rows@.len(),
            forall|j: int| 0 <= j < app_rows@.len() ==> (#[trigger] view.1[j]) == app_rows@[j]@,
            forall|j: int| 0 <= j < i ==> (#[trigger] apps@[j])@ == app_rows@[j]@,
            forall|j: int| 0 <= j < i ==> (#[trigger] view.1[j]).len() <= 29,
        decreases app_rows.len() - i,
    {
        match PrincipalId::try_from_slice(app_rows[i].as_slice()) {
            Some(app) => {
                apps.push(app);
            },
            None => {
                assert(view.1[i as int].len() > 29);
                return None;
            },
        }
        i += 1;
    }
    let developer = Developer { escrow_account, apps };
    proof {
        assert(developer.apps.deep_view() =~= view.1);
        assert(is_developer_row(view));
    }
    Some(developer)
}

/// The bytes under which a developer is stored.
pub fn encode_developer(developer: &Developer) -> (bytes: Vec<u8>)
    ensures
        stored_developer(bytes@) == Some(developer@),
{
    let row = developer_to_row(developer);
    candid_encode_developer_row(&row)
}

/// Reads back a developer from the bytes under which it was stored.
pub fn decode_developer(bytes: &Vec<u8>) -> (developer: Option<Developer>)
    ensures
        developer.is_some() == stored_developer(bytes@).is_some(),
        developer matches Some(read) ==> Some(read@) == stored_developer(bytes@),
{
    match candid_decode_developer_row(bytes) {
        Some(row) => developer_from_row(row),
        None => None,
    }
}

/// The row of a usage record: a tag for its kind (0 for a cycles charge, 1 for
/// an additional service), the cycles, the details, the timestamp, the amount
/// and the payment flag.
pub type UsageRow = (u8, u128, Vec<u8>, u64, u64, bool);

/// A usage record's row as a mathematical value.
pub type UsageRowView = (u8, u128, Seq<u8>, u64, u64, bool);

/// The row of an app: the owner, a tag for its state (0 for active, 1 for
/// deleted), the revision, the name, the payload and the usage records.
pub type AppRow = (Vec<u8>, u8, u32, String, Vec<u8>, Vec<UsageRow>);

/// An app's row as a mathematical value.
pub type AppRowView = (Seq<u8>, u8, u32, Seq<char>, Seq<u8>, Seq<UsageRowView>);

/// The row that Candid reads from `bytes` as an app's row, if it reads one.
pub uninterp spec fn candid_app_row(bytes: Seq<u8>) -> Option<AppRowView>;

/// `candid::decode_one` at the type of an app's row. What it reads is a
/// function of the bytes; a failure to read is `None`.
#[verifier::external_body]
fn candid_decode_app_row(bytes: &Vec<u8>) -> (row: Option<AppRow>)
    ensures
        row.deep_view() == candid_app_row(bytes@),
{
    candid::decode_one(bytes).ok()
}

/// `candid::encode_one` at the type of an app's row. Its serializer fails
/// only on an empty type or on a type name it does not know, neither of which
/// occurs in a tuple of numbers, flags, text and byte vectors; and
/// `candid::decode_one` reads a row back from the bytes that were written for
/// it.
#[verifier::external_body]
fn candid_encode_app_row(row: &AppRow) -> (bytes: Vec<u8>)
    ensures
        candid_app_row(bytes@) == Some(row.deep_view()),
{
    candid::encode_one(row).unwrap()
}

/// The row of a usage record.
pub open spec fn usage_row(usage: AppUsageView) -> UsageRowView {
    match usage.kind {
        UsageKindView::CyclesCharge { cylces } => (
            0u8,
            cylces,
            Seq::empty(),
            usage.timestamp.timestamp_nanos,
            usage.amount.e8s,
            usage.is_paid,
        ),
        UsageKindView::AdditionalServices { details } => (
            1u8,
            0u128,
            details,
            usage.timestamp.timestamp_nanos,
            usage.amount.e8s,
            usage.is_paid,
        ),
    }
}

/// Whether a row is that of a usage record: its tag names a kind.
pub open spec fn is_usage_row(row: UsageRowView) -> bool {
    row.0 <= 1
}

/// The usage record that a row stands for.
pub open spec fn row_usage(row: UsageRowView) -> AppUsageView {
    AppUsageView {
        kind: if row.0 == 0 {
            UsageKindView::CyclesCharge { cylces: row.1 }
        } else {
            UsageKindView::AdditionalServices { details: row.2 }
        },
        timestamp: Timestamp { timestamp_nanos: row.3 },
        amount: Tokens { e8s: row.4 },
        is_paid: row.5,
    }
}

/// The row of an app.
pub open spec fn app_row(app: AppView) -> AppRowView {
    let usages = app.usages.map_values(|usage: AppUsageView| usage_row(usage));
    match app.state {
        AppStateView::Active { revision, name, data } => (
            app.developer_id,
            0u8,
            revision,
            name,
            data,
            usages,
        ),
        AppStateView::Deleted => (app.developer_id, 1u8, 0u32, Seq::empty(), Seq::empty(), usages),
    }
}

/// Whether a row is that of an app: an owner of at most 29 bytes, a tag that
/// names a state, and usage rows.
pub open spec fn is_app_row(row: AppRowView) -> bool {
    &&& row.0.len() <= 29
    &&& row.1 <= 1
    &&& forall|i: int| 0 <= i < row.5.len() ==> is_usage_row(#[trigger] row.5[i])
}

/// The app that a row stands for.
pub open spec fn row_app(row: AppRowView) -> Option<AppView> {
    if is_app_row(row) {
        Some(
            AppView {
                developer_id: row.0,
                state: if row.1 == 0 {
                    AppStateView::Active { revision: row.2, name: row.3, data: row.4 }
                } else {
                    AppStateView::Deleted
                },
                usages: row.5.map_values(|usage: UsageRowView| row_usage(usage)),
            },
        )
    } else {
        None
    }
}

/// The app that is stored as `bytes`, if they hold one.
pub open spec fn stored_app(bytes: Seq<u8>) -> Option<AppView> {
    match candid_app_row(bytes) {
        Some(row) => row_app(row),
        None => None,
    }
}

/// Reading the row of a usage record gives the record back.
pub proof fn lemma_usage_row_round_trip(usage: AppUsageView)
    ensures
        is_usage_row(usage_row(usage)),
        row_usage(usage_row(usage)) == usage,
{
}

/// Reading the row of an app gives the app back.
pub proof fn lemma_app_row_round_trip(app: AppView)
    requires
        app.developer_id.len() <= 29,
    ensures
        row_app(app_row(app)) == Some(app),
{
    let row = app_row(app);
    assert forall|i: int| 0 <= i < row.5.len() implies is_usage_row(#[trigger] row.5[i]) by {
        lemma_usage_row_round_trip(app.usages[i]);
    }
    assert(row.5.map_values(|usage: UsageRowView| row_usage(usage)) =~= app.usages) by {
        assert forall|i: int| 0 <= i < app.usages.len() implies row_usage(row.5[i])
            == app.usages[i] by {
            lemma_usage_row_round_trip(app.usages[i]);
        }
    }
}

/// Lays a usage record out as a row.
pub fn usage_to_row(usage: &AppUsage) -> (row: UsageRow)
    ensures
        row.deep_view() == usage_row(usage@),
{
    let row = match &usage.kind {
        UsageKind::CyclesCharge { cylces } => (
            0u8,
            *cylces,
            Vec::new(),
            usage.timestamp.timestamp_nanos,
            usage.amount.e8s,
            usage.is_paid,
        ),
        UsageKind::AdditionalServices { details } => (
            1u8,
            0u128,
            details.clone(),
            usage.timestamp.timestamp_nanos,
            usage.amount.e8s,
            usage.is_paid,
        ),
    };
    proof {
        lemma_bytes_deep_view(row.2);
    }
    row
}

/// Reads a usage record from a row.
pub fn usage_from_row(row: &UsageRow) -> (usage: Option<AppUsage>)
    ensures
        usage.is_some() == is_usage_row(row.deep_view()),
        usage matches Some(read) ==> read@ == row_usage(row.deep_view()),
{
    proof {
        lemma_bytes_deep_view(row.2);
    }
    let kind = if row.0 == 0 {
        UsageKind::CyclesCharge { cylces: row.1 }
    } else if row.0 == 1 {
        UsageKind::AdditionalServices { details: row.2.clone() }
    } else {
        return None;
    };
    Some(
        AppUsage {
            kind,
            timestamp: Timestamp { timestamp_nanos: row.3 },
            amount: Tokens { e8s: row.4 },
            is_paid: row.5,
        },
    )
}

/// Lays an app out as a row.
pub fn app_to_row(app: &App) -> (row: AppRow)
    ensures
        row.deep_view() == app_row(app@),
        row_app(row.deep_view()) == Some(app@),
{
    let developer = app.developer_id.to_vec();
    let mut usages: Vec<UsageRow> = Vec::new();
    let mut i: usize = 0;
    while i < app.usages.len()
        invariant
            i <= app.usages.len(),
            usages@.len() == i,
            forall|j: int| 0 <= j < i ==> (#[trigger] usages@[j]).deep_view() == usage_row(app.usages@[j]@),
        decreases app.usages.len() - i,
    {
        usages.push(usage_to_row(&app.usages[i]));
        i += 1;
    }
    let row = match &app.state {
        AppState::Active(active) => (
            developer,
            0u8,
            active.revision,
            active.name.clone(),
            active.data.clone(),
            usages,
        ),
        AppState::Deleted => (developer, 1u8, 0u32, String::new(), Vec::new(), usages),
    };
    proof {
        lemma_bytes_deep_view(row.0);
        lemma_bytes_deep_view(row.4);
        assert(row.5.deep_view() =~= app@.usages.map_values(|usage: AppUsageView| usage_row(usage)));
        lemma_app_row_round_trip(app@);
    }
    row
}

/// Reads an app from a row.
pub fn app_from_row(row: AppRow) -> (app: Option<App>)
    ensures
        app.is_some() == row_app(row.deep_view()).is_some(),
        app matches Some(read) ==> Some(read@) == row_app(row.deep_view()),
{
    let ghost view = row.deep_view();
    let (developer, state_tag, revision, name, data, usage_rows) = row;
    proof {
        lemma_bytes_deep_view(developer);
        lemma_bytes_deep_view(data);
    }
    let developer_id = match PrincipalId::try_from_slice(developer.as_slice()) {
        Some(id) => id,
        None => {
            return None;
        },
    };
    let state = if state_tag == 0 {
        AppState::Active(ActiveApp { revision, name, data })
    } else if state_tag == 1 {
        AppState::Deleted
    } else {
        return None;
    };
    let mut usages: Vec<AppUsage> = Vec::new();
    let mut i: usize = 0;
    while i < usage_rows.len()
        invariant
            i <= usage_rows.len(),
            usages@.len() == i,
            view == row.deep_view(),
            view.5 == usage_rows.deep_view(),
            forall|j: int| 0 <= j < i ==> is_usage_row(#[trigger] view.5[j]),
            forall|j: int| 0 <= j < i ==> (#[trigger] usages@[j])@ == row_usage(view.5[j]),
        decreases usage_rows.len() - i,
    {
        match usage_from_row(&usage_rows[i]) {
            Some(usage) => {
                usages.push(usage);
            },
            None => {
                assert(!is_usage_row(view.5[i as int]));
                return None;
            },
        }
        i += 1;
    }
    let app = App { developer_id, state, usages };
    proof {
        assert(is_app_row(view));
        assert(app.usages.deep_view() =~= view.5.map_values(|usage: UsageRowView| row_usage(usage)));
    }
    Some(app)
}

/// The bytes under which an app is stored.
pub fn encode_app(app: &App) -> (bytes: Vec<u8>)
    ensures
        stored_app(bytes@) == Some(app@),
{
    let row = app_to_row(app);
    candid_encode_app_row(&row)
}

/// Reads back an app from the bytes under which it was stored.
pub fn decode_app(bytes: &Vec<u8>) -> (app: Option<App>)
    ensures
        app.is_some() == stored_app(bytes@).is_some(),
        app matches Some(read) ==> Some(read@) == stored_app(bytes@),
{
    match candid_decode_app_row(bytes) {
        Some(row) => app_from_row(row),
        None => None,
    }
}

} // verus!
