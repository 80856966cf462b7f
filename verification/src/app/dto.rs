//! What callers see of an app, and what they send to deploy one.

use vstd::prelude::*;

use crate::app::AppID;
use crate::app::UsageKind;
use crate::app::UsageKindView;
use crate::ledger::Timestamp;
use crate::ledger::Tokens;

verus! {

/// The state of an app without its payload.
#[derive(Debug, Clone, PartialEq, Eq)]
pub enum AppState {
    Active { revision: u32, name: String },
    Deleted,
}

/// The visible state of an app as a mathematical value.
pub enum AppStateView {
    Active { revision: u32, name: Seq<char> },
    Deleted,
}

impl View for AppState {
    type V = AppStateView;

    open spec fn view(&self) -> AppStateView {
        match *self {
            AppState::Active { revision, name } => AppStateView::Active { revision, name: name@ },
            AppState::Deleted => AppStateView::Deleted,
        }
    }
}

/// A usage record without its payment flag.
#[derive(Debug, Clone, PartialEq, Eq)]
pub struct AppUsage {
    pub kind: UsageKind,
    pub timestamp: Timestamp,
    pub amount: Tokens,
}

/// A visible usage record as a mathematical value.
pub struct AppUsageView {
    pub kind: UsageKindView,
    pub timestamp: Timestamp,
    pub amount: Tokens,
}

impl View for AppUsage {
    type V = AppUsageView;

    open spec fn view(&self) -> AppUsageView {
        AppUsageView { kind: self.kind@, timestamp: self.timestamp, amount: self.amount }
    }
}

impl DeepView for AppUsage {
    type V = AppUsageView;

    open spec fn deep_view(&self) -> AppUsageView {
        self@
    }
}

/// What callers see of an app.
#[derive(Debug, Clone, PartialEq, Eq)]
pub struct AppDto {
    pub id: AppID,
    pub state: AppState,
    pub usages: Vec<AppUsage>,
}

/// What callers see of an app, as a mathematical value.
pub struct AppDtoView {
    pub id: Seq<u8>,
    pub state: AppStateView,
    pub usages: Seq<AppUsageView>,
}

impl View for AppDto {
    type V = AppDtoView;

    open spec fn view(&self) -> AppDtoView {
        AppDtoView { id: self.id@, state: self.state@, usages: self.usages.deep_view() }
    }
}

impl DeepView for AppDto {
    type V = AppDtoView;

    open spec fn deep_view(&self) -> AppDtoView {
        self@
    }
}

/// A request to deploy an app.
#[derive(Debug, Clone, PartialEq, Eq)]
pub struct DeployAppRequest {
    pub name: String,
    pub app_data: Vec<u8>,
}

} // verus!
