//! The account ledger: developers, their apps and the settings, kept in
//! durable maps.

use vstd::prelude::*;

use crate::app::App;
use crate::app::AppID;
use crate::app::AppUsage;
use crate::app::AppUsageView;
use crate::app::AppView;
use crate::developer::Developer;
use crate::developer::DeveloperID;
use crate::developer::DeveloperView;
use crate::error::result_view;
use crate::error::Error;
use crate::error::ErrorView;
use crate::record::decode_app;
use crate::record::decode_developer;
use crate::record::encode_app;
use crate::record::encode_developer;
use crate::record::stored_app;
use crate::record::stored_developer;
use crate::settings::Settings;
use crate::store::open_record_maps;
use crate::store::record_contains_key;
use crate::store::record_get;
use crate::store::record_insert;
use crate::store::record_remove;
use crate::store::records;
use crate::store::RecordMap;

verus! {

/// The text of the error for a stored developer that cannot be read.
pub open spec fn unreadable_developer() -> Seq<char> {
    "Stored developer record cannot be read"@
}

/// The text of the error for a stored app that cannot be read.
pub open spec fn unreadable_app() -> Seq<char> {
    "Stored app record cannot be read"@
}

/// The ledger's state.
pub struct State {
    settings: Option<Settings>,
    developers: RecordMap,
    apps: RecordMap,
    icp_cycles_exchange_rate: Option<(u64, u128)>,
}

/// The ledger's state as a mathematical value. A stored record that cannot
/// be read stands in its map as `None`.
pub struct StateView {
    pub settings: Option<Settings>,
    pub developers: Map<Seq<u8>, Option<DeveloperView>>,
    pub apps: Map<Seq<u8>, Option<AppView>>,
    /// The exchange rate last fetched, and the nanosecond after which it is
    /// no longer used.
    pub icp_cycles_exchange_rate: Option<(u64, u128)>,
}

impl View for State {
    type V = StateView;

    closed spec fn view(&self) -> StateView {
        StateView {
            settings: self.settings,
            developers: records(self.developers).map_values(|bytes: Seq<u8>| stored_developer(bytes)),
            apps: records(self.apps).map_values(|bytes: Seq<u8>| stored_app(bytes)),
            icp_cycles_exchange_rate: self.icp_cycles_exchange_rate,
        }
    }
}

impl StateView {
    /// The state after settings are offered: the first settings stay.
    pub open spec fn init_settings(self, settings: Settings) -> StateView {
        if self.settings is Some {
            self
        } else {
            StateView { settings: Some(settings), ..self }
        }
    }

    /// The developer registered under `id`.
    pub open spec fn get_developer(self, id: Seq<u8>) -> Result<DeveloperView, ErrorView> {
        if !self.developers.contains_key(id) {
            Err(ErrorView::DeveloperAccountNotFound)
        } else {
            match self.developers[id] {
                Some(developer) => Ok(developer),
                None => Err(ErrorView::Internal(unreadable_developer())),
            }
        }
    }

    /// The outcome of registering `developer` under `id`: refused where the
    /// identity is taken, else stored.
    pub open spec fn register_developer(self, id: Seq<u8>, developer: DeveloperView) -> (
        StateView,
        Result<(), ErrorView>,
    ) {
        if self.developers.contains_key(id) {
            (self, Err(ErrorView::DeveloperAccountAlreadyExist))
        } else {
            (StateView { developers: self.developers.insert(id, Some(developer)), ..self }, Ok(()))
        }
    }

    /// The app stored under `id`.
    pub open spec fn get_app(self, id: Seq<u8>) -> Result<AppView, ErrorView> {
        if !self.apps.contains_key(id) {
            Err(ErrorView::AppNotFound)
        } else {
            match self.apps[id] {
                Some(app) => Ok(app),
                None => Err(ErrorView::Internal(unreadable_app())),
            }
        }
    }

    /// The app `app_id` as the developer `developer_id` sees it: only an app
    /// on the developer's own list is shown.
    pub open spec fn get_app_of_developer(self, developer_id: Seq<u8>, app_id: Seq<u8>) -> Result<
        Option<AppView>,
        ErrorView,
    > {
        match self.get_developer(developer_id) {
            Err(error) => Err(error),
            Ok(developer) => if developer.apps.contains(app_id) && self.apps.contains_key(app_id) {
                match self.apps[app_id] {
                    Some(app) => Ok(Some(app)),
                    None => Err(ErrorView::Internal(unreadable_app())),
                }
            } else {
                Ok(None)
            },
        }
    }

    /// The stored apps among `ids`, each with its identity, in the order of
    /// `ids`.
    pub open spec fn apps_among(self, ids: Seq<Seq<u8>>) -> Result<
        Seq<(Seq<u8>, AppView)>,
        ErrorView,
    >
        decreases ids.len(),
    {
        if ids.len() == 0 {
            Ok(Seq::empty())
        } else {
            match self.apps_among(ids.drop_last()) {
                Err(error) => Err(error),
                Ok(found) => if !self.apps.contains_key(ids.last()) {
                    Ok(found)
                } else {
                    match self.apps[ids.last()] {
                        Some(app) => Ok(found.push((ids.last(), app))),
                        None => Err(ErrorView::Internal(unreadable_app())),
                    }
                },
            }
        }
    }

    /// The stored apps of the developer `developer_id`, in the order of the
    /// developer's list.
    pub open spec fn get_apps_of_developer(self, developer_id: Seq<u8>) -> Result<
        Seq<(Seq<u8>, AppView)>,
        ErrorView,
    > {
        match self.get_developer(developer_id) {
            Err(error) => Err(error),
            Ok(developer) => self.apps_among(developer.apps),
        }
    }

    /// The outcome of storing `app` under `app_id`: the app is stored and its
    /// identity is added to the list of its developer, who must be
    /// registered.
    pub open spec fn register_app(self, app_id: Seq<u8>, app: AppView) -> (
        StateView,
        Result<(), ErrorView>,
    ) {
        match self.get_developer(app.developer_id) {
            Err(error) => (self, Err(error)),
            Ok(developer) => (
                StateView {
                    apps: self.apps.insert(app_id, Some(app)),
                    developers: self.developers.insert(
                        app.developer_id,
                        Some(DeveloperView { apps: developer.apps.push(app_id), ..developer }),
                    ),
                    ..self
                },
                Ok(()),
            ),
        }
    }

    /// The outcome of the developer `developer_id` removing the app `app_id`.
    /// Nothing is done where no such app is stored. A stored app is removed
    /// only for a developer that has it on its list: the record is deleted
    /// and the identity is struck from the list.
    pub open spec fn remove_app(self, developer_id: Seq<u8>, app_id: Seq<u8>) -> (
        StateView,
        Result<(), ErrorView>,
    ) {
        match self.get_developer(developer_id) {
            Err(error) => (self, Err(error)),
            Ok(developer) => if !self.apps.contains_key(app_id) {
                (self, Ok(()))
            } else if !developer.apps.contains(app_id) {
                (self, Err(ErrorView::AppNotFound))
            } else {
                (
                    StateView {
                        apps: self.apps.remove(app_id),
                        developers: self.developers.insert(
                            developer_id,
                            Some(
                                DeveloperView {
                                    apps: developer.apps.filter(|id: Seq<u8>| id != app_id),
                                    ..developer
                                },
                            ),
                        ),
                        ..self
                    },
                    Ok(()),
                )
            },
        }
    }

    /// The outcome of adding `usage` to the records of the app `app_id`.
    pub open spec fn register_usage(self, app_id: Seq<u8>, usage: AppUsageView) -> (
        StateView,
        Result<(), ErrorView>,
    ) {
        match self.get_app(app_id) {
            Err(error) => (self, Err(error)),
            Ok(app) => (
                StateView {
                    apps: self.apps.insert(
                        app_id,
                        Some(AppView { usages: app.usages.push(usage), ..app }),
                    ),
                    ..self
                },
                Ok(()),
            ),
        }
    }

    /// The exchange rate to use at the nanosecond `now` without asking for
    /// one: the fetched rate, up to and including the nanosecond it expires.
    pub open spec fn cached_exchange_rate(self, now: u64) -> Option<u64> {
        match self.icp_cycles_exchange_rate {
            Some((rate, expires_at)) => if now <= expires_at {
                Some(rate)
            } else {
                None
            },
            None => None,
        }
    }

    /// The state after the rate `rate` was fetched at the nanosecond `now`:
    /// the rate is kept for the time that the settings give.
    pub open spec fn record_exchange_rate(self, rate: u64, now: u64) -> StateView
        recommends
            self.settings is Some,
    {
        StateView {
            icp_cycles_exchange_rate: Some(
                (
                    rate,
                    (now + self.settings->0.exchange_rate_timeout_seconds * 1_000_000_000) as u128,
                ),
            ),
            ..self
        }
    }
}

impl State {
    /// Whether the settings were given.
    pub fn is_initialized(&self) -> (initialized: bool)
        ensures
            initialized == self@.settings.is_some(),
    {
        self.settings.is_some()
    }

    /// Offers the settings. The first settings stay for good.
    pub fn init_settings(&mut self, settings: Settings)
        ensures
            final(self)@ == old(self)@.init_settings(settings),
    {
        if self.settings.is_none() {
            self.settings = Some(settings);
        }
    }

    /// The settings.
    pub fn settings(&self) -> (settings: &Settings)
        requires
            self@.settings is Some,
        ensures
            Some(*settings) == self@.settings,
    {
        self.settings.as_ref().unwrap()
    }

    /// Registers `developer` under `developer_id`, unless the identity is
    /// taken.
    pub fn register_developer(&mut self, developer_id: DeveloperID, developer: Developer) -> (r:
        Result<(), Error>)
        ensures
            (final(self)@, result_view(r)) == old(self)@.register_developer(
                developer_id@,
                developer@,
            ),
    {
        let key = developer_id.to_vec();
        if record_contains_key(&self.developers, &key) {
            return Err(Error::DeveloperAccountAlreadyExist);
        }
        let bytes = encode_developer(&developer);
        record_insert(&mut self.developers, &key, bytes);
        proof {
            assert(final(self)@.developers =~= old(self)@.developers.insert(
                developer_id@,
                Some(developer@),
            ));
        }
        Ok(())
    }

    /// The developer registered under `developer_id`.
    pub fn get_developer(&self, developer_id: &DeveloperID) -> (r: Result<Developer, Error>)
        ensures
            result_view(r) == self@.get_developer(developer_id@),
    {
        let key = developer_id.to_vec();
        match record_get(&self.developers, &key) {
            None => Err(Error::DeveloperAccountNotFound),
            Some(bytes) => match decode_developer(&bytes) {
                Some(developer) => Ok(developer),
                None => Err(Error::Internal(String::from_str("Stored developer record cannot be read"))),
            },
        }
    }

    /// The app stored under `app_id`.
    pub fn get_app(&self, app_id: &AppID) -> (r: Result<App, Error>)
        ensures
            result_view(r) == self@.get_app(app_id@),
    {
        let key = app_id.to_vec();
        match record_get(&self.apps, &key) {
            None => Err(Error::AppNotFound),
            Some(bytes) => match decode_app(&bytes) {
                Some(app) => Ok(app),
                None => Err(Error::Internal(String::from_str("Stored app record cannot be read"))),
            },
        }
    }

    /// The app `app_id` as the developer `developer_id` sees it: `None`
    /// unless it is on the developer's list and stored.
    pub fn get_app_of_developer(&self, developer_id: &DeveloperID, app_id: &AppID) -> (r: Result<
        Option<App>,
        Error,
    >)
        ensures
            result_view(r) == self@.get_app_of_developer(developer_id@, app_id@),
    {
        let developer = match self.get_developer(developer_id) {
            Ok(developer) => developer,
            Err(error) => {
                return Err(error);
            },
        };
        if !contains_id(&developer.apps, app_id) {
            return Ok(None);
        }
        match self.get_app(app_id) {
            Ok(app) => Ok(Some(app)),
            Err(Error::AppNotFound) => Ok(None),
            Err(error) => Err(error),
        }
    }

    /// The stored apps of the developer `developer_id`, each with its
    /// identity, in the order of the developer's list.
    pub fn get_apps_of_developer(&self, developer_id: &DeveloperID) -> (r: Result<
        Vec<(AppID, App)>,
        Error,
    >)
        ensures
            result_view(r) == self@.get_apps_of_developer(developer_id@),
    {
        let developer = match self.get_developer(developer_id) {
            Ok(developer) => developer,
            Err(error) => {
                return Err(error);
            },
        };
        let ghost ids = developer.apps.deep_view();
        let mut found: Vec<(AppID, App)> = Vec::new();
        let mut i: usize = 0;
        proof {
            assert(ids.take(0) =~= Seq::<Seq<u8>>::empty());
            assert(found.deep_view() =~= Seq::<(Seq<u8>, AppView)>::empty());
        }
        while i < developer.apps.len()
            invariant
                i <= developer.apps.len(),
                ids == developer.apps.deep_view(),
                self@.get_developer(developer_id@) == Ok::<DeveloperView, ErrorView>(developer@),
                self@.apps_among(ids.take(i as int)) == Ok::<Seq<(Seq<u8>, AppView)>, ErrorView>(
                    found.deep_view(),
                ),
            decreases developer.apps.len() - i,
        {
            let app_id = developer.apps[i];
            let ghost before = found.deep_view();
            proof {
                assert(ids.take(i + 1).drop_last() =~= ids.take(i as int));
                assert(ids.take(i + 1).last() == app_id@);
            }
            match self.get_app(&app_id) {
                Ok(app) => {
                    found.push((app_id, app));
                    proof {
                        assert(found.deep_view() =~= before.push((app_id@, app@)));
                    }
                },
                Err(Error::AppNotFound) => {},
                Err(error) => {
                    proof {
                        assert(self@.apps_among(ids.take(i + 1)) is Err);
                        self@.lemma_apps_among_fails(ids, i + 1);
                    }
                    return Err(error);
                },
            }
            i += 1;
        }
        proof {
            assert(ids.take(i as int) =~= ids);
        }
        Ok(found)
    }

    /// Stores `app` under `app_id` and adds the identity to the list of the
    /// app's developer, who must be registered.
    pub fn register_app(&mut self, app_id: AppID, app: App) -> (r: Result<(), Error>)
        ensures
            (final(self)@, result_view(r)) == old(self)@.register_app(app_id@, app@),
    {
        let mut developer = match self.get_developer(&app.developer_id) {
            Ok(developer) => developer,
            Err(error) => {
                return Err(error);
            },
        };
        let ghost before = developer@;
        let app_key = app_id.to_vec();
        let developer_key = app.developer_id.to_vec();
        record_insert(&mut self.apps, &app_key, encode_app(&app));
        developer.apps.push(app_id);
        proof {
            assert(developer.apps.deep_view() =~= before.apps.push(app_id@));
        }
        record_insert(&mut self.developers, &developer_key, encode_developer(&developer));
        proof {
            let after = old(self)@.register_app(app_id@, app@).0;
            assert(final(self)@.apps =~= after.apps);
            assert(final(self)@.developers =~= after.developers);
        }
        Ok(())
    }

    /// Removes the app `app_id` for the developer `developer_id`. Nothing is
    /// done where no such app is stored; a stored app is removed only for a
    /// developer that has it on its list.
    pub fn remove_app(&mut self, developer_id: DeveloperID, app_id: AppID) -> (r: Result<(), Error>)
        ensures
            (final(self)@, result_view(r)) == old(self)@.remove_app(developer_id@, app_id@),
    {
        let developer = match self.get_developer(&developer_id) {
            Ok(developer) => developer,
            Err(error) => {
                return Err(error);
            },
        };
        let app_key = app_id.to_vec();
        if !record_contains_key(&self.apps, &app_key) {
            return Ok(());
        }
        if !contains_id(&developer.apps, &app_id) {
            return Err(Error::AppNotFound);
        }
        let developer_key = developer_id.to_vec();
        record_remove(&mut self.apps, &app_key);
        let remaining = Developer {
            escrow_account: developer.escrow_account,
            apps: without_id(&developer.apps, &app_id),
        };
        record_insert(&mut self.developers, &developer_key, encode_developer(&remaining));
        proof {
            let after = old(self)@.remove_app(developer_id@, app_id@).0;
            assert(final(self)@.apps =~= after.apps);
            assert(final(self)@.developers =~= after.developers);
        }
        Ok(())
    }

    /// Adds `usage` to the records of the app `app_id`.
    pub fn register_usage(&mut self, app_id: AppID, usage: AppUsage) -> (r: Result<(), Error>)
        ensures
            (final(self)@, result_view(r)) == old(self)@.register_usage(app_id@, usage@),
    {
        let mut app = match self.get_app(&app_id) {
            Ok(app) => app,
            Err(error) => {
                return Err(error);
            },
        };
        let ghost before = app@;
        let key = app_id.to_vec();
        app.usages.push(usage);
        proof {
            assert(app.usages.deep_view() =~= before.usages.push(usage@));
        }
        record_insert(&mut self.apps, &key, encode_app(&app));
        proof {
            let after = old(self)@.register_usage(app_id@, usage@).0;
            assert(final(self)@.apps =~= after.apps);
        }
        Ok(())
    }

    /// The exchange rate to use at the nanosecond `now` without asking for
    /// one.
    pub fn cached_exchange_rate(&self, now: u64) -> (rate: Option<u64>)
        ensures
            rate == self@.cached_exchange_rate(now),
    {
        match self.icp_cycles_exchange_rate {
            Some((rate, expires_at)) => if now as u128 <= expires_at {
                Some(rate)
            } else {
                None
            },
            None => None,
        }
    }

    /// Keeps the rate `rate`, fetched at the nanosecond `now`, for the time
    /// that the settings give.
    pub fn record_exchange_rate(&mut self, rate: u64, now: u64)
        requires
            old(self)@.settings is Some,
        ensures
            final(self)@ == old(self)@.record_exchange_rate(rate, now),
    {
        let timeout: u128 = self.settings().exchange_rate_timeout_seconds as u128;
        assert(timeout * 1_000_000_000 <= u64::MAX * 1_000_000_000) by (nonlinear_arith)
            requires
                timeout <= u64::MAX,
        ;
        let expires_at: u128 = now as u128 + timeout * 1_000_000_000;
        self.icp_cycles_exchange_rate = Some((rate, expires_at));
    }
}

/// Whether `id` is among `ids`.
pub fn contains_id(ids: &Vec<AppID>, id: &AppID) -> (found: bool)
    ensures
        found == ids.deep_view().contains(id@),
{
    let mut i: usize = 0;
    while i < ids.len()
        invariant
            i <= ids.len(),
            forall|j: int| 0 <= j < i ==> ids.deep_view()[j] != id@,
        decreases ids.len() - i,
    {
        if ids[i].same(id) {
            assert(ids.deep_view()[i as int] == id@);
            return true;
        }
        i += 1;
    }
    false
}

/// The identities of `ids` other than `id`, in their order.
pub fn without_id(ids: &Vec<AppID>, id: &AppID) -> (kept: Vec<AppID>)
    ensures
        kept.deep_view() == ids.deep_view().filter(|other: Seq<u8>| other != id@),
{
    let ghost differs = |other: Seq<u8>| other != id@;
    let mut kept: Vec<AppID> = Vec::new();
    let mut i: usize = 0;
    proof {
        assert(ids.deep_view().take(0) =~= Seq::<Seq<u8>>::empty());
        assert(kept.deep_view() =~= Seq::<Seq<u8>>::empty());
        reveal(Seq::filter);
    }
    while i < ids.len()
        invariant
            i <= ids.len(),
            differs == |other: Seq<u8>| other != id@,
            kept.deep_view() == ids.deep_view().take(i as int).filter(differs),
        decreases ids.len() - i,
    {
        let ghost before = kept.deep_view();
        proof {
            reveal(Seq::filter);
            assert(ids.deep_view().take(i + 1).drop_last() =~= ids.deep_view().take(i as int));
            assert(ids.deep_view().take(i + 1).last() == ids@[i as int]@);
        }
        if !ids[i].same(id) {
            kept.push(ids[i]);
            proof {
                assert(kept.deep_view() =~= before.push(ids@[i as int]@));
            }
        }
        i += 1;
    }
    proof {
        assert(ids.deep_view().take(i as int) =~= ids.deep_view());
    }
    kept
}

impl StateView {
    /// Whether every app that can be read names a registered developer as
    /// its owner.
    pub open spec fn apps_have_developers(self) -> bool {
        forall|id: Seq<u8>|
            #![trigger self.apps[id]]
            self.apps.contains_key(id) && self.apps[id] is Some ==> self.developers.contains_key(
                self.apps[id]->0.developer_id,
            )
    }

    /// Whether every developer of `self` is still registered in `later`.
    pub open spec fn developers_stay(self, later: StateView) -> bool {
        self.developers.dom().subset_of(later.developers.dom())
    }

    /// No operation of the ledger unregisters a developer, and each keeps
    /// every readable app with a registered owner.
    pub proof fn lemma_operations_keep_developers(
        self,
        developer_id: Seq<u8>,
        developer: DeveloperView,
        app_id: Seq<u8>,
        app: AppView,
        usage: AppUsageView,
    )
        ensures
            self.developers_stay(self.register_developer(developer_id, developer).0),
            self.developers_stay(self.register_app(app_id, app).0),
            self.developers_stay(self.remove_app(developer_id, app_id).0),
            self.developers_stay(self.register_usage(app_id, usage).0),
            self.apps_have_developers() ==> {
                &&& self.register_developer(developer_id, developer).0.apps_have_developers()
                &&& self.register_app(app_id, app).0.apps_have_developers()
                &&& self.remove_app(developer_id, app_id).0.apps_have_developers()
                &&& self.register_usage(app_id, usage).0.apps_have_developers()
            },
    {
        if self.apps_have_developers() {
            let registered = self.register_developer(developer_id, developer).0;
            assert forall|id: Seq<u8>|
                #![trigger registered.apps[id]]
                registered.apps.contains_key(id) && registered.apps[id]
                    is Some implies registered.developers.contains_key(
                registered.apps[id]->0.developer_id,
            ) by {
                assert(self.apps[id] == registered.apps[id]);
            }
            let deployed = self.register_app(app_id, app).0;
            assert forall|id: Seq<u8>|
                #![trigger deployed.apps[id]]
                deployed.apps.contains_key(id) && deployed.apps[id]
                    is Some implies deployed.developers.contains_key(
                deployed.apps[id]->0.developer_id,
            ) by {
                if id != app_id {
                    assert(self.apps[id] == deployed.apps[id]);
                }
            }
            let removed = self.remove_app(developer_id, app_id).0;
            assert forall|id: Seq<u8>|
                #![trigger removed.apps[id]]
                removed.apps.contains_key(id) && removed.apps[id]
                    is Some implies removed.developers.contains_key(
                removed.apps[id]->0.developer_id,
            ) by {
                assert(self.apps[id] == removed.apps[id]);
            }
            let used = self.register_usage(app_id, usage).0;
            assert forall|id: Seq<u8>|
                #![trigger used.apps[id]]
                used.apps.contains_key(id) && used.apps[id] is Some implies used.developers.contains_key(
                used.apps[id]->0.developer_id,
            ) by {
                if id != app_id {
                    assert(self.apps[id] == used.apps[id]);
                } else {
                    assert(self.apps[app_id] is Some);
                }
            }
        }
    }

    /// An identity is registered once: after a registration, another one
    /// under the same identity is refused and changes nothing, and the
    /// account is still the one first registered.
    pub proof fn lemma_second_registration_is_refused(
        self,
        id: Seq<u8>,
        first: DeveloperView,
        second: DeveloperView,
    )
        requires
            self.register_developer(id, first).1 is Ok,
        ensures
            ({
                let registered = self.register_developer(id, first).0;
                &&& registered.register_developer(id, second) == (
                    registered,
                    Err::<(), ErrorView>(ErrorView::DeveloperAccountAlreadyExist),
                )
                &&& registered.get_developer(id) == Ok::<DeveloperView, ErrorView>(first)
            }),
    {
    }

    /// A removed app is gone for its developer: after a removal that
    /// succeeded, the developer is shown no app under that identity.
    pub proof fn lemma_removed_app_is_not_shown(self, developer_id: Seq<u8>, app_id: Seq<u8>)
        requires
            self.remove_app(developer_id, app_id).1 is Ok,
        ensures
            self.remove_app(developer_id, app_id).0.get_app_of_developer(developer_id, app_id)
                == Ok::<Option<AppView>, ErrorView>(None),
    {
        let after = self.remove_app(developer_id, app_id).0;
        if self.apps.contains_key(app_id) {
            broadcast use vstd::seq_lib::group_filter_ensures;

            let kept = after.developers[developer_id]->0.apps;
            assert(!kept.contains(app_id)) by {
                if kept.contains(app_id) {
                    let i = choose|i: int| 0 <= i < kept.len() && kept[i] == app_id;
                    assert(kept[i] != app_id);
                }
            }
        }
    }

    /// A removal that fails changes nothing.
    pub proof fn lemma_failed_removal_changes_nothing(self, developer_id: Seq<u8>, app_id: Seq<u8>)
        requires
            self.remove_app(developer_id, app_id).1 is Err,
        ensures
            self.remove_app(developer_id, app_id).0 == self,
    {
    }

    /// A state without a fetched rate has no rate to use, at any time: the
    /// first lookup asks for one.
    pub proof fn lemma_no_rate_before_the_first_fetch(self, now: u64)
        requires
            self.icp_cycles_exchange_rate is None,
        ensures
            self.cached_exchange_rate(now) is None,
    {
    }

    /// A rate fetched at `fetched_at` is used without asking again up to and
    /// including the last nanosecond of the time that the settings give,
    /// and no longer after it.
    pub proof fn lemma_fetched_rate_is_used_until_it_expires(
        self,
        rate: u64,
        fetched_at: u64,
        now: u64,
    )
        requires
            self.settings is Some,
            fetched_at <= now,
        ensures
            ({
                let expires_at = fetched_at + self.settings->0.exchange_rate_timeout_seconds
                    * 1_000_000_000;
                let fetched = self.record_exchange_rate(rate, fetched_at);
                &&& now <= expires_at ==> fetched.cached_exchange_rate(now) == Some(rate)
                &&& now > expires_at ==> fetched.cached_exchange_rate(now) is None
            }),
    {
        let timeout = self.settings->0.exchange_rate_timeout_seconds;
        assert(0 <= timeout * 1_000_000_000 <= u64::MAX * 1_000_000_000) by (nonlinear_arith)
            requires
                0 <= timeout <= u64::MAX,
        ;
    }

    /// Once the apps among the first `n` of `ids` cannot be read, neither can
    /// the apps among all of them.
    pub proof fn lemma_apps_among_fails(self, ids: Seq<Seq<u8>>, n: int)
        requires
            0 <= n <= ids.len(),
            self.apps_among(ids.take(n)) is Err,
        ensures
            self.apps_among(ids) == self.apps_among(ids.take(n)),
        decreases ids.len() - n,
    {
        if n == ids.len() {
            assert(ids.take(n) =~= ids);
        } else {
            assert(ids.take(n + 1).drop_last() =~= ids.take(n));
            self.lemma_apps_among_fails(ids, n + 1);
        }
    }
}

impl Default for State {
    /// A state over the durable maps as they are found, without settings and
    /// without a fetched exchange rate.
    fn default() -> (state: State)
        ensures
            state@.settings is None,
            state@.icp_cycles_exchange_rate is None,
    {
        let (developers, apps) = open_record_maps();
        State { settings: None, developers, apps, icp_cycles_exchange_rate: None }
    }
}

} // verus!
