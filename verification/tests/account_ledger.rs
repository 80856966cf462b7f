use mu_smart_contract::app::deploy_app;
use mu_smart_contract::app::dto::AppDto;
use mu_smart_contract::app::dto::AppState as ShownState;
use mu_smart_contract::app::dto::AppUsage as ShownUsage;
use mu_smart_contract::app::dto::DeployAppRequest;
use mu_smart_contract::app::get_app;
use mu_smart_contract::app::get_apps;
use mu_smart_contract::app::remove_app;
use mu_smart_contract::app::ActiveApp;
use mu_smart_contract::app::App;
use mu_smart_contract::app::AppState;
use mu_smart_contract::app::AppUsage;
use mu_smart_contract::app::UsageKind;
use mu_smart_contract::developer::register_developer;
use mu_smart_contract::developer::Developer;
use mu_smart_contract::error::Error;
use mu_smart_contract::ledger::Subaccount;
use mu_smart_contract::ledger::Timestamp;
use mu_smart_contract::ledger::Tokens;
use mu_smart_contract::memory::contains_id;
use mu_smart_contract::memory::without_id;
use mu_smart_contract::memory::State;
use mu_smart_contract::principal::PrincipalId;
use mu_smart_contract::settings::init_canister;
use mu_smart_contract::settings::InitArgs;
use mu_smart_contract::settings::Settings;

fn id(byte: u8) -> PrincipalId {
    PrincipalId::try_from_slice(&[byte; 10]).unwrap()
}

fn state(max_apps: usize) -> State {
    let mut state = State::default();
    init_canister(
        &mut state,
        InitArgs {
            minimum_escrow_balance_for_deploy: Tokens::from_e8s(100),
            max_apps_per_developer: max_apps,
            commition_rate_bits: 0,
            exchange_rate_timeout_seconds: 10,
        },
    );
    state
}

fn active(owner: PrincipalId, name: &str) -> App {
    App {
        developer_id: owner,
        state: AppState::Active(ActiveApp {
            revision: 1,
            name: String::from(name),
            data: vec![1, 2, 3],
        }),
        usages: Vec::new(),
    }
}

fn request(name: &str) -> DeployAppRequest {
    DeployAppRequest { name: String::from(name), app_data: vec![4, 5] }
}

fn usage(cycles: u128) -> AppUsage {
    AppUsage {
        kind: UsageKind::CyclesCharge { cylces: cycles },
        timestamp: Timestamp { timestamp_nanos: 77 },
        amount: Tokens::from_e8s(5),
        is_paid: true,
    }
}

#[test]
fn a_fresh_state_has_no_settings_and_holds_nothing() {
    let state = State::default();
    assert!(!state.is_initialized());
    assert_eq!(state.get_developer(&id(1)), Err(Error::DeveloperAccountNotFound));
    assert_eq!(state.get_app(&id(1)), Err(Error::AppNotFound));
    assert_eq!(state.cached_exchange_rate(0), None);
}

#[test]
fn the_first_settings_stay() {
    let mut state = state(2);
    let first = *state.settings();
    state.init_settings(Settings {
        minimum_escrow_balance_for_deploy: Tokens::from_e8s(1),
        max_apps_per_developer: 9,
        commition_rate_bits: 9,
        exchange_rate_timeout_seconds: 9,
    });
    assert_eq!(*state.settings(), first);
    assert_eq!(first.minimum_escrow_balance_for_deploy, Tokens::from_e8s(100));
    assert_eq!(first.max_apps_per_developer, 2);
    assert_eq!(first.exchange_rate_timeout_seconds, 10);
}

#[test]
fn a_registered_developer_is_read_back_as_stored() {
    let mut state = state(2);
    let developer = Developer { escrow_account: Subaccount([3; 32]), apps: vec![id(8), id(9)] };
    assert_eq!(state.register_developer(id(1), developer.clone()), Ok(()));
    assert_eq!(state.get_developer(&id(1)), Ok(developer));
    assert_eq!(state.get_developer(&id(2)), Err(Error::DeveloperAccountNotFound));
}

#[test]
fn a_second_registration_is_refused_and_changes_nothing() {
    let mut state = state(2);
    let first = Developer::new(Subaccount([3; 32]));
    let second = Developer::new(Subaccount([4; 32]));
    assert_eq!(state.register_developer(id(1), first.clone()), Ok(()));
    assert_eq!(
        state.register_developer(id(1), second),
        Err(Error::DeveloperAccountAlreadyExist)
    );
    assert_eq!(state.get_developer(&id(1)), Ok(first));
}

#[test]
fn registering_uses_the_random_bytes_as_escrow_subaccount() {
    let mut state = state(2);
    assert_eq!(register_developer(&mut state, id(1), &[5; 32]), Ok(id(1)));
    assert_eq!(
        state.get_developer(&id(1)),
        Ok(Developer { escrow_account: Subaccount([5; 32]), apps: vec![] })
    );
    assert_eq!(
        Developer::ensure_developer_account_does_not_exist(&state, id(1)),
        Err(Error::DeveloperAccountAlreadyExist)
    );
    assert_eq!(Developer::ensure_developer_account_does_not_exist(&state, id(2)), Ok(id(2)));
    assert_eq!(
        Developer::get_caller_developer_account(&state, id(2)),
        Err(Error::DeveloperAccountNotFound)
    );
}

#[test]
fn registering_an_app_stores_it_and_lists_it() {
    let mut state = state(2);
    register_developer(&mut state, id(1), &[5; 32]).unwrap();
    assert_eq!(state.register_app(id(7), active(id(1), "one")), Ok(()));
    assert_eq!(state.register_app(id(8), active(id(1), "two")), Ok(()));
    assert_eq!(state.get_developer(&id(1)).unwrap().apps, vec![id(7), id(8)]);
    assert_eq!(state.get_app(&id(7)), Ok(active(id(1), "one")));
    assert_eq!(
        state.get_apps_of_developer(&id(1)),
        Ok(vec![(id(7), active(id(1), "one")), (id(8), active(id(1), "two"))])
    );
}

#[test]
fn an_app_needs_a_registered_developer() {
    let mut state = state(2);
    assert_eq!(
        state.register_app(id(7), active(id(1), "one")),
        Err(Error::DeveloperAccountNotFound)
    );
    assert_eq!(state.get_app(&id(7)), Err(Error::AppNotFound));
}

#[test]
fn an_app_is_shown_to_its_developer_only() {
    let mut state = state(2);
    register_developer(&mut state, id(1), &[5; 32]).unwrap();
    register_developer(&mut state, id(2), &[6; 32]).unwrap();
    state.register_app(id(7), active(id(1), "one")).unwrap();
    assert_eq!(state.get_app_of_developer(&id(1), &id(7)), Ok(Some(active(id(1), "one"))));
    assert_eq!(state.get_app_of_developer(&id(2), &id(7)), Ok(None));
    assert_eq!(
        state.get_app_of_developer(&id(3), &id(7)),
        Err(Error::DeveloperAccountNotFound)
    );
    assert_eq!(get_app(&state, id(2), id(7)), Ok(None));
    assert_eq!(get_apps(&state, id(2)), Ok(vec![]));
    assert_eq!(get_apps(&state, id(3)), Err(Error::DeveloperAccountNotFound));
}

#[test]
fn only_the_owner_removes_an_app() {
    let mut state = state(2);
    register_developer(&mut state, id(1), &[5; 32]).unwrap();
    register_developer(&mut state, id(2), &[6; 32]).unwrap();
    state.register_app(id(7), active(id(1), "one")).unwrap();
    assert_eq!(state.remove_app(id(2), id(7)), Err(Error::AppNotFound));
    assert_eq!(state.get_app(&id(7)), Ok(active(id(1), "one")));
    assert_eq!(state.remove_app(id(3), id(7)), Err(Error::DeveloperAccountNotFound));
    assert_eq!(state.remove_app(id(1), id(7)), Ok(()));
    assert_eq!(state.get_app(&id(7)), Err(Error::AppNotFound));
    assert_eq!(state.get_developer(&id(1)).unwrap().apps, vec![]);
    assert_eq!(state.get_app_of_developer(&id(1), &id(7)), Ok(None));
}

#[test]
fn removing_an_absent_app_does_nothing() {
    let mut state = state(2);
    register_developer(&mut state, id(1), &[5; 32]).unwrap();
    state.register_app(id(7), active(id(1), "one")).unwrap();
    assert_eq!(remove_app(&mut state, id(1), id(9)), Ok(()));
    assert_eq!(state.get_developer(&id(1)).unwrap().apps, vec![id(7)]);
    assert_eq!(remove_app(&mut state, id(1), id(7)), Ok(()));
    assert_eq!(remove_app(&mut state, id(1), id(7)), Ok(()));
}

#[test]
fn removal_keeps_the_other_apps_in_their_order() {
    let mut state = state(5);
    register_developer(&mut state, id(1), &[5; 32]).unwrap();
    state.register_app(id(7), active(id(1), "one")).unwrap();
    state.register_app(id(8), active(id(1), "two")).unwrap();
    state.register_app(id(9), active(id(1), "three")).unwrap();
    assert_eq!(state.remove_app(id(1), id(8)), Ok(()));
    assert_eq!(state.get_developer(&id(1)).unwrap().apps, vec![id(7), id(9)]);
    assert_eq!(
        state.get_apps_of_developer(&id(1)),
        Ok(vec![(id(7), active(id(1), "one")), (id(9), active(id(1), "three"))])
    );
}

#[test]
fn usage_records_are_appended() {
    let mut state = state(2);
    register_developer(&mut state, id(1), &[5; 32]).unwrap();
    state.register_app(id(7), active(id(1), "one")).unwrap();
    assert_eq!(state.register_usage(id(7), usage(10)), Ok(()));
    assert_eq!(state.register_usage(id(7), usage(20)), Ok(()));
    assert_eq!(state.get_app(&id(7)).unwrap().usages, vec![usage(10), usage(20)]);
    assert_eq!(state.register_usage(id(8), usage(30)), Err(Error::AppNotFound));
}

#[test]
fn a_deployment_checks_the_developer_the_balance_and_the_quota() {
    let mut state = state(1);
    assert_eq!(
        deploy_app(&mut state, id(1), request("a"), Tokens::from_e8s(100), &[9; 32]),
        Err(Error::DeveloperAccountNotFound)
    );
    register_developer(&mut state, id(1), &[5; 32]).unwrap();
    assert_eq!(
        deploy_app(&mut state, id(1), request("a"), Tokens::from_e8s(99), &[9; 32]),
        Err(Error::InsufficientBalanceForDeploy {
            was: Tokens::from_e8s(99),
            needed: Tokens::from_e8s(100)
        })
    );
    assert_eq!(state.get_developer(&id(1)).unwrap().apps, vec![]);
    let first = PrincipalId::try_from_slice(&[9; 29]).unwrap();
    assert_eq!(
        deploy_app(&mut state, id(1), request("a"), Tokens::from_e8s(100), &[9; 32]),
        Ok(first)
    );
    assert_eq!(
        deploy_app(&mut state, id(1), request("b"), Tokens::from_e8s(100), &[10; 32]),
        Err(Error::MaxAppsCountReached)
    );
    assert_eq!(state.get_developer(&id(1)).unwrap().apps, vec![first]);
    assert_eq!(
        state.get_app(&first),
        Ok(App {
            developer_id: id(1),
            state: AppState::Active(ActiveApp {
                revision: 1,
                name: String::from("a"),
                data: vec![4, 5]
            }),
            usages: vec![],
        })
    );
}

#[test]
fn the_budget_ends_at_the_quota() {
    let developer = Developer { escrow_account: Subaccount([0; 32]), apps: vec![id(1), id(2)] };
    assert_eq!(developer.ensure_developer_has_budget_for_new_app(3), Ok(()));
    assert_eq!(
        developer.ensure_developer_has_budget_for_new_app(2),
        Err(Error::MaxAppsCountReached)
    );
    assert_eq!(
        developer.ensure_developer_has_budget_for_new_app(0),
        Err(Error::MaxAppsCountReached)
    );
}

#[test]
fn the_minimum_balance_itself_is_enough() {
    let developer = Developer::new(Subaccount([0; 32]));
    let minimum = Tokens::from_e8s(1_000_000_000);
    assert_eq!(
        developer.ensure_developer_escorw_has_minimum_balance_for_deploy(minimum, minimum),
        Ok(())
    );
    assert_eq!(
        developer.ensure_developer_escorw_has_minimum_balance_for_deploy(
            Tokens::from_e8s(999_999_999),
            minimum
        ),
        Err(Error::InsufficientBalanceForDeploy {
            was: Tokens::from_e8s(999_999_999),
            needed: minimum
        })
    );
}

#[test]
fn an_app_is_shown_without_payload_and_payment_flags() {
    let app = App {
        developer_id: id(1),
        state: AppState::Active(ActiveApp {
            revision: 3,
            name: String::from("shown"),
            data: vec![1, 2, 3],
        }),
        usages: vec![
            usage(10),
            AppUsage {
                kind: UsageKind::AdditionalServices { details: vec![6, 7] },
                timestamp: Timestamp { timestamp_nanos: 78 },
                amount: Tokens::from_e8s(6),
                is_paid: false,
            },
        ],
    };
    assert_eq!(
        app.as_dto(id(7)),
        AppDto {
            id: id(7),
            state: ShownState::Active { revision: 3, name: String::from("shown") },
            usages: vec![
                ShownUsage {
                    kind: UsageKind::CyclesCharge { cylces: 10 },
                    timestamp: Timestamp { timestamp_nanos: 77 },
                    amount: Tokens::from_e8s(5),
                },
                ShownUsage {
                    kind: UsageKind::AdditionalServices { details: vec![6, 7] },
                    timestamp: Timestamp { timestamp_nanos: 78 },
                    amount: Tokens::from_e8s(6),
                },
            ],
        }
    );
    let deleted = App { developer_id: id(1), state: AppState::Deleted, usages: vec![] };
    assert_eq!(
        deleted.as_dto(id(8)),
        AppDto { id: id(8), state: ShownState::Deleted, usages: vec![] }
    );
}

#[test]
fn identities_are_found_and_struck_from_a_list() {
    let ids = vec![id(1), id(2), id(1), id(3)];
    assert!(contains_id(&ids, &id(2)));
    assert!(!contains_id(&ids, &id(4)));
    assert_eq!(without_id(&ids, &id(1)), vec![id(2), id(3)]);
    assert_eq!(without_id(&ids, &id(4)), ids);
}
