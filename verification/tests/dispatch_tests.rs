use wledc::dispatch::classify_remove;
use wledc::dispatch::device_url;
use wledc::dispatch::record_matches;
use wledc::dispatch::run_command;
use wledc::dispatch::state_body;
use wledc::dispatch::RemoveAction;
use wledc::Command;
use wledc::Outcome;
use wledc::Record;
use wledc::Store;

// Addresses on the loopback's lowest ports: no device listens there, so a
// request to them fails at once.
const DEAD_A: &str = "127.0.0.1:1";
const DEAD_B: &str = "127.0.0.1:2";

fn fresh_store() -> Store {
    let mut store = Store::in_memory().expect("open in-memory store");
    store.ensure_schema().expect("create schema");
    store
}

fn pairs(store: &mut Store) -> Vec<(String, String)> {
    let mut v: Vec<(String, String)> = store
        .list()
        .expect("list records")
        .into_iter()
        .map(|r| (r.address, r.name))
        .collect();
    v.sort();
    v
}

#[test]
fn classify_remove_resolves_targets() {
    assert!(matches!(
        classify_remove(Some("*".to_string()), None),
        RemoveAction::DropAll
    ));
    assert!(matches!(
        classify_remove(None, Some("*".to_string())),
        RemoveAction::DropAll
    ));
    // the address decides: the wildcard in the ignored name field is a value
    assert!(matches!(
        classify_remove(Some("10.0.0.1".to_string()), Some("*".to_string())),
        RemoveAction::ByAddress(v) if v == "10.0.0.1"
    ));
    assert!(matches!(
        classify_remove(None, Some("desk".to_string())),
        RemoveAction::ByName(v) if v == "desk"
    ));
    assert!(matches!(classify_remove(None, None), RemoveAction::Nothing));
}

#[test]
fn matching_gives_the_address_precedence() {
    let rec = Record::new("10.0.0.1".to_string(), "y".to_string());
    // both given, address differs: no match even though the name agrees
    assert!(!record_matches(
        &rec,
        &Some("10.0.0.2".to_string()),
        &Some("y".to_string())
    ));
    // both given, address agrees: match even though the name differs
    assert!(record_matches(
        &rec,
        &Some("10.0.0.1".to_string()),
        &Some("x".to_string())
    ));
    // name alone decides only when no address was supplied
    assert!(record_matches(&rec, &None, &Some("y".to_string())));
    assert!(!record_matches(&rec, &None, &Some("x".to_string())));
    // no target selects nothing
    assert!(!record_matches(&rec, &None, &None));
}

#[test]
fn device_url_and_body_are_exact() {
    assert_eq!(device_url("10.0.0.5"), "http://10.0.0.5/json");
    assert_eq!(state_body(true), "{\"on\":true}");
    assert_eq!(state_body(false), "{\"on\":false}");
}

#[test]
fn add_then_list_reports_the_record() {
    let mut store = Store::in_memory().expect("open in-memory store");
    let added = run_command(
        &mut store,
        Command::Add {
            address: "10.0.0.1".to_string(),
            name: "desk".to_string(),
        },
    )
    .expect("add command");
    assert!(matches!(added, Outcome::Added));

    let listed = run_command(&mut store, Command::List).expect("list command");
    match listed {
        Outcome::Listed(v) => {
            assert_eq!(v.len(), 1);
            assert_eq!(v[0].address, "10.0.0.1");
            assert_eq!(v[0].name, "desk");
        }
        other => panic!("expected a listing, got {:?}", other),
    }
}

#[test]
fn remove_without_target_is_a_notice() {
    let mut store = fresh_store();
    store
        .insert(&Record::new("10.0.0.1".to_string(), "kept".to_string()))
        .expect("insert");
    let out = run_command(
        &mut store,
        Command::Remove {
            address: None,
            name: None,
        },
    )
    .expect("remove command");
    assert!(matches!(out, Outcome::NoTarget));
    assert_eq!(
        pairs(&mut store),
        vec![("10.0.0.1".to_string(), "kept".to_string())]
    );
}

#[test]
fn remove_counts_exact_matches() {
    let mut store = fresh_store();
    store
        .insert(&Record::new("10.0.0.3".to_string(), "x".to_string()))
        .expect("insert");
    store
        .insert(&Record::new("10.0.0.4".to_string(), "x".to_string()))
        .expect("insert");
    let out = run_command(
        &mut store,
        Command::Remove {
            address: None,
            name: Some("x".to_string()),
        },
    )
    .expect("remove command");
    assert!(matches!(out, Outcome::Removed(2)));
    assert_eq!(pairs(&mut store), Vec::<(String, String)>::new());
}

#[test]
fn wildcard_remove_destroys_the_table() {
    let mut store = fresh_store();
    store
        .insert(&Record::new("10.0.0.3".to_string(), "x".to_string()))
        .expect("insert");
    let out = run_command(
        &mut store,
        Command::Remove {
            address: Some("*".to_string()),
            name: None,
        },
    )
    .expect("remove command");
    assert!(matches!(out, Outcome::RemovedAll));
    // the table itself is gone until the schema is ensured again
    assert!(store.list().is_err());
    // a following command re-ensures the schema and finds an empty registry
    let listed = run_command(&mut store, Command::List).expect("list command");
    match listed {
        Outcome::Listed(v) => assert_eq!(v.len(), 0),
        other => panic!("expected a listing, got {:?}", other),
    }
}

#[test]
fn enable_gives_the_address_precedence() {
    let mut store = fresh_store();
    store
        .insert(&Record::new(DEAD_A.to_string(), "y".to_string()))
        .expect("insert");
    store
        .insert(&Record::new(DEAD_B.to_string(), "x".to_string()))
        .expect("insert");
    let out = run_command(
        &mut store,
        Command::Enable {
            address: Some(DEAD_A.to_string()),
            name: Some("x".to_string()),
        },
    )
    .expect("enable command");
    match out {
        Outcome::Dispatched(attempts) => {
            assert_eq!(attempts.len(), 1);
            assert_eq!(attempts[0].target.address, DEAD_A);
        }
        other => panic!("expected a dispatch, got {:?}", other),
    }
}

#[test]
fn disable_attempts_every_match_despite_failures() {
    let mut store = fresh_store();
    store
        .insert(&Record::new(DEAD_A.to_string(), "x".to_string()))
        .expect("insert");
    store
        .insert(&Record::new(DEAD_B.to_string(), "x".to_string()))
        .expect("insert");
    // both devices are dead, yet the command succeeds and every match is
    // attempted: one failure does not halt the iteration
    let out = run_command(
        &mut store,
        Command::Disable {
            address: None,
            name: Some("x".to_string()),
        },
    )
    .expect("disable command");
    match out {
        Outcome::Dispatched(attempts) => {
            let mut contacted: Vec<String> =
                attempts.iter().map(|a| a.target.address.clone()).collect();
            contacted.sort();
            assert_eq!(contacted, vec![DEAD_A.to_string(), DEAD_B.to_string()]);
            assert!(attempts.iter().all(|a| !a.delivered));
        }
        other => panic!("expected a dispatch, got {:?}", other),
    }
}

#[test]
fn enable_with_no_match_contacts_nothing() {
    let mut store = fresh_store();
    store
        .insert(&Record::new(DEAD_A.to_string(), "y".to_string()))
        .expect("insert");
    let out = run_command(
        &mut store,
        Command::Enable {
            address: None,
            name: Some("absent".to_string()),
        },
    )
    .expect("enable command");
    match out {
        Outcome::Dispatched(attempts) => assert_eq!(attempts.len(), 0),
        other => panic!("expected a dispatch, got {:?}", other),
    }
}
