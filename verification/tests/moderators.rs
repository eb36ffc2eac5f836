use hakifi::contract::{execute, instantiate};
use hakifi::execute_feat::execute::{add_moderator, check_authorization, delete_moderator};
use hakifi::host::{BlockInfo, ContractInfo, Env, MessageInfo, Timestamp};
use hakifi::ledger::Ledger;
use hakifi::msg::{ExecuteMsg, InstantiateMsg};
use hakifi::response::{Attribute, Response};
use hakifi::ContractError;

fn roster_env() -> Env {
    Env {
        block: BlockInfo { time: Timestamp::from_nanos(0) },
        contract: ContractInfo { address: "ledger".to_string() },
    }
}

fn roster_caller(who: &str) -> MessageInfo {
    MessageInfo { sender: who.to_string() }
}

fn roster_ledger() -> Ledger {
    let mut ledger = Ledger::new();
    instantiate(
        &mut ledger,
        roster_env(),
        roster_caller("admin"),
        InstantiateMsg { token_address: "T".to_string() },
    )
    .unwrap();
    ledger
}

fn roster_method(name: &str) -> Response {
    Response {
        messages: vec![],
        attributes: vec![Attribute { key: "method".to_string(), value: name.to_string() }],
        events: vec![],
    }
}

#[test]
fn instantiate_makes_the_caller_the_only_moderator() {
    let mut ledger = Ledger::new();
    let response = instantiate(
        &mut ledger,
        roster_env(),
        roster_caller("admin"),
        InstantiateMsg { token_address: "T".to_string() },
    );
    assert_eq!(response, Ok(roster_method("instantiate")));
    assert_eq!(ledger.load_moderators(), Ok(vec!["admin".to_string()]));
    let vault = ledger.load_vault().unwrap();
    assert_eq!(vault.contract_addr, "T");
    assert_eq!(
        (vault.margin_pool, vault.claim_pool, vault.hakifi_fund, vault.third_party_fund),
        (0, 0, 0, 0)
    );
}

#[test]
fn add_moderator_twice_leaves_the_roster_as_after_the_first_call() {
    let mut ledger = roster_ledger();
    let first = add_moderator(&mut ledger, roster_env(), roster_caller("admin"), "bob".to_string());
    assert_eq!(first, Ok(roster_method("add_moderator")));
    let after_first = ledger.load_moderators().unwrap();
    assert_eq!(after_first, vec!["admin".to_string(), "bob".to_string()]);

    let second =
        add_moderator(&mut ledger, roster_env(), roster_caller("admin"), "bob".to_string());
    assert_eq!(second, Ok(roster_method("add_moderator")));
    assert_eq!(ledger.load_moderators().unwrap(), after_first);
}

#[test]
fn delete_moderator_of_an_absent_id_changes_nothing() {
    let mut ledger = roster_ledger();
    add_moderator(&mut ledger, roster_env(), roster_caller("admin"), "bob".to_string()).unwrap();
    let response =
        delete_moderator(&mut ledger, roster_env(), roster_caller("bob"), "carol".to_string());
    assert_eq!(response, Ok(roster_method("delete_moderator")));
    assert_eq!(ledger.load_moderators().unwrap(), vec!["admin".to_string(), "bob".to_string()]);
}

#[test]
fn delete_moderator_removes_every_occurrence_and_keeps_the_order() {
    let roster: Vec<String> =
        ["admin", "bob", "carol", "bob", "dave"].iter().map(|m| m.to_string()).collect();
    let mut ledger = Ledger::restore(None, Some(roster), vec![]).unwrap();
    delete_moderator(&mut ledger, roster_env(), roster_caller("admin"), "bob".to_string())
        .unwrap();
    assert_eq!(
        ledger.load_moderators().unwrap(),
        vec!["admin".to_string(), "carol".to_string(), "dave".to_string()]
    );
}

#[test]
fn roster_edits_by_a_stranger_are_unauthorized() {
    let mut ledger = roster_ledger();
    let added =
        add_moderator(&mut ledger, roster_env(), roster_caller("eve"), "eve".to_string());
    assert_eq!(added, Err(ContractError::Unauthorized));
    let deleted =
        delete_moderator(&mut ledger, roster_env(), roster_caller("eve"), "admin".to_string());
    assert_eq!(deleted, Err(ContractError::Unauthorized));
    assert_eq!(ledger.load_moderators().unwrap(), vec!["admin".to_string()]);
}

#[test]
fn the_last_moderator_may_remove_itself() {
    let mut ledger = roster_ledger();
    delete_moderator(&mut ledger, roster_env(), roster_caller("admin"), "admin".to_string())
        .unwrap();
    assert_eq!(ledger.load_moderators(), Ok(vec![]));
    let locked_out =
        add_moderator(&mut ledger, roster_env(), roster_caller("admin"), "admin".to_string());
    assert_eq!(locked_out, Err(ContractError::Unauthorized));
}

#[test]
fn roster_edits_before_set_up_find_no_record() {
    let mut ledger = Ledger::new();
    let added =
        add_moderator(&mut ledger, roster_env(), roster_caller("admin"), "bob".to_string());
    assert_eq!(added, Err(ContractError::NotFound));
    let deleted =
        delete_moderator(&mut ledger, roster_env(), roster_caller("admin"), "bob".to_string());
    assert_eq!(deleted, Err(ContractError::NotFound));
    assert_eq!(ledger.load_moderators(), Err(ContractError::NotFound));
}

#[test]
fn roster_edits_through_execute() {
    let mut ledger = roster_ledger();
    execute(
        &mut ledger,
        roster_env(),
        roster_caller("admin"),
        ExecuteMsg::AddModerator { new_moderator: "bob".to_string() },
    )
    .unwrap();
    execute(
        &mut ledger,
        roster_env(),
        roster_caller("bob"),
        ExecuteMsg::DeleteModerator { moderator_to_remove: "admin".to_string() },
    )
    .unwrap();
    assert_eq!(ledger.load_moderators().unwrap(), vec!["bob".to_string()]);
}

#[test]
fn check_authorization_scans_the_roster() {
    let roster = vec!["admin".to_string(), "bob".to_string()];
    assert_eq!(check_authorization(&roster, &"bob".to_string()), Ok(()));
    assert_eq!(check_authorization(&roster, &"admin".to_string()), Ok(()));
    assert_eq!(
        check_authorization(&roster, &"Bob".to_string()),
        Err(ContractError::Unauthorized)
    );
    assert_eq!(check_authorization(&[], &"bob".to_string()), Err(ContractError::Unauthorized));
}
