use hakifi::contract::{execute, instantiate, pools_can_take};
use hakifi::host::{BlockInfo, ContractInfo, Env, MessageInfo, Timestamp};
use hakifi::ledger::{InsuranceEntry, Ledger};
use hakifi::msg::{ExecuteMsg, InstantiateMsg};
use hakifi::state::{InsuranceInfor, InsuranceState, Vault};
use hakifi::ContractError;

fn store_env() -> Env {
    Env {
        block: BlockInfo { time: Timestamp::from_nanos(0) },
        contract: ContractInfo { address: "ledger".to_string() },
    }
}

fn store_caller(who: &str) -> MessageInfo {
    MessageInfo { sender: who.to_string() }
}

fn store_vault(margin_pool: u128, claim_pool: u128) -> Vault {
    Vault {
        contract_addr: "T".to_string(),
        margin_pool,
        claim_pool,
        hakifi_fund: 0,
        third_party_fund: 0,
    }
}

fn store_entry(
    id: &str,
    margin: u128,
    claim_amount: u128,
    state: InsuranceState,
) -> InsuranceEntry {
    InsuranceEntry {
        id: id.to_string(),
        info: InsuranceInfor {
            buyer: "buyer".to_string(),
            margin,
            claim_amount,
            expired_time: 0,
            open_time: 0,
            state,
            valid: true,
        },
    }
}

fn store_set_up() -> Ledger {
    let mut ledger = Ledger::new();
    instantiate(
        &mut ledger,
        store_env(),
        store_caller("admin"),
        InstantiateMsg { token_address: "T".to_string() },
    )
    .unwrap();
    ledger
}

#[test]
fn a_new_ledger_holds_no_record() {
    let ledger = Ledger::new();
    assert_eq!(ledger.load_vault(), Err(ContractError::NotFound));
    assert_eq!(ledger.load_moderators(), Err(ContractError::NotFound));
    assert_eq!(ledger.load_insurance(&"A".to_string()), Err(ContractError::NotFound));
    assert_eq!(ledger.may_load_insurance(&"A".to_string()), None);
    assert!(!ledger.has_insurance(&"A".to_string()));
    assert!(ledger.is_reconciled());
}

#[test]
fn restore_gives_back_what_it_was_given() {
    let ledger = Ledger::restore(
        Some(store_vault(30, 2)),
        Some(vec!["admin".to_string(), "bob".to_string()]),
        vec![
            store_entry("A", 10, 2, InsuranceState::AVAILABLE),
            store_entry("B", 20, 0, InsuranceState::PENDING),
        ],
    )
    .unwrap();
    assert_eq!(ledger.load_vault(), Ok(store_vault(30, 2)));
    assert_eq!(ledger.load_moderators(), Ok(vec!["admin".to_string(), "bob".to_string()]));
    assert_eq!(
        ledger.load_insurance(&"A".to_string()),
        Ok(store_entry("A", 10, 2, InsuranceState::AVAILABLE).info)
    );
    assert_eq!(
        ledger.may_load_insurance(&"B".to_string()),
        Some(store_entry("B", 20, 0, InsuranceState::PENDING).info)
    );
    assert!(ledger.has_insurance(&"B".to_string()));
    assert!(!ledger.has_insurance(&"C".to_string()));
    assert!(ledger.is_reconciled());
}

#[test]
fn restore_refuses_two_policies_under_one_id() {
    let twice = Ledger::restore(
        None,
        None,
        vec![
            store_entry("A", 1, 0, InsuranceState::PENDING),
            store_entry("B", 2, 0, InsuranceState::PENDING),
            store_entry("A", 3, 0, InsuranceState::PENDING),
        ],
    );
    assert!(twice.is_none());
    let adjacent = Ledger::restore(
        None,
        None,
        vec![
            store_entry("A", 1, 0, InsuranceState::PENDING),
            store_entry("A", 1, 0, InsuranceState::PENDING),
        ],
    );
    assert!(adjacent.is_none());
    assert!(Ledger::restore(None, None, vec![]).is_some());
}

#[test]
fn reconciliation_counts_margins_of_all_and_claims_of_available_policies() {
    let entries = || {
        vec![
            store_entry("A", 10, 2, InsuranceState::AVAILABLE),
            store_entry("B", 20, 3, InsuranceState::EXPIRED),
            store_entry("C", 0, 4, InsuranceState::AVAILABLE),
            store_entry("D", 5, 0, InsuranceState::PENDING),
        ]
    };
    assert!(Ledger::restore(Some(store_vault(35, 6)), None, entries()).unwrap().is_reconciled());
    assert!(!Ledger::restore(Some(store_vault(35, 9)), None, entries()).unwrap().is_reconciled());
    assert!(!Ledger::restore(Some(store_vault(34, 6)), None, entries()).unwrap().is_reconciled());
    assert!(!Ledger::restore(None, None, entries()).unwrap().is_reconciled());
    assert!(Ledger::restore(
        None,
        None,
        vec![store_entry("B", 0, 3, InsuranceState::EXPIRED)]
    )
    .unwrap()
    .is_reconciled());
}

#[test]
fn reconciliation_of_sums_beyond_128_bits_fails() {
    let ledger = Ledger::restore(
        Some(store_vault(u128::MAX, 0)),
        None,
        vec![
            store_entry("A", u128::MAX, 0, InsuranceState::PENDING),
            store_entry("B", 1, 0, InsuranceState::PENDING),
        ],
    )
    .unwrap();
    assert!(!ledger.is_reconciled());
    let ledger = Ledger::restore(
        Some(store_vault(u128::MAX, 0)),
        None,
        vec![
            store_entry("A", u128::MAX - 1, 0, InsuranceState::PENDING),
            store_entry("B", 1, 0, InsuranceState::PENDING),
        ],
    )
    .unwrap();
    assert!(ledger.is_reconciled());
}

#[test]
fn the_pools_stay_reconciled_through_a_lifecycle_that_settles_claims_first() {
    let mut ledger = store_set_up();
    let steps = vec![
        ("buyer", ExecuteMsg::CreateInsurance { id_insurance: "A".to_string(), margin: 1000 }),
        ("buyer", ExecuteMsg::CreateInsurance { id_insurance: "B".to_string(), margin: 500 }),
        (
            "admin",
            ExecuteMsg::UpdateAvailableInsurance {
                id_insurance: "A".to_string(),
                claim_amount: 200,
                expired_time: 9,
            },
        ),
        ("admin", ExecuteMsg::CancelInsurance { id_insurance: "B".to_string() }),
        ("admin", ExecuteMsg::ClaimInsurance { id_insurance: "A".to_string() }),
        ("admin", ExecuteMsg::ExpireInsurance { id_insurance: "A".to_string() }),
        ("admin", ExecuteMsg::RefundInsurance { id_insurance: "A".to_string() }),
        ("admin", ExecuteMsg::LiquidateInsurance { id_insurance: "B".to_string() }),
    ];
    for (who, msg) in steps {
        execute(&mut ledger, store_env(), store_caller(who), msg).unwrap();
        assert!(ledger.is_reconciled());
    }
    assert_eq!(ledger.load_vault().unwrap(), store_vault(0, 0));
}

#[test]
fn closing_an_available_policy_leaves_its_claim_in_the_pool() {
    let mut ledger = store_set_up();
    execute(
        &mut ledger,
        store_env(),
        store_caller("buyer"),
        ExecuteMsg::CreateInsurance { id_insurance: "A".to_string(), margin: 1000 },
    )
    .unwrap();
    execute(
        &mut ledger,
        store_env(),
        store_caller("admin"),
        ExecuteMsg::UpdateAvailableInsurance {
            id_insurance: "A".to_string(),
            claim_amount: 200,
            expired_time: 9,
        },
    )
    .unwrap();
    assert!(ledger.is_reconciled());
    execute(
        &mut ledger,
        store_env(),
        store_caller("admin"),
        ExecuteMsg::ExpireInsurance { id_insurance: "A".to_string() },
    )
    .unwrap();
    assert_eq!(ledger.load_vault().unwrap(), store_vault(1000, 200));
    assert!(!ledger.is_reconciled());
}

#[test]
fn granting_a_claim_twice_counts_it_twice() {
    let mut ledger = store_set_up();
    execute(
        &mut ledger,
        store_env(),
        store_caller("buyer"),
        ExecuteMsg::CreateInsurance { id_insurance: "A".to_string(), margin: 1 },
    )
    .unwrap();
    for _ in 0..2 {
        execute(
            &mut ledger,
            store_env(),
            store_caller("admin"),
            ExecuteMsg::UpdateAvailableInsurance {
                id_insurance: "A".to_string(),
                claim_amount: 200,
                expired_time: 9,
            },
        )
        .unwrap();
    }
    assert_eq!(ledger.load_vault().unwrap(), store_vault(1, 400));
    assert_eq!(ledger.load_insurance(&"A".to_string()).unwrap().claim_amount, 200);
    assert!(!ledger.is_reconciled());
}

#[test]
fn pools_can_take_tells_when_a_pool_would_overflow() {
    let ledger = Ledger::restore(
        Some(store_vault(u128::MAX - 5, u128::MAX - 7)),
        Some(vec!["admin".to_string()]),
        vec![store_entry("A", 0, 0, InsuranceState::PENDING)],
    )
    .unwrap();
    let create = |id: &str, margin: u128| ExecuteMsg::CreateInsurance {
        id_insurance: id.to_string(),
        margin,
    };
    let grant = |id: &str, claim_amount: u128| ExecuteMsg::UpdateAvailableInsurance {
        id_insurance: id.to_string(),
        claim_amount,
        expired_time: 0,
    };
    assert!(pools_can_take(&ledger, &store_caller("buyer"), &create("B", 5)));
    assert!(!pools_can_take(&ledger, &store_caller("buyer"), &create("B", 6)));
    assert!(pools_can_take(&ledger, &store_caller("buyer"), &create("A", 6)));
    assert!(pools_can_take(&ledger, &store_caller("admin"), &grant("A", 7)));
    assert!(!pools_can_take(&ledger, &store_caller("admin"), &grant("A", 8)));
    assert!(pools_can_take(&ledger, &store_caller("eve"), &grant("A", 8)));
    assert!(pools_can_take(&ledger, &store_caller("admin"), &grant("B", 8)));
    assert!(pools_can_take(
        &ledger,
        &store_caller("admin"),
        &ExecuteMsg::RefundInsurance { id_insurance: "A".to_string() }
    ));
    assert!(pools_can_take(&Ledger::new(), &store_caller("buyer"), &create("B", u128::MAX)));
}

#[test]
fn the_pools_take_amounts_up_to_their_limit() {
    let mut ledger = Ledger::restore(
        Some(store_vault(u128::MAX - 5, u128::MAX - 7)),
        Some(vec!["admin".to_string()]),
        vec![store_entry("A", 0, 0, InsuranceState::PENDING)],
    )
    .unwrap();
    execute(
        &mut ledger,
        store_env(),
        store_caller("buyer"),
        ExecuteMsg::CreateInsurance { id_insurance: "B".to_string(), margin: 5 },
    )
    .unwrap();
    execute(
        &mut ledger,
        store_env(),
        store_caller("admin"),
        ExecuteMsg::UpdateAvailableInsurance {
            id_insurance: "A".to_string(),
            claim_amount: 7,
            expired_time: 0,
        },
    )
    .unwrap();
    assert_eq!(ledger.load_vault().unwrap(), store_vault(u128::MAX, u128::MAX));
}

#[test]
fn a_request_names_the_policy_it_is_about() {
    let id = "A".to_string();
    let about_a_policy = vec![
        ExecuteMsg::CreateInsurance { id_insurance: id.clone(), margin: 1 },
        ExecuteMsg::UpdateAvailableInsurance {
            id_insurance: id.clone(),
            claim_amount: 1,
            expired_time: 1,
        },
        ExecuteMsg::UpdateInvalidInsurance { id_insurance: id.clone() },
        ExecuteMsg::ClaimInsurance { id_insurance: id.clone() },
        ExecuteMsg::RefundInsurance { id_insurance: id.clone() },
        ExecuteMsg::CancelInsurance { id_insurance: id.clone() },
        ExecuteMsg::ExpireInsurance { id_insurance: id.clone() },
        ExecuteMsg::LiquidateInsurance { id_insurance: id.clone() },
    ];
    for msg in about_a_policy {
        assert_eq!(msg.id_insurance(), Some(&id));
    }
    assert_eq!(ExecuteMsg::AddModerator { new_moderator: id.clone() }.id_insurance(), None);
    assert_eq!(
        ExecuteMsg::DeleteModerator { moderator_to_remove: id.clone() }.id_insurance(),
        None
    );
}
