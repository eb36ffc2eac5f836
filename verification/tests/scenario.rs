use hakifi::contract::{execute, instantiate};
use hakifi::host::{BlockInfo, ContractInfo, Env, MessageInfo, Timestamp};
use hakifi::ledger::Ledger;
use hakifi::msg::{ExecuteMsg, InstantiateMsg};
use hakifi::query_feat::query::{get_insurance_info, get_vault_info};
use hakifi::response::{Attribute, Event, Response, WasmMsg};
use hakifi::state::{InsuranceInfor, InsuranceState};
use hakifi::ContractError;

fn scenario_env(seconds: u64) -> Env {
    Env {
        block: BlockInfo { time: Timestamp::from_nanos(seconds * 1_000_000_000 + 17) },
        contract: ContractInfo { address: "ledger".to_string() },
    }
}

fn scenario_caller(who: &str) -> MessageInfo {
    MessageInfo { sender: who.to_string() }
}

fn scenario_ledger() -> Ledger {
    let mut ledger = Ledger::new();
    instantiate(
        &mut ledger,
        scenario_env(1),
        scenario_caller("admin"),
        InstantiateMsg { token_address: "T".to_string() },
    )
    .unwrap();
    ledger
}

fn scenario_attribute(key: &str, value: &str) -> Attribute {
    Attribute { key: key.to_string(), value: value.to_string() }
}

#[test]
fn end_to_end_create_available_claim_refund() {
    let mut ledger = scenario_ledger();
    let vault = get_vault_info(&ledger).unwrap();
    assert_eq!(vault.contract_addr, "T");
    assert_eq!(vault.margin_pool, 0);
    assert_eq!(vault.claim_pool, 0);

    execute(
        &mut ledger,
        scenario_env(100),
        scenario_caller("buyer"),
        ExecuteMsg::CreateInsurance { id_insurance: "A".to_string(), margin: 1000 },
    )
    .unwrap();
    assert_eq!(get_vault_info(&ledger).unwrap().margin_pool, 1000);
    assert!(ledger.is_reconciled());

    execute(
        &mut ledger,
        scenario_env(101),
        scenario_caller("admin"),
        ExecuteMsg::UpdateAvailableInsurance {
            id_insurance: "A".to_string(),
            claim_amount: 200,
            expired_time: 99999,
        },
    )
    .unwrap();
    let vault = get_vault_info(&ledger).unwrap();
    assert_eq!(vault.claim_pool, 200);
    assert_eq!(vault.margin_pool, 1000);
    let policy = get_insurance_info(&ledger, "A".to_string()).unwrap();
    assert_eq!(policy.state, InsuranceState::AVAILABLE);
    assert_eq!(policy.claim_amount, 200);
    assert_eq!(policy.expired_time, 99999);
    assert!(ledger.is_reconciled());

    let claimed = execute(
        &mut ledger,
        scenario_env(102),
        scenario_caller("admin"),
        ExecuteMsg::ClaimInsurance { id_insurance: "A".to_string() },
    )
    .unwrap();
    let vault = get_vault_info(&ledger).unwrap();
    assert_eq!(vault.claim_pool, 0);
    assert_eq!(vault.margin_pool, 1000);
    let policy = get_insurance_info(&ledger, "A".to_string()).unwrap();
    assert_eq!(policy.state, InsuranceState::CLAIMED);
    assert_eq!(policy.claim_amount, 0);
    assert_eq!(policy.margin, 1000);
    assert_eq!(
        claimed.messages,
        vec![WasmMsg::Execute {
            contract_addr: "T".to_string(),
            msg: br#"{"transfer":{"recipient":"buyer","amount":"200"}}"#.to_vec(),
        }]
    );
    assert!(ledger.is_reconciled());

    let refunded = execute(
        &mut ledger,
        scenario_env(103),
        scenario_caller("admin"),
        ExecuteMsg::RefundInsurance { id_insurance: "A".to_string() },
    )
    .unwrap();
    let vault = get_vault_info(&ledger).unwrap();
    assert_eq!(vault.margin_pool, 0);
    assert_eq!(vault.claim_pool, 0);
    let policy = get_insurance_info(&ledger, "A".to_string()).unwrap();
    assert_eq!(
        policy,
        InsuranceInfor {
            buyer: "buyer".to_string(),
            margin: 0,
            claim_amount: 0,
            expired_time: 99999,
            open_time: 100,
            state: InsuranceState::REFUNDED,
            valid: true,
        }
    );
    assert_eq!(
        refunded.messages,
        vec![WasmMsg::Execute {
            contract_addr: "T".to_string(),
            msg: br#"{"transfer":{"recipient":"buyer","amount":"1000"}}"#.to_vec(),
        }]
    );
    assert!(ledger.is_reconciled());
}

#[test]
fn duplicate_creation_fails_and_pool_counts_once() {
    let mut ledger = scenario_ledger();
    execute(
        &mut ledger,
        scenario_env(5),
        scenario_caller("buyer"),
        ExecuteMsg::CreateInsurance { id_insurance: "X".to_string(), margin: 100 },
    )
    .unwrap();
    let second = execute(
        &mut ledger,
        scenario_env(6),
        scenario_caller("other"),
        ExecuteMsg::CreateInsurance { id_insurance: "X".to_string(), margin: 50 },
    );
    assert_eq!(second, Err(ContractError::AlreadyExistsInsurance));
    assert_eq!(get_vault_info(&ledger).unwrap().margin_pool, 100);
    let policy = get_insurance_info(&ledger, "X".to_string()).unwrap();
    assert_eq!(policy.buyer, "buyer");
    assert_eq!(policy.margin, 100);
    assert_eq!(policy.open_time, 5);
}

#[test]
fn create_gives_pending_policy_record_and_pull_request() {
    let mut ledger = scenario_ledger();
    let response = execute(
        &mut ledger,
        scenario_env(1700000000),
        scenario_caller("buyer"),
        ExecuteMsg::CreateInsurance { id_insurance: "A".to_string(), margin: 1000 },
    )
    .unwrap();
    assert_eq!(
        get_insurance_info(&ledger, "A".to_string()).unwrap(),
        InsuranceInfor {
            buyer: "buyer".to_string(),
            margin: 1000,
            claim_amount: 0,
            expired_time: 0,
            open_time: 1700000000,
            state: InsuranceState::PENDING,
            valid: true,
        }
    );
    assert_eq!(
        response,
        Response {
            messages: vec![WasmMsg::Execute {
                contract_addr: "T".to_string(),
                msg: br#"{"transfer_from":{"owner":"buyer","recipient":"ledger","amount":"1000"}}"#
                    .to_vec(),
            }],
            attributes: vec![],
            events: vec![Event {
                ty: "EInsurance".to_string(),
                attributes: vec![
                    scenario_attribute("id_insurance", "A"),
                    scenario_attribute("buyer", "buyer"),
                    scenario_attribute("margin", "1000"),
                    scenario_attribute("claim_amount", "0"),
                    scenario_attribute("expired_time", "0"),
                    scenario_attribute("open_time", "1700000000"),
                    scenario_attribute("state", "PENDING"),
                    scenario_attribute("event_type", "CREATED"),
                ],
            }],
        }
    );
}

#[test]
fn create_needs_no_moderator_but_a_vault() {
    let mut fresh = Ledger::new();
    let refused = execute(
        &mut fresh,
        scenario_env(5),
        scenario_caller("buyer"),
        ExecuteMsg::CreateInsurance { id_insurance: "A".to_string(), margin: 1 },
    );
    assert_eq!(refused, Err(ContractError::NotFound));
    assert_eq!(get_insurance_info(&fresh, "A".to_string()), Err(ContractError::NotFound));

    let mut ledger = scenario_ledger();
    let served = execute(
        &mut ledger,
        scenario_env(5),
        scenario_caller("nobody in particular"),
        ExecuteMsg::CreateInsurance { id_insurance: "A".to_string(), margin: 0 },
    );
    assert!(served.is_ok());
    assert_eq!(get_insurance_info(&ledger, "A".to_string()).unwrap().margin, 0);
}

#[test]
fn policies_keep_apart() {
    let mut ledger = scenario_ledger();
    for (id, margin) in [("A", 10u128), ("B", 20), ("C", 30)] {
        execute(
            &mut ledger,
            scenario_env(9),
            scenario_caller("buyer"),
            ExecuteMsg::CreateInsurance { id_insurance: id.to_string(), margin },
        )
        .unwrap();
    }
    execute(
        &mut ledger,
        scenario_env(10),
        scenario_caller("admin"),
        ExecuteMsg::CancelInsurance { id_insurance: "B".to_string() },
    )
    .unwrap();
    assert_eq!(get_vault_info(&ledger).unwrap().margin_pool, 40);
    assert_eq!(get_insurance_info(&ledger, "A".to_string()).unwrap().margin, 10);
    assert_eq!(get_insurance_info(&ledger, "B".to_string()).unwrap().margin, 0);
    assert_eq!(
        get_insurance_info(&ledger, "B".to_string()).unwrap().state,
        InsuranceState::CANCELED
    );
    assert_eq!(get_insurance_info(&ledger, "C".to_string()).unwrap().margin, 30);
    assert_eq!(
        get_insurance_info(&ledger, "C".to_string()).unwrap().state,
        InsuranceState::PENDING
    );
    assert!(ledger.is_reconciled());
}
