use whitelist_ido::registry::WhitelistIdoContract;

// A hosting execution environment would supply the caller identity per
// invocation; these tests pass it explicitly to each mutating call.
const CALLER: &str = "dragonvu.testnet";

fn new_contract(owner: &str) -> WhitelistIdoContract {
    WhitelistIdoContract::new(owner.to_string(), false).unwrap()
}

#[test]
fn is_owner() {
    let contract = new_contract("dragonvu.testnet");
    assert_eq!(true, contract.is_owner("dragonvu.testnet".to_string()));
}

#[test]
fn is_owner_fake() {
    let contract = new_contract("dragonvu.testnet");
    assert_eq!(false, contract.is_owner("vuongnt.testnet".to_string()));
}

#[test]
fn tranfer_owner() {
    let mut contract = new_contract("dragonvu.testnet");
    assert_eq!(
        true,
        contract
            .tranfer_owner(CALLER.to_string(), "vuongnt.testnet".to_string())
            .unwrap()
    );
}

#[test]
fn tranfer_and_check_old_owner() {
    let mut contract = new_contract("dragonvu.testnet");
    contract
        .tranfer_owner(CALLER.to_string(), "vuongnt.testnet".to_string())
        .unwrap();
    assert_eq!(false, contract.is_owner("dragonvu.testnet".to_string()));
}

#[test]
fn tranfer_and_check_new_owner() {
    let mut contract = new_contract("dragonvu.testnet");
    contract
        .tranfer_owner(CALLER.to_string(), "vuongnt.testnet".to_string())
        .unwrap();
    assert_eq!(true, contract.is_owner("vuongnt.testnet".to_string()));
}

#[test]
fn check_initial_registration_whitelisted() {
    let contract = new_contract("dragonvu.testnet");
    assert_eq!(
        false,
        contract
            .is_registration_whitelisted("vuongnt.testnet".to_string())
            .unwrap()
    );
}

#[test]
fn add_and_check_registration_whitelisted() {
    let mut contract = new_contract("dragonvu.testnet");
    contract
        .add_registration_whitelist(CALLER.to_string(), vec!["vuongnt.testnet".to_string()])
        .unwrap();
    assert_eq!(
        true,
        contract
            .is_registration_whitelisted("vuongnt.testnet".to_string())
            .unwrap()
    );
}

#[test]
fn add_remove_and_check_registration_whitelisted() {
    let mut contract = new_contract("dragonvu.testnet");
    contract
        .add_registration_whitelist(CALLER.to_string(), vec!["vuongnt.testnet".to_string()])
        .unwrap();
    contract
        .remove_registration_whitelist(CALLER.to_string(), vec!["vuongnt.testnet".to_string()])
        .unwrap();
    assert_eq!(
        false,
        contract
            .is_registration_whitelisted("vuongnt.testnet".to_string())
            .unwrap()
    );
}

#[test]
fn check_initial_whitelisted() {
    let contract = new_contract("dragonvu.testnet");
    assert_eq!(
        false,
        contract.is_whitelisted("vuongnt.testnet".to_string()).unwrap()
    );
}

#[test]
fn add_and_check_whitelisted() {
    let mut contract = new_contract("dragonvu.testnet");
    contract
        .add_whitelist(CALLER.to_string(), vec!["vuongnt.testnet".to_string()])
        .unwrap();
    assert_eq!(
        true,
        contract.is_whitelisted("vuongnt.testnet".to_string()).unwrap()
    );
}

#[test]
fn add_remove_and_check_whitelisted() {
    let mut contract = new_contract("dragonvu.testnet");
    contract
        .add_whitelist(CALLER.to_string(), vec!["vuongnt.testnet".to_string()])
        .unwrap();
    contract
        .remove_whitelist(CALLER.to_string(), vec!["vuongnt.testnet".to_string()])
        .unwrap();
    assert_eq!(
        false,
        contract.is_whitelisted("vuongnt.testnet".to_string()).unwrap()
    );
}
