use whitelist_ido::registry::{WhitelistError, WhitelistIdoContract};

const OWNER: &str = "dragonvu.testnet";
const OTHER: &str = "vuongnt.testnet";

fn new_contract(owner: &str) -> WhitelistIdoContract {
    WhitelistIdoContract::new(owner.to_string(), false).unwrap()
}

#[test]
fn new_rejected_when_state_exists() {
    let r = WhitelistIdoContract::new(OWNER.to_string(), true);
    assert_eq!(r.unwrap_err(), WhitelistError::AlreadyInitialized);
}

#[test]
fn new_rejects_invalid_owner() {
    let r = WhitelistIdoContract::new("A".to_string(), false);
    assert_eq!(r.unwrap_err(), WhitelistError::InvalidIdentifier);
}

#[test]
fn new_owner_is_exactly_the_given_one() {
    let contract = new_contract(OWNER);
    assert!(contract.is_owner(OWNER.to_string()));
    assert!(!contract.is_owner(OTHER.to_string()));
    assert!(!contract.is_owner("dragonvu.testne".to_string()));
}

#[test]
fn transfer_by_non_owner_is_unauthorized() {
    let mut contract = new_contract(OWNER);
    let r = contract.tranfer_owner(OTHER.to_string(), OTHER.to_string());
    assert_eq!(r.unwrap_err(), WhitelistError::Unauthorized);
    assert!(contract.is_owner(OWNER.to_string()));
    assert!(!contract.is_owner(OTHER.to_string()));
}

#[test]
fn transfer_rejects_invalid_new_owner() {
    let mut contract = new_contract(OWNER);
    let r = contract.tranfer_owner(OWNER.to_string(), "Not Valid".to_string());
    assert_eq!(r.unwrap_err(), WhitelistError::InvalidIdentifier);
    assert!(contract.is_owner(OWNER.to_string()));
}

#[test]
fn transfer_to_self_is_permitted() {
    let mut contract = new_contract(OWNER);
    let r = contract.tranfer_owner(OWNER.to_string(), OWNER.to_string());
    assert_eq!(r, Ok(true));
    assert!(contract.is_owner(OWNER.to_string()));
}

#[test]
fn old_owner_loses_rights_after_transfer() {
    let mut contract = new_contract(OWNER);
    contract
        .tranfer_owner(OWNER.to_string(), OTHER.to_string())
        .unwrap();
    let r = contract.add_whitelist(OWNER.to_string(), vec!["aa.bb".to_string()]);
    assert_eq!(r.unwrap_err(), WhitelistError::Unauthorized);
    let r = contract.add_whitelist(OTHER.to_string(), vec!["aa.bb".to_string()]);
    assert_eq!(r, Ok(vec!["aa.bb".to_string()]));
}

#[test]
fn add_whitelist_twice_is_idempotent() {
    let mut contract = new_contract(OWNER);
    let first = contract
        .add_whitelist(OWNER.to_string(), vec![OTHER.to_string()])
        .unwrap();
    assert_eq!(first, vec![OTHER.to_string()]);
    let members_after_one = contract.get_list_whitelisted();
    let second = contract
        .add_whitelist(OWNER.to_string(), vec![OTHER.to_string()])
        .unwrap();
    assert_eq!(second, Vec::<String>::new());
    assert_eq!(contract.get_list_whitelisted(), members_after_one);
    assert!(contract.is_whitelisted(OTHER.to_string()).unwrap());
}

#[test]
fn remove_absent_is_a_noop() {
    let mut contract = new_contract(OWNER);
    let removed = contract
        .remove_whitelist(OWNER.to_string(), vec![OTHER.to_string()])
        .unwrap();
    assert_eq!(removed, Vec::<String>::new());
    assert_eq!(contract.get_list_whitelisted(), Vec::<String>::new());
    assert!(!contract.is_whitelisted(OTHER.to_string()).unwrap());
}

#[test]
fn whitelists_are_independent() {
    let mut contract = new_contract(OWNER);
    contract
        .add_whitelist(OWNER.to_string(), vec![OTHER.to_string()])
        .unwrap();
    assert!(!contract
        .is_registration_whitelisted(OTHER.to_string())
        .unwrap());
    contract
        .add_registration_whitelist(OWNER.to_string(), vec!["aa.bb".to_string()])
        .unwrap();
    assert!(!contract.is_whitelisted("aa.bb".to_string()).unwrap());
    assert!(contract.is_whitelisted(OTHER.to_string()).unwrap());
    assert!(contract
        .is_registration_whitelisted("aa.bb".to_string())
        .unwrap());
}

#[test]
fn unauthorized_batch_is_rejected_whole() {
    let mut contract = new_contract(OWNER);
    let r = contract.add_whitelist(
        OTHER.to_string(),
        vec!["aa.bb".to_string(), "cc.dd".to_string()],
    );
    assert_eq!(r.unwrap_err(), WhitelistError::Unauthorized);
    assert!(!contract.is_whitelisted("aa.bb".to_string()).unwrap());
    assert!(!contract.is_whitelisted("cc.dd".to_string()).unwrap());
    assert_eq!(contract.get_list_whitelisted(), Vec::<String>::new());
}

#[test]
fn scenario_duplicates_collapsed_and_removed() {
    let mut contract = new_contract("aa");
    let added = contract
        .add_registration_whitelist(
            "aa".to_string(),
            vec!["aa".to_string(), "bb".to_string(), "bb".to_string()],
        )
        .unwrap();
    assert_eq!(added, vec!["aa".to_string(), "bb".to_string()]);
    let mut listed = contract.get_list_registration_whitelist();
    listed.sort();
    assert_eq!(listed, vec!["aa".to_string(), "bb".to_string()]);
    let removed = contract
        .remove_registration_whitelist("aa".to_string(), vec!["aa".to_string()])
        .unwrap();
    assert_eq!(removed, vec!["aa".to_string()]);
    assert!(!contract.is_registration_whitelisted("aa".to_string()).unwrap());
    assert!(contract.is_registration_whitelisted("bb".to_string()).unwrap());
}

#[test]
fn batch_filters_invalid_identifiers_silently() {
    let mut contract = new_contract(OWNER);
    let added = contract
        .add_whitelist(
            OWNER.to_string(),
            vec!["BAD".to_string(), "aa.bb".to_string(), "x".to_string()],
        )
        .unwrap();
    assert_eq!(added, vec!["aa.bb".to_string()]);
    assert_eq!(contract.get_list_whitelisted(), vec!["aa.bb".to_string()]);
}

#[test]
fn empty_batch_changes_nothing() {
    let mut contract = new_contract(OWNER);
    let added = contract.add_whitelist(OWNER.to_string(), Vec::new()).unwrap();
    assert_eq!(added, Vec::<String>::new());
    let removed = contract
        .remove_registration_whitelist(OWNER.to_string(), Vec::new())
        .unwrap();
    assert_eq!(removed, Vec::<String>::new());
}

#[test]
fn duplicate_removal_reported_once() {
    let mut contract = new_contract(OWNER);
    contract
        .add_whitelist(OWNER.to_string(), vec![OTHER.to_string()])
        .unwrap();
    let removed = contract
        .remove_whitelist(
            OWNER.to_string(),
            vec![OTHER.to_string(), OTHER.to_string()],
        )
        .unwrap();
    assert_eq!(removed, vec![OTHER.to_string()]);
    assert!(!contract.is_whitelisted(OTHER.to_string()).unwrap());
}

#[test]
fn queries_reject_invalid_identifiers() {
    let contract = new_contract(OWNER);
    assert_eq!(
        contract.is_whitelisted("Bad Id".to_string()).unwrap_err(),
        WhitelistError::InvalidIdentifier
    );
    assert_eq!(
        contract
            .is_registration_whitelisted("a".to_string())
            .unwrap_err(),
        WhitelistError::InvalidIdentifier
    );
}

#[test]
fn identifier_validity_edges() {
    // Too short, too long, and exactly at the bounds.
    assert!(WhitelistIdoContract::new("a".to_string(), false).is_err());
    assert!(WhitelistIdoContract::new("aa".to_string(), false).is_ok());
    assert!(WhitelistIdoContract::new("a".repeat(64), false).is_ok());
    assert!(WhitelistIdoContract::new("a".repeat(65), false).is_err());
    // Allowed characters, separators in legal positions.
    assert!(WhitelistIdoContract::new("a-b_c.d9".to_string(), false).is_ok());
    assert!(WhitelistIdoContract::new("0x".to_string(), false).is_ok());
    // Separator first or last, or two in a row.
    assert!(WhitelistIdoContract::new("-ab".to_string(), false).is_err());
    assert!(WhitelistIdoContract::new("ab-".to_string(), false).is_err());
    assert!(WhitelistIdoContract::new("a--b".to_string(), false).is_err());
    assert!(WhitelistIdoContract::new("a._b".to_string(), false).is_err());
    assert!(WhitelistIdoContract::new("a..b".to_string(), false).is_err());
    // Forbidden characters.
    assert!(WhitelistIdoContract::new("Ab".to_string(), false).is_err());
    assert!(WhitelistIdoContract::new("a b".to_string(), false).is_err());
    assert!(WhitelistIdoContract::new("a@b".to_string(), false).is_err());
}
