use near_fpo::{AccountId, AdminError, FPOContract};

fn alice() -> AccountId {
    "alice.near".parse().unwrap()
}
fn bob() -> AccountId {
    "bob.near".parse().unwrap()
}

#[test]
fn transfer_admin() {
    // alice calls the contract
    let caller = alice();

    // create fpo contract
    let mut fpo_contract = FPOContract::new(alice());

    // verify alice is admin
    assert_eq!(fpo_contract.admin, alice());

    // transfer admin to bob
    assert_eq!(fpo_contract.transfer_admin(&caller, bob()), Ok(()));

    // verify bob is admin
    assert_eq!(fpo_contract.admin, bob());
}

#[test]
fn assert_admin_accepts_the_admin() {
    let fpo_contract = FPOContract::new(alice());
    assert_eq!(fpo_contract.assert_admin(&alice()), Ok(()));
}

#[test]
fn assert_admin_refuses_another_account() {
    let fpo_contract = FPOContract::new(alice());
    let res = fpo_contract.assert_admin(&bob());
    assert_eq!(res, Err(AdminError::NotAdmin { admin: alice(), caller: bob() }));
    assert_eq!(
        res.unwrap_err().message(),
        "Only callable by admin alice.near".to_string()
    );
}

#[test]
fn transfer_admin_by_another_account_changes_nothing() {
    let mut fpo_contract = FPOContract::new(alice());
    let res = fpo_contract.transfer_admin(&bob(), bob());
    assert_eq!(res, Err(AdminError::NotAdmin { admin: alice(), caller: bob() }));
    assert_eq!(fpo_contract.admin, alice());
}

#[test]
fn transfer_admin_and_back_restores_the_admin() {
    let mut fpo_contract = FPOContract::new(alice());
    assert_eq!(fpo_contract.transfer_admin(&alice(), bob()), Ok(()));
    assert_eq!(fpo_contract.transfer_admin(&bob(), alice()), Ok(()));
    assert_eq!(fpo_contract.admin, alice());
}

#[test]
fn former_admin_is_locked_out() {
    let carol: AccountId = "carol.near".parse().unwrap();
    let mut fpo_contract = FPOContract::new(alice());
    assert_eq!(fpo_contract.transfer_admin(&alice(), bob()), Ok(()));
    assert_eq!(
        fpo_contract.transfer_admin(&alice(), carol),
        Err(AdminError::NotAdmin { admin: bob(), caller: alice() })
    );
    assert_eq!(fpo_contract.admin, bob());
    assert!(fpo_contract.assert_admin(&alice()).is_err());
    assert_eq!(fpo_contract.assert_admin(&bob()), Ok(()));
}

#[test]
fn transfer_admin_to_self_keeps_the_admin() {
    let mut fpo_contract = FPOContract::new(alice());
    assert_eq!(fpo_contract.transfer_admin(&alice(), alice()), Ok(()));
    assert_eq!(fpo_contract.admin, alice());
}

#[test]
fn run_of_transfers_ends_with_last_successful_new_admin() {
    let carol: AccountId = "carol.near".parse().unwrap();
    let dave: AccountId = "dave.near".parse().unwrap();
    let mut fpo_contract = FPOContract::new(alice());
    // (caller, new admin, expected success)
    let calls = [
        (bob(), carol.clone(), false),
        (alice(), bob(), true),
        (alice(), dave.clone(), false),
        (bob(), carol.clone(), true),
        (bob(), dave.clone(), false),
    ];
    for (caller, new_admin, succeeds) in calls {
        let admin_before = fpo_contract.admin.clone();
        let res = fpo_contract.transfer_admin(&caller, new_admin.clone());
        assert_eq!(res.is_ok(), succeeds);
        if succeeds {
            assert_eq!(fpo_contract.admin, new_admin);
        } else {
            assert_eq!(fpo_contract.admin, admin_before);
        }
    }
    assert_eq!(fpo_contract.admin, carol);
}

#[test]
fn run_of_failed_transfers_keeps_the_first_admin() {
    let mut fpo_contract = FPOContract::new(alice());
    assert!(fpo_contract.transfer_admin(&bob(), bob()).is_err());
    assert!(fpo_contract.transfer_admin(&bob(), alice()).is_err());
    assert_eq!(fpo_contract.admin, alice());
}
