use compliance_token::auth::AuthContext;
use compliance_token::contract::Token;
use compliance_token::errors::Error;
use compliance_token::events::Event;
use compliance_token::storage_types::ComplianceStatus;

fn create_token_and_init(admin: u64) -> Token {
    let mut token = Token::new();
    let r = token.initialize(admin, 7, String::from("Test Token"), String::from("TST"));
    assert!(r.is_ok());
    token
}

#[test]
fn test_timed_freeze_with_reason_and_compliance() {
    let admin: u64 = 1;
    let user_a: u64 = 2;
    let user_b: u64 = 3;
    let mut token = create_token_and_init(admin);
    let admin_auth = AuthContext::for_principal(admin);
    let user_a_auth = AuthContext::for_principal(user_a);

    token.mint(&admin_auth, user_a, 5000).unwrap();

    let freeze_duration: u32 = 10;
    let freeze_reason = String::from("Şüpheli Aktivite İncelemesi");
    let compliance_details = ComplianceStatus::AmlFlagged;

    let ledger_before_freeze: u32 = 0;
    let mut now = ledger_before_freeze;

    token
        .freeze_account(
            &admin_auth,
            user_a,
            freeze_duration,
            freeze_reason.clone(),
            compliance_details,
            now,
        )
        .unwrap();

    assert!(token.is_frozen(user_a, now));
    let stored_freeze_info =
        token.get_account_freeze_details(user_a, now).expect("Dondurma bilgisi bulunmalı.");
    let expected_expiration = ledger_before_freeze + freeze_duration;
    assert_eq!(stored_freeze_info.expiration_ledger, expected_expiration);
    assert_eq!(stored_freeze_info.reason, freeze_reason);
    assert_eq!(stored_freeze_info.compliance_tag, compliance_details);
    assert_eq!(token.get_compliance_tag_for_account(user_a, now), compliance_details);

    let transfer_result = token.transfer(&user_a_auth, user_a, user_b, 100, now);
    assert!(transfer_result.is_err());
    assert_eq!(token.balance(user_a), 5000);

    now += freeze_duration - 1;
    assert!(token.is_frozen(user_a, now));

    now += 1;
    let is_frozen_after_expiry = token.is_frozen(user_a, now);
    assert!(
        !is_frozen_after_expiry,
        "Account should be unfrozen. Current: {}, Stored Expiry: {}",
        now, stored_freeze_info.expiration_ledger
    );
    assert!(token.get_account_freeze_details(user_a, now).is_none());
    assert_eq!(token.get_compliance_tag_for_account(user_a, now), ComplianceStatus::Unflagged);

    token.transfer(&user_a_auth, user_a, user_b, 1000, now).unwrap();
    assert_eq!(token.balance(user_a), 4000);
    assert_eq!(token.balance(user_b), 1000);
}

#[test]
fn test_indefinite_freeze_and_manual_unfreeze() {
    let admin: u64 = 1;
    let user_c: u64 = 2;
    let mut token = create_token_and_init(admin);
    let admin_auth = AuthContext::for_principal(admin);

    token.mint(&admin_auth, user_c, 500).unwrap();

    let reason = String::from("Kalıcı Uyumluluk İhlali");
    token
        .freeze_account(&admin_auth, user_c, 0, reason.clone(), ComplianceStatus::Sanctioned, 0)
        .unwrap();

    assert!(token.is_frozen(user_c, 0));
    let info = token.get_account_freeze_details(user_c, 0).unwrap();
    assert_eq!(info.expiration_ledger, 0);
    assert_eq!(info.reason, reason);
    assert_eq!(info.compliance_tag, ComplianceStatus::Sanctioned);

    let now: u32 = 10000;
    assert!(token.is_frozen(user_c, now));

    token.unfreeze_account(&admin_auth, user_c).unwrap();
    assert!(!token.is_frozen(user_c, now));
    assert!(token.get_account_freeze_details(user_c, now).is_none());
    assert_eq!(token.get_compliance_tag_for_account(user_c, now), ComplianceStatus::Unflagged);
}

#[test]
fn test_approve_on_frozen_account_should_panic() {
    let admin: u64 = 1;
    let user_frozen: u64 = 2;
    let spender: u64 = 3;
    let mut token = create_token_and_init(admin);
    let admin_auth = AuthContext::for_principal(admin);
    let user_auth = AuthContext::for_principal(user_frozen);

    token.mint(&admin_auth, user_frozen, 1000).unwrap();
    token
        .freeze_account(
            &admin_auth,
            user_frozen,
            0,
            String::from("approve_test_freeze"),
            ComplianceStatus::KycPending,
            0,
        )
        .unwrap();

    let current_ledger: u32 = 0;
    let r = token.approve(&user_auth, user_frozen, spender, 100, current_ledger + 100, current_ledger);
    assert_eq!(r, Err(Error::AccountFrozen));
    assert_eq!(token.allowance(user_frozen, spender, current_ledger), 0);
}

#[test]
fn test_transfer_on_frozen_account_should_panic() {
    let admin: u64 = 1;
    let user_frozen: u64 = 2;
    let recipient: u64 = 3;
    let mut token = create_token_and_init(admin);
    let admin_auth = AuthContext::for_principal(admin);
    let user_auth = AuthContext::for_principal(user_frozen);

    token.mint(&admin_auth, user_frozen, 1000).unwrap();
    token
        .freeze_account(
            &admin_auth,
            user_frozen,
            10,
            String::from("transfer_test_freeze"),
            ComplianceStatus::Unflagged,
            0,
        )
        .unwrap();
    let r = token.transfer(&user_auth, user_frozen, recipient, 100, 0);
    assert_eq!(r, Err(Error::AccountFrozen));
    assert_eq!(token.balance(user_frozen), 1000);
    assert_eq!(token.balance(recipient), 0);
}

#[test]
fn test_transfer_from_on_frozen_account_panics() {
    let admin: u64 = 1;
    let owner_frozen: u64 = 2;
    let spender: u64 = 3;
    let recipient: u64 = 4;
    let mut token = create_token_and_init(admin);
    let admin_auth = AuthContext::for_principal(admin);
    let owner_auth = AuthContext::for_principal(owner_frozen);
    let spender_auth = AuthContext::for_principal(spender);

    token.mint(&admin_auth, owner_frozen, 1000).unwrap();
    let current_ledger: u32 = 0;
    token
        .approve(&owner_auth, owner_frozen, spender, 500, current_ledger + 100, current_ledger)
        .unwrap();
    token
        .freeze_account(
            &admin_auth,
            owner_frozen,
            0,
            String::from("donduruldu"),
            ComplianceStatus::Other,
            current_ledger,
        )
        .unwrap();

    let r = token.transfer_from(&spender_auth, spender, owner_frozen, recipient, 100, current_ledger);
    assert_eq!(r, Err(Error::AccountFrozen));
    assert_eq!(token.balance(owner_frozen), 1000);
    assert_eq!(token.allowance(owner_frozen, spender, current_ledger), 500);
}

#[test]
fn test_burn_on_frozen_account_panics() {
    let admin: u64 = 1;
    let user1: u64 = 2;
    let mut token = create_token_and_init(admin);
    let admin_auth = AuthContext::for_principal(admin);
    let user_auth = AuthContext::for_principal(user1);

    token.mint(&admin_auth, user1, 1000).unwrap();
    token
        .freeze_account(
            &admin_auth,
            user1,
            0,
            String::from("donduruldu"),
            ComplianceStatus::Unflagged,
            0,
        )
        .unwrap();
    let r = token.burn(&user_auth, user1, 100, 0);
    assert_eq!(r, Err(Error::AccountFrozen));
    assert_eq!(token.balance(user1), 1000);
}

#[test]
fn test_burn_from_on_frozen_account_panics() {
    let admin: u64 = 1;
    let owner_frozen: u64 = 2;
    let spender: u64 = 3;
    let mut token = create_token_and_init(admin);
    let admin_auth = AuthContext::for_principal(admin);
    let owner_auth = AuthContext::for_principal(owner_frozen);
    let spender_auth = AuthContext::for_principal(spender);

    token.mint(&admin_auth, owner_frozen, 1000).unwrap();
    let current_ledger: u32 = 0;
    token
        .approve(&owner_auth, owner_frozen, spender, 500, current_ledger + 100, current_ledger)
        .unwrap();
    token
        .freeze_account(
            &admin_auth,
            owner_frozen,
            0,
            String::from("donduruldu"),
            ComplianceStatus::Other,
            current_ledger,
        )
        .unwrap();

    let r = token.burn_from(&spender_auth, spender, owner_frozen, 100, current_ledger);
    assert_eq!(r, Err(Error::AccountFrozen));
    assert_eq!(token.balance(owner_frozen), 1000);
    assert_eq!(token.allowance(owner_frozen, spender, current_ledger), 500);
}

#[test]
fn test_non_admin_cannot_freeze_account() {
    let real_admin: u64 = 1;
    let non_admin_user: u64 = 2;
    let account_to_be_frozen: u64 = 3;

    let mut token = Token::new();
    token
        .initialize(real_admin, 7, String::from("AuthTest"), String::from("AUT"))
        .unwrap();

    let non_admin_auth = AuthContext::for_principal(non_admin_user);
    let r = token.freeze_account(
        &non_admin_auth,
        account_to_be_frozen,
        0,
        String::from("Yetkisiz Deneme"),
        ComplianceStatus::Other,
        0,
    );
    assert_eq!(r, Err(Error::Unauthorized));
    assert!(!token.is_frozen(account_to_be_frozen, 0));
}

#[test]
fn test_freeze_duration_overflow_panics() {
    let admin: u64 = 1;
    let user_a: u64 = 2;
    let mut token = create_token_and_init(admin);
    let admin_auth = AuthContext::for_principal(admin);

    let now: u32 = 1;
    assert_eq!(now, 1, "Ledger should be 1 before overflow test");

    let r = token.freeze_account(
        &admin_auth,
        user_a,
        u32::MAX,
        String::from("Taşma Testi"),
        ComplianceStatus::Unflagged,
        now,
    );
    assert_eq!(r, Err(Error::InvalidAction));
    assert!(!token.is_frozen(user_a, now));
}

#[test]
fn test_freeze_boundary_is_exact() {
    let admin: u64 = 1;
    let account: u64 = 2;
    let mut token = create_token_and_init(admin);
    let admin_auth = AuthContext::for_principal(admin);

    let now: u32 = 20;
    token
        .freeze_account(&admin_auth, account, 10, String::from("R"), ComplianceStatus::Unflagged, now)
        .unwrap();

    for t in 20u32..30u32 {
        assert!(token.is_frozen(account, t));
    }
    assert!(!token.is_frozen(account, 30));
    assert!(!token.is_frozen(account, 31));
    assert!(!token.is_frozen(account, u32::MAX));
}

#[test]
fn test_freeze_gating_blocks_operations_but_not_mint() {
    let admin: u64 = 1;
    let frozen: u64 = 2;
    let spender: u64 = 3;
    let other: u64 = 4;
    let mut token = create_token_and_init(admin);
    let admin_auth = AuthContext::for_principal(admin);
    let frozen_auth = AuthContext::for_principal(frozen);
    let spender_auth = AuthContext::for_principal(spender);

    token.mint(&admin_auth, frozen, 1000).unwrap();
    token.approve(&frozen_auth, frozen, spender, 500, 100, 0).unwrap();
    token
        .freeze_account(&admin_auth, frozen, 0, String::from("R"), ComplianceStatus::Sanctioned, 0)
        .unwrap();

    assert_eq!(token.approve(&frozen_auth, frozen, spender, 700, 100, 0), Err(Error::AccountFrozen));
    assert_eq!(token.transfer(&frozen_auth, frozen, other, 10, 0), Err(Error::AccountFrozen));
    assert_eq!(
        token.transfer_from(&spender_auth, spender, frozen, other, 10, 0),
        Err(Error::AccountFrozen)
    );
    assert_eq!(token.burn(&frozen_auth, frozen, 10, 0), Err(Error::AccountFrozen));
    assert_eq!(
        token.burn_from(&spender_auth, spender, frozen, 10, 0),
        Err(Error::AccountFrozen)
    );
    assert_eq!(token.balance(frozen), 1000);
    assert_eq!(token.allowance(frozen, spender, 0), 500);

    // Minting to a frozen account still succeeds: a freeze only restricts the
    // account's own outgoing value movement.
    token.mint(&admin_auth, frozen, 50).unwrap();
    assert_eq!(token.balance(frozen), 1050);
}

#[test]
fn test_unfreeze_on_unfrozen_account_is_noop() {
    let admin: u64 = 1;
    let account: u64 = 2;
    let mut token = create_token_and_init(admin);
    let admin_auth = AuthContext::for_principal(admin);

    let r = token.unfreeze_account(&admin_auth, account).unwrap();
    assert_eq!(r, None);

    token
        .freeze_account(&admin_auth, account, 0, String::from("R"), ComplianceStatus::Other, 0)
        .unwrap();
    let r = token.unfreeze_account(&admin_auth, account).unwrap();
    assert_eq!(r, Some(Event::Unfreeze { admin, account }));
    let r = token.unfreeze_account(&admin_auth, account).unwrap();
    assert_eq!(r, None);
}

#[test]
fn test_refreeze_overwrites_existing_record() {
    let admin: u64 = 1;
    let account: u64 = 2;
    let mut token = create_token_and_init(admin);
    let admin_auth = AuthContext::for_principal(admin);

    token
        .freeze_account(&admin_auth, account, 5, String::from("first"), ComplianceStatus::KycPending, 0)
        .unwrap();
    token
        .freeze_account(&admin_auth, account, 0, String::from("second"), ComplianceStatus::Sanctioned, 0)
        .unwrap();

    let info = token.get_account_freeze_details(account, 0).unwrap();
    assert_eq!(info.expiration_ledger, 0);
    assert_eq!(info.reason, String::from("second"));
    assert_eq!(info.compliance_tag, ComplianceStatus::Sanctioned);
    // The first, timed record would have expired by 5; the overwrite is
    // indefinite, so the account stays frozen.
    assert!(token.is_frozen(account, 100));
}

#[test]
fn test_freeze_event_carries_boundary_and_tag_only_when_meaningful() {
    let admin: u64 = 1;
    let account: u64 = 2;
    let mut token = create_token_and_init(admin);
    let admin_auth = AuthContext::for_principal(admin);

    let ev = token
        .freeze_account(&admin_auth, account, 10, String::from("R"), ComplianceStatus::AmlFlagged, 7)
        .unwrap();
    assert_eq!(
        ev,
        Event::Freeze {
            admin,
            account,
            expiration_ledger: Some(17),
            reason: String::from("R"),
            compliance_tag: Some(ComplianceStatus::AmlFlagged),
        }
    );

    let ev = token
        .freeze_account(&admin_auth, account, 0, String::from("S"), ComplianceStatus::Unflagged, 7)
        .unwrap();
    assert_eq!(
        ev,
        Event::Freeze {
            admin,
            account,
            expiration_ledger: None,
            reason: String::from("S"),
            compliance_tag: None,
        }
    );
}

#[test]
fn test_indefinite_freeze_survives_any_time_advance() {
    let admin: u64 = 1;
    let account: u64 = 2;
    let mut token = create_token_and_init(admin);
    let admin_auth = AuthContext::for_principal(admin);

    token
        .freeze_account(&admin_auth, account, 0, String::from("R"), ComplianceStatus::Other, 0)
        .unwrap();
    assert!(token.is_frozen(account, 0));
    assert!(token.is_frozen(account, 123456));
    assert!(token.is_frozen(account, u32::MAX));

    token.unfreeze_account(&admin_auth, account).unwrap();
    assert!(!token.is_frozen(account, u32::MAX));
}
