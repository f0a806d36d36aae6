use safe_wallet::account::{position_in, Account};
use safe_wallet::wallet::{
    DataKey, Invocation, Payment, SafeWallet, WalletError, DAY_IN_SECONDS, TTL_MAX, TTL_MIN,
    WHITELIST_MAX,
};

fn account(tag: &str) -> Account {
    let mut bytes = vec![b'G'; 56];
    for (i, b) in tag.bytes().enumerate() {
        bytes[1 + i] = b;
    }
    Account::new(bytes)
}

fn ok<T>(inv: Invocation<T>) -> T {
    match inv.result {
        Ok(v) => v,
        Err(e) => panic!("call refused: {:?}", e),
    }
}

fn err<T>(inv: Invocation<T>) -> WalletError {
    match inv.result {
        Ok(_) => panic!("call accepted"),
        Err(e) => e,
    }
}

struct Setup {
    wallet: SafeWallet,
    signers: Vec<Account>,
    owner: Account,
    recovery: Account,
    token: Account,
}

fn setup(daily_cap: i128, now: u64) -> Setup {
    let mut wallet = SafeWallet::new();
    let owner = account("owner");
    let recovery = account("recovery");
    let token = account("token");
    // Every party signs, as under `mock_all_auths`; a test adds any other
    // address that should count as having signed.
    let signers = vec![owner.duplicate(), recovery.duplicate()];
    ok(wallet.initialize(owner.duplicate(), daily_cap, recovery.duplicate(), token.duplicate(), now, &signers));
    Setup { wallet, signers, token, owner, recovery }
}

fn transfer(
    w: &mut SafeWallet,
    to: &Account,
    amount: i128,
    now: u64,
    signers: &Vec<Account>,
) -> Invocation<Payment> {
    assert!(!w.transfer_would_overflow(to, amount, now, signers));
    w.transfer(to.duplicate(), amount, now, signers)
}

fn listed(w: &SafeWallet) -> Vec<Account> {
    match &w.whitelist {
        Some(l) => l.iter().map(|a| a.duplicate()).collect(),
        None => Vec::new(),
    }
}

// ---------------------------------------------------------------------------
// Accounts
// ---------------------------------------------------------------------------

#[test]
fn account_identity_is_its_encoding() {
    let a = account("alice");
    let b = account("alice");
    let c = account("bob");
    assert!(a.same_as(&b));
    assert!(!a.same_as(&c));
    assert!(!a.same_as(&Account::new(vec![b'G'; 55])));
    assert_eq!(a.duplicate().as_bytes(), a.as_bytes());
}

#[test]
fn position_in_finds_the_first_occurrence() {
    let list = vec![account("a"), account("b"), account("a")];
    assert_eq!(position_in(&list, &account("a")), Some(0));
    assert_eq!(position_in(&list, &account("b")), Some(1));
    assert_eq!(position_in(&list, &account("c")), None);
}

// ---------------------------------------------------------------------------
// initialize
// ---------------------------------------------------------------------------

#[test]
fn initialize_writes_every_key_but_the_whitelist() {
    let mut w = SafeWallet::new();
    let r = w.initialize(account("owner"), 7, account("recovery"), account("token"), 1_234, &vec![account("owner")]);
    assert_eq!(r.auths, vec![account("owner")]);
    assert_eq!(
        r.writes,
        vec![
            DataKey::Owner,
            DataKey::DailyCap,
            DataKey::RecoveryKey,
            DataKey::TokenAddress,
            DataKey::Frozen,
            DataKey::SpentToday,
            DataKey::LastResetTimestamp,
        ]
    );
    assert!(r.extends_ttl);
    ok(r);
    assert_eq!(w.daily_cap, Some(7));
    assert_eq!(w.spent_today, Some(0));
    assert_eq!(w.last_reset_timestamp, Some(1_234));
    assert_eq!(w.frozen, Some(false));
    assert!(w.whitelist.is_none());
    assert_eq!(w.token_address, Some(account("token")));
}

#[test]
fn test_initialize_zero_daily_cap_stores_and_blocks_transfers() {
    let mut s = setup(0, 0);
    assert_eq!(s.wallet.daily_cap, Some(0));
    let to = account("to");
    ok(s.wallet.add_whitelist(to.duplicate(), &s.signers));
    assert_eq!(err(transfer(&mut s.wallet, &to, 1, 0, &s.signers)), WalletError::DailyCapExceeded);
}

#[test]
fn calls_on_an_uninitialised_wallet_are_refused() {
    let mut w = SafeWallet::new();
    let a = account("a");
    let signers = vec![a.duplicate()];
    let r = w.add_whitelist(a.duplicate(), &signers);
    assert!(r.auths.is_empty());
    assert_eq!(err(r), WalletError::NotInitialised);
    assert_eq!(err(w.remove_whitelist(a.duplicate(), &signers)), WalletError::NotInitialised);
    assert_eq!(err(transfer(&mut w, &a, 10, 0, &signers)), WalletError::NotInitialised);
    assert_eq!(err(w.update_recovery_key(a.duplicate(), &signers)), WalletError::NotInitialised);
    let r = w.freeze(&a, &signers);
    assert_eq!(r.auths, vec![a.duplicate()]);
    assert_eq!(err(r), WalletError::NotInitialised);
    assert_eq!(err(w.unfreeze(&a, &signers)), WalletError::NotInitialised);
    assert!(!w.is_frozen());
}

// ---------------------------------------------------------------------------
// transfer
// ---------------------------------------------------------------------------

#[test]
fn test_transfer_rejects_negative_amount() {
    let mut s = setup(1_000_000, 0);
    let to = account("to");
    ok(s.wallet.add_whitelist(to.duplicate(), &s.signers));
    assert_eq!(err(transfer(&mut s.wallet, &to, -1, 0, &s.signers)), WalletError::ZeroAmount);
}

#[test]
fn test_transfer_exactly_at_daily_cap_succeeds() {
    let mut s = setup(100_000, 0);
    let to = account("to");
    ok(s.wallet.add_whitelist(to.duplicate(), &s.signers));
    let r = transfer(&mut s.wallet, &to, 100_000, 0, &s.signers);
    assert_eq!(r.auths, vec![s.owner.duplicate()]);
    assert_eq!(r.writes, vec![DataKey::SpentToday]);
    assert!(r.extends_ttl);
    let p = ok(r);
    assert_eq!(p.token, s.token);
    assert_eq!(p.to, to);
    assert_eq!(p.amount, 100_000);
    assert_eq!(s.wallet.spent_today, Some(100_000));
}

#[test]
fn test_transfer_one_over_daily_cap_fails() {
    let mut s = setup(100_000, 0);
    let to = account("to");
    ok(s.wallet.add_whitelist(to.duplicate(), &s.signers));
    let r = transfer(&mut s.wallet, &to, 100_001, 0, &s.signers);
    assert!(r.writes.is_empty());
    assert!(!r.extends_ttl);
    assert_eq!(err(r), WalletError::DailyCapExceeded);
    assert_eq!(s.wallet.spent_today, Some(0));
}

#[test]
fn checks_run_in_order_amount_freeze_whitelist_cap() {
    let mut s = setup(10, 0);
    let stranger = account("stranger");
    ok(s.wallet.freeze(&s.recovery, &s.signers));
    // frozen and unlisted and over the cap: the amount is checked first
    assert_eq!(err(transfer(&mut s.wallet, &stranger, 0, 0, &s.signers)), WalletError::ZeroAmount);
    // then the freeze
    assert_eq!(err(transfer(&mut s.wallet, &stranger, 100, 0, &s.signers)), WalletError::WalletFrozen);
    ok(s.wallet.unfreeze(&s.recovery, &s.signers));
    // then the whitelist
    assert_eq!(err(transfer(&mut s.wallet, &stranger, 100, 0, &s.signers)), WalletError::AddressNotWhitelisted);
    ok(s.wallet.add_whitelist(stranger.duplicate(), &s.signers));
    // then the cap
    assert_eq!(err(transfer(&mut s.wallet, &stranger, 100, 0, &s.signers)), WalletError::DailyCapExceeded);
}

#[test]
fn window_restarts_exactly_a_day_later() {
    let start = 1_000;
    let mut s = setup(100, start);
    let to = account("to");
    ok(s.wallet.add_whitelist(to.duplicate(), &s.signers));
    ok(transfer(&mut s.wallet, &to, 100, start, &s.signers));
    // one second short of a day: still the same window
    assert_eq!(
        err(transfer(&mut s.wallet, &to, 1, start + DAY_IN_SECONDS - 1, &s.signers)),
        WalletError::DailyCapExceeded
    );
    // a full day: the window restarts at `now`
    let r = transfer(&mut s.wallet, &to, 30, start + DAY_IN_SECONDS, &s.signers);
    assert_eq!(r.writes, vec![DataKey::LastResetTimestamp, DataKey::SpentToday]);
    ok(r);
    assert_eq!(s.wallet.spent_today, Some(30));
    assert_eq!(s.wallet.last_reset_timestamp, Some(start + DAY_IN_SECONDS));
    ok(transfer(&mut s.wallet, &to, 70, start + DAY_IN_SECONDS + 5, &s.signers));
    assert_eq!(s.wallet.spent_today, Some(100));
    assert_eq!(err(transfer(&mut s.wallet, &to, 1, start + DAY_IN_SECONDS + 6, &s.signers)), WalletError::DailyCapExceeded);
}

#[test]
fn two_transfers_in_one_window_stay_within_the_cap() {
    let mut s = setup(100_000, 0);
    let to = account("to");
    ok(s.wallet.add_whitelist(to.duplicate(), &s.signers));
    ok(transfer(&mut s.wallet, &to, 60_000, 10, &s.signers));
    assert_eq!(err(transfer(&mut s.wallet, &to, 40_001, 20, &s.signers)), WalletError::DailyCapExceeded);
    ok(transfer(&mut s.wallet, &to, 40_000, 20, &s.signers));
    assert_eq!(s.wallet.spent_today, Some(100_000));
}

#[test]
fn missing_token_address_is_not_initialised() {
    let mut s = setup(100, 0);
    let to = account("to");
    ok(s.wallet.add_whitelist(to.duplicate(), &s.signers));
    s.wallet.token_address = None;
    let r = transfer(&mut s.wallet, &to, 10, 0, &s.signers);
    assert_eq!(r.auths, vec![s.owner.duplicate()]);
    assert_eq!(err(r), WalletError::NotInitialised);
    assert_eq!(s.wallet.spent_today, Some(0));
}

#[test]
fn missing_daily_cap_is_not_initialised() {
    let mut s = setup(100, 0);
    let to = account("to");
    ok(s.wallet.add_whitelist(to.duplicate(), &s.signers));
    s.wallet.daily_cap = None;
    assert_eq!(err(transfer(&mut s.wallet, &to, 10, 0, &s.signers)), WalletError::NotInitialised);
}

#[test]
fn totals_beyond_i128_are_over_the_cap() {
    let mut s = setup(i128::MAX, 0);
    let to = account("to");
    ok(s.wallet.add_whitelist(to.duplicate(), &s.signers));
    ok(transfer(&mut s.wallet, &to, 1, 0, &s.signers));
    // 1 + i128::MAX exceeds every cap
    let r = transfer(&mut s.wallet, &to, i128::MAX, 0, &s.signers);
    assert!(r.writes.is_empty());
    assert_eq!(err(r), WalletError::DailyCapExceeded);
    assert_eq!(s.wallet.spent_today, Some(1));
    ok(transfer(&mut s.wallet, &to, i128::MAX - 1, 0, &s.signers));
    assert_eq!(s.wallet.spent_today, Some(i128::MAX));
    // a day later the total starts over
    ok(transfer(&mut s.wallet, &to, i128::MAX, DAY_IN_SECONDS, &s.signers));
}

#[test]
fn window_end_beyond_u64_is_detected() {
    let to = account("to");
    let mut late = setup(10, u64::MAX - 10);
    ok(late.wallet.add_whitelist(to.duplicate(), &late.signers));
    assert!(late.wallet.transfer_would_overflow(&to, 1, u64::MAX, &late.signers));
    // refused before the window arithmetic: no overflow
    assert!(!late.wallet.transfer_would_overflow(&to, 0, u64::MAX, &late.signers));
    assert!(!late.wallet.transfer_would_overflow(&account("other"), 1, u64::MAX, &late.signers));
    let mut early = setup(10, u64::MAX - DAY_IN_SECONDS);
    ok(early.wallet.add_whitelist(to.duplicate(), &early.signers));
    assert!(!early.wallet.transfer_would_overflow(&to, 1, u64::MAX, &early.signers));
}

// ---------------------------------------------------------------------------
// whitelist
// ---------------------------------------------------------------------------

#[test]
fn test_whitelist_full_rejects_51st_address() {
    let mut s = setup(1_000, 0);
    for i in 0..WHITELIST_MAX {
        ok(s.wallet.add_whitelist(account(&format!("addr{}", i)), &s.signers));
    }
    assert_eq!(listed(&s.wallet).len(), WHITELIST_MAX);
    let r = s.wallet.add_whitelist(account("one-too-many"), &s.signers);
    assert!(r.writes.is_empty());
    assert_eq!(err(r), WalletError::WhitelistFull);
    assert_eq!(listed(&s.wallet).len(), 50);
    // a listed address is reported as such even on a full list
    assert_eq!(err(s.wallet.add_whitelist(account("addr3"), &s.signers)), WalletError::AlreadyWhitelisted);
    // after a removal there is room again
    ok(s.wallet.remove_whitelist(account("addr0"), &s.signers));
    ok(s.wallet.add_whitelist(account("one-too-many"), &s.signers));
}

#[test]
fn removal_keeps_the_order_of_the_others() {
    let mut s = setup(1_000, 0);
    for t in ["a", "b", "c", "d"] {
        ok(s.wallet.add_whitelist(account(t), &s.signers));
    }
    let r = s.wallet.remove_whitelist(account("b"), &s.signers);
    assert_eq!(r.writes, vec![DataKey::Whitelist]);
    ok(r);
    assert_eq!(listed(&s.wallet), vec![account("a"), account("c"), account("d")]);
}

#[test]
fn add_then_remove_restores_the_list() {
    let mut s = setup(1_000, 0);
    ok(s.wallet.add_whitelist(account("a"), &s.signers));
    ok(s.wallet.add_whitelist(account("b"), &s.signers));
    ok(s.wallet.add_whitelist(account("c"), &s.signers));
    assert_eq!(listed(&s.wallet), vec![account("a"), account("b"), account("c")]);
    ok(s.wallet.remove_whitelist(account("c"), &s.signers));
    assert_eq!(listed(&s.wallet), vec![account("a"), account("b")]);
}

#[test]
fn whitelisting_requires_the_owner_signature() {
    let mut s = setup(1_000, 0);
    let r = s.wallet.add_whitelist(account("a"), &s.signers);
    assert_eq!(r.auths, vec![s.owner.duplicate()]);
    assert_eq!(r.writes, vec![DataKey::Whitelist]);
    assert!(!r.extends_ttl);
    ok(r);
}

// ---------------------------------------------------------------------------
// freeze / recovery key
// ---------------------------------------------------------------------------

#[test]
fn freeze_changes_only_the_flag() {
    let mut s = setup(1_000, 5);
    ok(s.wallet.add_whitelist(account("a"), &s.signers));
    let r = s.wallet.freeze(&s.recovery, &s.signers);
    assert_eq!(r.auths, vec![s.recovery.duplicate()]);
    assert_eq!(r.writes, vec![DataKey::Frozen]);
    ok(r);
    assert_eq!(s.wallet.frozen, Some(true));
    assert_eq!(s.wallet.owner, Some(s.owner.duplicate()));
    assert_eq!(s.wallet.daily_cap, Some(1_000));
    assert_eq!(s.wallet.spent_today, Some(0));
    assert_eq!(listed(&s.wallet), vec![account("a")]);
    // freezing twice is allowed
    ok(s.wallet.freeze(&s.recovery, &s.signers));
    assert!(s.wallet.is_frozen());
}

#[test]
fn refused_freeze_changes_nothing() {
    let mut s = setup(1_000, 5);
    let r = s.wallet.freeze(&s.owner, &s.signers);
    assert_eq!(r.auths, vec![s.owner.duplicate()]);
    assert!(r.writes.is_empty());
    assert_eq!(err(r), WalletError::Unauthorized);
    assert_eq!(s.wallet.frozen, Some(false));
}

#[test]
fn test_update_recovery_key_owner_as_new_key_fails() {
    let mut s = setup(1_000, 0);
    let r = s.wallet.update_recovery_key(s.owner.duplicate(), &s.signers);
    assert_eq!(r.auths, vec![s.owner.duplicate(), s.recovery.duplicate()]);
    assert_eq!(err(r), WalletError::Unauthorized);
    assert_eq!(s.wallet.recovery_key, Some(s.recovery.duplicate()));
}

#[test]
fn rotation_needs_owner_and_current_recovery_key() {
    let mut s = setup(1_000, 0);
    let new_key = account("new");
    let r = s.wallet.update_recovery_key(new_key.duplicate(), &s.signers);
    assert_eq!(r.auths, vec![s.owner.duplicate(), s.recovery.duplicate()]);
    assert_eq!(r.writes, vec![DataKey::RecoveryKey]);
    ok(r);
    assert_eq!(s.wallet.recovery_key, Some(new_key.duplicate()));
    // the next rotation is signed by the new key
    s.signers = vec![s.owner.duplicate(), new_key.duplicate()];
    let r = s.wallet.update_recovery_key(account("newer"), &s.signers);
    assert_eq!(r.auths, vec![s.owner.duplicate(), new_key.duplicate()]);
    ok(r);
}

#[test]
fn test_freeze_rotate_unfreeze_transfer_cycle() {
    let mut s = setup(1_000_000, 0);
    let to = account("to");
    ok(s.wallet.add_whitelist(to.duplicate(), &s.signers));
    ok(s.wallet.freeze(&s.recovery, &s.signers));
    assert_eq!(err(transfer(&mut s.wallet, &to, 100, 0, &s.signers)), WalletError::WalletFrozen);
    let new_key = account("recovery-v2");
    ok(s.wallet.update_recovery_key(new_key.duplicate(), &s.signers));
    s.signers.push(new_key.duplicate());
    assert_eq!(err(s.wallet.unfreeze(&s.recovery, &s.signers)), WalletError::Unauthorized);
    assert!(s.wallet.is_frozen());
    ok(s.wallet.unfreeze(&new_key, &s.signers));
    let p = ok(transfer(&mut s.wallet, &to, 100, 0, &s.signers));
    assert_eq!(p.amount, 100);
}

#[test]
fn ttl_constants() {
    assert_eq!(TTL_MIN, 518_400);
    assert_eq!(TTL_MAX, 1_036_800);
    assert!(TTL_MIN < TTL_MAX);
}

#[test]
fn configuration_survives_every_call() {
    let mut s = setup(500, 0);
    let to = account("to");
    ok(s.wallet.add_whitelist(to.duplicate(), &s.signers));
    ok(transfer(&mut s.wallet, &to, 100, 1, &s.signers));
    ok(s.wallet.freeze(&s.recovery, &s.signers));
    ok(s.wallet.unfreeze(&s.recovery, &s.signers));
    ok(s.wallet.update_recovery_key(account("other"), &s.signers));
    s.signers.push(account("thief"));
    ok(s.wallet.remove_whitelist(to.duplicate(), &s.signers));
    assert_eq!(
        err(s.wallet.initialize(account("thief"), 1, account("thief"), account("fake"), 2, &s.signers)),
        WalletError::AlreadyInitialized
    );
    assert_eq!(s.wallet.owner, Some(s.owner.duplicate()));
    assert_eq!(s.wallet.daily_cap, Some(500));
    assert_eq!(s.wallet.token_address, Some(s.token.duplicate()));
}

#[test]
fn freeze_then_unfreeze_restores_the_wallet() {
    let mut s = setup(500, 3);
    ok(s.wallet.add_whitelist(account("a"), &s.signers));
    ok(s.wallet.freeze(&s.recovery, &s.signers));
    ok(s.wallet.unfreeze(&s.recovery, &s.signers));
    assert_eq!(s.wallet.frozen, Some(false));
    assert_eq!(s.wallet.recovery_key, Some(s.recovery.duplicate()));
    assert_eq!(s.wallet.spent_today, Some(0));
    assert_eq!(s.wallet.last_reset_timestamp, Some(3));
    assert_eq!(listed(&s.wallet), vec![account("a")]);
}

#[test]
fn many_transfers_in_one_window_sum_to_at_most_the_cap() {
    let mut s = setup(1_000, 0);
    let to = account("to");
    ok(s.wallet.add_whitelist(to.duplicate(), &s.signers));
    let mut sent = 0;
    for (i, amount) in [100, 250, 300, 200, 150].iter().enumerate() {
        ok(transfer(&mut s.wallet, &to, *amount, i as u64, &s.signers));
        sent += amount;
        assert_eq!(s.wallet.spent_today, Some(sent));
    }
    assert_eq!(sent, 1_000);
    assert_eq!(err(transfer(&mut s.wallet, &to, 1, 10, &s.signers)), WalletError::DailyCapExceeded);
}

// ---------------------------------------------------------------------------
// signatures
// ---------------------------------------------------------------------------

#[test]
fn owner_calls_without_the_owner_signature_are_unauthorized() {
    let mut s = setup(1_000, 0);
    let to = account("to");
    ok(s.wallet.add_whitelist(to.duplicate(), &s.signers));
    // only the recovery key signs
    let only_recovery = vec![s.recovery.duplicate()];
    for r in [
        s.wallet.add_whitelist(account("b"), &only_recovery),
        s.wallet.remove_whitelist(to.duplicate(), &only_recovery),
        s.wallet.update_recovery_key(account("k"), &only_recovery),
    ] {
        assert_eq!(r.auths, vec![s.owner.duplicate()]);
        assert!(r.writes.is_empty());
        assert_eq!(err(r), WalletError::Unauthorized);
    }
    let r = transfer(&mut s.wallet, &to, 10, 0, &only_recovery);
    assert_eq!(r.auths, vec![s.owner.duplicate()]);
    assert_eq!(err(r), WalletError::Unauthorized);
    // nobody signs
    assert_eq!(err(transfer(&mut s.wallet, &to, 10, 0, &vec![])), WalletError::Unauthorized);
    // nothing changed
    assert_eq!(listed(&s.wallet), vec![to.duplicate()]);
    assert_eq!(s.wallet.spent_today, Some(0));
    assert_eq!(s.wallet.recovery_key, Some(s.recovery.duplicate()));
}

#[test]
fn unsigned_owner_is_checked_before_the_amount() {
    let mut s = setup(1_000, 0);
    let stranger = account("stranger");
    assert_eq!(err(transfer(&mut s.wallet, &stranger, 0, 0, &vec![stranger.duplicate()])), WalletError::Unauthorized);
}

#[test]
fn initialize_needs_the_owner_signature() {
    let mut w = SafeWallet::new();
    let r = w.initialize(account("owner"), 7, account("recovery"), account("token"), 0, &vec![account("recovery")]);
    assert_eq!(r.auths, vec![account("owner")]);
    assert_eq!(err(r), WalletError::Unauthorized);
    assert!(w.owner.is_none());
}

#[test]
fn freeze_needs_the_caller_signature() {
    let mut s = setup(1_000, 0);
    let r = s.wallet.freeze(&s.recovery, &vec![s.owner.duplicate()]);
    assert_eq!(r.auths, vec![s.recovery.duplicate()]);
    assert_eq!(err(r), WalletError::Unauthorized);
    assert!(!s.wallet.is_frozen());
}

#[test]
fn rotation_needs_the_recovery_key_signature_too() {
    let mut s = setup(1_000, 0);
    let r = s.wallet.update_recovery_key(account("k"), &vec![s.owner.duplicate()]);
    assert_eq!(r.auths, vec![s.owner.duplicate(), s.recovery.duplicate()]);
    assert_eq!(err(r), WalletError::Unauthorized);
    assert_eq!(s.wallet.recovery_key, Some(s.recovery.duplicate()));
}

#[test]
fn recovery_key_alone_cannot_spend() {
    let mut s = setup(1_000, 0);
    let to = account("to");
    ok(s.wallet.add_whitelist(to.duplicate(), &s.signers));
    let r = transfer(&mut s.wallet, &to, 10, 0, &vec![s.recovery.duplicate()]);
    assert_eq!(err(r), WalletError::Unauthorized);
    ok(transfer(&mut s.wallet, &to, 10, 0, &vec![s.owner.duplicate()]));
}
