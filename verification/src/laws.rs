//! Properties of the wallet that hold across calls. `s` is always the set of
//! addresses that signed the call.
use vstd::prelude::*;
use crate::wallet::{
    add_whitelist_spec, initialize_spec, refused, remove_whitelist_spec, set_frozen_spec,
    transfer_spec, update_recovery_key_spec, Outcome, WalletError, WalletModel,
};

verus! {

/// A call to the wallet, with its arguments.
pub enum Call {
    Initialize { owner: Seq<u8>, daily_cap: i128, recovery_key: Seq<u8>, token: Seq<u8>, now: u64 },
    AddWhitelist { address: Seq<u8> },
    RemoveWhitelist { address: Seq<u8> },
    Transfer { to: Seq<u8>, amount: i128, now: u64 },
    Freeze { caller: Seq<u8> },
    Unfreeze { caller: Seq<u8> },
    UpdateRecoveryKey { new_key: Seq<u8> },
}

/// What the call `c`, signed by `s`, amounts to on the wallet `m`.
pub open spec fn outcome_of(m: WalletModel, c: Call, s: Seq<Seq<u8>>) -> Outcome {
    match c {
        Call::Initialize { owner, daily_cap, recovery_key, token, now } => initialize_spec(
            m,
            owner,
            daily_cap,
            recovery_key,
            token,
            now,
            s,
        ),
        Call::AddWhitelist { address } => add_whitelist_spec(m, address, s),
        Call::RemoveWhitelist { address } => remove_whitelist_spec(m, address, s),
        Call::Transfer { to, amount, now } => transfer_spec(m, to, amount, now, s),
        Call::Freeze { caller } => set_frozen_spec(m, caller, true, s),
        Call::Unfreeze { caller } => set_frozen_spec(m, caller, false, s),
        Call::UpdateRecoveryKey { new_key } => update_recovery_key_spec(m, new_key, s),
    }
}

/// The wallet after the call `c` signed by `s`: its new state, or `m` when refused.
pub open spec fn after(m: WalletModel, c: Call, s: Seq<Seq<u8>>) -> WalletModel {
    match outcome_of(m, c, s).result {
        Ok(n) => n,
        Err(_) => m,
    }
}

/// The wallet after the calls `calls`, each with its signers, one after another.
pub open spec fn run_calls(m: WalletModel, calls: Seq<(Call, Seq<Seq<u8>>)>) -> WalletModel
    decreases calls.len(),
{
    if calls.len() == 0 {
        m
    } else {
        run_calls(after(m, calls[0].0, calls[0].1), calls.drop_first())
    }
}

/// The amount that the call `c` signed by `s` pays out of `m`: that of an
/// accepted transfer, else zero.
pub open spec fn paid(m: WalletModel, c: Call, s: Seq<Seq<u8>>) -> int {
    match c {
        Call::Transfer { amount, .. } => if outcome_of(m, c, s).result is Ok {
            amount as int
        } else {
            0
        },
        _ => 0,
    }
}

/// Whether the call `c` signed by `s` is an accepted transfer that opens a new
/// spending window.
pub open spec fn opens_window(m: WalletModel, c: Call, s: Seq<Seq<u8>>) -> bool {
    match c {
        Call::Transfer { now, .. } => outcome_of(m, c, s).result is Ok && m.window_elapsed(now),
        _ => false,
    }
}

/// The total that the calls `calls` pay out, run from `m`.
pub open spec fn total_paid(m: WalletModel, calls: Seq<(Call, Seq<Seq<u8>>)>) -> int
    decreases calls.len(),
{
    if calls.len() == 0 {
        0
    } else {
        paid(m, calls[0].0, calls[0].1) + total_paid(
            after(m, calls[0].0, calls[0].1),
            calls.drop_first(),
        )
    }
}

/// Whether all the calls `calls`, run from `m`, stay in one spending window.
pub open spec fn stays_in_window(m: WalletModel, calls: Seq<(Call, Seq<Seq<u8>>)>) -> bool
    decreases calls.len(),
{
    calls.len() == 0 || {
        &&& !opens_window(m, calls[0].0, calls[0].1)
        &&& stays_in_window(after(m, calls[0].0, calls[0].1), calls.drop_first())
    }
}

/// A wallet that was never initialised is well formed and not frozen.
pub proof fn law_fresh_wallet(m: WalletModel)
    requires
        m == WalletModel::empty(),
    ensures
        m.wf(),
        !m.frozen_flag(),
        m.listed().len() == 0,
{
}

/// `add_whitelist` keeps the wallet well formed: no address is listed twice
/// and at most `WHITELIST_MAX` are listed.
pub proof fn law_add_whitelist_keeps_wf(m: WalletModel, address: Seq<u8>, s: Seq<Seq<u8>>)
    requires
        m.wf(),
    ensures
        add_whitelist_spec(m, address, s).result matches Ok(n) ==> n.wf(),
{
    if let Ok(n) = add_whitelist_spec(m, address, s).result {
        let l = m.listed();
        assert(n.listed() == l.push(address));
        assert forall|i: int, j: int|
            0 <= i < n.listed().len() && 0 <= j < n.listed().len() && i != j implies n.listed()[i]
            != n.listed()[j] by {
            if i == l.len() {
                assert(l[j] == n.listed()[j]);
            } else if j == l.len() {
                assert(l[i] == n.listed()[i]);
            }
        }
    }
}

/// `remove_whitelist` keeps the wallet well formed.
pub proof fn law_remove_whitelist_keeps_wf(m: WalletModel, address: Seq<u8>, s: Seq<Seq<u8>>)
    requires
        m.wf(),
    ensures
        remove_whitelist_spec(m, address, s).result matches Ok(n) ==> n.wf(),
{
    if let Ok(n) = remove_whitelist_spec(m, address, s).result {
        let l = m.listed();
        l.index_of_first_ensures(address);
        let k = l.index_of_first(address).unwrap();
        assert(n.listed() == l.remove(k));
        l.remove_ensures(k);
        assert forall|i: int, j: int|
            0 <= i < n.listed().len() && 0 <= j < n.listed().len() && i != j implies n.listed()[i]
            != n.listed()[j] by {
            let ii = if i < k { i } else { i + 1 };
            let jj = if j < k { j } else { j + 1 };
            assert(n.listed()[i] == l[ii]);
            assert(n.listed()[j] == l[jj]);
        }
    }
}

/// Every call keeps the wallet well formed: every key that initialisation
/// writes stays present, the whitelist holds no address twice and at most
/// `WHITELIST_MAX`, and the window's total stays positive and within the cap.
pub proof fn law_call_keeps_wf(m: WalletModel, c: Call, s: Seq<Seq<u8>>)
    requires
        m.wf(),
    ensures
        after(m, c, s).wf(),
{
    match c {
        Call::AddWhitelist { address } => law_add_whitelist_keeps_wf(m, address, s),
        Call::RemoveWhitelist { address } => law_remove_whitelist_keeps_wf(m, address, s),
        _ => {},
    }
}

/// Any sequence of calls keeps the wallet well formed.
pub proof fn law_calls_keep_wf(m: WalletModel, calls: Seq<(Call, Seq<Seq<u8>>)>)
    requires
        m.wf(),
    ensures
        run_calls(m, calls).wf(),
    decreases calls.len(),
{
    if calls.len() > 0 {
        law_call_keeps_wf(m, calls[0].0, calls[0].1);
        law_calls_keep_wf(after(m, calls[0].0, calls[0].1), calls.drop_first());
    }
}

/// The wallet can be initialised only once: after a successful
/// initialisation, every further one is refused with `AlreadyInitialized`,
/// asks for no signature and changes nothing.
pub proof fn law_initialize_only_once(
    m: WalletModel,
    owner: Seq<u8>,
    daily_cap: i128,
    recovery_key: Seq<u8>,
    token: Seq<u8>,
    now: u64,
    s: Seq<Seq<u8>>,
    owner2: Seq<u8>,
    daily_cap2: i128,
    recovery_key2: Seq<u8>,
    token2: Seq<u8>,
    now2: u64,
    s2: Seq<Seq<u8>>,
)
    requires
        initialize_spec(m, owner, daily_cap, recovery_key, token, now, s).result is Ok,
    ensures
        ({
            let n = initialize_spec(m, owner, daily_cap, recovery_key, token, now, s).result->Ok_0;
            initialize_spec(n, owner2, daily_cap2, recovery_key2, token2, now2, s2) == refused(
                seq![],
                WalletError::AlreadyInitialized,
            )
        }),
{
}

/// Calls that need the owner's signature are refused with `Unauthorized` when
/// the owner has not signed, and then change nothing: adding to or removing
/// from the whitelist, transferring, and rotating the recovery key. So is
/// `initialize` when the owner it names has not signed.
pub proof fn law_unsigned_owner_calls_refused(
    m: WalletModel,
    address: Seq<u8>,
    amount: i128,
    now: u64,
    s: Seq<Seq<u8>>,
)
    requires
        m.owner matches Some(o) && !s.contains(o),
    ensures
        add_whitelist_spec(m, address, s) == refused(
            seq![m.owner->Some_0],
            WalletError::Unauthorized,
        ),
        remove_whitelist_spec(m, address, s) == refused(
            seq![m.owner->Some_0],
            WalletError::Unauthorized,
        ),
        transfer_spec(m, address, amount, now, s) == refused(
            seq![m.owner->Some_0],
            WalletError::Unauthorized,
        ),
        update_recovery_key_spec(m, address, s) == refused(
            seq![m.owner->Some_0],
            WalletError::Unauthorized,
        ),
        !s.contains(address) ==> initialize_spec(
            WalletModel::empty(),
            address,
            amount,
            address,
            address,
            now,
            s,
        ) == refused(seq![address], WalletError::Unauthorized),
{
}

/// Only the owner can move funds: a transfer checks the owner's signature and
/// no other, and goes through only when the owner signed. A call signed only
/// by the recovery key, or by anyone but the owner, never pays.
pub proof fn law_only_owner_moves_funds(
    m: WalletModel,
    to: Seq<u8>,
    amount: i128,
    now: u64,
    s: Seq<Seq<u8>>,
)
    ensures
        ({
            let o = transfer_spec(m, to, amount, now, s);
            &&& m.owner is None ==> o.auths == Seq::<Seq<u8>>::empty() && o.result is Err
            &&& m.owner matches Some(owner) ==> o.auths == seq![owner]
            &&& o.result is Ok ==> s.contains(m.owner->Some_0)
        }),
{
}

/// Freezing or unfreezing needs the caller's signature and the caller to be
/// the recovery key; it sets the flag that `is_frozen` reads and changes
/// nothing else: the recovery key's only power over the wallet.
pub proof fn law_set_frozen_changes_only_the_flag(
    m: WalletModel,
    caller: Seq<u8>,
    value: bool,
    s: Seq<Seq<u8>>,
)
    ensures
        !s.contains(caller) ==> set_frozen_spec(m, caller, value, s) == refused(
            seq![caller],
            WalletError::Unauthorized,
        ),
        set_frozen_spec(m, caller, value, s).result is Ok ==> {
            let n = set_frozen_spec(m, caller, value, s).result->Ok_0;
            &&& s.contains(caller)
            &&& m.recovery_key == Some(caller)
            &&& n.frozen_flag() == value
            &&& n == WalletModel { frozen: Some(value), ..m }
        },
{
}

/// Freezing and then unfreezing a wallet whose stored flag reads `false` gives
/// back the wallet it was, key for key.
pub proof fn law_freeze_unfreeze_roundtrip(m: WalletModel, caller: Seq<u8>, s: Seq<Seq<u8>>)
    requires
        m.frozen == Some(false),
        set_frozen_spec(m, caller, true, s).result is Ok,
    ensures
        ({
            let n = set_frozen_spec(m, caller, true, s).result->Ok_0;
            set_frozen_spec(n, caller, false, s).result == Ok::<WalletModel, WalletError>(m)
        }),
{
}

/// A frozen wallet refuses every transfer of a positive amount that its owner
/// signs, with `WalletFrozen`.
pub proof fn law_frozen_wallet_refuses_transfers(
    m: WalletModel,
    to: Seq<u8>,
    amount: i128,
    now: u64,
    s: Seq<Seq<u8>>,
)
    requires
        m.owner matches Some(o) && s.contains(o),
        m.frozen_flag(),
        amount > 0,
    ensures
        transfer_spec(m, to, amount, now, s) == refused(
            seq![m.owner->Some_0],
            WalletError::WalletFrozen,
        ),
{
}

/// Rotating the recovery key checks the signatures of the owner and then of
/// the current recovery key, goes through only when both signed, and never
/// makes the owner the recovery key.
pub proof fn law_rotation_needs_both_keys(m: WalletModel, new_key: Seq<u8>, s: Seq<Seq<u8>>)
    requires
        m.owner is Some,
        m.recovery_key is Some,
    ensures
        s.contains(m.owner->Some_0) ==> update_recovery_key_spec(m, new_key, s).auths == seq![
            m.owner->Some_0,
            m.recovery_key->Some_0,
        ],
        s.contains(m.owner->Some_0) && !s.contains(m.recovery_key->Some_0)
            ==> update_recovery_key_spec(m, new_key, s).result == Err::<WalletModel, WalletError>(
            WalletError::Unauthorized,
        ),
        update_recovery_key_spec(m, new_key, s).result is Ok ==> {
            &&& s.contains(m.owner->Some_0)
            &&& s.contains(m.recovery_key->Some_0)
            &&& new_key != m.owner->Some_0
            &&& update_recovery_key_spec(m, new_key, s).result->Ok_0.recovery_key == Some(new_key)
        },
{
}

/// The recovery key changes only through a rotation that both the owner and
/// the current recovery key signed.
pub proof fn law_recovery_key_changes_only_by_rotation(m: WalletModel, c: Call, s: Seq<Seq<u8>>)
    requires
        m.owner is Some,
        after(m, c, s).recovery_key != m.recovery_key,
    ensures
        c is UpdateRecoveryKey,
        outcome_of(m, c, s).result is Ok,
        s.contains(m.owner->Some_0),
        s.contains(m.recovery_key->Some_0),
{
}

/// After a rotation, the old recovery key can no longer freeze or unfreeze the
/// wallet, and the new one can.
pub proof fn law_rotated_key_takes_over(
    m: WalletModel,
    new_key: Seq<u8>,
    value: bool,
    s: Seq<Seq<u8>>,
    s2: Seq<Seq<u8>>,
)
    requires
        update_recovery_key_spec(m, new_key, s).result is Ok,
        m.recovery_key != Some(new_key),
        s2.contains(new_key),
    ensures
        ({
            let n = update_recovery_key_spec(m, new_key, s).result->Ok_0;
            &&& set_frozen_spec(n, m.recovery_key->Some_0, value, s2).result == Err::<
                WalletModel,
                WalletError,
            >(WalletError::Unauthorized)
            &&& set_frozen_spec(n, new_key, value, s2).result is Ok
        }),
{
}

/// A successful transfer never takes the window's total past the daily cap,
/// and the total grows by exactly the amount sent, or starts over at it when
/// the window has elapsed.
pub proof fn law_transfer_within_cap(
    m: WalletModel,
    to: Seq<u8>,
    amount: i128,
    now: u64,
    s: Seq<Seq<u8>>,
)
    requires
        m.wf(),
        transfer_spec(m, to, amount, now, s).result is Ok,
    ensures
        ({
            let n = transfer_spec(m, to, amount, now, s).result->Ok_0;
            &&& 0 < amount <= n.spent_or_zero() <= m.daily_cap->Some_0
            &&& n.spent_or_zero() == m.spent_before(now) + amount
            &&& m.window_elapsed(now) ==> n.last_reset_timestamp == Some(now)
            &&& !m.window_elapsed(now) ==> n.last_reset_timestamp == m.last_reset_timestamp
        }),
{
}

/// Once a day has passed since the window began, a transfer signed by the
/// owner of up to the full daily cap to a listed address goes through,
/// whatever was spent before.
pub proof fn law_cap_restored_after_a_day(
    m: WalletModel,
    to: Seq<u8>,
    amount: i128,
    now: u64,
    s: Seq<Seq<u8>>,
)
    requires
        m.owner matches Some(o) && s.contains(o),
        m.token_address is Some,
        !m.frozen_flag(),
        m.listed().contains(to),
        m.daily_cap matches Some(cap) && 0 < amount <= cap,
        m.window_elapsed(now),
    ensures
        transfer_spec(m, to, amount, now, s).result is Ok,
{
}

/// Whether the call `c` on `m`, if it succeeds, leaves the owner, the daily
/// cap and the token as they were, and changes the window's total only as a
/// transfer does.
pub open spec fn keeps_configuration(m: WalletModel, c: Call, s: Seq<Seq<u8>>) -> bool {
    let n = after(m, c, s);
    &&& n.owner == m.owner
    &&& n.daily_cap == m.daily_cap
    &&& n.token_address == m.token_address
    &&& !(c is Transfer) ==> n.spent_today == m.spent_today
}

/// Once initialised, the owner, the daily cap and the token never change, and
/// only transfers change the window's total.
pub proof fn law_configuration_is_fixed(m: WalletModel, c: Call, s: Seq<Seq<u8>>)
    requires
        m.owner is Some,
    ensures
        keeps_configuration(m, c, s),
{
}

/// However the calls of a window interleave (whitelist changes, freezes,
/// rotations, refused calls, transfers), the window's running total grows by
/// exactly what the accepted transfers pay, and what was spent before together
/// with that never passes the daily cap; the owner, cap and token stay.
pub proof fn law_window_total_within_cap(m: WalletModel, calls: Seq<(Call, Seq<Seq<u8>>)>)
    requires
        m.wf(),
        m.owner is Some,
        stays_in_window(m, calls),
    ensures
        ({
            let n = run_calls(m, calls);
            &&& n.wf()
            &&& n.owner == m.owner
            &&& n.daily_cap == m.daily_cap
            &&& n.token_address == m.token_address
            &&& n.spent_or_zero() == m.spent_or_zero() + total_paid(m, calls)
            &&& total_paid(m, calls) >= 0
            &&& total_paid(m, calls) > 0 ==> m.spent_or_zero() + total_paid(m, calls)
                <= m.daily_cap->Some_0
        }),
    decreases calls.len(),
{
    if calls.len() > 0 {
        let (c, s) = calls[0];
        let n1 = after(m, c, s);
        law_call_keeps_wf(m, c, s);
        law_configuration_is_fixed(m, c, s);
        if let Call::Transfer { to, amount, now } = c {
            if transfer_spec(m, to, amount, now, s).result is Ok {
                law_transfer_within_cap(m, to, amount, now, s);
            }
        }
        law_window_total_within_cap(n1, calls.drop_first());
    }
}

/// An address added to the whitelist is listed; removing it again gives back
/// the list there was before.
pub proof fn law_add_then_remove(m: WalletModel, address: Seq<u8>, s: Seq<Seq<u8>>)
    requires
        add_whitelist_spec(m, address, s).result is Ok,
    ensures
        ({
            let n = add_whitelist_spec(m, address, s).result->Ok_0;
            &&& n.listed().contains(address)
            &&& remove_whitelist_spec(n, address, s).result matches Ok(k) && k.listed()
                == m.listed()
        }),
{
    let n = add_whitelist_spec(m, address, s).result->Ok_0;
    let l = m.listed();
    let nl = n.listed();
    assert(nl == l.push(address));
    assert(nl[l.len() as int] == address);
    assert(nl.contains(address));
    nl.index_of_first_ensures(address);
    let k = nl.index_of_first(address).unwrap();
    if k < l.len() {
        assert(l[k] == address);
        assert(l.contains(address));
    }
    assert(k == l.len());
    assert(nl.remove(k) =~= l);
}

/// An address removed from a well-formed wallet's whitelist is no longer
/// listed, and the owner's transfers to it are refused with
/// `AddressNotWhitelisted` while the wallet is not frozen.
pub proof fn law_removed_address_refused(
    m: WalletModel,
    address: Seq<u8>,
    amount: i128,
    now: u64,
    s: Seq<Seq<u8>>,
)
    requires
        m.wf(),
        remove_whitelist_spec(m, address, s).result is Ok,
    ensures
        ({
            let n = remove_whitelist_spec(m, address, s).result->Ok_0;
            &&& !n.listed().contains(address)
            &&& (amount > 0 && !n.frozen_flag()) ==> transfer_spec(n, address, amount, now, s)
                == refused(seq![m.owner->Some_0], WalletError::AddressNotWhitelisted)
        }),
{
    let n = remove_whitelist_spec(m, address, s).result->Ok_0;
    let l = m.listed();
    l.index_of_first_ensures(address);
    let k = l.index_of_first(address).unwrap();
    l.remove_ensures(k);
    assert(n.listed() == l.remove(k));
    if n.listed().contains(address) {
        let j = choose|j: int| 0 <= j < n.listed().len() && n.listed()[j] == address;
        let jj = if j < k { j } else { j + 1 };
        assert(l[jj] == address);
        assert(l[k] == address);
        assert(jj != k);
    }
}

/// A call's outcome depends on its signers only through the addresses it
/// checks: signers that agree on each of them give the same outcome. So a
/// host that learns the checked addresses from one run and requires exactly
/// those signatures gets the same answer.
pub proof fn law_outcome_depends_on_checked_signers(
    m: WalletModel,
    c: Call,
    s: Seq<Seq<u8>>,
    s2: Seq<Seq<u8>>,
)
    requires
        forall|i: int|
            0 <= i < outcome_of(m, c, s).auths.len() ==> (s.contains(
                #[trigger] outcome_of(m, c, s).auths[i],
            ) <==> s2.contains(outcome_of(m, c, s).auths[i])),
    ensures
        outcome_of(m, c, s2) == outcome_of(m, c, s),
{
    let a = outcome_of(m, c, s).auths;
    if a.len() > 0 {
        assert(s.contains(a[0]) <==> s2.contains(a[0]));
    }
    if a.len() > 1 {
        assert(s.contains(a[1]) <==> s2.contains(a[1]));
    }
}


/// The whitelist as stored; an absent list is empty.
pub open spec fn stored_list(m: WalletModel) -> Seq<Seq<u8>> {
    match m.whitelist {
        Some(l) => l,
        None => seq![],
    }
}

/// When the owner signed, the wallet is not frozen, the recipient is listed,
/// the token and the cap are set, and the amount is positive and fits in what
/// the cap leaves of the current window (everything, once a day has passed
/// since the window began), the transfer goes through, at any time of the
/// window and to any listed recipient. It pays `amount` out of a window whose
/// total becomes what was spent in it plus `amount`, and changes nothing else
/// but the window's start, which moves to `now` when a new window opens. A
/// transfer goes through on no other inputs.
pub proof fn law_transfer_accepted_exactly_within_policy(
    m: WalletModel,
    to: Seq<u8>,
    amount: i128,
    now: u64,
    s: Seq<Seq<u8>>,
)
    ensures
        ({
            let start: int = match m.last_reset_timestamp {
                Some(t) => t as int,
                None => now as int,
            };
            let new_window = now >= start + 86_400;
            let spent: int = if new_window {
                0
            } else {
                match m.spent_today {
                    Some(x) => x as int,
                    None => 0,
                }
            };
            let allowed = {
                &&& m.owner matches Some(o) && s.contains(o)
                &&& m.frozen != Some(true)
                &&& stored_list(m).contains(to)
                &&& m.token_address is Some
                &&& m.daily_cap matches Some(cap) && 0 < amount && spent + amount <= cap
            };
            &&& (transfer_spec(m, to, amount, now, s).result is Ok <==> allowed)
            &&& allowed ==> transfer_spec(m, to, amount, now, s).result == Ok::<
                WalletModel,
                WalletError,
            >(
                WalletModel {
                    spent_today: Some((spent + amount) as i128),
                    last_reset_timestamp: if new_window {
                        Some(now)
                    } else {
                        m.last_reset_timestamp
                    },
                    ..m
                },
            )
        }),
{
}

/// When the owner signed, the address is not listed and fewer than
/// `WHITELIST_MAX` addresses are, adding it goes through and appends it to the
/// list, changing nothing else; on no other inputs does it go through.
pub proof fn law_add_whitelist_accepted_exactly(m: WalletModel, address: Seq<u8>, s: Seq<Seq<u8>>)
    ensures
        ({
            let l = stored_list(m);
            let allowed = {
                &&& m.owner matches Some(o) && s.contains(o)
                &&& !l.contains(address)
                &&& l.len() < 50
            };
            &&& (add_whitelist_spec(m, address, s).result is Ok <==> allowed)
            &&& allowed ==> add_whitelist_spec(m, address, s).result == Ok::<
                WalletModel,
                WalletError,
            >(WalletModel { whitelist: Some(l.push(address)), ..m })
        }),
{
}

/// When the owner signed and the address is listed, removing it goes through;
/// on no other inputs does it. The new list is the old one without the first
/// occurrence of the address: the entries before it and after it stay, in
/// order, so every other listed address is still listed and the list is one
/// shorter. Nothing else changes.
pub proof fn law_remove_whitelist_removes_exactly_one(
    m: WalletModel,
    address: Seq<u8>,
    s: Seq<Seq<u8>>,
)
    ensures
        ({
            let l = stored_list(m);
            let allowed = m.owner matches Some(o) && s.contains(o) && l.contains(address);
            &&& (remove_whitelist_spec(m, address, s).result is Ok <==> allowed)
            &&& remove_whitelist_spec(m, address, s).result matches Ok(n) ==> {
                &&& n == WalletModel { whitelist: n.whitelist, ..m }
                &&& n.whitelist is Some
                &&& exists|k: int|
                    {
                        &&& 0 <= k < l.len()
                        &&& l[k] == address
                        &&& (forall|j: int| 0 <= j < k ==> l[j] != address)
                        &&& n.whitelist->Some_0 == l.subrange(0, k) + l.subrange(
                            k + 1,
                            l.len() as int,
                        )
                    }
                &&& n.whitelist->Some_0.len() == l.len() - 1
                &&& forall|x: Seq<u8>|
                    x != address ==> (n.whitelist->Some_0.contains(x) <==> l.contains(x))
            }
        }),
{
    let l = stored_list(m);
    if let Ok(n) = remove_whitelist_spec(m, address, s).result {
        l.index_of_first_ensures(address);
        let k = l.index_of_first(address).unwrap();
        let nl = n.whitelist->Some_0;
        assert(nl == l.remove(k));
        assert(nl =~= l.subrange(0, k) + l.subrange(k + 1, l.len() as int));
        l.remove_ensures(k);
        assert forall|x: Seq<u8>| x != address implies (nl.contains(x) <==> l.contains(x)) by {
            if nl.contains(x) {
                let j = choose|j: int| 0 <= j < nl.len() && nl[j] == x;
                let jj = if j < k { j } else { j + 1 };
                assert(l[jj] == x);
            }
            if l.contains(x) {
                let j = choose|j: int| 0 <= j < l.len() && l[j] == x;
                assert(j != k);
                let jj = if j < k { j } else { j - 1 };
                assert(nl[jj] == x);
            }
        }
    }
}

/// When the owner and the current recovery key both signed and the new key is
/// not the owner, the rotation goes through and the new key becomes the
/// recovery key, nothing else changing; on no other inputs does it go through.
pub proof fn law_rotation_accepted_exactly(m: WalletModel, new_key: Seq<u8>, s: Seq<Seq<u8>>)
    ensures
        ({
            let allowed = {
                &&& m.owner matches Some(o) && s.contains(o) && new_key != o
                &&& m.recovery_key matches Some(r) && s.contains(r)
            };
            &&& (update_recovery_key_spec(m, new_key, s).result is Ok <==> allowed)
            &&& allowed ==> update_recovery_key_spec(m, new_key, s).result == Ok::<
                WalletModel,
                WalletError,
            >(WalletModel { recovery_key: Some(new_key), ..m })
        }),
{
}

/// When the caller signed and is the recovery key, freezing (unfreezing) goes
/// through and sets the flag, nothing else changing; on no other inputs does
/// it go through.
pub proof fn law_set_frozen_accepted_exactly(
    m: WalletModel,
    caller: Seq<u8>,
    value: bool,
    s: Seq<Seq<u8>>,
)
    ensures
        ({
            let allowed = s.contains(caller) && m.recovery_key == Some(caller);
            &&& (set_frozen_spec(m, caller, value, s).result is Ok <==> allowed)
            &&& allowed ==> set_frozen_spec(m, caller, value, s).result == Ok::<
                WalletModel,
                WalletError,
            >(WalletModel { frozen: Some(value), ..m })
        }),
{
}

/// When no owner is stored and the named owner signed, initialisation goes
/// through and stores the owner, cap, recovery key and token, a thawed flag,
/// an empty window starting at `now`, and leaves the whitelist; on no other
/// inputs does it go through.
pub proof fn law_initialize_accepted_exactly(
    m: WalletModel,
    owner: Seq<u8>,
    daily_cap: i128,
    recovery_key: Seq<u8>,
    token: Seq<u8>,
    now: u64,
    s: Seq<Seq<u8>>,
)
    ensures
        ({
            let allowed = m.owner is None && s.contains(owner);
            let o = initialize_spec(m, owner, daily_cap, recovery_key, token, now, s);
            &&& (o.result is Ok <==> allowed)
            &&& allowed ==> o.result == Ok::<WalletModel, WalletError>(
                WalletModel {
                    owner: Some(owner),
                    daily_cap: Some(daily_cap),
                    spent_today: Some(0),
                    last_reset_timestamp: Some(now),
                    whitelist: m.whitelist,
                    recovery_key: Some(recovery_key),
                    frozen: Some(false),
                    token_address: Some(token),
                },
            )
        }),
{
}

/// Which refusal a transfer meets, in the documented order: no stored owner
/// gives `NotInitialised`, an owner who did not sign `Unauthorized`; then a
/// non-positive amount gives `ZeroAmount`, a frozen wallet `WalletFrozen`, an
/// unlisted recipient `AddressNotWhitelisted`, a missing cap `NotInitialised`,
/// a window total past the cap `DailyCapExceeded`, a missing token
/// `NotInitialised`.
pub proof fn law_transfer_refusals(
    m: WalletModel,
    to: Seq<u8>,
    amount: i128,
    now: u64,
    s: Seq<Seq<u8>>,
)
    ensures
        ({
            let start: int = match m.last_reset_timestamp {
                Some(t) => t as int,
                None => now as int,
            };
            let spent: int = if now >= start + 86_400 {
                0
            } else {
                match m.spent_today {
                    Some(x) => x as int,
                    None => 0,
                }
            };
            let r = transfer_spec(m, to, amount, now, s).result;
            let signed = m.owner matches Some(o) && s.contains(o);
            &&& m.owner is None ==> r == Err::<WalletModel, WalletError>(
                WalletError::NotInitialised,
            )
            &&& (m.owner is Some && !signed) ==> r == Err::<WalletModel, WalletError>(
                WalletError::Unauthorized,
            )
            &&& (signed && amount <= 0) ==> r == Err::<WalletModel, WalletError>(
                WalletError::ZeroAmount,
            )
            &&& (signed && amount > 0 && m.frozen == Some(true)) ==> r == Err::<
                WalletModel,
                WalletError,
            >(WalletError::WalletFrozen)
            &&& (signed && amount > 0 && m.frozen != Some(true) && !stored_list(m).contains(to))
                ==> r == Err::<WalletModel, WalletError>(WalletError::AddressNotWhitelisted)
            &&& (signed && amount > 0 && m.frozen != Some(true) && stored_list(m).contains(to)
                && m.daily_cap is None) ==> r == Err::<WalletModel, WalletError>(
                WalletError::NotInitialised,
            )
            &&& (signed && amount > 0 && m.frozen != Some(true) && stored_list(m).contains(to)
                && (m.daily_cap matches Some(cap) && spent + amount > cap)) ==> r == Err::<
                WalletModel,
                WalletError,
            >(WalletError::DailyCapExceeded)
            &&& (signed && amount > 0 && m.frozen != Some(true) && stored_list(m).contains(to)
                && (m.daily_cap matches Some(cap) && spent + amount <= cap) && m.token_address is None)
                ==> r == Err::<WalletModel, WalletError>(WalletError::NotInitialised)
        }),
{
}

/// Which refusal an addition meets: `NotInitialised` without an owner,
/// `Unauthorized` when the owner did not sign, `AlreadyWhitelisted` for a
/// listed address (even on a full list), `WhitelistFull` for a new address on
/// a list of `WHITELIST_MAX`.
pub proof fn law_add_whitelist_refusals(m: WalletModel, address: Seq<u8>, s: Seq<Seq<u8>>)
    ensures
        ({
            let r = add_whitelist_spec(m, address, s).result;
            let l = stored_list(m);
            let signed = m.owner matches Some(o) && s.contains(o);
            &&& m.owner is None ==> r == Err::<WalletModel, WalletError>(
                WalletError::NotInitialised,
            )
            &&& (m.owner is Some && !signed) ==> r == Err::<WalletModel, WalletError>(
                WalletError::Unauthorized,
            )
            &&& (signed && l.contains(address)) ==> r == Err::<WalletModel, WalletError>(
                WalletError::AlreadyWhitelisted,
            )
            &&& (signed && !l.contains(address) && l.len() >= 50) ==> r == Err::<
                WalletModel,
                WalletError,
            >(WalletError::WhitelistFull)
        }),
{
}

/// Which refusal a removal meets: `NotInitialised` without an owner,
/// `Unauthorized` when the owner did not sign, `AddressNotWhitelisted` for an
/// unlisted address.
pub proof fn law_remove_whitelist_refusals(m: WalletModel, address: Seq<u8>, s: Seq<Seq<u8>>)
    ensures
        ({
            let r = remove_whitelist_spec(m, address, s).result;
            let signed = m.owner matches Some(o) && s.contains(o);
            &&& m.owner is None ==> r == Err::<WalletModel, WalletError>(
                WalletError::NotInitialised,
            )
            &&& (m.owner is Some && !signed) ==> r == Err::<WalletModel, WalletError>(
                WalletError::Unauthorized,
            )
            &&& (signed && !stored_list(m).contains(address)) ==> r == Err::<
                WalletModel,
                WalletError,
            >(WalletError::AddressNotWhitelisted)
        }),
{
}

/// Which refusal a freeze or unfreeze meets: `Unauthorized` when the caller
/// did not sign or is not the recovery key, `NotInitialised` when a signed
/// caller finds no recovery key.
pub proof fn law_set_frozen_refusals(m: WalletModel, caller: Seq<u8>, value: bool, s: Seq<Seq<u8>>)
    ensures
        ({
            let r = set_frozen_spec(m, caller, value, s).result;
            &&& !s.contains(caller) ==> r == Err::<WalletModel, WalletError>(
                WalletError::Unauthorized,
            )
            &&& (s.contains(caller) && m.recovery_key is None) ==> r == Err::<
                WalletModel,
                WalletError,
            >(WalletError::NotInitialised)
            &&& (m.recovery_key matches Some(k) && caller != k) ==> r == Err::<
                WalletModel,
                WalletError,
            >(WalletError::Unauthorized)
        }),
{
}

/// Which refusal a rotation meets: `NotInitialised` without an owner, or, the
/// owner having signed, without a recovery key; `Unauthorized` when the owner
/// or the current recovery key did not sign, or the new key is the owner.
pub proof fn law_rotation_refusals(m: WalletModel, new_key: Seq<u8>, s: Seq<Seq<u8>>)
    ensures
        ({
            let r = update_recovery_key_spec(m, new_key, s).result;
            let signed = m.owner matches Some(o) && s.contains(o);
            &&& m.owner is None ==> r == Err::<WalletModel, WalletError>(
                WalletError::NotInitialised,
            )
            &&& (m.owner is Some && !signed) ==> r == Err::<WalletModel, WalletError>(
                WalletError::Unauthorized,
            )
            &&& (signed && m.recovery_key is None) ==> r == Err::<WalletModel, WalletError>(
                WalletError::NotInitialised,
            )
            &&& (signed && (m.recovery_key matches Some(k) && (!s.contains(k) || new_key
                == m.owner->Some_0))) ==> r == Err::<WalletModel, WalletError>(
                WalletError::Unauthorized,
            )
        }),
{
}

} // verus!
