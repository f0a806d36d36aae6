use vstd::prelude::*;
use crate::account::{Account, accounts_view, position_in, signed_by};

verus! {

/// Largest number of addresses the whitelist may hold.
pub const WHITELIST_MAX: usize = 50;

/// Lower bound, in ledgers, of the lifetime an instance-storage extension asks for.
pub const TTL_MIN: u32 = 518_400;

/// Upper bound, in ledgers, of the lifetime an instance-storage extension asks for.
pub const TTL_MAX: u32 = 1_036_800;

/// Length of the spending window, in seconds of ledger time.
pub const DAY_IN_SECONDS: u64 = 86_400;

/// The keys of the wallet's instance storage.
#[derive(Clone, Copy, Debug, PartialEq, Eq)]
pub enum DataKey {
    Owner,
    DailyCap,
    SpentToday,
    LastResetTimestamp,
    Whitelist,
    RecoveryKey,
    Frozen,
    TokenAddress,
}

/// Why a wallet call was refused.
#[derive(Clone, Copy, Debug, PartialEq, Eq)]
pub enum WalletError {
    Unauthorized,
    DailyCapExceeded,
    AddressNotWhitelisted,
    WalletFrozen,
    ZeroAmount,
    NotInitialised,
    AlreadyInitialized,
    AlreadyWhitelisted,
    WhitelistFull,
}

/// The wallet's storage: one field per [`DataKey`], `None` where the key is absent.
pub struct SafeWallet {
    pub owner: Option<Account>,
    pub daily_cap: Option<i128>,
    pub spent_today: Option<i128>,
    pub last_reset_timestamp: Option<u64>,
    pub whitelist: Option<Vec<Account>>,
    pub recovery_key: Option<Account>,
    pub frozen: Option<bool>,
    pub token_address: Option<Account>,
}

/// The mathematical value of a [`SafeWallet`]: addresses are their encodings.
pub struct WalletModel {
    pub owner: Option<Seq<u8>>,
    pub daily_cap: Option<i128>,
    pub spent_today: Option<i128>,
    pub last_reset_timestamp: Option<u64>,
    pub whitelist: Option<Seq<Seq<u8>>>,
    pub recovery_key: Option<Seq<u8>>,
    pub frozen: Option<bool>,
    pub token_address: Option<Seq<u8>>,
}

pub open spec fn account_opt(o: Option<Account>) -> Option<Seq<u8>> {
    match o {
        Some(a) => Some(a@),
        None => None,
    }
}

pub open spec fn account_list_opt(o: Option<Vec<Account>>) -> Option<Seq<Seq<u8>>> {
    match o {
        Some(l) => Some(accounts_view(l@)),
        None => None,
    }
}

impl View for SafeWallet {
    type V = WalletModel;

    open spec fn view(&self) -> WalletModel {
        WalletModel {
            owner: account_opt(self.owner),
            daily_cap: self.daily_cap,
            spent_today: self.spent_today,
            last_reset_timestamp: self.last_reset_timestamp,
            whitelist: account_list_opt(self.whitelist),
            recovery_key: account_opt(self.recovery_key),
            frozen: self.frozen,
            token_address: account_opt(self.token_address),
        }
    }
}

impl WalletModel {
    /// Storage with no key set: a wallet that was never initialised.
    pub open spec fn empty() -> WalletModel {
        WalletModel {
            owner: None,
            daily_cap: None,
            spent_today: None,
            last_reset_timestamp: None,
            whitelist: None,
            recovery_key: None,
            frozen: None,
            token_address: None,
        }
    }

    /// Whether the wallet is frozen; an absent flag reads as not frozen.
    pub open spec fn frozen_flag(self) -> bool {
        match self.frozen {
            Some(b) => b,
            None => false,
        }
    }

    /// The whitelisted addresses; an absent list reads as empty.
    pub open spec fn listed(self) -> Seq<Seq<u8>> {
        match self.whitelist {
            Some(l) => l,
            None => Seq::empty(),
        }
    }

    /// Amount spent in the current window; absent reads as zero.
    pub open spec fn spent_or_zero(self) -> i128 {
        match self.spent_today {
            Some(s) => s,
            None => 0,
        }
    }

    /// Start of the current window; absent reads as `now`.
    pub open spec fn window_start(self, now: u64) -> u64 {
        match self.last_reset_timestamp {
            Some(t) => t,
            None => now,
        }
    }

    /// Whether a transfer at ledger time `now` opens a new spending window.
    pub open spec fn window_elapsed(self, now: u64) -> bool {
        now >= self.window_start(now) + DAY_IN_SECONDS
    }

    /// What counts as already spent for a transfer at `now`.
    pub open spec fn spent_before(self, now: u64) -> int {
        if self.window_elapsed(now) {
            0
        } else {
            self.spent_or_zero() as int
        }
    }

    /// The state an initialised wallet keeps: every key that initialisation writes
    /// is present, the whitelist holds no address twice and at most
    /// `WHITELIST_MAX` addresses, and the amount spent in the current window is
    /// never negative and, once positive, within the daily cap.
    pub open spec fn wf(self) -> bool {
        &&& self.owner is Some ==> {
            &&& self.daily_cap is Some
            &&& self.spent_today is Some
            &&& self.last_reset_timestamp is Some
            &&& self.recovery_key is Some
            &&& self.frozen is Some
            &&& self.token_address is Some
        }
        &&& self.listed().no_duplicates()
        &&& self.listed().len() <= WHITELIST_MAX
        &&& self.spent_or_zero() >= 0
        &&& self.spent_or_zero() > 0 ==> (self.daily_cap matches Some(cap) && self.spent_or_zero()
            <= cap)
    }
}

/// What a call to the wallet amounts to: the addresses whose authorisation it
/// requires, in the order it requires them; either the error it returns or the
/// state it leaves; the storage keys it writes; and whether it extends the
/// lifetime of the wallet's storage. A call that returns an error writes nothing.
pub struct Outcome {
    pub auths: Seq<Seq<u8>>,
    pub result: Result<WalletModel, WalletError>,
    pub writes: Seq<DataKey>,
    pub extends_ttl: bool,
}

pub open spec fn refused(auths: Seq<Seq<u8>>, e: WalletError) -> Outcome {
    Outcome { auths, result: Err(e), writes: seq![], extends_ttl: false }
}

pub open spec fn accepted(
    auths: Seq<Seq<u8>>,
    m: WalletModel,
    writes: Seq<DataKey>,
    extends_ttl: bool,
) -> Outcome {
    Outcome { auths, result: Ok(m), writes, extends_ttl }
}

/// `initialize`: refused once an owner is stored; otherwise the owner must
/// sign, and every key but the whitelist is written.
pub open spec fn initialize_spec(
    m: WalletModel,
    owner: Seq<u8>,
    daily_cap: i128,
    recovery_key: Seq<u8>,
    token: Seq<u8>,
    now: u64,
    signers: Seq<Seq<u8>>,
) -> Outcome {
    if m.owner is Some {
        refused(seq![], WalletError::AlreadyInitialized)
    } else if !signers.contains(owner) {
        refused(seq![owner], WalletError::Unauthorized)
    } else {
        accepted(
            seq![owner],
            WalletModel {
                owner: Some(owner),
                daily_cap: Some(daily_cap),
                recovery_key: Some(recovery_key),
                token_address: Some(token),
                frozen: Some(false),
                spent_today: Some(0),
                last_reset_timestamp: Some(now),
                ..m
            },
            seq![
                DataKey::Owner,
                DataKey::DailyCap,
                DataKey::RecoveryKey,
                DataKey::TokenAddress,
                DataKey::Frozen,
                DataKey::SpentToday,
                DataKey::LastResetTimestamp,
            ],
            true,
        )
    }
}

/// The owner check that opens every owner-only call: `Some` refusal when no
/// owner is stored (`NotInitialised`) or the owner has not signed
/// (`Unauthorized`), `None` when the call may go on.
pub open spec fn owner_refusal(m: WalletModel, signers: Seq<Seq<u8>>) -> Option<Outcome> {
    match m.owner {
        None => Some(refused(seq![], WalletError::NotInitialised)),
        Some(o) => if !signers.contains(o) {
            Some(refused(seq![o], WalletError::Unauthorized))
        } else {
            None
        },
    }
}

/// `add_whitelist`: the owner must sign; `address` is appended unless already
/// listed or the list is full.
pub open spec fn add_whitelist_spec(m: WalletModel, address: Seq<u8>, signers: Seq<Seq<u8>>) -> Outcome {
    match owner_refusal(m, signers) {
        Some(r) => r,
        None => {
            let o = m.owner->Some_0;
            if m.listed().contains(address) {
                refused(seq![o], WalletError::AlreadyWhitelisted)
            } else if m.listed().len() >= WHITELIST_MAX {
                refused(seq![o], WalletError::WhitelistFull)
            } else {
                accepted(
                    seq![o],
                    WalletModel { whitelist: Some(m.listed().push(address)), ..m },
                    seq![DataKey::Whitelist],
                    false,
                )
            }
        },
    }
}

/// `remove_whitelist`: the owner must sign; the first occurrence of `address`
/// is removed, the others keep their order.
pub open spec fn remove_whitelist_spec(
    m: WalletModel,
    address: Seq<u8>,
    signers: Seq<Seq<u8>>,
) -> Outcome {
    match owner_refusal(m, signers) {
        Some(r) => r,
        None => {
            let o = m.owner->Some_0;
            if !m.listed().contains(address) {
                refused(seq![o], WalletError::AddressNotWhitelisted)
            } else {
                accepted(
                    seq![o],
                    WalletModel { whitelist: Some(m.listed().remove_value(address)), ..m },
                    seq![DataKey::Whitelist],
                    false,
                )
            }
        },
    }
}

/// Whether `transfer` reaches the end of the current window and that end,
/// `DAY_IN_SECONDS` after the window's start, does not fit in a `u64`.
pub open spec fn transfer_overflows(
    m: WalletModel,
    to: Seq<u8>,
    amount: i128,
    now: u64,
    signers: Seq<Seq<u8>>,
) -> bool {
    &&& owner_refusal(m, signers) is None
    &&& amount > 0
    &&& !m.frozen_flag()
    &&& m.listed().contains(to)
    &&& m.daily_cap is Some
    &&& m.window_start(now) + DAY_IN_SECONDS > u64::MAX
}

/// `transfer`: the owner must sign; the checks run in the order amount,
/// freeze, whitelist, cap; a window older than a day is restarted at `now`
/// before the cap is checked; on success the running total grows by `amount`.
pub open spec fn transfer_spec(
    m: WalletModel,
    to: Seq<u8>,
    amount: i128,
    now: u64,
    signers: Seq<Seq<u8>>,
) -> Outcome {
    match owner_refusal(m, signers) {
        Some(r) => r,
        None => {
            let o = m.owner->Some_0;
            if amount <= 0 {
                refused(seq![o], WalletError::ZeroAmount)
            } else if m.frozen_flag() {
                refused(seq![o], WalletError::WalletFrozen)
            } else if !m.listed().contains(to) {
                refused(seq![o], WalletError::AddressNotWhitelisted)
            } else {
                match m.daily_cap {
                    None => refused(seq![o], WalletError::NotInitialised),
                    Some(cap) => if m.spent_before(now) + amount > cap {
                        refused(seq![o], WalletError::DailyCapExceeded)
                    } else if m.token_address is None {
                        refused(seq![o], WalletError::NotInitialised)
                    } else if m.window_elapsed(now) {
                        accepted(
                            seq![o],
                            WalletModel {
                                spent_today: Some(amount),
                                last_reset_timestamp: Some(now),
                                ..m
                            },
                            seq![DataKey::LastResetTimestamp, DataKey::SpentToday],
                            true,
                        )
                    } else {
                        accepted(
                            seq![o],
                            WalletModel {
                                spent_today: Some((m.spent_or_zero() + amount) as i128),
                                ..m
                            },
                            seq![DataKey::SpentToday],
                            true,
                        )
                    },
                }
            }
        },
    }
}

/// `freeze` (`value` true) and `unfreeze` (`value` false): the caller must
/// sign and be the recovery key.
pub open spec fn set_frozen_spec(
    m: WalletModel,
    caller: Seq<u8>,
    value: bool,
    signers: Seq<Seq<u8>>,
) -> Outcome {
    if !signers.contains(caller) {
        refused(seq![caller], WalletError::Unauthorized)
    } else {
        match m.recovery_key {
            None => refused(seq![caller], WalletError::NotInitialised),
            Some(r) => if caller != r {
                refused(seq![caller], WalletError::Unauthorized)
            } else {
                accepted(
                    seq![caller],
                    WalletModel { frozen: Some(value), ..m },
                    seq![DataKey::Frozen],
                    false,
                )
            },
        }
    }
}

/// `update_recovery_key`: the owner and then the current recovery key must
/// sign; the owner cannot become the recovery key.
pub open spec fn update_recovery_key_spec(
    m: WalletModel,
    new_key: Seq<u8>,
    signers: Seq<Seq<u8>>,
) -> Outcome {
    match owner_refusal(m, signers) {
        Some(r) => r,
        None => {
            let o = m.owner->Some_0;
            match m.recovery_key {
                None => refused(seq![o], WalletError::NotInitialised),
                Some(r) => if !signers.contains(r) {
                    refused(seq![o, r], WalletError::Unauthorized)
                } else if new_key == o {
                    refused(seq![o, r], WalletError::Unauthorized)
                } else {
                    accepted(
                        seq![o, r],
                        WalletModel { recovery_key: Some(new_key), ..m },
                        seq![DataKey::RecoveryKey],
                        false,
                    )
                },
            }
        },
    }
}

/// A token payment from the wallet: `amount` of the token at `token` to `to`.
pub struct Payment {
    pub token: Account,
    pub to: Account,
    pub amount: i128,
}

/// The result of a wallet call, for the host to carry out: require the
/// authorisation of each address of `auths` in order, then, on `Ok`, write the
/// keys of `writes` from the wallet's new state and extend the storage's
/// lifetime if `extends_ttl` holds.
pub struct Invocation<T> {
    pub auths: Vec<Account>,
    pub result: Result<T, WalletError>,
    pub writes: Vec<DataKey>,
    pub extends_ttl: bool,
}

impl<T> Invocation<T> {
    /// This invocation is `o`, and the wallet went from `before` to `after`.
    pub open spec fn follows(self, o: Outcome, before: WalletModel, after: WalletModel) -> bool {
        &&& accounts_view(self.auths@) =~= o.auths
        &&& self.writes@ =~= o.writes
        &&& self.extends_ttl == o.extends_ttl
        &&& match o.result {
            Ok(m) => self.result is Ok && after == m,
            Err(e) => self.result == Err::<T, WalletError>(e) && after == before,
        }
    }

    fn refusal(auths: Vec<Account>, e: WalletError) -> (r: Invocation<T>)
        ensures
            r.auths == auths,
            r.result == Err::<T, WalletError>(e),
            r.writes@ == Seq::<DataKey>::empty(),
            !r.extends_ttl,
    {
        Invocation { auths, result: Err(e), writes: Vec::new(), extends_ttl: false }
    }
}

impl SafeWallet {
    /// A wallet whose storage holds no key.
    pub fn new() -> (w: SafeWallet)
        ensures
            w@ == WalletModel::empty(),
    {
        SafeWallet {
            owner: None,
            daily_cap: None,
            spent_today: None,
            last_reset_timestamp: None,
            whitelist: None,
            recovery_key: None,
            frozen: None,
            token_address: None,
        }
    }

    /// Initialise the wallet; refused with `AlreadyInitialized` once an owner is
    /// stored. `now` is the ledger time of the call and `signers` the addresses
    /// that signed it; refused with `Unauthorized` when the owner is not one.
    pub fn initialize(
        &mut self,
        owner: Account,
        daily_cap: i128,
        recovery_key: Account,
        token: Account,
        now: u64,
        signers: &Vec<Account>,
    ) -> (r: Invocation<()>)
        ensures
            r.follows(
                initialize_spec(
                    old(self)@,
                    owner@,
                    daily_cap,
                    recovery_key@,
                    token@,
                    now,
                    accounts_view(signers@),
                ),
                old(self)@,
                final(self)@,
            ),
    {
        if self.owner.is_some() {
            let auths: Vec<Account> = Vec::new();
            proof {
                assert(accounts_view(auths@) =~= seq![]);
            }
            return Invocation::refusal(auths, WalletError::AlreadyInitialized);
        }
        let mut auths: Vec<Account> = Vec::new();
        auths.push(owner.duplicate());
        proof {
            assert(accounts_view(auths@) =~= seq![owner@]);
        }
        if !signed_by(signers, &owner) {
            return Invocation::refusal(auths, WalletError::Unauthorized);
        }
        self.owner = Some(owner);
        self.daily_cap = Some(daily_cap);
        self.recovery_key = Some(recovery_key);
        self.token_address = Some(token);
        self.frozen = Some(false);
        self.spent_today = Some(0);
        self.last_reset_timestamp = Some(now);
        let mut writes: Vec<DataKey> = Vec::new();
        writes.push(DataKey::Owner);
        writes.push(DataKey::DailyCap);
        writes.push(DataKey::RecoveryKey);
        writes.push(DataKey::TokenAddress);
        writes.push(DataKey::Frozen);
        writes.push(DataKey::SpentToday);
        writes.push(DataKey::LastResetTimestamp);
        proof {
            assert(accounts_view(auths@) =~= seq![owner@]);
        }
        Invocation { auths, result: Ok(()), writes, extends_ttl: true }
    }

    /// The stored owner, and the signatures checked so far: refused with
    /// `NotInitialised` when no owner is stored and `Unauthorized` when the
    /// owner is not among `signers`.
    fn require_owner(&self, signers: &Vec<Account>) -> (r: (Result<Account, WalletError>, Vec<Account>))
        ensures
            match self@.owner {
                None => r.0 == Err::<Account, WalletError>(WalletError::NotInitialised)
                    && accounts_view(r.1@) == Seq::<Seq<u8>>::empty(),
                Some(o) => accounts_view(r.1@) == seq![o] && if accounts_view(signers@).contains(o) {
                    r.0 is Ok && r.0->Ok_0@ == o
                } else {
                    r.0 == Err::<Account, WalletError>(WalletError::Unauthorized)
                },
            },
    {
        let mut auths: Vec<Account> = Vec::new();
        match &self.owner {
            None => {
                proof {
                    assert(accounts_view(auths@) =~= Seq::<Seq<u8>>::empty());
                }
                (Err(WalletError::NotInitialised), auths)
            },
            Some(o) => {
                auths.push(o.duplicate());
                proof {
                    assert(accounts_view(auths@) =~= seq![o@]);
                }
                if signed_by(signers, o) {
                    (Ok(o.duplicate()), auths)
                } else {
                    (Err(WalletError::Unauthorized), auths)
                }
            },
        }
    }

    /// Whether `address` is whitelisted, and how many addresses are.
    fn whitelist_lookup(&self, address: &Account) -> (r: (Option<usize>, usize))
        ensures
            r.1 == self@.listed().len(),
            r.0 is Some == self@.listed().contains(address@),
            r.0 matches Some(i) ==> self@.listed().index_of_first(address@) == Some(i as int),
    {
        match &self.whitelist {
            Some(l) => {
                let pos = position_in(l, address);
                proof {
                    accounts_view(l@).index_of_first_ensures(address@);
                }
                (pos, l.len())
            },
            None => {
                proof {
                    assert(!self@.listed().contains(address@));
                }
                (None, 0)
            },
        }
    }

    /// Add `address` to the whitelist. The owner must be among `signers`, else
    /// the call is refused with `Unauthorized`; refused with `AlreadyWhitelisted` for a listed address and `WhitelistFull` when
    /// `WHITELIST_MAX` addresses are listed.
    pub fn add_whitelist(&mut self, address: Account, signers: &Vec<Account>) -> (r: Invocation<()>)
        ensures
            r.follows(add_whitelist_spec(old(self)@, address@, accounts_view(signers@)), old(self)@, final(self)@),
    {
        let (owner, auths) = self.require_owner(signers);
        if let Err(e) = owner {
            return Invocation::refusal(auths, e);
        }
        let (pos, len) = self.whitelist_lookup(&address);
        if pos.is_some() {
            return Invocation::refusal(auths, WalletError::AlreadyWhitelisted);
        }
        if len >= WHITELIST_MAX {
            return Invocation::refusal(auths, WalletError::WhitelistFull);
        }
        let ghost before = self@;
        let mut list = match self.whitelist.take() {
            Some(l) => l,
            None => Vec::new(),
        };
        proof {
            assert(accounts_view(list@) =~= before.listed());
        }
        let ghost old_list = list@;
        list.push(address);
        proof {
            assert(accounts_view(list@) =~= accounts_view(old_list).push(address@));
        }
        self.whitelist = Some(list);
        let mut writes: Vec<DataKey> = Vec::new();
        writes.push(DataKey::Whitelist);
        proof {
            assert(writes@ =~= seq![DataKey::Whitelist]);
        }
        Invocation { auths, result: Ok(()), writes, extends_ttl: false }
    }

    /// Remove `address` from the whitelist. The owner must be among `signers`,
    /// else `Unauthorized`; refused with `AddressNotWhitelisted` when it is not
    /// listed.
    pub fn remove_whitelist(&mut self, address: Account, signers: &Vec<Account>) -> (r: Invocation<()>)
        ensures
            r.follows(remove_whitelist_spec(old(self)@, address@, accounts_view(signers@)), old(self)@, final(self)@),
    {
        let (owner, auths) = self.require_owner(signers);
        if let Err(e) = owner {
            return Invocation::refusal(auths, e);
        }
        let (pos, _len) = self.whitelist_lookup(&address);
        let i = match pos {
            None => {
                return Invocation::refusal(auths, WalletError::AddressNotWhitelisted);
            },
            Some(i) => i,
        };
        let ghost before = self@;
        let mut list = match self.whitelist.take() {
            Some(l) => l,
            None => Vec::new(),
        };
        proof {
            assert(accounts_view(list@) =~= before.listed());
            before.listed().index_of_first_ensures(address@);
        }
        let ghost old_list = list@;
        let _removed = list.remove(i);
        proof {
            assert(accounts_view(list@) =~= accounts_view(old_list).remove(i as int));
        }
        self.whitelist = Some(list);
        let mut writes: Vec<DataKey> = Vec::new();
        writes.push(DataKey::Whitelist);
        proof {
            assert(writes@ =~= seq![DataKey::Whitelist]);
        }
        Invocation { auths, result: Ok(()), writes, extends_ttl: false }
    }

    /// Whether `transfer(to, amount, now)` would find that the end of the
    /// current window does not fit in a `u64`, the inputs on which the
    /// contract traps rather than answer.
    pub fn transfer_would_overflow(
        &self,
        to: &Account,
        amount: i128,
        now: u64,
        signers: &Vec<Account>,
    ) -> (r: bool)
        ensures
            r == transfer_overflows(self@, to@, amount, now, accounts_view(signers@)),
    {
        let (owner, _auths) = self.require_owner(signers);
        if owner.is_err() || amount <= 0 || self.is_frozen() {
            return false;
        }
        let (pos, _len) = self.whitelist_lookup(to);
        if pos.is_none() || self.daily_cap.is_none() {
            return false;
        }
        let last_reset = match self.last_reset_timestamp {
            Some(t) => t,
            None => now,
        };
        last_reset > u64::MAX - DAY_IN_SECONDS
    }

    /// Pay `amount` of the wallet's token to `to` at ledger time `now`,
    /// enforcing every policy: the owner must be among `signers`, else
    /// `Unauthorized`; refused with `ZeroAmount`
    /// unless `amount` is positive, `WalletFrozen` while frozen,
    /// `AddressNotWhitelisted` for an unlisted recipient, `DailyCapExceeded`
    /// when the window's total would pass the daily cap (a window a day old or
    /// more starts afresh at `now`), and `NotInitialised` without a cap or token.
    pub fn transfer(
        &mut self,
        to: Account,
        amount: i128,
        now: u64,
        signers: &Vec<Account>,
    ) -> (r: Invocation<Payment>)
        requires
            !transfer_overflows(old(self)@, to@, amount, now, accounts_view(signers@)),
        ensures
            r.follows(
                transfer_spec(old(self)@, to@, amount, now, accounts_view(signers@)),
                old(self)@,
                final(self)@,
            ),
            r.result matches Ok(p) ==> {
                &&& old(self)@.token_address == Some(p.token@)
                &&& p.to@ == to@
                &&& p.amount == amount
            },
    {
        let (owner, auths) = self.require_owner(signers);
        if let Err(e) = owner {
            return Invocation::refusal(auths, e);
        }
        if amount <= 0 {
            return Invocation::refusal(auths, WalletError::ZeroAmount);
        }
        if self.is_frozen() {
            return Invocation::refusal(auths, WalletError::WalletFrozen);
        }
        let (pos, _len) = self.whitelist_lookup(&to);
        if pos.is_none() {
            return Invocation::refusal(auths, WalletError::AddressNotWhitelisted);
        }
        let daily_cap = match self.daily_cap {
            Some(c) => c,
            None => {
                return Invocation::refusal(auths, WalletError::NotInitialised);
            },
        };
        let last_reset = match self.last_reset_timestamp {
            Some(t) => t,
            None => now,
        };
        let mut spent_today = match self.spent_today {
            Some(s) => s,
            None => 0,
        };
        let window_elapsed = now >= last_reset + DAY_IN_SECONDS;
        if window_elapsed {
            spent_today = 0;
        }
        // A total beyond `i128::MAX` is beyond every cap.
        let new_total = match spent_today.checked_add(amount) {
            Some(t) => t,
            None => {
                return Invocation::refusal(auths, WalletError::DailyCapExceeded);
            },
        };
        if new_total > daily_cap {
            return Invocation::refusal(auths, WalletError::DailyCapExceeded);
        }
        let token = match &self.token_address {
            Some(t) => t.duplicate(),
            None => {
                return Invocation::refusal(auths, WalletError::NotInitialised);
            },
        };
        let mut writes: Vec<DataKey> = Vec::new();
        if window_elapsed {
            self.last_reset_timestamp = Some(now);
            writes.push(DataKey::LastResetTimestamp);
        }
        self.spent_today = Some(new_total);
        writes.push(DataKey::SpentToday);
        proof {
            if window_elapsed {
                assert(writes@ =~= seq![DataKey::LastResetTimestamp, DataKey::SpentToday]);
            } else {
                assert(writes@ =~= seq![DataKey::SpentToday]);
            }
        }
        Invocation {
            auths,
            result: Ok(Payment { token, to, amount }),
            writes,
            extends_ttl: true,
        }
    }

    /// Whether the wallet is frozen; `false` when the flag was never stored.
    pub fn is_frozen(&self) -> (r: bool)
        ensures
            r == self@.frozen_flag(),
    {
        match self.frozen {
            Some(b) => b,
            None => false,
        }
    }

    fn set_frozen(&mut self, caller: &Account, value: bool, signers: &Vec<Account>) -> (r: Invocation<()>)
        ensures
            r.follows(set_frozen_spec(old(self)@, caller@, value, accounts_view(signers@)), old(self)@, final(self)@),
    {
        let mut auths: Vec<Account> = Vec::new();
        auths.push(caller.duplicate());
        proof {
            assert(accounts_view(auths@) =~= seq![caller@]);
        }
        if !signed_by(signers, caller) {
            return Invocation::refusal(auths, WalletError::Unauthorized);
        }
        let is_recovery = match &self.recovery_key {
            None => {
                return Invocation::refusal(auths, WalletError::NotInitialised);
            },
            Some(k) => caller.same_as(k),
        };
        if !is_recovery {
            return Invocation::refusal(auths, WalletError::Unauthorized);
        }
        self.frozen = Some(value);
        let mut writes: Vec<DataKey> = Vec::new();
        writes.push(DataKey::Frozen);
        proof {
            assert(writes@ =~= seq![DataKey::Frozen]);
        }
        Invocation { auths, result: Ok(()), writes, extends_ttl: false }
    }

    /// Emergency freeze. `caller` must be among `signers` and be the recovery
    /// key, else `Unauthorized`.
    pub fn freeze(&mut self, caller: &Account, signers: &Vec<Account>) -> (r: Invocation<()>)
        ensures
            r.follows(set_frozen_spec(old(self)@, caller@, true, accounts_view(signers@)), old(self)@, final(self)@),
    {
        self.set_frozen(caller, true, signers)
    }

    /// Lift a freeze. `caller` must be among `signers` and be the recovery key,
    /// else `Unauthorized`.
    pub fn unfreeze(&mut self, caller: &Account, signers: &Vec<Account>) -> (r: Invocation<()>)
        ensures
            r.follows(set_frozen_spec(old(self)@, caller@, false, accounts_view(signers@)), old(self)@, final(self)@),
    {
        self.set_frozen(caller, false, signers)
    }

    /// Rotate the recovery key. The owner and the current recovery key must both
    /// be among `signers`, else `Unauthorized`; the owner cannot take the role.
    pub fn update_recovery_key(&mut self, new_key: Account, signers: &Vec<Account>) -> (r: Invocation<()>)
        ensures
            r.follows(update_recovery_key_spec(old(self)@, new_key@, accounts_view(signers@)), old(self)@, final(self)@),
    {
        let (owner, mut auths) = self.require_owner(signers);
        let owner = match owner {
            Ok(o) => o,
            Err(e) => {
                return Invocation::refusal(auths, e);
            },
        };
        let current = match &self.recovery_key {
            None => {
                return Invocation::refusal(auths, WalletError::NotInitialised);
            },
            Some(k) => k.duplicate(),
        };
        let current_signed = signed_by(signers, &current);
        let ghost before = auths@;
        auths.push(current);
        proof {
            assert(accounts_view(auths@) =~= accounts_view(before).push(self@.recovery_key->Some_0));
            assert(accounts_view(auths@) =~= seq![owner@, self@.recovery_key->Some_0]);
        }
        if !current_signed {
            return Invocation::refusal(auths, WalletError::Unauthorized);
        }
        if new_key.same_as(&owner) {
            return Invocation::refusal(auths, WalletError::Unauthorized);
        }
        self.recovery_key = Some(new_key);
        let mut writes: Vec<DataKey> = Vec::new();
        writes.push(DataKey::RecoveryKey);
        proof {
            assert(writes@ =~= seq![DataKey::RecoveryKey]);
        }
        Invocation { auths, result: Ok(()), writes, extends_ttl: false }
    }
}

} // verus!
