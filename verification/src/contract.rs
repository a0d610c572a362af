use vstd::prelude::*;

use crate::allowance::AllowanceStore;
use crate::auth::AuthContext;
use crate::balance::BalanceStore;
use crate::errors::Error;
use crate::events::Event;
use crate::freeze::FreezeStore;
use crate::storage_types::{
    Address, AllowanceDataKey, AllowanceValue, ComplianceStatus, FreezeInfo,
};

verus! {

/// Validates an operation's amount parameter; every mutating operation that
/// takes an amount rejects a negative one.
pub fn check_nonnegative_amount(amount: i128) -> (r: Result<(), Error>)
    ensures
        r == if amount < 0 {
            Err::<(), Error>(Error::NegativeAmount)
        } else {
            Ok::<(), Error>(())
        },
{
    if amount < 0 {
        Err(Error::NegativeAmount)
    } else {
        Ok(())
    }
}

/// The ledger: one administrator, immutable metadata, and the three
/// persistent stores, advanced one operation at a time.
///
/// Every operation takes the collaborators the hosting environment supplies
/// as explicit values: the capability context of the invocation, and, where
/// expiration boundaries matter, the current ledger sequence number `now`
/// (monotonically nondecreasing across operations, though nothing here
/// depends on that). Each mutating operation either performs all of its
/// writes and returns the notification it emits, or returns an error and
/// leaves the state exactly as it was.
pub struct Token {
    admin: Option<Address>,
    decimal: u32,
    name: String,
    symbol: String,
    balances: BalanceStore,
    allowances: AllowanceStore,
    freezes: FreezeStore,
}

impl Token {
    /// The stores hold unique keys and nonnegative quantities.
    pub closed spec fn wf(self) -> bool {
        &&& self.balances.wf()
        &&& self.allowances.wf()
        &&& self.freezes.wf()
    }

    /// The administrator, once initialization has set one.
    pub closed spec fn spec_admin(self) -> Option<Address> {
        self.admin
    }

    pub open spec fn is_initialized(self) -> bool {
        self.spec_admin() is Some
    }

    /// The administrator's identifier.
    pub open spec fn spec_admin_id(self) -> Address
        recommends
            self.is_initialized(),
    {
        self.spec_admin()->Some_0
    }

    pub closed spec fn spec_decimal(self) -> u32 {
        self.decimal
    }

    pub closed spec fn spec_name(self) -> String {
        self.name
    }

    pub closed spec fn spec_symbol(self) -> String {
        self.symbol
    }

    /// The balance of an account; 0 for an account never credited.
    pub closed spec fn spec_balance(self, id: Address) -> int {
        self.balances.spec_get(id)
    }

    /// The total supply: the sum of all account balances.
    pub closed spec fn spec_total(self) -> int {
        self.balances.spec_total()
    }

    /// The stored allowance record for a pair, expiration not yet applied.
    pub closed spec fn spec_allowance_record(self, from: Address, spender: Address) -> Option<
        AllowanceValue,
    > {
        self.allowances.spec_record(AllowanceDataKey { from, spender })
    }

    /// The effective allowance of a pair at sequence number `now`: the stored
    /// amount, or 0 when no record exists or the stored expiration has
    /// passed.
    pub open spec fn spec_allowance(self, from: Address, spender: Address, now: u32) -> int {
        match self.spec_allowance_record(from, spender) {
            Some(v) => if now <= v.expiration_ledger {
                v.amount as int
            } else {
                0
            },
            None => 0,
        }
    }

    /// The physically stored freeze record for an account, active or not.
    pub closed spec fn spec_freeze_record(self, account: Address) -> Option<FreezeInfo> {
        self.freezes.spec_record(account)
    }

    /// The active freeze record at sequence number `now`: the stored record,
    /// unless it is timed and its boundary has been reached. A boundary of 0
    /// means indefinite, so such a record is always active.
    pub open spec fn spec_active_freeze(self, account: Address, now: u32) -> Option<FreezeInfo> {
        match self.spec_freeze_record(account) {
            Some(info) => if info.expiration_ledger == 0 || now < info.expiration_ledger {
                Some(info)
            } else {
                None
            },
            None => None,
        }
    }

    /// Whether the account is frozen at sequence number `now`.
    pub open spec fn spec_frozen(self, account: Address, now: u32) -> bool {
        self.spec_active_freeze(account, now) is Some
    }

    /// The administrator and the metadata agree with `other`'s.
    pub open spec fn same_admin_and_metadata(self, other: Token) -> bool {
        &&& self.spec_admin() == other.spec_admin()
        &&& self.spec_decimal() == other.spec_decimal()
        &&& self.spec_name() == other.spec_name()
        &&& self.spec_symbol() == other.spec_symbol()
    }

    /// Every account's balance agrees with `other`'s.
    pub open spec fn same_balances(self, other: Token) -> bool {
        forall|a: Address| self.spec_balance(a) == other.spec_balance(a)
    }

    /// Every pair's allowance record agrees with `other`'s.
    pub open spec fn same_allowances(self, other: Token) -> bool {
        forall|o: Address, s: Address|
            self.spec_allowance_record(o, s) == other.spec_allowance_record(o, s)
    }

    /// Every account's freeze record agrees with `other`'s.
    pub open spec fn same_freezes(self, other: Token) -> bool {
        forall|a: Address| self.spec_freeze_record(a) == other.spec_freeze_record(a)
    }

    /// A fresh, uninitialized ledger: no administrator, no balances, no
    /// allowances, no freeze records.
    pub fn new() -> (r: Token)
        ensures
            r.wf(),
            !r.is_initialized(),
            forall|a: Address| r.spec_balance(a) == 0,
            r.spec_total() == 0,
            forall|o: Address, s: Address| r.spec_allowance_record(o, s) is None,
            forall|a: Address| r.spec_freeze_record(a) is None,
    {
        Token {
            admin: None,
            decimal: 0,
            name: String::new(),
            symbol: String::new(),
            balances: BalanceStore::new(),
            allowances: AllowanceStore::new(),
            freezes: FreezeStore::new(),
        }
    }

    /// A well-formed ledger never reports a negative balance.
    pub proof fn lemma_balance_nonneg(self, id: Address)
        requires
            self.wf(),
        ensures
            self.spec_balance(id) >= 0,
    {
        self.balances.lemma_get_nonneg(id);
    }

    /// A well-formed ledger never reports a negative allowance.
    pub proof fn lemma_allowance_nonneg(self, from: Address, spender: Address, now: u32)
        requires
            self.wf(),
        ensures
            self.spec_allowance(from, spender, now) >= 0,
    {
        self.allowances.lemma_record_nonneg(AllowanceDataKey { from, spender });
    }

    /// Establishes the administrator and the immutable metadata. Succeeds
    /// exactly once per ledger lifetime.
    pub fn initialize(&mut self, admin: Address, decimal: u32, name: String, symbol: String) -> (r:
        Result<(), Error>)
        requires
            old(self).wf(),
        ensures
            final(self).wf(),
            r is Ok <==> (!old(self).is_initialized() && decimal <= u8::MAX as u32),
            match r {
                Ok(u) => {
                    &&& final(self).spec_admin() == Some(admin)
                    &&& final(self).spec_decimal() == decimal
                    &&& final(self).spec_name() == name
                    &&& final(self).spec_symbol() == symbol
                    &&& final(self).same_balances(*old(self))
                    &&& final(self).spec_total() == old(self).spec_total()
                    &&& final(self).same_allowances(*old(self))
                    &&& final(self).same_freezes(*old(self))
                },
                Err(e) => {
                    &&& *final(self) == *old(self)
                    &&& (e == Error::AlreadyInitialized <==> old(self).is_initialized())
                    &&& (e == Error::InvalidDecimal <==> !old(self).is_initialized() && decimal
                        > u8::MAX as u32)
                },
            },
    {
        if self.admin.is_some() {
            return Err(Error::AlreadyInitialized);
        }
        if decimal > u8::MAX as u32 {
            return Err(Error::InvalidDecimal);
        }
        self.admin = Some(admin);
        self.decimal = decimal;
        self.name = name;
        self.symbol = symbol;
        Ok(())
    }

    /// Resolves the administrator and checks the capability for it: the
    /// shared gate of every privileged operation.
    fn require_admin(&self, auth: &AuthContext) -> (r: Result<Address, Error>)
        ensures
            r is Ok <==> (self.is_initialized() && auth.spec_allows(self.spec_admin_id())),
            match r {
                Ok(a) => self.spec_admin() == Some(a),
                Err(e) => {
                    &&& (e == Error::NotInitialized <==> !self.is_initialized())
                    &&& (e == Error::Unauthorized <==> self.is_initialized() && !auth.spec_allows(
                        self.spec_admin_id(),
                    ))
                },
            },
    {
        match self.admin {
            Some(a) => if auth.allows(a) {
                Ok(a)
            } else {
                Err(Error::Unauthorized)
            },
            None => Err(Error::NotInitialized),
        }
    }

    /// Credits freshly minted value to `to`. Administrator-authorized; exempt
    /// from freeze checks, so minting to a frozen account succeeds.
    pub fn mint(&mut self, auth: &AuthContext, to: Address, amount: i128) -> (r: Result<
        Event,
        Error,
    >)
        requires
            old(self).wf(),
        ensures
            final(self).wf(),
            final(self).same_admin_and_metadata(*old(self)),
            final(self).same_allowances(*old(self)),
            final(self).same_freezes(*old(self)),
            r is Ok <==> (old(self).is_initialized() && auth.spec_allows(old(self).spec_admin_id())
                && amount >= 0 && old(self).spec_balance(to) + amount <= i128::MAX),
            match r {
                Ok(ev) => {
                    &&& final(self).spec_balance(to) == old(self).spec_balance(to) + amount
                    &&& forall|b: Address|
                        b != to ==> final(self).spec_balance(b) == old(self).spec_balance(b)
                    &&& final(self).spec_total() == old(self).spec_total() + amount
                    &&& ev == (Event::Mint { admin: old(self).spec_admin_id(), to, amount })
                },
                Err(e) => {
                    &&& *final(self) == *old(self)
                    &&& (e == Error::NotInitialized <==> !old(self).is_initialized())
                    &&& (e == Error::Unauthorized <==> old(self).is_initialized()
                        && !auth.spec_allows(old(self).spec_admin_id()))
                    &&& (e == Error::NegativeAmount <==> old(self).is_initialized()
                        && auth.spec_allows(old(self).spec_admin_id()) && amount < 0)
                    &&& (e == Error::ArithmeticOverflow <==> old(self).is_initialized()
                        && auth.spec_allows(old(self).spec_admin_id()) && amount >= 0 && old(
                        self,
                    ).spec_balance(to) + amount > i128::MAX)
                },
            },
    {
        let admin = match self.require_admin(auth) {
            Ok(a) => a,
            Err(e) => { return Err(e); },
        };
        if amount < 0 {
            return Err(Error::NegativeAmount);
        }
        let bal = self.balances.read(to);
        if bal > i128::MAX - amount {
            return Err(Error::ArithmeticOverflow);
        }
        self.balances.receive(to, amount);
        Ok(Event::Mint { admin, to, amount })
    }

    /// Replaces the administrator. Authorized by the current administrator;
    /// exempt from freeze checks.
    pub fn set_admin(&mut self, auth: &AuthContext, new_admin: Address) -> (r: Result<
        Event,
        Error,
    >)
        requires
            old(self).wf(),
        ensures
            final(self).wf(),
            final(self).spec_decimal() == old(self).spec_decimal(),
            final(self).spec_name() == old(self).spec_name(),
            final(self).spec_symbol() == old(self).spec_symbol(),
            final(self).same_balances(*old(self)),
            final(self).spec_total() == old(self).spec_total(),
            final(self).same_allowances(*old(self)),
            final(self).same_freezes(*old(self)),
            r is Ok <==> (old(self).is_initialized() && auth.spec_allows(
                old(self).spec_admin_id(),
            )),
            match r {
                Ok(ev) => {
                    &&& final(self).spec_admin() == Some(new_admin)
                    &&& ev == (Event::SetAdmin {
                        old_admin: old(self).spec_admin_id(),
                        new_admin,
                    })
                },
                Err(e) => {
                    &&& *final(self) == *old(self)
                    &&& (e == Error::NotInitialized <==> !old(self).is_initialized())
                    &&& (e == Error::Unauthorized <==> old(self).is_initialized()
                        && !auth.spec_allows(old(self).spec_admin_id()))
                },
            },
    {
        let admin = match self.require_admin(auth) {
            Ok(a) => a,
            Err(e) => { return Err(e); },
        };
        self.admin = Some(new_admin);
        Ok(Event::SetAdmin { old_admin: admin, new_admin })
    }

    /// Freezes an account, overwriting any prior record: a duration of 0
    /// encodes an indefinite freeze, any other duration freezes until
    /// `now + duration_ledgers`. Administrator-authorized.
    pub fn freeze_account(
        &mut self,
        auth: &AuthContext,
        account_to_freeze: Address,
        duration_ledgers: u32,
        reason: String,
        compliance_tag: ComplianceStatus,
        now: u32,
    ) -> (r: Result<Event, Error>)
        requires
            old(self).wf(),
        ensures
            final(self).wf(),
            final(self).same_admin_and_metadata(*old(self)),
            final(self).same_balances(*old(self)),
            final(self).spec_total() == old(self).spec_total(),
            final(self).same_allowances(*old(self)),
            r is Ok <==> (old(self).is_initialized() && auth.spec_allows(old(self).spec_admin_id())
                && (duration_ledgers == 0 || now + duration_ledgers <= u32::MAX)),
            match r {
                Ok(ev) => {
                    let expiration = if duration_ledgers == 0 {
                        0u32
                    } else {
                        (now + duration_ledgers) as u32
                    };
                    &&& final(self).spec_freeze_record(account_to_freeze) == Some(
                        (FreezeInfo { expiration_ledger: expiration, reason, compliance_tag }),
                    )
                    &&& forall|b: Address|
                        b != account_to_freeze ==> final(self).spec_freeze_record(b) == old(
                            self,
                        ).spec_freeze_record(b)
                    &&& (duration_ledgers == 0 ==> forall|t: u32|
                        final(self).spec_frozen(account_to_freeze, t))
                    &&& (duration_ledgers != 0 ==> forall|t: u32|
                        final(self).spec_frozen(account_to_freeze, t) <==> t < now
                            + duration_ledgers)
                    &&& ev == (Event::Freeze {
                        admin: old(self).spec_admin_id(),
                        account: account_to_freeze,
                        expiration_ledger: if duration_ledgers == 0 {
                            None
                        } else {
                            Some(expiration)
                        },
                        reason,
                        compliance_tag: if compliance_tag == ComplianceStatus::Unflagged {
                            None
                        } else {
                            Some(compliance_tag)
                        },
                    })
                },
                Err(e) => {
                    &&& *final(self) == *old(self)
                    &&& (e == Error::NotInitialized <==> !old(self).is_initialized())
                    &&& (e == Error::Unauthorized <==> old(self).is_initialized()
                        && !auth.spec_allows(old(self).spec_admin_id()))
                    &&& (e == Error::InvalidAction <==> old(self).is_initialized()
                        && auth.spec_allows(old(self).spec_admin_id()) && duration_ledgers != 0
                        && now + duration_ledgers > u32::MAX)
                },
            },
    {
        let admin = match self.require_admin(auth) {
            Ok(a) => a,
            Err(e) => { return Err(e); },
        };
        let expiration_ledger: u32 = if duration_ledgers == 0 {
            0
        } else {
            match now.checked_add(duration_ledgers) {
                Some(exp) => exp,
                None => { return Err(Error::InvalidAction); },
            }
        };
        let info = FreezeInfo {
            expiration_ledger,
            reason: reason.clone(),
            compliance_tag,
        };
        self.freezes.set(account_to_freeze, info);
        let event_expiration: Option<u32> = if duration_ledgers == 0 {
            None
        } else {
            Some(expiration_ledger)
        };
        let event_tag: Option<ComplianceStatus> = if compliance_tag == ComplianceStatus::Unflagged {
            None
        } else {
            Some(compliance_tag)
        };
        Ok(
            Event::Freeze {
                admin,
                account: account_to_freeze,
                expiration_ledger: event_expiration,
                reason,
                compliance_tag: event_tag,
            },
        )
    }

    /// Removes an account's freeze record if one is present; on an account
    /// with no record this is a no-op that emits no notification.
    /// Administrator-authorized.
    pub fn unfreeze_account(&mut self, auth: &AuthContext, account_to_unfreeze: Address) -> (r:
        Result<Option<Event>, Error>)
        requires
            old(self).wf(),
        ensures
            final(self).wf(),
            final(self).same_admin_and_metadata(*old(self)),
            final(self).same_balances(*old(self)),
            final(self).spec_total() == old(self).spec_total(),
            final(self).same_allowances(*old(self)),
            r is Ok <==> (old(self).is_initialized() && auth.spec_allows(
                old(self).spec_admin_id(),
            )),
            match r {
                Ok(ev) => {
                    &&& final(self).spec_freeze_record(account_to_unfreeze) is None
                    &&& forall|b: Address|
                        b != account_to_unfreeze ==> final(self).spec_freeze_record(b) == old(
                            self,
                        ).spec_freeze_record(b)
                    &&& forall|t: u32| !final(self).spec_frozen(account_to_unfreeze, t)
                    &&& (old(self).spec_freeze_record(account_to_unfreeze) is Some ==> ev == Some(
                        (Event::Unfreeze {
                            admin: old(self).spec_admin_id(),
                            account: account_to_unfreeze,
                        }),
                    ))
                    &&& (old(self).spec_freeze_record(account_to_unfreeze) is None ==> ev is None
                        && *final(self) == *old(self))
                },
                Err(e) => {
                    &&& *final(self) == *old(self)
                    &&& (e == Error::NotInitialized <==> !old(self).is_initialized())
                    &&& (e == Error::Unauthorized <==> old(self).is_initialized()
                        && !auth.spec_allows(old(self).spec_admin_id()))
                },
            },
    {
        let admin = match self.require_admin(auth) {
            Ok(a) => a,
            Err(e) => { return Err(e); },
        };
        if self.freezes.has(account_to_unfreeze) {
            self.freezes.remove(account_to_unfreeze);
            Ok(Some(Event::Unfreeze { admin, account: account_to_unfreeze }))
        } else {
            Ok(None)
        }
    }

    /// The active freeze record for an account, or nothing when the account
    /// has no record or its timed record has expired.
    pub fn get_account_freeze_details(&self, account: Address, now: u32) -> (r: Option<FreezeInfo>)
        ensures
            r == self.spec_active_freeze(account, now),
    {
        match self.freezes.get(account) {
            Some(info) => {
                if info.expiration_ledger == 0 {
                    Some(info)
                } else if now < info.expiration_ledger {
                    Some(info)
                } else {
                    None
                }
            },
            None => None,
        }
    }

    /// Whether the account is frozen at sequence number `now`.
    pub fn is_frozen(&self, account: Address, now: u32) -> (r: bool)
        ensures
            r == self.spec_frozen(account, now),
    {
        self.get_account_freeze_details(account, now).is_some()
    }

    /// The compliance tag of the account's active freeze record, or the
    /// neutral tag when the account is unfrozen or its record has expired.
    pub fn get_compliance_tag_for_account(&self, account: Address, now: u32) -> (r:
        ComplianceStatus)
        ensures
            r == match self.spec_active_freeze(account, now) {
                Some(info) => info.compliance_tag,
                None => ComplianceStatus::Unflagged,
            },
    {
        match self.get_account_freeze_details(account, now) {
            Some(info) => info.compliance_tag,
            None => ComplianceStatus::Unflagged,
        }
    }

    /// The balance of an account; 0 for an account never credited.
    pub fn balance(&self, id: Address) -> (r: i128)
        ensures
            r as int == self.spec_balance(id),
    {
        self.balances.read(id)
    }

    /// The effective allowance of a pair at sequence number `now`: the
    /// stored amount, or 0 when no record exists or it has expired.
    pub fn allowance(&self, from: Address, spender: Address, now: u32) -> (r: i128)
        ensures
            r as int == self.spec_allowance(from, spender, now),
    {
        match self.allowances.get(AllowanceDataKey { from, spender }) {
            Some(v) => {
                if now <= v.expiration_ledger {
                    v.amount
                } else {
                    0
                }
            },
            None => 0,
        }
    }

    /// Authorizes `spender` to move up to `amount` out of `from` until the
    /// expiration boundary, fully replacing any prior allowance for the pair.
    /// Authorized by `from`; blocked while `from` is frozen.
    pub fn approve(
        &mut self,
        auth: &AuthContext,
        from: Address,
        spender: Address,
        amount: i128,
        expiration_ledger: u32,
        now: u32,
    ) -> (r: Result<Event, Error>)
        requires
            old(self).wf(),
        ensures
            final(self).wf(),
            final(self).same_admin_and_metadata(*old(self)),
            final(self).same_balances(*old(self)),
            final(self).spec_total() == old(self).spec_total(),
            final(self).same_freezes(*old(self)),
            r is Ok <==> (auth.spec_allows(from) && amount >= 0 && !old(self).spec_frozen(from, now)
                && (amount == 0 || expiration_ledger >= now)),
            match r {
                Ok(ev) => {
                    &&& final(self).spec_allowance_record(from, spender) == Some(
                        (AllowanceValue { amount, expiration_ledger }),
                    )
                    &&& forall|o: Address, s: Address|
                        !(o == from && s == spender) ==> final(self).spec_allowance_record(o, s)
                            == old(self).spec_allowance_record(o, s)
                    &&& final(self).spec_allowance(from, spender, now) == amount
                    &&& ev == (Event::Approve { from, spender, expiration_ledger, amount })
                },
                Err(e) => {
                    &&& *final(self) == *old(self)
                    &&& (e == Error::Unauthorized <==> !auth.spec_allows(from))
                    &&& (e == Error::NegativeAmount <==> auth.spec_allows(from) && amount < 0)
                    &&& (e == Error::AccountFrozen <==> auth.spec_allows(from) && amount >= 0
                        && old(self).spec_frozen(from, now))
                    &&& (e == Error::InvalidExpiration <==> auth.spec_allows(from) && amount > 0
                        && !old(self).spec_frozen(from, now) && expiration_ledger < now)
                },
            },
    {
        if !auth.allows(from) {
            return Err(Error::Unauthorized);
        }
        if amount < 0 {
            return Err(Error::NegativeAmount);
        }
        if self.is_frozen(from, now) {
            return Err(Error::AccountFrozen);
        }
        if amount > 0 && expiration_ledger < now {
            return Err(Error::InvalidExpiration);
        }
        self.allowances.write(
            AllowanceDataKey { from, spender },
            AllowanceValue { amount, expiration_ledger },
        );
        Ok(Event::Approve { from, spender, expiration_ledger, amount })
    }

    /// Moves `amount` from `from` to `to`. Authorized by `from`; blocked
    /// while `from` is frozen. Total supply is conserved.
    pub fn transfer(
        &mut self,
        auth: &AuthContext,
        from: Address,
        to: Address,
        amount: i128,
        now: u32,
    ) -> (r: Result<Event, Error>)
        requires
            old(self).wf(),
        ensures
            final(self).wf(),
            final(self).same_admin_and_metadata(*old(self)),
            final(self).same_allowances(*old(self)),
            final(self).same_freezes(*old(self)),
            final(self).spec_total() == old(self).spec_total(),
            r is Ok <==> (auth.spec_allows(from) && amount >= 0 && !old(self).spec_frozen(from, now)
                && amount <= old(self).spec_balance(from) && (from == to || old(self).spec_balance(
                to,
            ) + amount <= i128::MAX)),
            match r {
                Ok(ev) => {
                    &&& (from != to ==> final(self).spec_balance(from) == old(self).spec_balance(
                        from,
                    ) - amount && final(self).spec_balance(to) == old(self).spec_balance(to)
                        + amount)
                    &&& (from == to ==> final(self).spec_balance(from) == old(self).spec_balance(
                        from,
                    ))
                    &&& forall|b: Address|
                        b != from && b != to ==> final(self).spec_balance(b) == old(
                            self,
                        ).spec_balance(b)
                    &&& ev == (Event::Transfer { from, to, amount })
                },
                Err(e) => {
                    &&& *final(self) == *old(self)
                    &&& (e == Error::Unauthorized <==> !auth.spec_allows(from))
                    &&& (e == Error::NegativeAmount <==> auth.spec_allows(from) && amount < 0)
                    &&& (e == Error::AccountFrozen <==> auth.spec_allows(from) && amount >= 0
                        && old(self).spec_frozen(from, now))
                    &&& (e == Error::InsufficientBalance <==> auth.spec_allows(from) && amount >= 0
                        && !old(self).spec_frozen(from, now) && amount > old(self).spec_balance(
                        from,
                    ))
                    &&& (e == Error::ArithmeticOverflow <==> auth.spec_allows(from) && amount >= 0
                        && !old(self).spec_frozen(from, now) && amount <= old(self).spec_balance(
                        from,
                    ) && from != to && old(self).spec_balance(to) + amount > i128::MAX)
                },
            },
    {
        if !auth.allows(from) {
            return Err(Error::Unauthorized);
        }
        if amount < 0 {
            return Err(Error::NegativeAmount);
        }
        if self.is_frozen(from, now) {
            return Err(Error::AccountFrozen);
        }
        let bal_from = self.balances.read(from);
        if amount > bal_from {
            return Err(Error::InsufficientBalance);
        }
        if from != to {
            let bal_to = self.balances.read(to);
            if bal_to > i128::MAX - amount {
                return Err(Error::ArithmeticOverflow);
            }
        }
        self.balances.spend(from, amount);
        self.balances.receive(to, amount);
        Ok(Event::Transfer { from, to, amount })
    }

    /// Moves `amount` from `from` to `to` on `spender`'s authority,
    /// consuming that much of the pair's allowance. Blocked while `from` is
    /// frozen. Total supply is conserved.
    pub fn transfer_from(
        &mut self,
        auth: &AuthContext,
        spender: Address,
        from: Address,
        to: Address,
        amount: i128,
        now: u32,
    ) -> (r: Result<Event, Error>)
        requires
            old(self).wf(),
        ensures
            final(self).wf(),
            final(self).same_admin_and_metadata(*old(self)),
            final(self).same_freezes(*old(self)),
            final(self).spec_total() == old(self).spec_total(),
            r is Ok <==> (auth.spec_allows(spender) && amount >= 0 && !old(self).spec_frozen(
                from,
                now,
            ) && amount <= old(self).spec_allowance(from, spender, now) && amount <= old(
                self,
            ).spec_balance(from) && (from == to || old(self).spec_balance(to) + amount
                <= i128::MAX)),
            match r {
                Ok(ev) => {
                    &&& (from != to ==> final(self).spec_balance(from) == old(self).spec_balance(
                        from,
                    ) - amount && final(self).spec_balance(to) == old(self).spec_balance(to)
                        + amount)
                    &&& (from == to ==> final(self).spec_balance(from) == old(self).spec_balance(
                        from,
                    ))
                    &&& forall|b: Address|
                        b != from && b != to ==> final(self).spec_balance(b) == old(
                            self,
                        ).spec_balance(b)
                    &&& final(self).spec_allowance(from, spender, now) == old(self).spec_allowance(
                        from,
                        spender,
                        now,
                    ) - amount
                    &&& (amount > 0 ==> old(self).spec_allowance_record(from, spender) is Some
                        && final(self).spec_allowance_record(from, spender) == Some(
                        (AllowanceValue {
                            amount: (old(self).spec_allowance(from, spender, now) - amount) as i128,
                            expiration_ledger: old(self).spec_allowance_record(
                                from,
                                spender,
                            )->Some_0.expiration_ledger,
                        }),
                    ))
                    &&& (amount == 0 ==> final(self).spec_allowance_record(from, spender) == old(
                        self,
                    ).spec_allowance_record(from, spender))
                    &&& forall|o: Address, s: Address|
                        !(o == from && s == spender) ==> final(self).spec_allowance_record(o, s)
                            == old(self).spec_allowance_record(o, s)
                    &&& ev == (Event::Transfer { from, to, amount })
                },
                Err(e) => {
                    &&& *final(self) == *old(self)
                    &&& (e == Error::Unauthorized <==> !auth.spec_allows(spender))
                    &&& (e == Error::NegativeAmount <==> auth.spec_allows(spender) && amount < 0)
                    &&& (e == Error::AccountFrozen <==> auth.spec_allows(spender) && amount >= 0
                        && old(self).spec_frozen(from, now))
                    &&& (e == Error::InsufficientAllowance <==> auth.spec_allows(spender) && amount
                        >= 0 && !old(self).spec_frozen(from, now) && amount > old(
                        self,
                    ).spec_allowance(from, spender, now))
                    &&& (e == Error::InsufficientBalance <==> auth.spec_allows(spender) && amount
                        >= 0 && !old(self).spec_frozen(from, now) && amount <= old(
                        self,
                    ).spec_allowance(from, spender, now) && amount > old(self).spec_balance(from))
                    &&& (e == Error::ArithmeticOverflow <==> auth.spec_allows(spender) && amount
                        >= 0 && !old(self).spec_frozen(from, now) && amount <= old(
                        self,
                    ).spec_allowance(from, spender, now) && amount <= old(self).spec_balance(from)
                        && from != to && old(self).spec_balance(to) + amount > i128::MAX)
                },
            },
    {
        if !auth.allows(spender) {
            return Err(Error::Unauthorized);
        }
        if amount < 0 {
            return Err(Error::NegativeAmount);
        }
        if self.is_frozen(from, now) {
            return Err(Error::AccountFrozen);
        }
        let key = AllowanceDataKey { from, spender };
        let rec = self.allowances.get(key);
        let effective: i128 = match rec {
            Some(v) => {
                if now <= v.expiration_ledger {
                    v.amount
                } else {
                    0
                }
            },
            None => 0,
        };
        if amount > effective {
            return Err(Error::InsufficientAllowance);
        }
        let bal_from = self.balances.read(from);
        if amount > bal_from {
            return Err(Error::InsufficientBalance);
        }
        if from != to {
            let bal_to = self.balances.read(to);
            if bal_to > i128::MAX - amount {
                return Err(Error::ArithmeticOverflow);
            }
        }
        if amount > 0 {
            match rec {
                Some(v) => {
                    self.allowances.write(
                        key,
                        AllowanceValue {
                            amount: effective - amount,
                            expiration_ledger: v.expiration_ledger,
                        },
                    );
                },
                None => {
                    // Unreachable: a positive spend fits under the effective
                    // allowance only when an unexpired record exists.
                    proof {
                        assert(false);
                    }
                },
            }
        }
        self.balances.spend(from, amount);
        self.balances.receive(to, amount);
        Ok(Event::Transfer { from, to, amount })
    }

    /// Destroys `amount` of `from`'s balance. Authorized by `from`; blocked
    /// while `from` is frozen. Total supply shrinks by `amount`.
    pub fn burn(&mut self, auth: &AuthContext, from: Address, amount: i128, now: u32) -> (r: Result<
        Event,
        Error,
    >)
        requires
            old(self).wf(),
        ensures
            final(self).wf(),
            final(self).same_admin_and_metadata(*old(self)),
            final(self).same_allowances(*old(self)),
            final(self).same_freezes(*old(self)),
            r is Ok <==> (auth.spec_allows(from) && amount >= 0 && !old(self).spec_frozen(from, now)
                && amount <= old(self).spec_balance(from)),
            match r {
                Ok(ev) => {
                    &&& final(self).spec_balance(from) == old(self).spec_balance(from) - amount
                    &&& forall|b: Address|
                        b != from ==> final(self).spec_balance(b) == old(self).spec_balance(b)
                    &&& final(self).spec_total() == old(self).spec_total() - amount
                    &&& ev == (Event::Burn { from, amount })
                },
                Err(e) => {
                    &&& *final(self) == *old(self)
                    &&& (e == Error::Unauthorized <==> !auth.spec_allows(from))
                    &&& (e == Error::NegativeAmount <==> auth.spec_allows(from) && amount < 0)
                    &&& (e == Error::AccountFrozen <==> auth.spec_allows(from) && amount >= 0
                        && old(self).spec_frozen(from, now))
                    &&& (e == Error::InsufficientBalance <==> auth.spec_allows(from) && amount >= 0
                        && !old(self).spec_frozen(from, now) && amount > old(self).spec_balance(
                        from,
                    ))
                },
            },
    {
        if !auth.allows(from) {
            return Err(Error::Unauthorized);
        }
        if amount < 0 {
            return Err(Error::NegativeAmount);
        }
        if self.is_frozen(from, now) {
            return Err(Error::AccountFrozen);
        }
        let bal_from = self.balances.read(from);
        if amount > bal_from {
            return Err(Error::InsufficientBalance);
        }
        self.balances.spend(from, amount);
        Ok(Event::Burn { from, amount })
    }

    /// Destroys `amount` of `from`'s balance on `spender`'s authority,
    /// consuming that much of the pair's allowance. Blocked while `from` is
    /// frozen. Total supply shrinks by `amount`.
    pub fn burn_from(
        &mut self,
        auth: &AuthContext,
        spender: Address,
        from: Address,
        amount: i128,
        now: u32,
    ) -> (r: Result<Event, Error>)
        requires
            old(self).wf(),
        ensures
            final(self).wf(),
            final(self).same_admin_and_metadata(*old(self)),
            final(self).same_freezes(*old(self)),
            r is Ok <==> (auth.spec_allows(spender) && amount >= 0 && !old(self).spec_frozen(
                from,
                now,
            ) && amount <= old(self).spec_allowance(from, spender, now) && amount <= old(
                self,
            ).spec_balance(from)),
            match r {
                Ok(ev) => {
                    &&& final(self).spec_balance(from) == old(self).spec_balance(from) - amount
                    &&& forall|b: Address|
                        b != from ==> final(self).spec_balance(b) == old(self).spec_balance(b)
                    &&& final(self).spec_total() == old(self).spec_total() - amount
                    &&& final(self).spec_allowance(from, spender, now) == old(self).spec_allowance(
                        from,
                        spender,
                        now,
                    ) - amount
                    &&& (amount > 0 ==> old(self).spec_allowance_record(from, spender) is Some
                        && final(self).spec_allowance_record(from, spender) == Some(
                        (AllowanceValue {
                            amount: (old(self).spec_allowance(from, spender, now) - amount) as i128,
                            expiration_ledger: old(self).spec_allowance_record(
                                from,
                                spender,
                            )->Some_0.expiration_ledger,
                        }),
                    ))
                    &&& (amount == 0 ==> final(self).spec_allowance_record(from, spender) == old(
                        self,
                    ).spec_allowance_record(from, spender))
                    &&& forall|o: Address, s: Address|
                        !(o == from && s == spender) ==> final(self).spec_allowance_record(o, s)
                            == old(self).spec_allowance_record(o, s)
                    &&& ev == (Event::Burn { from, amount })
                },
                Err(e) => {
                    &&& *final(self) == *old(self)
                    &&& (e == Error::Unauthorized <==> !auth.spec_allows(spender))
                    &&& (e == Error::NegativeAmount <==> auth.spec_allows(spender) && amount < 0)
                    &&& (e == Error::AccountFrozen <==> auth.spec_allows(spender) && amount >= 0
                        && old(self).spec_frozen(from, now))
                    &&& (e == Error::InsufficientAllowance <==> auth.spec_allows(spender) && amount
                        >= 0 && !old(self).spec_frozen(from, now) && amount > old(
                        self,
                    ).spec_allowance(from, spender, now))
                    &&& (e == Error::InsufficientBalance <==> auth.spec_allows(spender) && amount
                        >= 0 && !old(self).spec_frozen(from, now) && amount <= old(
                        self,
                    ).spec_allowance(from, spender, now) && amount > old(self).spec_balance(from))
                },
            },
    {
        if !auth.allows(spender) {
            return Err(Error::Unauthorized);
        }
        if amount < 0 {
            return Err(Error::NegativeAmount);
        }
        if self.is_frozen(from, now) {
            return Err(Error::AccountFrozen);
        }
        let key = AllowanceDataKey { from, spender };
        let rec = self.allowances.get(key);
        let effective: i128 = match rec {
            Some(v) => {
                if now <= v.expiration_ledger {
                    v.amount
                } else {
                    0
                }
            },
            None => 0,
        };
        if amount > effective {
            return Err(Error::InsufficientAllowance);
        }
        let bal_from = self.balances.read(from);
        if amount > bal_from {
            return Err(Error::InsufficientBalance);
        }
        if amount > 0 {
            match rec {
                Some(v) => {
                    self.allowances.write(
                        key,
                        AllowanceValue {
                            amount: effective - amount,
                            expiration_ledger: v.expiration_ledger,
                        },
                    );
                },
                None => {
                    // Unreachable: a positive spend fits under the effective
                    // allowance only when an unexpired record exists.
                    proof {
                        assert(false);
                    }
                },
            }
        }
        self.balances.spend(from, amount);
        Ok(Event::Burn { from, amount })
    }

    /// The declared decimal precision.
    pub fn decimals(&self) -> (r: u32)
        requires
            self.is_initialized(),
        ensures
            r == self.spec_decimal(),
    {
        self.decimal
    }

    /// The declared asset name.
    pub fn name(&self) -> (r: String)
        requires
            self.is_initialized(),
        ensures
            r == self.spec_name(),
    {
        self.name.clone()
    }

    /// The declared asset symbol.
    pub fn symbol(&self) -> (r: String)
        requires
            self.is_initialized(),
        ensures
            r == self.spec_symbol(),
    {
        self.symbol.clone()
    }
}

} // verus!
