//! In-memory currency ledger: free and reserved balances per account.
use std::collections::HashMap;
use vstd::prelude::*;

verus! {

broadcast use vstd::std_specs::hash::group_hash_axioms;

/// Account identifiers.
pub type AccountId = u64;

/// Amounts of currency.
pub type Balance = u128;

/// The two balances an account holds.
#[derive(Clone, Copy, Debug, PartialEq, Eq, Structural)]
pub struct AccountData {
    pub free: u128,
    pub reserved: u128,
}

/// Why a ledger operation was refused.
#[derive(Clone, Copy, Debug, PartialEq, Eq, Structural)]
pub enum LedgerError {
    InsufficientBalance,
    Overflow,
}

/// The balances of `who`; an account never seen holds nothing.
pub open spec fn account_of(m: Map<u64, AccountData>, who: u64) -> AccountData {
    if m.contains_key(who) {
        m[who]
    } else {
        AccountData { free: 0, reserved: 0 }
    }
}

pub open spec fn free_of(m: Map<u64, AccountData>, who: u64) -> u128 {
    account_of(m, who).free
}

pub open spec fn reserved_of(m: Map<u64, AccountData>, who: u64) -> u128 {
    account_of(m, who).reserved
}

/// Every account's total fits in a `u128`.
pub open spec fn ledger_ok(m: Map<u64, AccountData>) -> bool {
    forall|a: u64| m.contains_key(a) ==> m[a].free + m[a].reserved <= u128::MAX
}

/// Moves `amount` from free to reserved; refused when the free balance is short.
pub open spec fn reserve_spec(m: Map<u64, AccountData>, who: u64, amount: u128) -> Option<
    Map<u64, AccountData>,
> {
    let d = account_of(m, who);
    if d.free < amount {
        None
    } else {
        Some(
            m.insert(
                who,
                AccountData { free: (d.free - amount) as u128, reserved: (d.reserved + amount) as u128 },
            ),
        )
    }
}

/// The part of a request to unreserve that the reserved balance covers.
pub open spec fn unreservable(m: Map<u64, AccountData>, who: u64, amount: u128) -> u128 {
    let d = account_of(m, who);
    if amount <= d.reserved {
        amount
    } else {
        d.reserved
    }
}

/// Moves up to `amount` from reserved back to free.
pub open spec fn unreserve_spec(m: Map<u64, AccountData>, who: u64, amount: u128) -> Map<
    u64,
    AccountData,
> {
    let d = account_of(m, who);
    let moved = unreservable(m, who, amount);
    m.insert(who, AccountData { free: (d.free + moved) as u128, reserved: (d.reserved - moved) as u128 })
}

/// Takes `amount` out of the free balance; refused when it is short.
pub open spec fn withdraw_spec(m: Map<u64, AccountData>, who: u64, amount: u128) -> Option<
    Map<u64, AccountData>,
> {
    let d = account_of(m, who);
    if d.free < amount {
        None
    } else {
        Some(m.insert(who, AccountData { free: (d.free - amount) as u128, reserved: d.reserved }))
    }
}

/// Adds `amount` to the free balance; refused when the account's total would overflow.
pub open spec fn deposit_spec(m: Map<u64, AccountData>, who: u64, amount: u128) -> Option<
    Map<u64, AccountData>,
> {
    let d = account_of(m, who);
    if d.free + d.reserved + amount > u128::MAX {
        None
    } else {
        Some(m.insert(who, AccountData { free: (d.free + amount) as u128, reserved: d.reserved }))
    }
}

/// Moves `amount` of free balance from `from` to `to`, as one step.
pub open spec fn transfer_spec(m: Map<u64, AccountData>, from: u64, to: u64, amount: u128) -> Option<
    Map<u64, AccountData>,
> {
    let f = account_of(m, from);
    let t = account_of(m, to);
    if f.free < amount {
        None
    } else if from == to {
        Some(m)
    } else if t.free + t.reserved + amount > u128::MAX {
        None
    } else {
        Some(
            m.insert(from, AccountData { free: (f.free - amount) as u128, reserved: f.reserved }).insert(
                to,
                AccountData { free: (t.free + amount) as u128, reserved: t.reserved },
            ),
        )
    }
}

/// The currency ledger.
pub struct Ledger {
    accounts: HashMap<u64, AccountData>,
}

impl View for Ledger {
    type V = Map<u64, AccountData>;

    closed spec fn view(&self) -> Map<u64, AccountData> {
        self.accounts@
    }
}

impl Ledger {
    /// A ledger in which no account holds anything.
    pub fn new() -> (r: Ledger)
        ensures
            r@ == Map::<u64, AccountData>::empty(),
    {
        Ledger { accounts: HashMap::new() }
    }

    /// A copy of this ledger, for staging changes that may be dropped.
    pub fn snapshot(&self) -> (r: Ledger)
        ensures
            r@ == self@,
    {
        Ledger { accounts: self.accounts.clone() }
    }

    /// The balances of `who`.
    pub fn account(&self, who: u64) -> (r: AccountData)
        ensures
            r == account_of(self@, who),
    {
        match self.accounts.get(&who) {
            Some(d) => *d,
            None => AccountData { free: 0, reserved: 0 },
        }
    }

    pub fn free_balance(&self, who: u64) -> (r: u128)
        ensures
            r == free_of(self@, who),
    {
        self.account(who).free
    }

    pub fn reserved_balance(&self, who: u64) -> (r: u128)
        ensures
            r == reserved_of(self@, who),
    {
        self.account(who).reserved
    }

    pub fn reserve(&mut self, who: u64, amount: u128) -> (r: Result<(), LedgerError>)
        requires
            ledger_ok(old(self)@),
        ensures
            ledger_ok(final(self)@),
            match reserve_spec(old(self)@, who, amount) {
                Some(m) => r == Ok::<(), LedgerError>(()) && final(self)@ == m,
                None => r == Err::<(), LedgerError>(LedgerError::InsufficientBalance) && final(self)@
                    == old(self)@,
            },
    {
        let d = self.account(who);
        if d.free < amount {
            return Err(LedgerError::InsufficientBalance);
        }
        self.accounts.insert(who, AccountData { free: d.free - amount, reserved: d.reserved + amount });
        Ok(())
    }

    /// Moves up to `amount` back to free and returns the part that was not reserved.
    pub fn unreserve(&mut self, who: u64, amount: u128) -> (r: u128)
        requires
            ledger_ok(old(self)@),
        ensures
            ledger_ok(final(self)@),
            final(self)@ == unreserve_spec(old(self)@, who, amount),
            r == amount - unreservable(old(self)@, who, amount),
    {
        let d = self.account(who);
        let moved = if amount <= d.reserved {
            amount
        } else {
            d.reserved
        };
        self.accounts.insert(who, AccountData { free: d.free + moved, reserved: d.reserved - moved });
        amount - moved
    }

    pub fn withdraw(&mut self, who: u64, amount: u128) -> (r: Result<(), LedgerError>)
        requires
            ledger_ok(old(self)@),
        ensures
            ledger_ok(final(self)@),
            match withdraw_spec(old(self)@, who, amount) {
                Some(m) => r == Ok::<(), LedgerError>(()) && final(self)@ == m,
                None => r == Err::<(), LedgerError>(LedgerError::InsufficientBalance) && final(self)@
                    == old(self)@,
            },
    {
        let d = self.account(who);
        if d.free < amount {
            return Err(LedgerError::InsufficientBalance);
        }
        self.accounts.insert(who, AccountData { free: d.free - amount, reserved: d.reserved });
        Ok(())
    }

    pub fn deposit(&mut self, who: u64, amount: u128) -> (r: Result<(), LedgerError>)
        requires
            ledger_ok(old(self)@),
        ensures
            ledger_ok(final(self)@),
            match deposit_spec(old(self)@, who, amount) {
                Some(m) => r == Ok::<(), LedgerError>(()) && final(self)@ == m,
                None => r == Err::<(), LedgerError>(LedgerError::Overflow) && final(self)@ == old(
                    self,
                )@,
            },
    {
        let d = self.account(who);
        if amount > u128::MAX - d.free - d.reserved {
            return Err(LedgerError::Overflow);
        }
        self.accounts.insert(who, AccountData { free: d.free + amount, reserved: d.reserved });
        Ok(())
    }

    pub fn transfer(&mut self, from: u64, to: u64, amount: u128) -> (r: Result<(), LedgerError>)
        requires
            ledger_ok(old(self)@),
        ensures
            ledger_ok(final(self)@),
            match transfer_spec(old(self)@, from, to, amount) {
                Some(m) => r is Ok && final(self)@ == m,
                None => r is Err && final(self)@ == old(self)@,
            },
            r == Err::<(), LedgerError>(LedgerError::InsufficientBalance) <==> free_of(old(self)@, from)
                < amount,
    {
        let f = self.account(from);
        if f.free < amount {
            return Err(LedgerError::InsufficientBalance);
        }
        if from == to {
            return Ok(());
        }
        let t = self.account(to);
        if amount > u128::MAX - t.free - t.reserved {
            return Err(LedgerError::Overflow);
        }
        self.accounts.insert(from, AccountData { free: f.free - amount, reserved: f.reserved });
        self.accounts.insert(to, AccountData { free: t.free + amount, reserved: t.reserved });
        Ok(())
    }
}

} // verus!
