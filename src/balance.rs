use vstd::prelude::*;

verus! {

/// The most inbound credits that may accumulate in the pending balance before
/// an apply is required.
pub const MAX_PENDING_CREDITS: u64 = 65536;

/// An account's balances as plaintext amounts: the public balance, and the
/// values that the pending and available ciphertexts encrypt.
///
/// This mirrors what the ledger program enforces; it does not replace it.
#[derive(Clone, Copy, Debug, PartialEq, Eq, Structural)]
pub struct BalanceState {
    pub public: u64,
    pub pending: u64,
    pub available: u64,
    pub pending_credits: u64,
}

impl BalanceState {
    /// Whether a credit of `amount` can be added to the pending balance.
    pub open spec fn can_credit(self, amount: u64) -> bool {
        self.pending + amount <= u64::MAX && self.pending_credits < MAX_PENDING_CREDITS
    }

    /// Moves `amount` from the public balance to the pending balance, as one
    /// inbound credit. Returns whether the move was legal; an illegal one leaves
    /// the state unchanged.
    pub fn deposit(&mut self, amount: u64) -> (r: bool)
        ensures
            r == (amount <= old(self).public && old(self).can_credit(amount)),
            r ==> *final(self) == (BalanceState {
                public: (old(self).public - amount) as u64,
                pending: (old(self).pending + amount) as u64,
                pending_credits: (old(self).pending_credits + 1) as u64,
                ..*old(self)
            }),
            !r ==> *final(self) == *old(self),
    {
        if amount <= self.public && amount <= u64::MAX - self.pending && self.pending_credits
            < MAX_PENDING_CREDITS {
            self.public = self.public - amount;
            self.pending = self.pending + amount;
            self.pending_credits = self.pending_credits + 1;
            true
        } else {
            false
        }
    }

    /// Moves the pending balance into the available balance and resets the
    /// credit counter. With no pending credit this is a no-op, not an error.
    /// Returns whether anything moved.
    pub fn apply_pending(&mut self) -> (r: bool)
        ensures
            r == (old(self).pending_credits >= 1 && old(self).available + old(self).pending
                <= u64::MAX),
            r ==> *final(self) == (BalanceState {
                pending: 0,
                available: (old(self).available + old(self).pending) as u64,
                pending_credits: 0,
                ..*old(self)
            }),
            !r ==> *final(self) == *old(self),
    {
        if self.pending_credits >= 1 && self.pending <= u64::MAX - self.available {
            self.available = self.available + self.pending;
            self.pending = 0;
            self.pending_credits = 0;
            true
        } else {
            false
        }
    }

    /// Moves `amount` from this account's available balance to `recipient`'s
    /// pending balance, as one inbound credit there. Returns whether the move
    /// was legal; an illegal one leaves both states unchanged.
    pub fn transfer(&mut self, recipient: &mut BalanceState, amount: u64) -> (r: bool)
        ensures
            r == (amount <= old(self).available && old(recipient).can_credit(amount)),
            r ==> *final(self) == (BalanceState {
                available: (old(self).available - amount) as u64,
                ..*old(self)
            }),
            r ==> *final(recipient) == (BalanceState {
                pending: (old(recipient).pending + amount) as u64,
                pending_credits: (old(recipient).pending_credits + 1) as u64,
                ..*old(recipient)
            }),
            !r ==> *final(self) == *old(self) && *final(recipient) == *old(recipient),
    {
        if amount <= self.available && amount <= u64::MAX - recipient.pending
            && recipient.pending_credits < MAX_PENDING_CREDITS {
            self.available = self.available - amount;
            recipient.pending = recipient.pending + amount;
            recipient.pending_credits = recipient.pending_credits + 1;
            true
        } else {
            false
        }
    }

    /// Moves `amount` from the available balance back to the public balance.
    /// Returns whether the move was legal; an illegal one leaves the state
    /// unchanged.
    pub fn withdraw(&mut self, amount: u64) -> (r: bool)
        ensures
            r == (amount <= old(self).available && old(self).public + amount <= u64::MAX),
            r ==> *final(self) == (BalanceState {
                available: (old(self).available - amount) as u64,
                public: (old(self).public + amount) as u64,
                ..*old(self)
            }),
            !r ==> *final(self) == *old(self),
    {
        if amount <= self.available && amount <= u64::MAX - self.public {
            self.available = self.available - amount;
            self.public = self.public + amount;
            true
        } else {
            false
        }
    }
}

} // verus!
