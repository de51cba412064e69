//! Capability keys that gate access to a directed channel.
//!
//! A [`MasterKey`] is a root credential with a bounded or unbounded issuance
//! budget. It issues two kinds of proof tokens: a [`DataKey`], which must be
//! presented to dereference a data pointer, and a [`ChannelKey`], which must
//! be presented to flush a channel. A [`DataKey`] can be converted into a
//! [`ChannelKey`] only by consuming it, which is the mechanism that keeps a
//! data-access window and a flush window from overlapping: the very value
//! that proved data access is given up to gain flush access.

use vstd::prelude::*;

verus! {

/// A root credential that issues capability keys.
///
/// The budget is either unbounded, or a finite count of keys that may still
/// be issued. Each issued key spends one unit of a bounded budget.
pub struct MasterKey {
    remaining: Option<u64>,
}

/// A proof token for dereferencing a data pointer.
///
/// It carries no payload; presenting it is purely a proof obligation. It is
/// move-only and cannot be forged outside this crate.
#[must_use]
pub struct DataKey {
    _private: (),
}

/// A proof token for flushing a directed channel.
///
/// It carries no payload; presenting it is purely a proof obligation. It is
/// move-only and cannot be forged outside this crate.
#[must_use]
pub struct ChannelKey {
    _private: (),
}

/// How one issuance changes a budget: an unbounded budget stays unbounded,
/// a bounded budget loses one unit.
pub open spec fn spent(pre: Option<u64>, post: Option<u64>) -> bool {
    match pre {
        Option::None => post is None,
        Option::Some(n) => post == Option::Some((n - 1) as u64),
    }
}

impl MasterKey {
    /// The issuance budget left: `None` for unbounded, `Some(n)` for `n`
    /// more keys.
    pub closed spec fn budget(&self) -> Option<u64> {
        self.remaining
    }

    /// Whether this credential can still issue a key.
    pub open spec fn can_issue(&self) -> bool {
        match self.budget() {
            Option::None => true,
            Option::Some(n) => n > 0,
        }
    }

    /// A root credential with an unbounded issuance budget.
    pub fn create_unlimited() -> (key: MasterKey)
        ensures
            key.budget() is None,
    {
        MasterKey { remaining: None }
    }

    /// A root credential that can issue at most `budget` keys.
    pub fn create_limited(budget: u64) -> (key: MasterKey)
        ensures
            key.budget() == Option::Some(budget),
    {
        MasterKey { remaining: Some(budget) }
    }

    /// The budget left, as a plain value.
    pub fn remaining(&self) -> (r: Option<u64>)
        ensures
            r == self.budget(),
    {
        self.remaining
    }

    /// Issue a data-access key, spending one unit of a bounded budget.
    pub fn get_data_key(&mut self) -> (key: DataKey)
        requires
            old(self).can_issue(),
        ensures
            spent(old(self).budget(), final(self).budget()),
    {
        self.spend();
        DataKey { _private: () }
    }

    /// Issue a flush key directly, spending one unit of a bounded budget.
    pub fn get_channel_key(&mut self) -> (key: ChannelKey)
        requires
            old(self).can_issue(),
        ensures
            spent(old(self).budget(), final(self).budget()),
    {
        self.spend();
        ChannelKey { _private: () }
    }

    fn spend(&mut self)
        requires
            old(self).can_issue(),
        ensures
            spent(old(self).budget(), final(self).budget()),
    {
        match self.remaining {
            None => {},
            Some(n) => {
                self.remaining = Some(n - 1);
            },
        }
    }
}

impl DataKey {
    /// Trade data access for flush access: the data-access key is consumed,
    /// so the two kinds of access cannot be held over one window.
    pub fn into_channel_key(self) -> (key: ChannelKey) {
        ChannelKey { _private: () }
    }
}

} // verus!
