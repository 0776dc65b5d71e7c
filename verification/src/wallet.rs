//! The owner registry: who owns a wallet, how many of them must approve, and
//! the version of the owner set under which approvals count.
use vstd::prelude::*;
use crate::error::WalletError;
use crate::pubkey::{PUBKEY_BYTES, Pubkey};

verus! {

/// Bytes of the type tag that every stored record begins with.
pub const RECORD_TAG_BYTES: usize = 4;

/// Bytes of the length that goes before a stored sequence.
pub const LENGTH_PREFIX_BYTES: usize = 4;

/// Bytes of a wallet record without its owners, reserved block included.
pub const SMART_WALLET_BYTES: usize = 232;

/// A wallet owned jointly by several addresses.
#[derive(Debug, PartialEq, Default)]
pub struct SmartWallet {
    /// Key that separates the addresses derived for this wallet from all others.
    pub base: Pubkey,
    /// Nonce of the wallet's own derived address.
    pub bump: u8,
    /// Number of owners that the wallet's record has room for, fixed at creation.
    pub max_owners: u8,
    /// Number of owner approvals that a transaction needs.
    pub threshold: u64,
    /// Least time, in seconds, between a proposal and its execution time.
    pub minimum_delay: i64,
    /// Time, in seconds, for which a transaction stays executable after its execution time.
    pub grace_period: i64,
    /// Version of the owner set. Every change of the owners or of the threshold adds one.
    pub owner_set_seqno: u32,
    /// Number of transactions proposed so far; the index of the next one.
    pub num_transactions: u64,
    /// The owners. An owner's position is its place in every approval list.
    pub owners: Vec<Pubkey>,
    /// Unused space kept for later fields. It holds no live data.
    pub reserved: [u64; 16],
}

/// `i` is the first position of `key` in `s`.
pub open spec fn is_first_index(s: Seq<Pubkey>, key: Pubkey, i: int) -> bool {
    &&& 0 <= i < s.len()
    &&& s[i] == key
    &&& forall|j: int| 0 <= j < i ==> s[j] != key
}

/// The first position of `key` in `s`, if it occurs there.
pub open spec fn first_index(s: Seq<Pubkey>, key: Pubkey) -> Option<int> {
    if exists|i: int| is_first_index(s, key, i) {
        Some(choose|i: int| is_first_index(s, key, i))
    } else {
        None
    }
}

/// A key has at most one first position, and has one exactly when it occurs.
pub proof fn lemma_first_index(s: Seq<Pubkey>, key: Pubkey)
    ensures
        forall|i: int| is_first_index(s, key, i) ==> first_index(s, key) == Some(i),
        s.contains(key) <==> first_index(s, key) is Some,
        first_index(s, key) matches Some(i) ==> is_first_index(s, key, i),
{
    assert forall|i: int| is_first_index(s, key, i) implies first_index(s, key) == Some(i) by {
        let c = choose|c: int| is_first_index(s, key, c);
        assert(is_first_index(s, key, c));
        if c < i {
            assert(s[c] == key);
        } else if i < c {
            assert(s[i] == key);
        }
    }
    if s.contains(key) {
        lemma_first_occurrence(s, key, s.len() as int);
    }
    if first_index(s, key) is Some {
        let c = choose|c: int| is_first_index(s, key, c);
        assert(is_first_index(s, key, c));
        assert(s[c] == key);
    }
}

/// A key that occurs before position `n` has a first position.
proof fn lemma_first_occurrence(s: Seq<Pubkey>, key: Pubkey, n: int)
    requires
        0 <= n <= s.len(),
        exists|i: int| 0 <= i < n && s[i] == key,
    ensures
        exists|i: int| is_first_index(s, key, i),
    decreases n,
{
    if exists|i: int| 0 <= i < n - 1 && s[i] == key {
        lemma_first_occurrence(s, key, n - 1);
    } else {
        assert(s[n - 1] == key);
        assert(is_first_index(s, key, n - 1));
    }
}

/// Taking one item out of a sequence without repeats leaves no repeats.
pub proof fn lemma_remove_keeps_distinct(s: Seq<Pubkey>, at: int)
    requires
        s.no_duplicates(),
        0 <= at < s.len(),
    ensures
        s.remove(at).no_duplicates(),
        forall|k: Pubkey| s.remove(at).contains(k) <==> (s.contains(k) && k != s[at]),
{
    let r = s.remove(at);
    assert forall|i: int, j: int| 0 <= i < r.len() && 0 <= j < r.len() && i != j implies r[i]
        != r[j] by {
        let a = if i < at { i } else { i + 1 };
        let b = if j < at { j } else { j + 1 };
        assert(r[i] == s[a]);
        assert(r[j] == s[b]);
    }
    assert forall|k: Pubkey| r.contains(k) <==> (s.contains(k) && k != s[at]) by {
        if r.contains(k) {
            let i = choose|i: int| 0 <= i < r.len() && r[i] == k;
            let a = if i < at { i } else { i + 1 };
            assert(s[a] == k);
        }
        if s.contains(k) && k != s[at] {
            let a = choose|a: int| 0 <= a < s.len() && s[a] == k;
            let i = if a < at { a } else { a - 1 };
            assert(r[i] == k);
        }
    }
}

/// Adding an item that does not occur yet leaves no repeats.
pub proof fn lemma_push_keeps_distinct(s: Seq<Pubkey>, key: Pubkey)
    requires
        s.no_duplicates(),
        !s.contains(key),
    ensures
        s.push(key).no_duplicates(),
{
    let r = s.push(key);
    assert forall|i: int, j: int| 0 <= i < r.len() && 0 <= j < r.len() && i != j implies r[i]
        != r[j] by {
        if i < s.len() {
            assert(s.contains(r[i]));
        }
        if j < s.len() {
            assert(s.contains(r[j]));
        }
    }
}

/// Putting an item that does not occur yet in the place of another leaves no repeats.
pub proof fn lemma_update_keeps_distinct(s: Seq<Pubkey>, at: int, key: Pubkey)
    requires
        s.no_duplicates(),
        0 <= at < s.len(),
        !s.contains(key),
    ensures
        s.update(at, key).no_duplicates(),
{
    let r = s.update(at, key);
    assert forall|i: int, j: int| 0 <= i < r.len() && 0 <= j < r.len() && i != j implies r[i]
        != r[j] by {
        if i != at {
            assert(s.contains(r[i]));
        }
        if j != at {
            assert(s.contains(r[j]));
        }
    }
}

/// Tells whether some address stands twice in the list.
pub fn has_duplicates(keys: &Vec<Pubkey>) -> (r: bool)
    ensures
        r == !keys@.no_duplicates(),
{
    let mut i: usize = 0;
    while i < keys.len()
        invariant
            i <= keys.len(),
            forall|a: int, b: int| 0 <= a < b < i ==> keys@[a] != keys@[b],
        decreases keys.len() - i,
    {
        let mut j: usize = 0;
        while j < i
            invariant
                j <= i,
                i < keys.len(),
                forall|a: int| 0 <= a < j ==> keys@[a] != keys@[i as int],
            decreases i - j,
        {
            if keys[j] == keys[i] {
                assert(keys@[j as int] == keys@[i as int]);
                return true;
            }
            j += 1;
        }
        i += 1;
    }
    assert forall|a: int, b: int|
        0 <= a < keys@.len() && 0 <= b < keys@.len() && a != b implies keys@[a] != keys@[b] by {
        if a < b {
            assert(keys@[a] != keys@[b]);
        } else {
            assert(keys@[b] != keys@[a]);
        }
    }
    false
}

impl SmartWallet {
    /// What always holds of a wallet: the threshold is at least one and at most
    /// the number of owners, no owner stands twice, the owners fit in the room
    /// that the record has for them, and both durations are non-negative.
    pub open spec fn wf(&self) -> bool {
        &&& 1 <= self.threshold <= self.owners@.len()
        &&& self.owners@.no_duplicates()
        &&& self.owners@.len() <= self.max_owners
        &&& self.minimum_delay >= 0
        &&& self.grace_period >= 0
    }

    /// Bytes of a wallet record with room for `max_owners` owners.
    pub open spec fn spec_space(max_owners: u8) -> int {
        4 + 232 + 4 + 32 * (max_owners as int)
    }

    /// The position of `key` among the owners, if it is one.
    pub open spec fn spec_owner_index(&self, key: Pubkey) -> Option<int> {
        first_index(self.owners@, key)
    }

    /// `self` is `before` after one change of the owner set: it has the given
    /// owners and threshold, the next version, and is otherwise the same.
    pub open spec fn follows(&self, before: &SmartWallet, owners: Seq<Pubkey>, threshold: u64) -> bool {
        &&& self.owners@ == owners
        &&& self.threshold == threshold
        &&& self.owner_set_seqno == before.owner_set_seqno + 1
        &&& self.base == before.base
        &&& self.bump == before.bump
        &&& self.max_owners == before.max_owners
        &&& self.minimum_delay == before.minimum_delay
        &&& self.grace_period == before.grace_period
        &&& self.num_transactions == before.num_transactions
        &&& self.reserved == before.reserved
    }

    /// Why a wallet with these settings cannot be created, if it cannot.
    pub open spec fn new_error(
        max_owners: u8,
        owners: Seq<Pubkey>,
        threshold: u64,
        minimum_delay: i64,
        grace_period: i64,
    ) -> Option<WalletError> {
        if minimum_delay < 0 || grace_period < 0 {
            Some(WalletError::InvalidDelay)
        } else if owners.len() > max_owners {
            Some(WalletError::TooManyOwners)
        } else if !owners.no_duplicates() {
            Some(WalletError::DuplicateOwner)
        } else if threshold < 1 || threshold > owners.len() {
            Some(WalletError::InvalidThreshold)
        } else {
            None
        }
    }

    /// Why the owner list cannot be replaced by `owners`, if it cannot.
    pub open spec fn set_owners_error(&self, owners: Seq<Pubkey>) -> Option<WalletError> {
        if owners.len() > self.max_owners {
            Some(WalletError::TooManyOwners)
        } else if !owners.no_duplicates() {
            Some(WalletError::DuplicateOwner)
        } else if self.threshold > owners.len() {
            Some(WalletError::InvalidThreshold)
        } else if self.owner_set_seqno == u32::MAX {
            Some(WalletError::Overflow)
        } else {
            None
        }
    }

    /// Why `key` cannot be added as an owner, if it cannot.
    pub open spec fn add_owner_error(&self, key: Pubkey) -> Option<WalletError> {
        if self.owners@.contains(key) {
            Some(WalletError::DuplicateOwner)
        } else if self.owners@.len() >= self.max_owners {
            Some(WalletError::TooManyOwners)
        } else if self.owner_set_seqno == u32::MAX {
            Some(WalletError::Overflow)
        } else {
            None
        }
    }

    /// Why `key` cannot be removed from the owners, if it cannot.
    pub open spec fn remove_owner_error(&self, key: Pubkey) -> Option<WalletError> {
        if !self.owners@.contains(key) {
            Some(WalletError::InvalidOwner)
        } else if self.threshold > self.owners@.len() - 1 {
            Some(WalletError::InvalidThreshold)
        } else if self.owner_set_seqno == u32::MAX {
            Some(WalletError::Overflow)
        } else {
            None
        }
    }

    /// Why `new_key` cannot take the place of `old_key`, if it cannot.
    pub open spec fn replace_owner_error(&self, old_key: Pubkey, new_key: Pubkey) -> Option<
        WalletError,
    > {
        if !self.owners@.contains(old_key) {
            Some(WalletError::InvalidOwner)
        } else if self.owners@.contains(new_key) {
            Some(WalletError::DuplicateOwner)
        } else if self.owner_set_seqno == u32::MAX {
            Some(WalletError::Overflow)
        } else {
            None
        }
    }

    /// Why the threshold cannot become `threshold`, if it cannot.
    pub open spec fn change_threshold_error(&self, threshold: u64) -> Option<WalletError> {
        if threshold < 1 || threshold > self.owners@.len() {
            Some(WalletError::InvalidThreshold)
        } else if self.owner_set_seqno == u32::MAX {
            Some(WalletError::Overflow)
        } else {
            None
        }
    }

    /// Computes the bytes of a wallet record with room for `max_owners` owners.
    pub fn space(max_owners: u8) -> (r: usize)
        ensures
            r == Self::spec_space(max_owners),
    {
        let n: usize = max_owners as usize;
        RECORD_TAG_BYTES + SMART_WALLET_BYTES + LENGTH_PREFIX_BYTES + PUBKEY_BYTES * n
    }

    /// Computes the bytes of this wallet's record: room for as many owners as
    /// were allowed for at creation, however many there are now.
    pub fn record_space(&self) -> (r: usize)
        ensures
            r == Self::spec_space(self.max_owners),
    {
        Self::space(self.max_owners)
    }

    /// Finds the position of `key` among the owners.
    pub fn owner_index_opt(&self, key: Pubkey) -> (r: Option<usize>)
        ensures
            match r {
                Some(i) => self.spec_owner_index(key) == Some(i as int) && is_first_index(
                    self.owners@,
                    key,
                    i as int,
                ),
                None => self.spec_owner_index(key) is None && !self.owners@.contains(key),
            },
    {
        proof {
            lemma_first_index(self.owners@, key);
        }
        let mut i: usize = 0;
        while i < self.owners.len()
            invariant
                i <= self.owners.len(),
                forall|j: int| 0 <= j < i ==> self.owners@[j] != key,
            decreases self.owners.len() - i,
        {
            if self.owners[i] == key {
                assert(is_first_index(self.owners@, key, i as int));
                return Some(i);
            }
            i += 1;
        }
        None
    }

    /// Finds the position of `key` among the owners, or refuses with
    /// `InvalidOwner` when it is not one.
    pub fn try_owner_index(&self, key: Pubkey) -> (r: Result<usize, WalletError>)
        ensures
            match r {
                Ok(i) => self.spec_owner_index(key) == Some(i as int) && is_first_index(
                    self.owners@,
                    key,
                    i as int,
                ),
                Err(e) => e == WalletError::InvalidOwner && !self.owners@.contains(key),
            },
    {
        proof {
            lemma_first_index(self.owners@, key);
        }
        match self.owner_index_opt(key) {
            Some(i) => Ok(i),
            None => Err(WalletError::InvalidOwner),
        }
    }

    /// Tells whether `key` is one of the owners.
    pub fn is_owner(&self, key: Pubkey) -> (r: bool)
        ensures
            r == self.owners@.contains(key),
    {
        self.owner_index_opt(key).is_some()
    }

    /// Tells whether the wallet is well formed.
    pub fn is_valid(&self) -> (r: bool)
        ensures
            r == self.wf(),
    {
        self.threshold >= 1 && self.threshold <= self.owners.len() as u64 && self.owners.len()
            <= self.max_owners as usize && !has_duplicates(&self.owners) && self.minimum_delay >= 0
            && self.grace_period >= 0
    }

    /// Creates a wallet at version zero, with no transaction proposed yet.
    pub fn new(
        base: Pubkey,
        bump: u8,
        max_owners: u8,
        owners: Vec<Pubkey>,
        threshold: u64,
        minimum_delay: i64,
        grace_period: i64,
    ) -> (r: Result<SmartWallet, WalletError>)
        ensures
            match r {
                Ok(w) => {
                    &&& Self::new_error(
                        max_owners,
                        owners@,
                        threshold,
                        minimum_delay,
                        grace_period,
                    ) is None
                    &&& w.wf()
                    &&& w.base == base
                    &&& w.bump == bump
                    &&& w.max_owners == max_owners
                    &&& w.owners@ == owners@
                    &&& w.threshold == threshold
                    &&& w.minimum_delay == minimum_delay
                    &&& w.grace_period == grace_period
                    &&& w.owner_set_seqno == 0
                    &&& w.num_transactions == 0
                },
                Err(e) => Some(e) == Self::new_error(
                    max_owners,
                    owners@,
                    threshold,
                    minimum_delay,
                    grace_period,
                ),
            },
    {
        if minimum_delay < 0 || grace_period < 0 {
            return Err(WalletError::InvalidDelay);
        }
        if owners.len() > max_owners as usize {
            return Err(WalletError::TooManyOwners);
        }
        if has_duplicates(&owners) {
            return Err(WalletError::DuplicateOwner);
        }
        if threshold < 1 || threshold > owners.len() as u64 {
            return Err(WalletError::InvalidThreshold);
        }
        Ok(
            SmartWallet {
                base,
                bump,
                max_owners,
                threshold,
                minimum_delay,
                grace_period,
                owner_set_seqno: 0,
                num_transactions: 0,
                owners,
                reserved: [0u64; 16],
            },
        )
    }

    /// Replaces the whole owner list and moves to the next version.
    pub fn set_owners(&mut self, owners: Vec<Pubkey>) -> (r: Result<(), WalletError>)
        requires
            old(self).wf(),
        ensures
            match r {
                Ok(()) => {
                    &&& old(self).set_owners_error(owners@) is None
                    &&& final(self).follows(old(self), owners@, old(self).threshold)
                    &&& final(self).wf()
                },
                Err(e) => Some(e) == old(self).set_owners_error(owners@) && *final(self) == *old(self),
            },
    {
        if owners.len() > self.max_owners as usize {
            return Err(WalletError::TooManyOwners);
        }
        if has_duplicates(&owners) {
            return Err(WalletError::DuplicateOwner);
        }
        if self.threshold > owners.len() as u64 {
            return Err(WalletError::InvalidThreshold);
        }
        if self.owner_set_seqno == u32::MAX {
            return Err(WalletError::Overflow);
        }
        self.owners = owners;
        self.owner_set_seqno = self.owner_set_seqno + 1;
        Ok(())
    }

    /// Adds `key` after the present owners and moves to the next version.
    pub fn add_owner(&mut self, key: Pubkey) -> (r: Result<(), WalletError>)
        requires
            old(self).wf(),
        ensures
            match r {
                Ok(()) => {
                    &&& old(self).add_owner_error(key) is None
                    &&& final(self).follows(
                        old(self),
                        old(self).owners@.push(key),
                        old(self).threshold,
                    )
                    &&& final(self).wf()
                },
                Err(e) => Some(e) == old(self).add_owner_error(key) && *final(self) == *old(self),
            },
    {
        if self.is_owner(key) {
            return Err(WalletError::DuplicateOwner);
        }
        if self.owners.len() >= self.max_owners as usize {
            return Err(WalletError::TooManyOwners);
        }
        if self.owner_set_seqno == u32::MAX {
            return Err(WalletError::Overflow);
        }
        proof {
            lemma_push_keeps_distinct(self.owners@, key);
        }
        self.owners.push(key);
        self.owner_set_seqno = self.owner_set_seqno + 1;
        Ok(())
    }

    /// Takes `key` out of the owners, keeping the order of the others, and
    /// moves to the next version.
    pub fn remove_owner(&mut self, key: Pubkey) -> (r: Result<(), WalletError>)
        requires
            old(self).wf(),
        ensures
            match r {
                Ok(()) => {
                    &&& old(self).remove_owner_error(key) is None
                    &&& old(self).spec_owner_index(key) matches Some(i)
                    &&& final(self).follows(
                        old(self),
                        old(self).owners@.remove(i),
                        old(self).threshold,
                    )
                    &&& !final(self).owners@.contains(key)
                    &&& final(self).wf()
                },
                Err(e) => Some(e) == old(self).remove_owner_error(key) && *final(self) == *old(self),
            },
    {
        let at: usize = match self.owner_index_opt(key) {
            Some(i) => i,
            None => {
                return Err(WalletError::InvalidOwner);
            },
        };
        assert(self.owners@[at as int] == key);
        if self.threshold > (self.owners.len() - 1) as u64 {
            return Err(WalletError::InvalidThreshold);
        }
        if self.owner_set_seqno == u32::MAX {
            return Err(WalletError::Overflow);
        }
        proof {
            lemma_remove_keeps_distinct(self.owners@, at as int);
        }
        let _ = self.owners.remove(at);
        self.owner_set_seqno = self.owner_set_seqno + 1;
        Ok(())
    }

    /// Puts `new_key` in the place of `old_key` and moves to the next version.
    pub fn replace_owner(&mut self, old_key: Pubkey, new_key: Pubkey) -> (r: Result<
        (),
        WalletError,
    >)
        requires
            old(self).wf(),
        ensures
            match r {
                Ok(()) => {
                    &&& old(self).replace_owner_error(old_key, new_key) is None
                    &&& old(self).spec_owner_index(old_key) matches Some(i)
                    &&& final(self).follows(
                        old(self),
                        old(self).owners@.update(i, new_key),
                        old(self).threshold,
                    )
                    &&& final(self).wf()
                },
                Err(e) => Some(e) == old(self).replace_owner_error(old_key, new_key) && *final(self) == *old(self),
            },
    {
        let at: usize = match self.owner_index_opt(old_key) {
            Some(i) => i,
            None => {
                return Err(WalletError::InvalidOwner);
            },
        };
        assert(self.owners@[at as int] == old_key);
        if self.is_owner(new_key) {
            return Err(WalletError::DuplicateOwner);
        }
        if self.owner_set_seqno == u32::MAX {
            return Err(WalletError::Overflow);
        }
        proof {
            lemma_update_keeps_distinct(self.owners@, at as int, new_key);
        }
        self.owners.set(at, new_key);
        self.owner_set_seqno = self.owner_set_seqno + 1;
        Ok(())
    }

    /// Sets the number of approvals that a transaction needs and moves to the
    /// next version, so that approvals given under the old threshold lapse.
    pub fn change_threshold(&mut self, threshold: u64) -> (r: Result<(), WalletError>)
        requires
            old(self).wf(),
        ensures
            match r {
                Ok(()) => {
                    &&& old(self).change_threshold_error(threshold) is None
                    &&& final(self).follows(old(self), old(self).owners@, threshold)
                    &&& final(self).wf()
                },
                Err(e) => Some(e) == old(self).change_threshold_error(threshold) && *final(self)
                    == *old(self),
            },
    {
        if threshold < 1 || threshold > self.owners.len() as u64 {
            return Err(WalletError::InvalidThreshold);
        }
        if self.owner_set_seqno == u32::MAX {
            return Err(WalletError::Overflow);
        }
        self.threshold = threshold;
        self.owner_set_seqno = self.owner_set_seqno + 1;
        Ok(())
    }
}

/// Whatever change of the owner set is accepted, the wallet that comes out of
/// it is well formed again: the threshold is at least one and at most the
/// number of owners, and no owner stands twice. This holds of adding,
/// removing and replacing an owner, of replacing the whole list, and of
/// changing the threshold.
pub proof fn lemma_accepted_change_keeps_wallet_valid(
    before: &SmartWallet,
    after: &SmartWallet,
    key: Pubkey,
    new_key: Pubkey,
    owners: Seq<Pubkey>,
    threshold: u64,
)
    requires
        before.wf(),
        ({
            ||| before.add_owner_error(key) is None && after.follows(
                before,
                before.owners@.push(key),
                before.threshold,
            )
            ||| before.remove_owner_error(key) is None && after.follows(
                before,
                before.owners@.remove(before.spec_owner_index(key).unwrap()),
                before.threshold,
            )
            ||| before.replace_owner_error(key, new_key) is None && after.follows(
                before,
                before.owners@.update(before.spec_owner_index(key).unwrap(), new_key),
                before.threshold,
            )
            ||| before.set_owners_error(owners) is None && after.follows(
                before,
                owners,
                before.threshold,
            )
            ||| before.change_threshold_error(threshold) is None && after.follows(
                before,
                before.owners@,
                threshold,
            )
        }),
    ensures
        after.wf(),
        1 <= after.threshold <= after.owners@.len(),
        after.owners@.no_duplicates(),
        after.owner_set_seqno == before.owner_set_seqno + 1,
{
    lemma_first_index(before.owners@, key);
    if before.owners@.contains(key) {
        let at = before.spec_owner_index(key).unwrap();
        lemma_remove_keeps_distinct(before.owners@, at);
        if !before.owners@.contains(new_key) {
            lemma_update_keeps_distinct(before.owners@, at, new_key);
        }
    } else {
        lemma_push_keeps_distinct(before.owners@, key);
    }
}

} // verus!
