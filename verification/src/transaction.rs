//! The life of a transaction: proposed, approved by owners, executed once.
use vstd::prelude::*;
use crate::error::WalletError;
use crate::instruction::{
    TXInstruction,
    checked_instructions_space,
    instructions_space,
    instructions_view,
};
use crate::pubkey::Pubkey;
use crate::timelock::{
    NOT_EXECUTED,
    eta_allowed,
    eta_reached,
    expired,
    is_eta_allowed,
    is_eta_reached,
    is_expired,
    is_timestamp,
};
use crate::wallet::{LENGTH_PREFIX_BYTES, RECORD_TAG_BYTES, SmartWallet, lemma_first_index};

verus! {

/// Bytes of a transaction record without its instructions.
pub const TRANSACTION_BYTES: usize = 184;

/// A batch of instructions that a wallet may execute once enough owners approve.
#[derive(Debug, PartialEq)]
pub struct Transaction {
    /// The wallet that the transaction belongs to.
    pub smart_wallet: Pubkey,
    /// The wallet's transaction count when this one was proposed.
    pub index: u64,
    /// Nonce of the transaction's own derived address.
    pub bump: u8,
    /// Who proposed the transaction.
    pub proposer: Pubkey,
    /// The instructions, in the order in which they run.
    pub instructions: Vec<TXInstruction>,
    /// `signers[i]` is true exactly when the wallet's owner at position `i` approves.
    pub signers: Vec<bool>,
    /// The wallet's owner set version when the transaction was proposed.
    pub owner_set_seqno: u32,
    /// Earliest time of execution, or `NO_ETA`.
    pub eta: i64,
    /// Who executed the transaction.
    pub executor: Pubkey,
    /// When the transaction was executed, or `NOT_EXECUTED`.
    pub executed_at: i64,
}

/// Where a transaction stands in its life, seen from a wallet at some time.
#[derive(Clone, Copy, Debug, PartialEq, Eq, Structural)]
pub enum TransactionState {
    /// Nobody has approved yet.
    Proposed,
    /// Some owners have approved, but execution is not open: approvals are
    /// missing or the execution time has not come.
    Approving,
    /// Execution is open.
    Executable,
    /// The transaction has been executed. This is the end of its life.
    Executed,
    /// The grace period has passed without an execution.
    Expired,
    /// The owner set has changed since the proposal; the approvals are void.
    Stale,
}

/// Number of approvals in an approval list.
pub open spec fn count_approvals(s: Seq<bool>) -> nat
    decreases s.len(),
{
    if s.len() == 0 {
        0
    } else {
        count_approvals(s.drop_last()) + if s.last() {
            1nat
        } else {
            0nat
        }
    }
}

/// The approval list after the owner at position `i` has approved.
pub open spec fn approved(s: Seq<bool>, i: int) -> Seq<bool> {
    s.update(i, true)
}

/// The approval list after the owner at position `i` has approved `n` times in a row.
pub open spec fn approved_times(s: Seq<bool>, i: int, n: nat) -> Seq<bool>
    decreases n,
{
    if n == 0 {
        s
    } else {
        approved(approved_times(s, i, (n - 1) as nat), i)
    }
}

/// Approving again changes nothing: any number of approvals by one owner, one
/// or more, leaves the same approval list as a single one.
pub proof fn lemma_approve_idempotent(s: Seq<bool>, i: int, n: nat)
    requires
        0 <= i < s.len(),
        n >= 1,
    ensures
        approved_times(s, i, n) == approved(s, i),
    decreases n,
{
    if n == 1 {
        assert(approved_times(s, i, 0) == s);
    } else {
        lemma_approve_idempotent(s, i, (n - 1) as nat);
        assert(approved(approved(s, i), i) =~= approved(s, i));
    }
}

impl Transaction {
    /// The transaction has been executed. Nothing about it changes after that.
    pub open spec fn is_executed(&self) -> bool {
        self.executed_at != NOT_EXECUTED
    }

    /// Number of owners whose approval is recorded.
    pub open spec fn spec_num_signers(&self) -> nat {
        count_approvals(self.signers@)
    }

    /// Bytes of a transaction record that holds the given instructions.
    pub open spec fn spec_space(instructions: Seq<TXInstruction>) -> int {
        4 + 184 + 4 + instructions_space(instructions_view(instructions))
    }

    /// The transaction was proposed on `wallet` or on an earlier state of it:
    /// its owner set version is not ahead of the wallet's, and while the two
    /// agree there is one vote for each owner.
    pub open spec fn in_step_with(&self, wallet: &SmartWallet) -> bool {
        &&& self.owner_set_seqno <= wallet.owner_set_seqno
        &&& self.owner_set_seqno == wallet.owner_set_seqno ==> self.signers@.len()
            == wallet.owners@.len()
    }

    /// `self` differs from `before` in its approval list at most.
    pub open spec fn same_but_signers(&self, before: &Transaction) -> bool {
        &&& self.smart_wallet == before.smart_wallet
        &&& self.index == before.index
        &&& self.bump == before.bump
        &&& self.proposer == before.proposer
        &&& self.instructions == before.instructions
        &&& self.owner_set_seqno == before.owner_set_seqno
        &&& self.eta == before.eta
        &&& self.executor == before.executor
        &&& self.executed_at == before.executed_at
    }

    /// `self` differs from `before` in its executor and execution time at most.
    pub open spec fn same_but_execution(&self, before: &Transaction) -> bool {
        &&& self.smart_wallet == before.smart_wallet
        &&& self.index == before.index
        &&& self.bump == before.bump
        &&& self.proposer == before.proposer
        &&& self.instructions == before.instructions
        &&& self.signers == before.signers
        &&& self.owner_set_seqno == before.owner_set_seqno
        &&& self.eta == before.eta
    }

    /// Why a transaction with execution time `eta` cannot be proposed at `now`, if it cannot.
    pub open spec fn propose_error(wallet: &SmartWallet, eta: i64, now: i64) -> Option<
        WalletError,
    > {
        if !eta_allowed(eta, wallet.minimum_delay, now) {
            Some(WalletError::InvalidETA)
        } else if wallet.num_transactions == u64::MAX {
            Some(WalletError::Overflow)
        } else {
            None
        }
    }

    /// Why `owner` cannot change its vote on this transaction, if it cannot.
    pub open spec fn vote_error(&self, wallet: &SmartWallet, owner: Pubkey) -> Option<
        WalletError,
    > {
        if self.is_executed() {
            Some(WalletError::AlreadyExecuted)
        } else if self.owner_set_seqno != wallet.owner_set_seqno {
            Some(WalletError::StaleOwnerSet)
        } else {
            match wallet.spec_owner_index(owner) {
                Some(i) => if i < self.signers@.len() {
                    None
                } else {
                    Some(WalletError::InvalidOwner)
                },
                None => Some(WalletError::InvalidOwner),
            }
        }
    }

    /// Why this transaction cannot be executed at `now`, if it cannot. The
    /// first reason that applies is given: already executed, owner set changed,
    /// expired, too few approvals, too early.
    pub open spec fn execution_error(&self, wallet: &SmartWallet, now: i64) -> Option<
        WalletError,
    > {
        if self.is_executed() {
            Some(WalletError::AlreadyExecuted)
        } else if self.owner_set_seqno != wallet.owner_set_seqno {
            Some(WalletError::StaleOwnerSet)
        } else if expired(self.eta, wallet.grace_period, now) {
            Some(WalletError::TransactionExpired)
        } else if self.spec_num_signers() < wallet.threshold {
            Some(WalletError::ThresholdNotMet)
        } else if !eta_reached(self.eta, now) {
            Some(WalletError::TransactionNotReady)
        } else {
            None
        }
    }

    /// Where the transaction stands, seen from `wallet` at `now`.
    pub open spec fn spec_state(&self, wallet: &SmartWallet, now: i64) -> TransactionState {
        if self.is_executed() {
            TransactionState::Executed
        } else if self.owner_set_seqno != wallet.owner_set_seqno {
            TransactionState::Stale
        } else if expired(self.eta, wallet.grace_period, now) {
            TransactionState::Expired
        } else if self.spec_num_signers() >= wallet.threshold && eta_reached(self.eta, now) {
            TransactionState::Executable
        } else if self.spec_num_signers() == 0 {
            TransactionState::Proposed
        } else {
            TransactionState::Approving
        }
    }

    /// The transaction may be executed at `now`: enough approvals, the owner
    /// set unchanged, inside the execution window, and not executed before.
    pub open spec fn executable(&self, wallet: &SmartWallet, now: i64) -> bool {
        &&& self.spec_num_signers() >= wallet.threshold
        &&& self.owner_set_seqno == wallet.owner_set_seqno
        &&& eta_reached(self.eta, now)
        &&& !expired(self.eta, wallet.grace_period, now)
        &&& !self.is_executed()
    }

    /// Computes the bytes of a transaction record that holds the given instructions.
    pub fn space(instructions: Vec<TXInstruction>) -> (r: usize)
        requires
            Self::spec_space(instructions@) <= usize::MAX,
        ensures
            r == Self::spec_space(instructions@),
    {
        match checked_instructions_space(&instructions) {
            Some(n) => RECORD_TAG_BYTES + TRANSACTION_BYTES + LENGTH_PREFIX_BYTES + n,
            None => vstd::pervasive::unreached(),
        }
    }

    /// Computes the bytes of a transaction record that holds the given
    /// instructions, or nothing where that number is beyond what the machine
    /// can address.
    pub fn checked_space(instructions: &Vec<TXInstruction>) -> (r: Option<usize>)
        ensures
            match r {
                Some(n) => n == Self::spec_space(instructions@),
                None => Self::spec_space(instructions@) > usize::MAX,
            },
    {
        match checked_instructions_space(instructions) {
            Some(n) => if n <= usize::MAX - 192 {
                Some(n + 192)
            } else {
                None
            },
            None => None,
        }
    }

    /// Counts the owners whose approval is recorded.
    pub fn num_signers(&self) -> (r: usize)
        ensures
            r == self.spec_num_signers(),
    {
        let mut count: usize = 0;
        let mut i: usize = 0;
        while i < self.signers.len()
            invariant
                i <= self.signers.len(),
                count == count_approvals(self.signers@.take(i as int)),
                count <= i,
            decreases self.signers.len() - i,
        {
            assert(self.signers@.take(i + 1).drop_last() =~= self.signers@.take(i as int));
            if self.signers[i] {
                count += 1;
            }
            i += 1;
        }
        assert(self.signers@.take(self.signers.len() as int) =~= self.signers@);
        count
    }

    /// Tells whether the transaction has been executed.
    pub fn has_executed(&self) -> (r: bool)
        ensures
            r == self.is_executed(),
    {
        self.executed_at != NOT_EXECUTED
    }

    /// Proposes a transaction on `wallet` at time `now`. Nobody has approved it
    /// yet; it takes the wallet's transaction count as its index, and the count
    /// goes up by one.
    pub fn propose(
        wallet: &mut SmartWallet,
        smart_wallet: Pubkey,
        bump: u8,
        proposer: Pubkey,
        instructions: Vec<TXInstruction>,
        eta: i64,
        now: i64,
    ) -> (r: Result<Transaction, WalletError>)
        ensures
            match r {
                Ok(tx) => {
                    &&& Self::propose_error(old(wallet), eta, now) is None
                    &&& tx.smart_wallet == smart_wallet
                    &&& tx.index == old(wallet).num_transactions
                    &&& tx.bump == bump
                    &&& tx.proposer == proposer
                    &&& tx.instructions == instructions
                    &&& tx.signers@ == Seq::new(old(wallet).owners@.len(), |i: int| false)
                    &&& tx.owner_set_seqno == old(wallet).owner_set_seqno
                    &&& tx.eta == eta
                    &&& !tx.is_executed()
                    &&& tx.spec_num_signers() == 0
                    &&& tx.in_step_with(final(wallet))
                    &&& *final(wallet) == (SmartWallet {
                        num_transactions: (old(wallet).num_transactions + 1) as u64,
                        ..*old(wallet)
                    })
                },
                Err(e) => Some(e) == Self::propose_error(old(wallet), eta, now) && *final(wallet)
                    == *old(wallet),
            },
    {
        if !is_eta_allowed(eta, wallet.minimum_delay, now) {
            return Err(WalletError::InvalidETA);
        }
        if wallet.num_transactions == u64::MAX {
            return Err(WalletError::Overflow);
        }
        let mut signers: Vec<bool> = Vec::new();
        let mut i: usize = 0;
        while i < wallet.owners.len()
            invariant
                i <= wallet.owners.len(),
                signers@ == Seq::new(i as nat, |j: int| false),
                count_approvals(signers@) == 0,
            decreases wallet.owners.len() - i,
        {
            signers.push(false);
            assert(signers@ =~= Seq::new((i + 1) as nat, |j: int| false));
            assert(signers@.drop_last() =~= Seq::new(i as nat, |j: int| false));
            i += 1;
        }
        let index: u64 = wallet.num_transactions;
        wallet.num_transactions = index + 1;
        Ok(
            Transaction {
                smart_wallet,
                index,
                bump,
                proposer,
                instructions,
                signers,
                owner_set_seqno: wallet.owner_set_seqno,
                eta,
                executor: Pubkey::default(),
                executed_at: NOT_EXECUTED,
            },
        )
    }

    /// Finds the place of `owner`'s vote, or the reason why it has none.
    fn vote_index(&self, wallet: &SmartWallet, owner: Pubkey) -> (r: Result<usize, WalletError>)
        ensures
            match r {
                Ok(i) => {
                    &&& self.vote_error(wallet, owner) is None
                    &&& wallet.spec_owner_index(owner) == Some(i as int)
                    &&& i < self.signers@.len()
                },
                Err(e) => Some(e) == self.vote_error(wallet, owner),
            },
    {
        if self.executed_at != NOT_EXECUTED {
            return Err(WalletError::AlreadyExecuted);
        }
        if self.owner_set_seqno != wallet.owner_set_seqno {
            return Err(WalletError::StaleOwnerSet);
        }
        match wallet.owner_index_opt(owner) {
            Some(i) => if i < self.signers.len() {
                Ok(i)
            } else {
                Err(WalletError::InvalidOwner)
            },
            None => Err(WalletError::InvalidOwner),
        }
    }

    /// Records the approval of `owner`. An owner who has approved already may
    /// approve again: nothing changes.
    pub fn approve(&mut self, wallet: &SmartWallet, owner: Pubkey) -> (r: Result<(), WalletError>)
        ensures
            match r {
                Ok(()) => {
                    &&& old(self).vote_error(wallet, owner) is None
                    &&& wallet.spec_owner_index(owner) matches Some(i)
                    &&& final(self).signers@ == approved(old(self).signers@, i)
                    &&& final(self).same_but_signers(old(self))
                },
                Err(e) => Some(e) == old(self).vote_error(wallet, owner) && *final(self) == *old(
                    self),
            },
    {
        match self.vote_index(wallet, owner) {
            Ok(i) => {
                self.signers.set(i, true);
                Ok(())
            },
            Err(e) => Err(e),
        }
    }

    /// Withdraws the approval of `owner`. An owner who has not approved may
    /// withdraw all the same: nothing changes.
    pub fn unapprove(&mut self, wallet: &SmartWallet, owner: Pubkey) -> (r: Result<
        (),
        WalletError,
    >)
        ensures
            match r {
                Ok(()) => {
                    &&& old(self).vote_error(wallet, owner) is None
                    &&& wallet.spec_owner_index(owner) matches Some(i)
                    &&& final(self).signers@ == old(self).signers@.update(i, false)
                    &&& final(self).same_but_signers(old(self))
                },
                Err(e) => Some(e) == old(self).vote_error(wallet, owner) && *final(self) == *old(
                    self),
            },
    {
        match self.vote_index(wallet, owner) {
            Ok(i) => {
                self.signers.set(i, false);
                Ok(())
            },
            Err(e) => Err(e),
        }
    }

    /// Tells where the transaction stands, seen from `wallet` at `now`.
    pub fn state(&self, wallet: &SmartWallet, now: i64) -> (r: TransactionState)
        ensures
            r == self.spec_state(wallet, now),
    {
        if self.executed_at != NOT_EXECUTED {
            return TransactionState::Executed;
        }
        if self.owner_set_seqno != wallet.owner_set_seqno {
            return TransactionState::Stale;
        }
        if is_expired(self.eta, wallet.grace_period, now) {
            return TransactionState::Expired;
        }
        let approvals: usize = self.num_signers();
        if approvals as u64 >= wallet.threshold && is_eta_reached(self.eta, now) {
            TransactionState::Executable
        } else if approvals == 0 {
            TransactionState::Proposed
        } else {
            TransactionState::Approving
        }
    }

    /// Decides whether the transaction may be executed at `now`, and why not
    /// if it may not. Nothing changes.
    pub fn check_executable(&self, wallet: &SmartWallet, now: i64) -> (r: Result<(), WalletError>)
        ensures
            match r {
                Ok(()) => self.execution_error(wallet, now) is None,
                Err(e) => Some(e) == self.execution_error(wallet, now),
            },
            r is Ok <==> self.executable(wallet, now),
    {
        if self.executed_at != NOT_EXECUTED {
            return Err(WalletError::AlreadyExecuted);
        }
        if self.owner_set_seqno != wallet.owner_set_seqno {
            return Err(WalletError::StaleOwnerSet);
        }
        if is_expired(self.eta, wallet.grace_period, now) {
            return Err(WalletError::TransactionExpired);
        }
        if (self.num_signers() as u64) < wallet.threshold {
            return Err(WalletError::ThresholdNotMet);
        }
        if !is_eta_reached(self.eta, now) {
            return Err(WalletError::TransactionNotReady);
        }
        Ok(())
    }

    /// Executes the transaction for `caller` at `now`: where it may be
    /// executed, it records who executed it and when, and can never be
    /// executed again. Dispatching the instructions is the host's part: it
    /// dispatches them in order once `check_executable` has agreed, and calls
    /// this only when every one of them went through.
    pub fn execute(&mut self, wallet: &SmartWallet, caller: Pubkey, now: i64) -> (r: Result<
        (),
        WalletError,
    >)
        requires
            is_timestamp(now),
        ensures
            r is Ok <==> old(self).executable(wallet, now),
            match r {
                Ok(()) => {
                    &&& old(self).execution_error(wallet, now) is None
                    &&& final(self).executor == caller
                    &&& final(self).executed_at == now
                    &&& final(self).is_executed()
                    &&& final(self).same_but_execution(old(self))
                },
                Err(e) => Some(e) == old(self).execution_error(wallet, now) && *final(self)
                    == *old(self),
            },
    {
        match self.check_executable(wallet, now) {
            Ok(()) => {
                self.executor = caller;
                self.executed_at = now;
                Ok(())
            },
            Err(e) => Err(e),
        }
    }
}

/// A transaction is executable exactly when nothing stands against it: enough
/// approvals, the owner set as it was at the proposal, the execution time
/// reached, the grace period not over, and no earlier execution.
pub proof fn lemma_executes_iff(tx: &Transaction, wallet: &SmartWallet, now: i64)
    ensures
        tx.execution_error(wallet, now) is None <==> tx.executable(wallet, now),
        tx.execution_error(wallet, now) is None <==> {
            &&& tx.spec_num_signers() >= wallet.threshold
            &&& tx.owner_set_seqno == wallet.owner_set_seqno
            &&& (tx.eta == crate::timelock::NO_ETA || now >= tx.eta)
            &&& (tx.eta == crate::timelock::NO_ETA || now <= tx.eta + wallet.grace_period)
            &&& tx.executed_at == NOT_EXECUTED
        },
        tx.executable(wallet, now) <==> tx.spec_state(wallet, now) == TransactionState::Executable,
{
}

/// Once the owner set has changed after a proposal, the transaction cannot be
/// executed any more, however many owners approved it: execution is refused
/// with `StaleOwnerSet`.
pub proof fn lemma_owner_change_voids_approvals(
    tx: &Transaction,
    before: &SmartWallet,
    after: &SmartWallet,
    owners: Seq<Pubkey>,
    threshold: u64,
    now: i64,
)
    requires
        !tx.is_executed(),
        tx.owner_set_seqno == before.owner_set_seqno,
        after.follows(before, owners, threshold),
    ensures
        tx.execution_error(after, now) == Some(WalletError::StaleOwnerSet),
        !tx.executable(after, now),
        tx.spec_state(after, now) == TransactionState::Stale,
        forall|owner: Pubkey| tx.vote_error(after, owner) == Some(WalletError::StaleOwnerSet),
{
}

/// A transaction stays in step with its wallet through every change of the
/// owner set.
pub proof fn lemma_in_step_is_kept(
    tx: &Transaction,
    before: &SmartWallet,
    after: &SmartWallet,
    owners: Seq<Pubkey>,
    threshold: u64,
)
    requires
        tx.in_step_with(before),
        after.follows(before, owners, threshold),
    ensures
        tx.in_step_with(after),
{
}

/// While a pending transaction and its wallet are at the same owner set
/// version, the vote of an address is taken exactly when the address is an
/// owner; anybody else is refused with `InvalidOwner`.
pub proof fn lemma_owners_vote(tx: &Transaction, wallet: &SmartWallet, owner: Pubkey)
    requires
        tx.in_step_with(wallet),
        !tx.is_executed(),
        tx.owner_set_seqno == wallet.owner_set_seqno,
    ensures
        tx.vote_error(wallet, owner) is None <==> wallet.owners@.contains(owner),
        !wallet.owners@.contains(owner) ==> tx.vote_error(wallet, owner) == Some(
            WalletError::InvalidOwner,
        ),
{
    lemma_first_index(wallet.owners@, owner);
}

/// An executed transaction is never executable again.
pub proof fn lemma_executed_is_final(tx: &Transaction, wallet: &SmartWallet, now: i64)
    requires
        tx.is_executed(),
    ensures
        tx.execution_error(wallet, now) == Some(WalletError::AlreadyExecuted),
        forall|owner: Pubkey| tx.vote_error(wallet, owner) == Some(WalletError::AlreadyExecuted),
        tx.spec_state(wallet, now) == TransactionState::Executed,
{
}

} // verus!
