//! The instruction buffer: bundles of instructions that one party assembles,
//! one after the other, and another party executes, each bundle once.
use vstd::prelude::*;
use crate::error::WalletError;
use crate::instruction::{TXInstruction, TXInstructionView, clone_instructions, instructions_view};
use crate::pubkey::Pubkey;
use crate::timelock::{eta_reached, expired, is_eta_reached, is_expired};
use crate::wallet::SmartWallet;

verus! {

/// A group of instructions that executes as one, and only once.
#[derive(Debug, PartialEq, Default)]
pub struct InstructionBundle {
    /// Whether the bundle has been executed.
    pub is_executed: bool,
    /// The instructions, in the order in which they run.
    pub instructions: Vec<TXInstruction>,
}

/// What a bundle holds, as mathematical values.
pub struct InstructionBundleView {
    pub is_executed: bool,
    pub instructions: Seq<TXInstructionView>,
}

impl View for InstructionBundle {
    type V = InstructionBundleView;

    open spec fn view(&self) -> InstructionBundleView {
        InstructionBundleView {
            is_executed: self.is_executed,
            instructions: instructions_view(self.instructions@),
        }
    }
}

impl Clone for InstructionBundle {
    fn clone(&self) -> (r: InstructionBundle)
        ensures
            r@ == self@,
    {
        InstructionBundle {
            is_executed: self.is_executed,
            instructions: clone_instructions(&self.instructions),
        }
    }
}

/// The bundles of a sequence, each by its view.
pub open spec fn bundles_view(s: Seq<InstructionBundle>) -> Seq<InstructionBundleView> {
    Seq::new(s.len(), |i: int| s[i]@)
}

/// A staging area for bundles. While its authority is set, bundles may be
/// written; once the authority is the empty address the buffer is finalized
/// and its executor may run the bundles.
#[derive(Debug, PartialEq, Default)]
pub struct InstructionBuffer {
    /// The wallet's owner set version when the buffer was created.
    pub owner_set_seqno: u32,
    /// Earliest time of execution, or `NO_ETA`.
    pub eta: i64,
    /// Who may write bundles. The empty address once the buffer is finalized.
    pub authority: Pubkey,
    /// Who may execute bundles.
    pub executor: Pubkey,
    /// The wallet that the buffer belongs to.
    pub smart_wallet: Pubkey,
    /// The bundles, in the order in which they were appended.
    pub bundles: Vec<InstructionBundle>,
}

/// What a buffer holds, as mathematical values.
pub struct InstructionBufferView {
    pub owner_set_seqno: u32,
    pub eta: i64,
    pub authority: Pubkey,
    pub executor: Pubkey,
    pub smart_wallet: Pubkey,
    pub bundles: Seq<InstructionBundleView>,
}

impl View for InstructionBuffer {
    type V = InstructionBufferView;

    open spec fn view(&self) -> InstructionBufferView {
        InstructionBufferView {
            owner_set_seqno: self.owner_set_seqno,
            eta: self.eta,
            authority: self.authority,
            executor: self.executor,
            smart_wallet: self.smart_wallet,
            bundles: bundles_view(self.bundles@),
        }
    }
}

impl InstructionBufferView {
    /// The buffer is finalized: its authority is the empty address.
    pub open spec fn is_finalized(self) -> bool {
        self.authority.is_zero()
    }

    /// `self` is `before` after finalization: finalized, and otherwise the same.
    pub open spec fn finalized_from(self, before: InstructionBufferView) -> bool {
        &&& self.is_finalized()
        &&& self.owner_set_seqno == before.owner_set_seqno
        &&& self.eta == before.eta
        &&& self.executor == before.executor
        &&& self.smart_wallet == before.smart_wallet
        &&& self.bundles == before.bundles
    }

    /// The bundle at `index`, if there is one.
    pub open spec fn get_bundle(self, index: int) -> Option<InstructionBundleView> {
        if 0 <= index < self.bundles.len() {
            Some(self.bundles[index])
        } else {
            None
        }
    }

    /// The buffer after `bundle` is written at `index`, or why it cannot be:
    /// an existing bundle is overwritten, the index just past the end appends,
    /// and any index further out is refused, as is every write to a finalized
    /// buffer.
    pub open spec fn set_bundle(self, index: int, bundle: InstructionBundleView) -> Result<
        InstructionBufferView,
        WalletError,
    > {
        if self.is_finalized() {
            Err(WalletError::BufferFinalized)
        } else if 0 <= index < self.bundles.len() {
            Ok(InstructionBufferView { bundles: self.bundles.update(index, bundle), ..self })
        } else if index == self.bundles.len() {
            Ok(InstructionBufferView { bundles: self.bundles.push(bundle), ..self })
        } else {
            Err(WalletError::BufferBundleNotFound)
        }
    }

    /// Why `caller` cannot execute the bundle at `index` at `now`, if it
    /// cannot. The first reason that applies is given.
    pub open spec fn bundle_execution_error(
        self,
        wallet: &SmartWallet,
        index: int,
        caller: Pubkey,
        now: i64,
    ) -> Option<WalletError> {
        if !self.is_finalized() {
            Some(WalletError::BufferNotFinalized)
        } else if caller != self.executor {
            Some(WalletError::InvalidExecutor)
        } else if !(0 <= index < self.bundles.len()) {
            Some(WalletError::BufferBundleNotFound)
        } else if self.bundles[index].is_executed {
            Some(WalletError::AlreadyExecuted)
        } else if self.owner_set_seqno != wallet.owner_set_seqno {
            Some(WalletError::StaleOwnerSet)
        } else if expired(self.eta, wallet.grace_period, now) {
            Some(WalletError::BundleExpired)
        } else if !eta_reached(self.eta, now) {
            Some(WalletError::TransactionNotReady)
        } else {
            None
        }
    }

    /// The buffer after the bundle at `index` has been executed: that bundle
    /// is marked, and nothing else changes.
    pub open spec fn with_executed(self, index: int) -> InstructionBufferView {
        InstructionBufferView {
            bundles: self.bundles.update(
                index,
                InstructionBundleView { is_executed: true, ..self.bundles[index] },
            ),
            ..self
        }
    }
}

impl InstructionBuffer {
    /// Creates an empty buffer under the wallet's present owner set version.
    pub fn new(
        wallet: &SmartWallet,
        smart_wallet: Pubkey,
        authority: Pubkey,
        executor: Pubkey,
        eta: i64,
    ) -> (r: InstructionBuffer)
        ensures
            r@ == (InstructionBufferView {
                owner_set_seqno: wallet.owner_set_seqno,
                eta,
                authority,
                executor,
                smart_wallet,
                bundles: Seq::empty(),
            }),
    {
        let r = InstructionBuffer {
            owner_set_seqno: wallet.owner_set_seqno,
            eta,
            authority,
            executor,
            smart_wallet,
            bundles: Vec::new(),
        };
        assert(r@.bundles =~= Seq::empty());
        r
    }

    /// Tells whether the buffer has been finalized.
    pub fn is_finalized(&self) -> (r: bool)
        ensures
            r == self@.is_finalized(),
    {
        self.authority.is_default()
    }

    /// Tells whether `caller` may write to the buffer or finalize it: only the
    /// authority may, and only until the buffer is finalized.
    pub fn may_write(&self, caller: Pubkey) -> (r: bool)
        ensures
            r == (!self@.is_finalized() && caller == self.authority),
    {
        !self.is_finalized() && caller == self.authority
    }

    /// Returns a copy of the bundle at `bundle_index`, or nothing where the
    /// buffer is shorter than that.
    pub fn get_bundle(&self, bundle_index: usize) -> (r: Option<InstructionBundle>)
        ensures
            match r {
                Some(b) => self@.get_bundle(bundle_index as int) == Some(b@),
                None => self@.get_bundle(bundle_index as int) is None,
            },
    {
        if bundle_index < self.bundles.len() {
            Some(self.bundles[bundle_index].clone())
        } else {
            None
        }
    }

    /// Writes a copy of `new_bundle` at `bundle_index`: over the bundle that is
    /// there, or as a new last bundle.
    pub fn set_bundle(&mut self, bundle_index: usize, new_bundle: &InstructionBundle) -> (r:
        Result<(), WalletError>)
        ensures
            match r {
                Ok(()) => old(self)@.set_bundle(bundle_index as int, new_bundle@) == Ok::<
                    InstructionBufferView,
                    WalletError,
                >(final(self)@),
                Err(e) => old(self)@.set_bundle(bundle_index as int, new_bundle@) == Err::<
                    InstructionBufferView,
                    WalletError,
                >(e) && *final(self) == *old(self),
            },
    {
        if self.is_finalized() {
            return Err(WalletError::BufferFinalized);
        }
        if bundle_index < self.bundles.len() {
            self.bundles.set(bundle_index, new_bundle.clone());
            assert(self@.bundles =~= old(self)@.bundles.update(
                bundle_index as int,
                new_bundle@,
            ));
        } else if bundle_index == self.bundles.len() {
            self.bundles.push(new_bundle.clone());
            assert(self@.bundles =~= old(self)@.bundles.push(new_bundle@));
        } else {
            return Err(WalletError::BufferBundleNotFound);
        }
        Ok(())
    }

    /// Finalizes the buffer: its authority becomes the empty address, for good.
    pub fn finalize(&mut self)
        ensures
            final(self)@.finalized_from(old(self)@),
            final(self).bundles == old(self).bundles,
    {
        self.authority = Pubkey::default();
    }

    /// Decides whether `caller` may execute the bundle at `bundle_index` at
    /// `now`, and why not if it may not. Nothing changes.
    pub fn check_bundle_executable(
        &self,
        wallet: &SmartWallet,
        bundle_index: usize,
        caller: Pubkey,
        now: i64,
    ) -> (r: Result<(), WalletError>)
        ensures
            match r {
                Ok(()) => self@.bundle_execution_error(wallet, bundle_index as int, caller, now)
                    is None,
                Err(e) => self@.bundle_execution_error(wallet, bundle_index as int, caller, now)
                    == Some(e),
            },
    {
        if !self.is_finalized() {
            return Err(WalletError::BufferNotFinalized);
        }
        if caller != self.executor {
            return Err(WalletError::InvalidExecutor);
        }
        if bundle_index >= self.bundles.len() {
            return Err(WalletError::BufferBundleNotFound);
        }
        if self.bundles[bundle_index].is_executed {
            return Err(WalletError::AlreadyExecuted);
        }
        if self.owner_set_seqno != wallet.owner_set_seqno {
            return Err(WalletError::StaleOwnerSet);
        }
        if is_expired(self.eta, wallet.grace_period, now) {
            return Err(WalletError::BundleExpired);
        }
        if !is_eta_reached(self.eta, now) {
            return Err(WalletError::TransactionNotReady);
        }
        Ok(())
    }

    /// Executes the bundle at `bundle_index` for `caller` at `now`: where it
    /// may be executed, it is marked and can never be executed again. No
    /// bundle waits for another. Dispatching the instructions is the host's
    /// part: it dispatches them once `check_bundle_executable` has agreed, and
    /// calls this only when every one of them went through.
    pub fn execute_bundle(
        &mut self,
        wallet: &SmartWallet,
        bundle_index: usize,
        caller: Pubkey,
        now: i64,
    ) -> (r: Result<(), WalletError>)
        ensures
            match r {
                Ok(()) => {
                    &&& old(self)@.bundle_execution_error(
                        wallet,
                        bundle_index as int,
                        caller,
                        now,
                    ) is None
                    &&& final(self)@ == old(self)@.with_executed(bundle_index as int)
                },
                Err(e) => {
                    &&& old(self)@.bundle_execution_error(
                        wallet,
                        bundle_index as int,
                        caller,
                        now,
                    ) == Some(e)
                    &&& *final(self) == *old(self)
                },
            },
    {
        match self.check_bundle_executable(wallet, bundle_index, caller, now) {
            Ok(()) => {
                let mut bundle = self.bundles.remove(bundle_index);
                bundle.is_executed = true;
                self.bundles.insert(bundle_index, bundle);
                assert(self@.bundles =~= old(self)@.with_executed(
                    bundle_index as int,
                ).bundles);
                Ok(())
            },
            Err(e) => Err(e),
        }
    }
}

/// Writing at the index just past the last bundle appends, whatever the
/// bundle; writing further out is refused with `BufferBundleNotFound`; writing
/// at an earlier index puts the bundle there and leaves the length and every
/// other bundle as they were. All of this while the buffer is not finalized.
pub proof fn lemma_set_bundle_by_index(
    buffer: InstructionBufferView,
    index: int,
    bundle: InstructionBundleView,
)
    requires
        !buffer.is_finalized(),
        0 <= index,
    ensures
        index == buffer.bundles.len() ==> (buffer.set_bundle(index, bundle) matches Ok(after)
            && after.bundles == buffer.bundles.push(bundle) && after.bundles.len()
            == buffer.bundles.len() + 1),
        index > buffer.bundles.len() ==> buffer.set_bundle(index, bundle) == Err::<
            InstructionBufferView,
            WalletError,
        >(WalletError::BufferBundleNotFound),
        index < buffer.bundles.len() ==> (buffer.set_bundle(index, bundle) matches Ok(after)
            && after.bundles.len() == buffer.bundles.len() && after.bundles[index] == bundle
            && forall|j: int|
            0 <= j < buffer.bundles.len() && j != index ==> after.bundles[j] == buffer.bundles[j]),
{
}

/// A finalized buffer takes no more writes: after finalization every write,
/// at any index, is refused with `BufferFinalized`. And it stays finalized:
/// executing a bundle does not open it again.
pub proof fn lemma_finalized_refuses_writes(
    before: InstructionBufferView,
    after: InstructionBufferView,
    index: int,
    bundle: InstructionBundleView,
)
    requires
        after.finalized_from(before),
    ensures
        after.set_bundle(index, bundle) == Err::<InstructionBufferView, WalletError>(
            WalletError::BufferFinalized,
        ),
        after.with_executed(index).is_finalized(),
{
}

/// Nothing in a buffer can be executed before the buffer is finalized.
pub proof fn lemma_unfinalized_refuses_execution(
    buffer: InstructionBufferView,
    wallet: &SmartWallet,
    index: int,
    caller: Pubkey,
    now: i64,
)
    requires
        !buffer.is_finalized(),
    ensures
        buffer.bundle_execution_error(wallet, index, caller, now) == Some(
            WalletError::BufferNotFinalized,
        ),
{
}

/// A bundle runs once: after its execution a second one is refused with
/// `AlreadyExecuted`, while the state of every other bundle is untouched.
pub proof fn lemma_bundle_runs_once(
    buffer: InstructionBufferView,
    wallet: &SmartWallet,
    index: int,
    caller: Pubkey,
    now: i64,
    later: i64,
)
    requires
        buffer.bundle_execution_error(wallet, index, caller, now) is None,
    ensures
        buffer.with_executed(index).bundle_execution_error(wallet, index, caller, later) == Some(
            WalletError::AlreadyExecuted,
        ),
        forall|j: int|
            0 <= j < buffer.bundles.len() && j != index ==> buffer.with_executed(index).bundles[j]
                == buffer.bundles[j],
{
}

} // verus!
