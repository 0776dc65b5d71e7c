//! Subaccounts: identities derived from a wallet, and who may act as one.
use vstd::prelude::*;
use crate::error::WalletError;
use crate::pubkey::Pubkey;
use crate::wallet::SmartWallet;

verus! {

/// How a subaccount is controlled. The mode is chosen when the subaccount is
/// made and never changes.
#[derive(Clone, Copy, Debug, PartialEq, Eq, Structural, PartialOrd, Ord)]
pub enum SubaccountType {
    /// The subaccount acts only through transactions that the owners approve.
    Derived,
    /// Any present owner may act as the subaccount directly, without the
    /// approval of the others and without delay. This is the weaker mode.
    OwnerInvoker,
}

impl Default for SubaccountType {
    fn default() -> (r: SubaccountType)
        ensures
            r == SubaccountType::Derived,
    {
        SubaccountType::Derived
    }
}

/// Which wallet a subaccount belongs to, and how it is controlled.
#[derive(Clone, Copy, Debug, PartialEq, Eq, Default)]
pub struct SubaccountInfo {
    /// The wallet of the subaccount.
    pub smart_wallet: Pubkey,
    /// How the subaccount is controlled.
    pub subaccount_type: SubaccountType,
    /// Index from which the subaccount is derived.
    pub index: u64,
}

impl SubaccountInfo {
    /// Bytes of a stored subaccount record: an address, the mode and the index.
    pub const LEN: usize = 41;

    /// Why `caller` cannot act as this subaccount directly, if it cannot.
    pub open spec fn invoke_error(&self, wallet: &SmartWallet, caller: Pubkey) -> Option<
        WalletError,
    > {
        if self.subaccount_type != SubaccountType::OwnerInvoker {
            Some(WalletError::QuorumRequired)
        } else if !wallet.owners@.contains(caller) {
            Some(WalletError::InvalidOwner)
        } else {
            None
        }
    }

    /// Creates the record of a subaccount.
    pub fn new(smart_wallet: Pubkey, subaccount_type: SubaccountType, index: u64) -> (r:
        SubaccountInfo)
        ensures
            r.smart_wallet == smart_wallet,
            r.subaccount_type == subaccount_type,
            r.index == index,
    {
        SubaccountInfo { smart_wallet, subaccount_type, index }
    }

    /// Tells whether the subaccount acts only through approved transactions.
    pub fn requires_quorum(&self) -> (r: bool)
        ensures
            r == (self.subaccount_type == SubaccountType::Derived),
    {
        match self.subaccount_type {
            SubaccountType::Derived => true,
            SubaccountType::OwnerInvoker => false,
        }
    }

    /// Decides whether `caller` may act as this subaccount directly. It may
    /// exactly when the subaccount is owner-invoked and `caller` is an owner
    /// of the wallet as it stands now; the result is then its position among
    /// the owners.
    pub fn authorize_invoker(&self, wallet: &SmartWallet, caller: Pubkey) -> (r: Result<
        usize,
        WalletError,
    >)
        ensures
            match r {
                Ok(i) => self.invoke_error(wallet, caller) is None && wallet.spec_owner_index(
                    caller,
                ) == Some(i as int),
                Err(e) => self.invoke_error(wallet, caller) == Some(e),
            },
    {
        match self.subaccount_type {
            SubaccountType::Derived => Err(WalletError::QuorumRequired),
            SubaccountType::OwnerInvoker => wallet.try_owner_index(caller),
        }
    }
}

} // verus!
