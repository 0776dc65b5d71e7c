//! Authorization and timelock core of a multi-owner wallet.
//!
//! A [`SmartWallet`] holds an ordered set of owners and an approval threshold.
//! A [`Transaction`] collects owner approvals and may run once, inside its
//! timelock window, while the owner set it was proposed under is still current.
//! An [`InstructionBuffer`] stages bundles of instructions that run one by one
//! under the same rules.
pub mod buffer;
pub mod error;
pub mod instruction;
pub mod pubkey;
pub mod subaccount;
pub mod timelock;
pub mod transaction;
pub mod wallet;

pub use buffer::{InstructionBuffer, InstructionBundle};
pub use error::WalletError;
pub use instruction::{PartialSigner, TXAccountMeta, TXInstruction};
pub use pubkey::Pubkey;
pub use subaccount::{SubaccountInfo, SubaccountType};
pub use timelock::{NOT_EXECUTED, NO_ETA};
pub use transaction::{Transaction, TransactionState};
pub use wallet::SmartWallet;
