use smart_wallet::{Pubkey, SmartWallet, SubaccountInfo, SubaccountType, WalletError};

fn key(n: u8) -> Pubkey {
    Pubkey::new_from_array([n; 32])
}

fn wallet_abc() -> SmartWallet {
    SmartWallet::new(key(9), 255, 5, vec![key(1), key(2), key(3)], 2, 50, 1000).unwrap()
}

fn holds_invariant(w: &SmartWallet) -> bool {
    let n = w.owners.len() as u64;
    let mut distinct = true;
    for i in 0..w.owners.len() {
        for j in 0..i {
            if w.owners[i] == w.owners[j] {
                distinct = false;
            }
        }
    }
    w.threshold >= 1 && w.threshold <= n && n <= w.max_owners as u64 && distinct
}

#[test]
fn pubkey_equality_is_by_bytes() {
    assert_eq!(key(1), key(1));
    assert_ne!(key(1), key(2));
    let mut bytes = [7u8; 32];
    bytes[31] = 8;
    assert_ne!(Pubkey::new_from_array(bytes), key(7));
    assert_eq!(Pubkey::new_from_array(bytes).to_bytes(), bytes);
}

#[test]
fn default_pubkey_is_all_zero() {
    assert_eq!(Pubkey::default().to_bytes(), [0u8; 32]);
    assert!(Pubkey::default().is_default());
    assert!(!key(1).is_default());
    let mut bytes = [0u8; 32];
    bytes[31] = 1;
    assert!(!Pubkey::new_from_array(bytes).is_default());
}

#[test]
fn new_wallet_starts_at_version_zero() {
    let w = wallet_abc();
    assert_eq!(w.base, key(9));
    assert_eq!(w.bump, 255);
    assert_eq!(w.max_owners, 5);
    assert_eq!(w.record_space(), 240 + 5 * 32);
    assert_eq!(w.threshold, 2);
    assert_eq!(w.minimum_delay, 50);
    assert_eq!(w.grace_period, 1000);
    assert_eq!(w.owner_set_seqno, 0);
    assert_eq!(w.num_transactions, 0);
    assert_eq!(w.owners, vec![key(1), key(2), key(3)]);
    assert_eq!(w.reserved, [0u64; 16]);
    assert!(w.is_valid());
}

#[test]
fn new_wallet_refuses_bad_settings() {
    let owners = || vec![key(1), key(2), key(3)];
    assert_eq!(
        SmartWallet::new(key(9), 0, 5, owners(), 0, 0, 0),
        Err(WalletError::InvalidThreshold)
    );
    assert_eq!(
        SmartWallet::new(key(9), 0, 5, owners(), 4, 0, 0),
        Err(WalletError::InvalidThreshold)
    );
    assert!(SmartWallet::new(key(9), 0, 5, owners(), 3, 0, 0).is_ok());
    assert!(SmartWallet::new(key(9), 0, 5, owners(), 1, 0, 0).is_ok());
    assert_eq!(
        SmartWallet::new(key(9), 0, 5, vec![key(1), key(2), key(1)], 1, 0, 0),
        Err(WalletError::DuplicateOwner)
    );
    assert_eq!(
        SmartWallet::new(key(9), 0, 5, owners(), 2, -1, 0),
        Err(WalletError::InvalidDelay)
    );
    assert_eq!(
        SmartWallet::new(key(9), 0, 5, owners(), 2, 0, -1),
        Err(WalletError::InvalidDelay)
    );
    assert_eq!(
        SmartWallet::new(key(9), 0, 5, vec![], 1, 0, 0),
        Err(WalletError::InvalidThreshold)
    );
}

#[test]
fn duplicates_are_found_anywhere_in_the_list() {
    assert!(!smart_wallet::wallet::has_duplicates(&vec![]));
    assert!(!smart_wallet::wallet::has_duplicates(&vec![key(1)]));
    assert!(!smart_wallet::wallet::has_duplicates(&vec![key(1), key(2), key(3)]));
    assert!(smart_wallet::wallet::has_duplicates(&vec![key(1), key(1)]));
    assert!(smart_wallet::wallet::has_duplicates(&vec![key(1), key(2), key(3), key(2)]));
}

#[test]
fn owner_index_is_the_position_in_the_list() {
    let w = wallet_abc();
    assert_eq!(w.owner_index_opt(key(1)), Some(0));
    assert_eq!(w.owner_index_opt(key(2)), Some(1));
    assert_eq!(w.owner_index_opt(key(3)), Some(2));
    assert_eq!(w.owner_index_opt(key(4)), None);
    assert_eq!(w.try_owner_index(key(3)), Ok(2));
    assert_eq!(w.try_owner_index(key(4)), Err(WalletError::InvalidOwner));
    assert!(w.is_owner(key(2)));
    assert!(!w.is_owner(Pubkey::default()));
}

#[test]
fn owner_index_takes_the_first_of_equal_keys() {
    let mut w = wallet_abc();
    w.owners = vec![key(1), key(2), key(2)];
    assert_eq!(w.owner_index_opt(key(2)), Some(1));
    assert!(!w.is_valid());
}

#[test]
fn is_valid_tests_every_part_of_the_invariant() {
    let mut w = wallet_abc();
    assert!(w.is_valid());
    w.threshold = 0;
    assert!(!w.is_valid());
    w.threshold = 4;
    assert!(!w.is_valid());
    w.threshold = 3;
    assert!(w.is_valid());
    w.minimum_delay = -1;
    assert!(!w.is_valid());
    w.minimum_delay = 0;
    w.grace_period = -5;
    assert!(!w.is_valid());
}

#[test]
fn add_owner_appends_and_bumps_the_version() {
    let mut w = wallet_abc();
    assert_eq!(w.add_owner(key(4)), Ok(()));
    assert_eq!(w.owners, vec![key(1), key(2), key(3), key(4)]);
    assert_eq!(w.owner_set_seqno, 1);
    assert_eq!(w.threshold, 2);
    assert_eq!(w.num_transactions, 0);
    assert!(holds_invariant(&w));
}

#[test]
fn add_owner_refuses_a_present_owner() {
    let mut w = wallet_abc();
    assert_eq!(w.add_owner(key(2)), Err(WalletError::DuplicateOwner));
    assert_eq!(w, wallet_abc());
}

#[test]
fn remove_owner_keeps_the_order_of_the_rest() {
    let mut w = wallet_abc();
    assert_eq!(w.remove_owner(key(2)), Ok(()));
    assert_eq!(w.owners, vec![key(1), key(3)]);
    assert_eq!(w.owner_set_seqno, 1);
    assert_eq!(w.threshold, 2);
    assert!(holds_invariant(&w));
}

#[test]
fn remove_owner_refuses_to_go_below_the_threshold() {
    let mut w = wallet_abc();
    assert_eq!(w.remove_owner(key(3)), Ok(()));
    let snapshot = SmartWallet::new(key(9), 255, 5, vec![key(1), key(2)], 2, 50, 1000).unwrap();
    assert_eq!(w.owners, snapshot.owners);
    assert_eq!(w.remove_owner(key(1)), Err(WalletError::InvalidThreshold));
    assert_eq!(w.owners, vec![key(1), key(2)]);
    assert_eq!(w.owner_set_seqno, 1);
    assert!(holds_invariant(&w));
}

#[test]
fn remove_owner_refuses_a_stranger() {
    let mut w = wallet_abc();
    assert_eq!(w.remove_owner(key(7)), Err(WalletError::InvalidOwner));
    assert_eq!(w, wallet_abc());
}

#[test]
fn replace_owner_keeps_the_position() {
    let mut w = wallet_abc();
    assert_eq!(w.replace_owner(key(2), key(5)), Ok(()));
    assert_eq!(w.owners, vec![key(1), key(5), key(3)]);
    assert_eq!(w.owner_set_seqno, 1);
    assert!(holds_invariant(&w));
}

#[test]
fn replace_owner_refuses_strangers_and_repeats() {
    let mut w = wallet_abc();
    assert_eq!(w.replace_owner(key(7), key(5)), Err(WalletError::InvalidOwner));
    assert_eq!(w.replace_owner(key(1), key(3)), Err(WalletError::DuplicateOwner));
    assert_eq!(w.replace_owner(key(1), key(1)), Err(WalletError::DuplicateOwner));
    assert_eq!(w, wallet_abc());
}

#[test]
fn set_owners_replaces_the_list() {
    let mut w = wallet_abc();
    assert_eq!(w.set_owners(vec![key(4), key(5)]), Ok(()));
    assert_eq!(w.owners, vec![key(4), key(5)]);
    assert_eq!(w.owner_set_seqno, 1);
    assert_eq!(w.threshold, 2);
    assert!(holds_invariant(&w));
}

#[test]
fn set_owners_refuses_repeats_and_short_lists() {
    let mut w = wallet_abc();
    assert_eq!(
        w.set_owners(vec![key(4), key(5), key(4)]),
        Err(WalletError::DuplicateOwner)
    );
    assert_eq!(w.set_owners(vec![key(4)]), Err(WalletError::InvalidThreshold));
    assert_eq!(w.set_owners(vec![]), Err(WalletError::InvalidThreshold));
    assert_eq!(w, wallet_abc());
}

#[test]
fn change_threshold_bumps_the_version() {
    let mut w = wallet_abc();
    assert_eq!(w.change_threshold(3), Ok(()));
    assert_eq!(w.threshold, 3);
    assert_eq!(w.owner_set_seqno, 1);
    assert_eq!(w.owners, vec![key(1), key(2), key(3)]);
    assert_eq!(w.change_threshold(1), Ok(()));
    assert_eq!(w.owner_set_seqno, 2);
    assert!(holds_invariant(&w));
}

#[test]
fn change_threshold_refuses_values_out_of_range() {
    let mut w = wallet_abc();
    assert_eq!(w.change_threshold(0), Err(WalletError::InvalidThreshold));
    assert_eq!(w.change_threshold(4), Err(WalletError::InvalidThreshold));
    assert_eq!(w, wallet_abc());
}

#[test]
fn version_counter_does_not_wrap() {
    let mut w = wallet_abc();
    w.owner_set_seqno = u32::MAX;
    assert_eq!(w.add_owner(key(4)), Err(WalletError::Overflow));
    assert_eq!(w.remove_owner(key(3)), Err(WalletError::Overflow));
    assert_eq!(w.replace_owner(key(3), key(4)), Err(WalletError::Overflow));
    assert_eq!(w.set_owners(vec![key(4), key(5)]), Err(WalletError::Overflow));
    assert_eq!(w.change_threshold(1), Err(WalletError::Overflow));
    assert_eq!(w.owners, vec![key(1), key(2), key(3)]);
    assert_eq!(w.owner_set_seqno, u32::MAX);
}

#[test]
fn every_successful_mutation_keeps_the_invariant() {
    let mut w = wallet_abc();
    assert!(w.add_owner(key(4)).is_ok());
    assert!(holds_invariant(&w));
    assert!(w.change_threshold(4).is_ok());
    assert!(holds_invariant(&w));
    assert!(w.remove_owner(key(1)).is_err());
    assert!(holds_invariant(&w));
    assert!(w.add_owner(key(5)).is_ok());
    assert_eq!(w.add_owner(key(6)), Err(WalletError::TooManyOwners));
    assert!(holds_invariant(&w));
    assert!(w.remove_owner(key(5)).is_ok());
    assert!(w.change_threshold(1).is_ok());
    assert!(w.remove_owner(key(1)).is_ok());
    assert!(w.remove_owner(key(2)).is_ok());
    assert!(w.remove_owner(key(3)).is_ok());
    assert!(holds_invariant(&w));
    assert_eq!(w.remove_owner(key(4)), Err(WalletError::InvalidThreshold));
    assert_eq!(w.owners, vec![key(4)]);
    assert_eq!(w.owner_set_seqno, 8);
    assert!(w.is_valid());
}

#[test]
fn wallet_space_counts_every_owner_slot() {
    assert_eq!(SmartWallet::space(0), 240);
    assert_eq!(SmartWallet::space(1), 272);
    assert_eq!(SmartWallet::space(10), 560);
    assert_eq!(SmartWallet::space(255), 8400);
}

#[test]
fn subaccount_record_is_41_bytes() {
    assert_eq!(SubaccountInfo::LEN, 41);
}

#[test]
fn subaccount_type_defaults_to_derived() {
    assert_eq!(SubaccountType::default(), SubaccountType::Derived);
    assert!(SubaccountType::Derived < SubaccountType::OwnerInvoker);
    let info = SubaccountInfo::default();
    assert_eq!(info.subaccount_type, SubaccountType::Derived);
    assert_eq!(info.smart_wallet, Pubkey::default());
    assert_eq!(info.index, 0);
}

#[test]
fn derived_subaccount_needs_the_quorum() {
    let w = wallet_abc();
    let info = SubaccountInfo::new(key(9), SubaccountType::Derived, 3);
    assert_eq!(info.smart_wallet, key(9));
    assert_eq!(info.index, 3);
    assert!(info.requires_quorum());
    assert_eq!(info.authorize_invoker(&w, key(1)), Err(WalletError::QuorumRequired));
    assert_eq!(info.authorize_invoker(&w, key(7)), Err(WalletError::QuorumRequired));
}

#[test]
fn owner_invoker_subaccount_admits_present_owners_only() {
    let mut w = wallet_abc();
    let info = SubaccountInfo::new(key(9), SubaccountType::OwnerInvoker, 0);
    assert!(!info.requires_quorum());
    assert_eq!(info.authorize_invoker(&w, key(1)), Ok(0));
    assert_eq!(info.authorize_invoker(&w, key(3)), Ok(2));
    assert_eq!(info.authorize_invoker(&w, key(7)), Err(WalletError::InvalidOwner));
    assert!(w.remove_owner(key(3)).is_ok());
    assert_eq!(info.authorize_invoker(&w, key(3)), Err(WalletError::InvalidOwner));
    assert!(w.add_owner(key(7)).is_ok());
    assert_eq!(info.authorize_invoker(&w, key(7)), Ok(2));
}

#[test]
fn owners_never_outgrow_the_record() {
    let five = vec![key(1), key(2), key(3), key(4), key(5)];
    let six = vec![key(1), key(2), key(3), key(4), key(5), key(6)];
    assert!(SmartWallet::new(key(9), 0, 5, five.clone(), 1, 0, 0).is_ok());
    assert_eq!(
        SmartWallet::new(key(9), 0, 5, six.clone(), 1, 0, 0),
        Err(WalletError::TooManyOwners)
    );
    assert_eq!(
        SmartWallet::new(key(9), 0, 0, vec![], 1, 0, 0),
        Err(WalletError::InvalidThreshold)
    );
    let mut w = wallet_abc();
    assert_eq!(w.set_owners(six), Err(WalletError::TooManyOwners));
    assert_eq!(w.set_owners(five), Ok(()));
    assert_eq!(w.add_owner(key(6)), Err(WalletError::TooManyOwners));
    assert_eq!(w.add_owner(key(5)), Err(WalletError::DuplicateOwner));
    assert_eq!(w.replace_owner(key(5), key(6)), Ok(()));
    assert_eq!(w.owners.len(), 5);
    assert_eq!(w.owner_set_seqno, 2);
    w.max_owners = 4;
    assert!(!w.is_valid());
}
