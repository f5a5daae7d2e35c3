use fedimint_guard::wallet_recovery::{
    recovery_start_state, WalletBackup, WalletRecoveryState, RECOVERY_GAP_LIMIT,
};

#[test]
fn new_state_starts_at_zero() {
    let s = WalletRecoveryState::new();
    assert_eq!(s.last_used_idx(), 0);
    assert_eq!(s.next_to_check_idx(), 0);
    assert_eq!(s, WalletRecoveryState::default());
    assert!(s.unused_gap_under_limit());
}

#[test]
fn from_indices_refuses_disordered_indices() {
    assert!(WalletRecoveryState::from_indices(5, 4).is_none());
    let s = WalletRecoveryState::from_indices(4, 5).unwrap();
    assert_eq!((s.last_used_idx(), s.next_to_check_idx()), (4, 5));
    assert!(WalletRecoveryState::from_indices(7, 7).is_some());
}

#[test]
fn gap_limit_is_exclusive() {
    let s = WalletRecoveryState::from_indices(10, 109).unwrap();
    assert!(s.unused_gap_under_limit());
    let s = WalletRecoveryState::from_indices(10, 110).unwrap();
    assert!(!s.unused_gap_under_limit());
}

#[test]
fn found_deposit_marks_index_used() {
    let mut s = WalletRecoveryState::from_indices(0, 42).unwrap();
    s.record_checked_index(true);
    assert_eq!((s.last_used_idx(), s.next_to_check_idx()), (42, 43));
    s.record_checked_index(false);
    assert_eq!((s.last_used_idx(), s.next_to_check_idx()), (42, 44));
}

#[test]
fn scan_stops_after_gap_limit_misses() {
    let mut s = WalletRecoveryState::new();
    let mut checked = 0;
    while s.unused_gap_under_limit() {
        let idx = s.next_to_check_idx();
        s.record_checked_index(idx == 3 || idx == 50);
        checked += 1;
    }
    assert_eq!(s.last_used_idx(), 50);
    assert_eq!(s.next_to_check_idx(), 50 + RECOVERY_GAP_LIMIT);
    assert_eq!(checked, 150);
}

#[test]
fn recovery_start_respects_finalized_flag() {
    let stored = WalletRecoveryState::from_indices(3, 9).unwrap();
    assert_eq!(recovery_start_state(Some(true), Some(stored)), None);
    assert_eq!(recovery_start_state(Some(false), Some(stored)), Some(stored));
    assert_eq!(recovery_start_state(None, Some(stored)), Some(stored));
    assert_eq!(recovery_start_state(None, None), Some(WalletRecoveryState::new()));
    assert_eq!(recovery_start_state(Some(true), None), None);
    assert_eq!(WalletBackup, WalletBackup.clone());
}

#[test]
fn scan_asks_increasing_indices_within_gap() {
    let mut s = WalletRecoveryState::from_indices(5, 7).unwrap();
    let mut asked = Vec::new();
    while s.unused_gap_under_limit() {
        let idx = s.next_to_check_idx();
        assert!(idx - s.last_used_idx() < RECOVERY_GAP_LIMIT);
        asked.push(idx);
        s.record_checked_index(idx == 40 || idx == 80);
    }
    let expected: Vec<u64> = (7..7 + asked.len() as u64).collect();
    assert_eq!(asked, expected);
    assert_eq!(s.last_used_idx(), 80);
    assert_eq!(s.next_to_check_idx(), 180);
}
