use fedimint_guard::meta_db::{
    MetaConsensusKey, MetaDesiredKey, MetaKey, MetaSubmissionsByKeyPrefix,
    MetaSubmissionsKey, PeerId,
};
use fedimint_guard::meta_db::DbKeyPrefix as MetaPrefix;
use fedimint_guard::wallet_db::DbKeyPrefix as WalletPrefix;
use fedimint_guard::wallet_db::{NextPegInTweakIndexKey, RecoveryFinalizedKey, RecoveryStateKey};

#[test]
fn wallet_prefix_bytes_and_names() {
    let all = WalletPrefix::all();
    assert_eq!(
        all,
        vec![WalletPrefix::NextPegInTweakIndex, WalletPrefix::RecoveryState, WalletPrefix::RecoveryFinalized]
    );
    let bytes: Vec<u8> = all.iter().map(|p| p.to_byte()).collect();
    assert_eq!(bytes, vec![0x2c, 0x2d, 0x2e]);
    for p in all {
        assert_eq!(WalletPrefix::from_byte(p.to_byte()), Some(p));
    }
    assert_eq!(WalletPrefix::from_byte(0x2b), None);
    assert_eq!(WalletPrefix::from_byte(0x2f), None);
    assert_eq!(WalletPrefix::RecoveryState.to_string(), "RecoveryState");
    assert_eq!(WalletPrefix::NextPegInTweakIndex.to_string(), "NextPegInTweakIndex");
    assert_eq!(WalletPrefix::RecoveryFinalized.to_string(), "RecoveryFinalized");
    assert_eq!(NextPegInTweakIndexKey.db_prefix(), WalletPrefix::NextPegInTweakIndex);
    assert_eq!(RecoveryStateKey.db_prefix(), WalletPrefix::RecoveryState);
    assert_eq!(RecoveryFinalizedKey.db_prefix(), WalletPrefix::RecoveryFinalized);
}

#[test]
fn meta_prefix_bytes_and_names() {
    let all = MetaPrefix::all();
    assert_eq!(all, vec![MetaPrefix::Desired, MetaPrefix::Consensus, MetaPrefix::Submissions]);
    let bytes: Vec<u8> = all.iter().map(|p| p.to_byte()).collect();
    assert_eq!(bytes, vec![0x00, 0x01, 0x02]);
    for p in all {
        assert_eq!(MetaPrefix::from_byte(p.to_byte()), Some(p));
    }
    assert_eq!(MetaPrefix::from_byte(3), None);
    assert_eq!(MetaPrefix::Desired.to_string(), "Desired");
    assert_eq!(MetaPrefix::Consensus.to_string(), "Consensus");
    assert_eq!(MetaPrefix::Submissions.to_string(), "Submissions");
    assert_eq!(MetaDesiredKey(MetaKey(0)).db_prefix(), MetaPrefix::Desired);
    assert_eq!(MetaConsensusKey(MetaKey(0)).db_prefix(), MetaPrefix::Consensus);
}

#[test]
fn submissions_by_key_prefix_selects_same_key() {
    let prefix = MetaSubmissionsByKeyPrefix(MetaKey(7));
    let mine = MetaSubmissionsKey { key: MetaKey(7), peer_id: PeerId(0) };
    let other_peer = MetaSubmissionsKey { key: MetaKey(7), peer_id: PeerId(3) };
    let other_key = MetaSubmissionsKey { key: MetaKey(8), peer_id: PeerId(0) };
    assert!(prefix.selects(&mine));
    assert!(prefix.selects(&other_peer));
    assert!(!prefix.selects(&other_key));
    assert_eq!(mine.db_prefix(), MetaPrefix::Submissions);
}
