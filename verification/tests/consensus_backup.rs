use fedimint_guard::consensus_backup::{concatenate_backup_units, next_unit_index};

#[test]
fn backup_is_units_one_after_another() {
    assert_eq!(concatenate_backup_units(&vec![]), Vec::<u8>::new());
    assert_eq!(
        concatenate_backup_units(&vec![vec![1, 2], vec![], vec![3], vec![4, 5, 6]]),
        vec![1, 2, 3, 4, 5, 6]
    );
}

#[test]
fn reading_after_append_adds_the_unit() {
    let mut units = vec![vec![9u8, 8], vec![7]];
    let before = concatenate_backup_units(&units);
    units.push(vec![6, 5]);
    let after = concatenate_backup_units(&units);
    let mut expected = before.clone();
    expected.extend_from_slice(&[6, 5]);
    assert_eq!(after, expected);
}

#[test]
fn next_index_follows_highest() {
    assert_eq!(next_unit_index(None), 0);
    assert_eq!(next_unit_index(Some(0)), 1);
    assert_eq!(next_unit_index(Some(2483)), 2484);
}
