use fedimint_guard::meta_cli::{
    show_consensus_value, to_hex_lower, MetaCliError, ShownConsensus, ShownValue,
};
use fedimint_guard::meta_db::{MetaConsensusValue, MetaValue};

#[test]
fn hex_is_lower_case_two_digits_per_byte() {
    assert_eq!(to_hex_lower(&[]), "");
    assert_eq!(to_hex_lower(&[0x00, 0x0f, 0xab, 0xff, 0x10]), "000fabff10");
}

#[test]
fn no_entry_shows_null() {
    assert!(matches!(show_consensus_value(None, false), Ok(ShownConsensus::Null)));
    assert!(matches!(show_consensus_value(None, true), Ok(ShownConsensus::Null)));
}

#[test]
fn raw_entry_shows_hex() {
    let entry = MetaConsensusValue { revision: 3, value: MetaValue(b"{}".to_vec()) };
    match show_consensus_value(Some(entry), true) {
        Ok(ShownConsensus::Entry { revision, value: ShownValue::Hex(h) }) => {
            assert_eq!(revision, 3);
            assert_eq!(h, "7b7d");
        }
        other => panic!("unexpected {other:?}"),
    }
}

#[test]
fn json_entry_is_parsed() {
    let entry = MetaConsensusValue { revision: 9, value: MetaValue(b" {\"a\": [1, 2]} ".to_vec()) };
    match show_consensus_value(Some(entry), false) {
        Ok(ShownConsensus::Entry { revision, value: ShownValue::Json(v) }) => {
            assert_eq!(revision, 9);
            assert_eq!(v["a"][1], serde_json::Value::from(2));
        }
        other => panic!("unexpected {other:?}"),
    }
}

#[test]
fn non_json_entry_fails() {
    let entry = MetaConsensusValue { revision: 1, value: MetaValue(b"{} trailing".to_vec()) };
    match show_consensus_value(Some(entry), false) {
        Err(e) => {
            assert!(matches!(e, MetaCliError::ValueNotJson(_)));
            assert_eq!(e.message(), "deserializating consensus value as json");
        }
        Ok(other) => panic!("unexpected {other:?}"),
    }
}
