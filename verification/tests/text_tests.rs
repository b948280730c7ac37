use ofm_core::params::NoteParams;
use ofm_core::text::{decimal_text, signed_decimal_text};

#[test]
fn decimal_text_matches_to_string() {
    for n in [0u64, 7, 10, 99, 100, 14_000, 1_234_567, u64::MAX] {
        assert_eq!(decimal_text(n), n.to_string());
    }
}

#[test]
fn signed_decimal_text_matches_to_string() {
    for n in [0i64, -1, 42, -42, 50_000, i64::MAX, i64::MIN] {
        assert_eq!(signed_decimal_text(n), n.to_string());
    }
}

#[test]
fn note_params_read_back_what_was_written() {
    let mut params = NoteParams::new();
    assert_eq!(params.len(), 0);
    assert_eq!(params.get("wage"), None);
    params.insert("wage".to_string(), "14000".to_string());
    params.insert("years".to_string(), "3".to_string());
    assert_eq!(params.get("wage"), Some("14000".to_string()));
    assert_eq!(params.get("years"), Some("3".to_string()));
    assert_eq!(params.len(), 2);
    params.insert("wage".to_string(), "15000".to_string());
    assert_eq!(params.get("wage"), Some("15000".to_string()));
    assert_eq!(params.len(), 2);
    let copy = params.duplicate();
    assert_eq!(copy.get("years"), Some("3".to_string()));
    assert_eq!(copy.len(), 2);
}
