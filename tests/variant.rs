use web_crawler::error::ExtractError;
use web_crawler::variant::{variant_from_label, variant_from_lowered, TableVariant};

#[test]
fn label_matching_ignores_case() {
    assert_eq!(variant_from_label("Standard"), Ok(TableVariant::Standard));
    assert_eq!(variant_from_label("EXPANDED"), Ok(TableVariant::Expanded));
    assert_eq!(variant_from_label("eXpAnDeD"), Ok(TableVariant::Expanded));
}

#[test]
fn unknown_labels_are_rejected() {
    assert_eq!(variant_from_label("Advanced"), Err(ExtractError::UnknownVariant));
    assert_eq!(variant_from_label(""), Err(ExtractError::UnknownVariant));
    assert_eq!(variant_from_label(" standard"), Err(ExtractError::UnknownVariant));
}

#[test]
fn lowered_matching_is_exact() {
    assert_eq!(variant_from_lowered("standard"), Ok(TableVariant::Standard));
    assert_eq!(variant_from_lowered("expanded"), Ok(TableVariant::Expanded));
    assert_eq!(variant_from_lowered("Standard"), Err(ExtractError::UnknownVariant));
}

#[test]
fn toggle_round_trip() {
    for v in [TableVariant::Standard, TableVariant::Expanded] {
        assert_ne!(v.toggled(), v);
        assert_eq!(v.toggled().toggled(), v);
    }
    assert_eq!(TableVariant::Standard.toggled(), TableVariant::Expanded);
}
