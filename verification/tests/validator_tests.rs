use base_backend::ErrorCodes;
use base_backend::errors::ApiError;
use base_backend::models::Real;
use base_backend::validator::Rule;
use base_backend::validator::Validation;

fn expect_codes(result: Result<Option<&String>, ApiError>) -> Vec<ErrorCodes> {
    match result {
        Ok(_) => panic!("expected a validation failure"),
        Err(ApiError::MultipleErrors(codes, _, _)) => codes,
        Err(_) => panic!("expected MultipleErrors"),
    }
}

#[test]
fn empty_chain_returns_original_value() {
    let value = String::from("anything at all");
    let rule = Rule::new(Some(&value), None, None);
    let out = rule.validate().expect("empty chain must succeed");
    assert_eq!(out.map(|s| s.as_str()), Some("anything at all"));
}

#[test]
fn empty_chain_succeeds_on_absent_value() {
    let rule: Rule<String> = Rule::new(None, None, None);
    let out = rule.validate().expect("empty chain must succeed");
    assert!(out.is_none());
}

#[test]
fn satisfied_chain_succeeds() {
    let value = String::from("ok");
    let out = Rule::new(Some(&value), Some("content".to_string()), None)
        .not_null()
        .with_error_code(ErrorCodes::NotNull)
        .not_empty()
        .with_error_code(ErrorCodes::NotEmpty)
        .max_length(32)
        .with_error_code(ErrorCodes::MaxSize)
        .validate()
        .expect("all checks hold");
    assert_eq!(out.map(|s| s.as_str()), Some("ok"));
}

#[test]
fn absent_value_reports_only_not_null() {
    let result = Rule::<String>::new(None, Some("content".to_string()), None)
        .not_null()
        .with_error_code(ErrorCodes::NotNull)
        .not_empty()
        .with_error_code(ErrorCodes::NotEmpty)
        .max_length(32)
        .with_error_code(ErrorCodes::MaxSize)
        .validate();
    let codes = expect_codes(result);
    assert_eq!(codes, vec![ErrorCodes::NotNull]);
}

#[test]
fn empty_string_reports_only_not_empty() {
    let value = String::new();
    let result = Rule::new(Some(&value), Some("content".to_string()), None)
        .not_null()
        .with_error_code(ErrorCodes::NotNull)
        .not_empty()
        .with_error_code(ErrorCodes::NotEmpty)
        .max_length(32)
        .with_error_code(ErrorCodes::MaxSize)
        .validate();
    let codes = expect_codes(result);
    assert_eq!(codes, vec![ErrorCodes::NotEmpty]);
}

#[test]
fn forty_char_string_reports_only_max_size() {
    let value = "x".repeat(40);
    let result = Rule::new(Some(&value), Some("content".to_string()), None)
        .not_null()
        .with_error_code(ErrorCodes::NotNull)
        .not_empty()
        .with_error_code(ErrorCodes::NotEmpty)
        .max_length(32)
        .with_error_code(ErrorCodes::MaxSize)
        .validate();
    let codes = expect_codes(result);
    assert_eq!(codes, vec![ErrorCodes::MaxSize]);
}

#[test]
fn failure_codes_keep_declaration_order_for_numeric_chain() {
    // Out of range and fractional at once: the report lists the codes in
    // the order the checks were declared.
    let value = Real::new(99, 500_000_000);
    let result = Rule::new(Some(&value), Some("amount".to_string()), None)
        .within_range(Real::new(0, 0), Real::new(10, 0))
        .with_error_code(ErrorCodes::NotEmpty)
        .is_integer()
        .with_error_code(ErrorCodes::MaxSize)
        .validate();
    match result {
        Err(ApiError::MultipleErrors(codes, _, _)) => {
            assert_eq!(codes, vec![ErrorCodes::NotEmpty, ErrorCodes::MaxSize]);
        }
        _ => panic!("expected MultipleErrors"),
    }

    // Declared the other way round, the codes come the other way round.
    let result = Rule::new(Some(&value), Some("amount".to_string()), None)
        .is_integer()
        .with_error_code(ErrorCodes::MaxSize)
        .within_range(Real::new(0, 0), Real::new(10, 0))
        .with_error_code(ErrorCodes::NotEmpty)
        .validate();
    match result {
        Err(ApiError::MultipleErrors(codes, _, _)) => {
            assert_eq!(codes, vec![ErrorCodes::MaxSize, ErrorCodes::NotEmpty]);
        }
        _ => panic!("expected MultipleErrors"),
    }
}

#[test]
fn missing_override_reports_nodeclared() {
    let value = String::new();
    let result = Rule::new(Some(&value), None, None).not_empty().validate();
    let codes = expect_codes(result);
    assert_eq!(codes, vec![ErrorCodes::Nodeclared]);
}

#[test]
fn with_error_code_targets_most_recent_check_only() {
    // Only the second check carries an override; the first falls back to
    // the sentinel when it fires on the absent value.
    let result: Result<Option<&String>, ApiError> = Rule::<String>::new(None, None, None)
        .not_null()
        .not_empty()
        .with_error_code(ErrorCodes::NotEmpty)
        .validate();
    match result {
        Err(ApiError::MultipleErrors(codes, _, _)) => {
            assert_eq!(codes, vec![ErrorCodes::Nodeclared]);
        }
        _ => panic!("expected MultipleErrors"),
    }
}

#[test]
fn with_error_code_on_empty_chain_changes_nothing() {
    let value = String::from("x");
    let out = Rule::new(Some(&value), None, None)
        .with_error_code(ErrorCodes::NotNull)
        .validate()
        .expect("no checks declared");
    assert_eq!(out.map(|s| s.as_str()), Some("x"));
}

#[test]
fn failure_report_echoes_field_and_instance() {
    let result = Rule::<String>::new(
        None,
        Some("content".to_string()),
        Some("/api/v1/messages".to_string()),
    )
    .not_null()
    .with_error_code(ErrorCodes::NotNull)
    .validate();
    match result {
        Err(ApiError::MultipleErrors(codes, field, instance)) => {
            assert_eq!(codes, vec![ErrorCodes::NotNull]);
            assert_eq!(field.as_deref(), Some("content"));
            assert_eq!(instance.as_deref(), Some("/api/v1/messages"));
        }
        _ => panic!("expected MultipleErrors"),
    }
}

#[test]
fn within_range_accepts_boundaries() {
    let ok_low: u32 = 10;
    let ok_high: u32 = 20;
    let bad: u32 = 21;
    assert!(Rule::new(Some(&ok_low), None, None).within_range(10, 20).validate().is_ok());
    assert!(Rule::new(Some(&ok_high), None, None).within_range(10, 20).validate().is_ok());
    assert!(Rule::new(Some(&bad), None, None).within_range(10, 20).validate().is_err());
}

#[test]
fn numeric_checks_on_real_values() {
    let whole = Real::new(3, 0);
    let fractional = Real::new(3, 250_000_000);

    // is_integer fails only on a fractional value.
    assert!(Rule::new(Some(&whole), None, None).is_integer().validate().is_ok());
    assert!(Rule::new(Some(&fractional), None, None).is_integer().validate().is_err());

    // is_decimal and has_decimals fail only on a whole value.
    assert!(Rule::new(Some(&whole), None, None).is_decimal().validate().is_err());
    assert!(Rule::new(Some(&fractional), None, None).is_decimal().validate().is_ok());
    assert!(Rule::new(Some(&whole), None, None).has_decimals().validate().is_err());
    assert!(Rule::new(Some(&fractional), None, None).has_decimals().validate().is_ok());

    // is_number never fails.
    assert!(Rule::new(Some(&whole), None, None).is_number().validate().is_ok());
    assert!(Rule::new(Some(&fractional), None, None).is_number().validate().is_ok());
}

#[test]
fn checks_other_than_not_null_skip_absent_values() {
    assert!(Rule::<Real>::new(None, None, None).is_integer().is_decimal().has_decimals().validate().is_ok());
    assert!(Rule::<u32>::new(None, None, None).within_range(5, 6).validate().is_ok());
    assert!(Rule::<String>::new(None, None, None).not_empty().max_length(0).validate().is_ok());
}

#[test]
fn not_null_fires_for_every_value_kind() {
    assert_eq!(
        <bool as Validation>::check_not_null(&None, Some(ErrorCodes::NotNull)),
        Some(ErrorCodes::NotNull)
    );
    assert_eq!(<bool as Validation>::check_not_null(&Some(&true), None), None);
    assert_eq!(<u32 as Validation>::check_not_null(&None, None), Some(ErrorCodes::Nodeclared));
    assert_eq!(
        <String as Validation>::check_not_null(&None, Some(ErrorCodes::NotNull)),
        Some(ErrorCodes::NotNull)
    );
    assert_eq!(
        <Real as Validation>::check_not_null(&None, Some(ErrorCodes::NotNull)),
        Some(ErrorCodes::NotNull)
    );
    // A chain with no not-null check accepts an absent value.
    let absent_bool: Result<Option<&bool>, ApiError> = Rule::<bool>::new(None, None, None)
        .validate();
    assert!(absent_bool.is_ok());
}
