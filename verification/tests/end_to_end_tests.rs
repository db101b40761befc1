use base_backend::Registry;
use base_backend::base_validator::validate_create_message;
use base_backend::errors::to_response;
use base_backend::models::CreateMessageModelDto;

fn validate_and_map(content: Option<&str>) -> Option<(u16, u16)> {
    let dto = CreateMessageModelDto { content: content.map(String::from) };
    let registry = Registry::new();
    match validate_create_message(&dto, Some(String::from("/api/v1/messages"))) {
        Ok(()) => None,
        Err(err) => {
            let (resp, status) = to_response(&err, &registry);
            let details = resp.details.expect("validation problems");
            assert_eq!(resp.instance.as_deref(), Some("/api/v1/messages"));
            assert_eq!(details[0].field.as_deref(), Some("content"));
            Some((details[0].error_code, status))
        }
    }
}

#[test]
fn null_content_reports_code_1001_with_status_400() {
    assert_eq!(validate_and_map(None), Some((1001, 400)));
}

#[test]
fn empty_content_reports_code_1002() {
    assert_eq!(validate_and_map(Some("")), Some((1002, 400)));
}

#[test]
fn oversized_content_reports_code_1003() {
    let long = "This is a very long text that is more than 32 characters";
    assert!(long.len() > 32);
    assert_eq!(validate_and_map(Some(long)), Some((1003, 400)));
}

#[test]
fn forty_one_char_content_reports_code_1003() {
    let long = "y".repeat(41);
    assert_eq!(validate_and_map(Some(&long)), Some((1003, 400)));
}

#[test]
fn valid_content_produces_no_error_response() {
    assert_eq!(validate_and_map(Some("ok")), None);
    assert_eq!(validate_and_map(Some("Hello, world!")), None);
}

#[test]
fn boundary_content_of_32_chars_is_accepted() {
    let exact = "z".repeat(32);
    assert_eq!(validate_and_map(Some(&exact)), None);
    let over = "z".repeat(33);
    assert_eq!(validate_and_map(Some(&over)), Some((1003, 400)));
}
