use std::sync::Arc;

use base_backend::auth::AuthError;
use base_backend::auth::build_claims;
use base_backend::auth::extract_bearer_token;
use base_backend::config::Config;
use base_backend::config::parse_port;
use base_backend::models::MessageModel;
use base_backend::models::Real;
use base_backend::models::to_message_responses;
use base_backend::repositories::InMemoryBaseRepository;
use base_backend::router::Router;
use base_backend::router::build_static_address;
use base_backend::services::BaseServiceImpl;
use base_backend::text::contains_substring;
use base_backend::text::has_prefix;
use base_backend::text::str_eq;

#[test]
fn build_claims_sets_subject_and_24_hour_expiry() {
    let claims = build_claims("admin", 1_700_000_000);
    assert_eq!(claims.sub, "admin");
    assert_eq!(claims.iat, 1_700_000_000);
    assert_eq!(claims.exp, 1_700_000_000 + 86_400);
}

#[test]
fn build_claims_clamps_expiry_at_the_end_of_time() {
    let claims = build_claims("admin", i64::MAX - 10);
    assert_eq!(claims.exp, i64::MAX);
}

#[test]
fn extract_bearer_token_strips_the_prefix() {
    let header = String::from("Bearer abc.def");
    assert_eq!(extract_bearer_token(Some(&header)).unwrap(), "abc.def");

    let empty_token = String::from("Bearer ");
    assert_eq!(extract_bearer_token(Some(&empty_token)).unwrap(), "");
}

#[test]
fn extract_bearer_token_rejects_missing_or_malformed_headers() {
    assert_eq!(extract_bearer_token(None), Err(AuthError::MissingToken));
    let no_prefix = String::from("Basic abc");
    assert_eq!(extract_bearer_token(Some(&no_prefix)), Err(AuthError::MissingToken));
    let short = String::from("Bearer");
    assert_eq!(extract_bearer_token(Some(&short)), Err(AuthError::MissingToken));
}

#[test]
fn parse_port_reads_decimal_ports() {
    assert_eq!(parse_port("3030"), Some(3030));
    assert_eq!(parse_port("0"), Some(0));
    assert_eq!(parse_port("65535"), Some(65535));
}

#[test]
fn parse_port_rejects_bad_text() {
    assert_eq!(parse_port(""), None);
    assert_eq!(parse_port("12a"), None);
    assert_eq!(parse_port("-1"), None);
    assert_eq!(parse_port("65536"), None);
    assert_eq!(parse_port("999999999999"), None);
}

#[test]
fn build_static_address_joins_base_and_path() {
    assert_eq!(
        build_static_address("http://127.0.0.1:3030", "index.html"),
        "http://127.0.0.1:3030/index.html"
    );
}

#[test]
fn text_helpers_compare_by_characters() {
    assert!(str_eq("hello", "hello"));
    assert!(!str_eq("hello", "hellO"));
    assert!(!str_eq("hello", "hell"));

    assert!(has_prefix("Bearer abc", "Bearer "));
    assert!(!has_prefix("Bear", "Bearer "));
    assert!(has_prefix("anything", ""));

    assert!(contains_substring("Hello, world!", "world"));
    assert!(contains_substring("Hello", ""));
    assert!(contains_substring("aaa", "aaa"));
    assert!(!contains_substring("Hello", "hello"));
    assert!(!contains_substring("ab", "abc"));
}

#[test]
fn real_values_order_lexicographically() {
    let a = Real::new(1, 0);
    let b = Real::new(1, 500_000_000);
    let c = Real::new(2, 0);
    assert!(a.lt(&b));
    assert!(b.lt(&c));
    assert!(!b.lt(&a));
    assert!(!a.lt(&a));
}

#[test]
fn message_responses_keep_ids_and_content() {
    let messages = vec![
        MessageModel { id: 1, content: String::from("one") },
        MessageModel { id: 2, content: String::from("two") },
    ];
    let dtos = to_message_responses(messages);
    assert_eq!(dtos.len(), 2);
    assert_eq!(dtos[0].id, 1);
    assert_eq!(dtos[0].content, "one");
    assert_eq!(dtos[1].id, 2);
    assert_eq!(dtos[1].content, "two");
}

#[test]
fn router_holds_service_and_config() {
    let service = BaseServiceImpl::new(InMemoryBaseRepository::new());
    let config = Arc::new(Config {
        port: 3030,
        api_base: String::from("api/v1"),
        static_dir: String::from("public"),
    });
    let router = Router::new(service, Arc::clone(&config));
    assert_eq!(router.config().port, 3030);
    assert_eq!(router.config().api_base, "api/v1");
    let _ = router.service();
}
