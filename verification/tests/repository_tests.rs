use base_backend::crypto::hash_token;
use base_backend::models::AuthRequestDto;
use base_backend::models::CreateMessageModelDto;
use base_backend::repositories::BaseRepository;
use base_backend::repositories::CredentialRepository;
use base_backend::repositories::InMemoryBaseRepository;
use base_backend::repositories::InMemoryCredentialRepository;
use base_backend::repositories::InMemoryTokenRepository;
use base_backend::repositories::TokenRepository;
use base_backend::services::AuthService;
use base_backend::services::AuthServiceImpl;
use base_backend::services::BaseService;
use base_backend::services::BaseServiceImpl;

#[test]
fn test_add_message() {
    let mut repository = InMemoryBaseRepository::new();
    let content = String::from("Hello, world!");

    let message = repository.add_message(content.clone());

    assert_eq!(message.content, content);
    assert_eq!(message.id, 1);

    let messages = repository.get_messages();

    assert_eq!(messages.len(), 1);
    assert_eq!(messages[0].content, content);
}

#[test]
fn test_get_messages() {
    let mut repo = InMemoryBaseRepository::new();

    repo.add_message(String::from("Message 1"));
    repo.add_message(String::from("Message 2"));

    let messages = repo.get_messages();

    assert_eq!(messages.len(), 2);
    assert_eq!(messages[0].content, "Message 1");
    assert_eq!(messages[1].content, "Message 2");
}

#[test]
fn test_search_messages() {
    let mut repo = InMemoryBaseRepository::new();
    repo.add_message(String::from("Hello, world!"));
    repo.add_message(String::from("Hello, Rust!"));
    repo.add_message(String::from("Goodbye, world!"));

    let results = repo.search_messages("Hello");
    assert_eq!(results.len(), 2);
    assert!(results.iter().any(|m| m.content == "Hello, world!"));
    assert!(results.iter().any(|m| m.content == "Hello, Rust!"));
}

#[test]
fn search_keeps_stored_order_and_ids() {
    let mut repo = InMemoryBaseRepository::new();
    repo.add_message(String::from("alpha beta"));
    repo.add_message(String::from("gamma"));
    repo.add_message(String::from("beta gamma"));

    let results = repo.search_messages("beta");
    assert_eq!(results.len(), 2);
    assert_eq!(results[0].id, 1);
    assert_eq!(results[1].id, 3);

    let none = repo.search_messages("delta");
    assert!(none.is_empty());
}

#[test]
fn store_and_validate_token() {
    let mut repo = InMemoryTokenRepository::new();
    let token = "test";
    let hashed_hex = hash_token(token);
    let now: i64 = 1_000_000;
    repo.store_token(hashed_hex.clone(), now + 300);
    assert!(repo.is_valid(&hashed_hex, now));
}

#[test]
fn expired_tokens_are_dropped() {
    let mut repo = InMemoryTokenRepository::new();
    let hashed_hex = hash_token("test");
    let now: i64 = 1_000_000;
    repo.store_token(hashed_hex.clone(), now + 300);
    assert!(!repo.is_valid(&hashed_hex, now + 300));
    // Once dropped, the token stays gone even for an earlier clock.
    assert!(!repo.is_valid(&hashed_hex, now));
}

#[test]
fn validate_user_and_client_credentials() {
    let repo = InMemoryCredentialRepository::new();
    assert!(repo.validate_user("admin", "password"));
    assert!(!repo.validate_user("admin", "wrong"));
    assert!(repo.validate_client("client", "secret"));
    assert!(!repo.validate_client("client", "nope"));
}

#[test]
fn generate_and_validate_token() {
    let token_repo = InMemoryTokenRepository::new();
    let cred_repo = InMemoryCredentialRepository::new();
    let mut service = AuthServiceImpl::new(token_repo, cred_repo);
    let request = AuthRequestDto::User {
        username: "admin".to_string(),
        password: "password".to_string(),
    };
    let now: i64 = 1_000_000;
    let token = service.generate_token(request, now).unwrap().token;
    assert!(service.validate_token(&token, now));
    // The token expires one hour after issuance.
    assert!(!service.validate_token(&token, now + 3600));
}

#[test]
fn reject_invalid_credentials() {
    let token_repo = InMemoryTokenRepository::new();
    let cred_repo = InMemoryCredentialRepository::new();
    let mut service = AuthServiceImpl::new(token_repo, cred_repo);
    let request = AuthRequestDto::User {
        username: "admin".to_string(),
        password: "wrong".to_string(),
    };
    assert!(service.generate_token(request, 1_000_000).is_err());
}

#[test]
fn client_credentials_also_issue_tokens() {
    let token_repo = InMemoryTokenRepository::new();
    let cred_repo = InMemoryCredentialRepository::new();
    let mut service = AuthServiceImpl::new(token_repo, cred_repo);
    let good = AuthRequestDto::Client {
        client_id: "client".to_string(),
        client_secret: "secret".to_string(),
    };
    let token = service.generate_token(good, 5).unwrap().token;
    // 32 random bytes encode to 43 unpadded base64 characters.
    assert_eq!(token.len(), 43);
    assert!(service.validate_token(&token, 5));

    let bad = AuthRequestDto::Client {
        client_id: "client".to_string(),
        client_secret: "wrong".to_string(),
    };
    assert!(service.generate_token(bad, 5).is_err());
}

#[test]
fn issued_tokens_differ_between_calls() {
    let token_repo = InMemoryTokenRepository::new();
    let cred_repo = InMemoryCredentialRepository::new();
    let mut service = AuthServiceImpl::new(token_repo, cred_repo);
    let request = || AuthRequestDto::User {
        username: "admin".to_string(),
        password: "password".to_string(),
    };
    let first = service.generate_token(request(), 1).unwrap().token;
    let second = service.generate_token(request(), 1).unwrap().token;
    assert_ne!(first, second);
}

#[test]
fn hash_token_matches_known_digest() {
    // SHA-256 of "test", hex-encoded.
    assert_eq!(
        hash_token("test"),
        "9f86d081884c7d659a2feaa0c55ad015a3bf4f1b2b0b822cd15d6c15b0f00a08"
    );
    assert_eq!(
        hash_token(""),
        "e3b0c44298fc1c149afbf4c8996fb92427ae41e4649b934ca495991b7852b855"
    );
}

#[test]
fn service_stores_and_searches_through_repository() {
    let repository = InMemoryBaseRepository::new();
    let mut service = BaseServiceImpl::new(repository);

    let stored = service.create_message(CreateMessageModelDto {
        content: Some(String::from("Hello, world!")),
    });
    assert_eq!(stored.id, 1);
    assert_eq!(stored.content, "Hello, world!");

    // An absent content field is stored as the empty string.
    let empty = service.create_message(CreateMessageModelDto { content: None });
    assert_eq!(empty.id, 2);
    assert_eq!(empty.content, "");

    let all = service.get_messages();
    assert_eq!(all.len(), 2);

    let found = service.search_messages("world");
    assert_eq!(found.len(), 1);
    assert_eq!(found[0].id, 1);
}
