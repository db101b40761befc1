//! The service layer: message operations over a repository, and the
//! token service that checks credentials, issues opaque tokens and
//! validates them against the hashed-token store.

use vstd::prelude::*;
use vstd::string::*;

use crate::crypto::base64_url_of;
use crate::crypto::base64_url_encode;
use crate::crypto::hash_token;
use crate::crypto::random_token_bytes;
use crate::crypto::spec_hash_token;
use crate::errors::ApiError;
use crate::models::AuthRequestDto;
use crate::models::CreateMessageModelDto;
use crate::models::MessageModel;
use crate::models::TokenResponseDto;
use crate::repositories::BaseRepository;
use crate::repositories::CredentialRepository;
use crate::repositories::TokenRepository;
use crate::repositories::live_tokens;
use crate::repositories::lookup_secret;
use crate::repositories::matching_messages;
use crate::repositories::messages_view;

verus! {

/// The stored content for a create request: the given content, or empty
/// when the field was absent.
pub open spec fn content_or_empty(c: Option<Seq<char>>) -> Seq<char> {
    match c {
        Some(s) => s,
        None => Seq::empty(),
    }
}

/// Message operations offered to request handlers.
pub trait BaseService: Sized {
    /// The stored messages as (id, content) pairs, in insertion order.
    spec fn messages_model(&self) -> Seq<(nat, Seq<char>)>;

    /// Returns every stored message in insertion order.
    fn get_messages(&self) -> (r: Vec<MessageModel>)
        ensures
            messages_view(r@) == self.messages_model(),
    ;

    /// The number of stored messages.
    fn message_count(&self) -> (r: usize)
        ensures
            r == self.messages_model().len(),
    ;

    /// Stores the request's content (empty when absent) under the next
    /// sequential identifier and returns the stored message.
    fn create_message(&mut self, dto: CreateMessageModelDto) -> (r: MessageModel)
        requires
            old(self).messages_model().len() < usize::MAX,
        ensures
            final(self).messages_model() == old(self).messages_model().push(
                (
                    (old(self).messages_model().len() + 1) as nat,
                    content_or_empty(crate::models::opt_str_view(dto.content)),
                ),
            ),
            r@ == (
                (old(self).messages_model().len() + 1) as nat,
                content_or_empty(crate::models::opt_str_view(dto.content)),
            ),
    ;

    /// Returns the messages whose content contains `query`, in stored
    /// order.
    fn search_messages(&self, query: &str) -> (r: Vec<MessageModel>)
        ensures
            messages_view(r@) == matching_messages(self.messages_model(), query@),
    ;
}

/// The message service over any message repository.
pub struct BaseServiceImpl<R> {
    repository: R,
}

impl<R: BaseRepository> BaseServiceImpl<R> {
    /// Wraps a repository; the service's messages are the repository's.
    pub fn new(repository: R) -> (r: Self)
        ensures
            r.messages_model() == repository.messages_model(),
    {
        BaseServiceImpl { repository }
    }
}

impl<R: BaseRepository> BaseService for BaseServiceImpl<R> {
    closed spec fn messages_model(&self) -> Seq<(nat, Seq<char>)> {
        self.repository.messages_model()
    }

    fn get_messages(&self) -> (r: Vec<MessageModel>) {
        self.repository.get_messages()
    }

    fn message_count(&self) -> (r: usize) {
        self.repository.message_count()
    }

    fn create_message(&mut self, dto: CreateMessageModelDto) -> (r: MessageModel) {
        let content = match dto.content {
            Some(c) => c,
            None => String::new(),
        };
        self.repository.add_message(content)
    }

    fn search_messages(&self, query: &str) -> (r: Vec<MessageModel>) {
        self.repository.search_messages(query)
    }
}

/// Whether the credential table accepts the request's credentials.
pub open spec fn spec_request_ok<C: CredentialRepository>(c: C, request: AuthRequestDto) -> bool {
    match request {
        AuthRequestDto::User { username, password } => lookup_secret(c.users_model(), username@)
            == Some(password@),
        AuthRequestDto::Client { client_id, client_secret } => lookup_secret(
            c.clients_model(),
            client_id@,
        ) == Some(client_secret@),
    }
}

/// `a + b` clamped to the range of a 64-bit signed integer.
pub open spec fn sat_add_i64(a: int, b: int) -> int {
    if a + b > i64::MAX {
        i64::MAX as int
    } else if a + b < i64::MIN {
        i64::MIN as int
    } else {
        a + b
    }
}

/// Token issuance and validation.
pub trait AuthService: Sized {
    /// A structural bound the service maintains.
    spec fn wf(&self) -> bool;

    /// Whether the given credentials are acceptable.
    spec fn credentials_ok(&self, request: AuthRequestDto) -> bool;

    /// The stored (hashed token, expiry) pairs, in insertion order.
    spec fn issued_tokens(&self) -> Seq<(Seq<char>, int)>;

    /// The expiry assigned to a token issued at `now`.
    spec fn expiry_for(&self, now: int) -> int;

    /// Checks the request's credentials and, when they are acceptable,
    /// issues a fresh opaque token, storing its hash with the expiry for
    /// `now`; unacceptable credentials change nothing and are reported.
    fn generate_token(&mut self, request: AuthRequestDto, now: i64) -> (r: Result<
        TokenResponseDto,
        ApiError,
    >)
        requires
            old(self).wf(),
        ensures
            final(self).wf(),
            r is Ok <==> old(self).credentials_ok(request),
            r is Ok ==> final(self).issued_tokens() == old(self).issued_tokens().push(
                (spec_hash_token((r->Ok_0).token@), old(self).expiry_for(now as int)),
            ),
            r is Ok ==> exists|bytes: Seq<u8>|
                bytes.len() == 32 && (r->Ok_0).token@ == base64_url_of(bytes),
            r is Err ==> *final(self) == *old(self) && (r->Err_0 matches ApiError::BadRequest(
                msg,
                code,
            ) && msg@ == "Invalid credentials"@ && code == 401),
            forall|req: AuthRequestDto|
                final(self).credentials_ok(req) == old(self).credentials_ok(req),
            forall|t: int| #[trigger] final(self).expiry_for(t) == old(self).expiry_for(t),
    ;

    /// Drops every token expired at `now`, then reports whether the
    /// token's hash is still stored.
    fn validate_token(&mut self, token: &str, now: i64) -> (r: bool)
        requires
            old(self).wf(),
        ensures
            final(self).wf(),
            final(self).issued_tokens() == live_tokens(old(self).issued_tokens(), now as int),
            r == (exists|k: int|
                0 <= k < final(self).issued_tokens().len() && final(self).issued_tokens()[k].0
                    == spec_hash_token(token@)),
            forall|req: AuthRequestDto|
                final(self).credentials_ok(req) == old(self).credentials_ok(req),
            forall|t: int| #[trigger] final(self).expiry_for(t) == old(self).expiry_for(t),
    ;
}

/// The token service over any token store and credential table. Issued
/// tokens live for one hour.
pub struct AuthServiceImpl<R, C> {
    token_repository: R,
    credential_repository: C,
    ttl_minutes: i64,
}

impl<R: TokenRepository, C: CredentialRepository> AuthServiceImpl<R, C> {
    /// Wraps a token store and a credential table.
    pub fn new(token_repository: R, credential_repository: C) -> (r: Self)
        ensures
            r.wf(),
            r.issued_tokens() == token_repository.tokens_model(),
            forall|req: AuthRequestDto|
                #[trigger] r.credentials_ok(req) == spec_request_ok(credential_repository, req),
            forall|t: int| #[trigger] r.expiry_for(t) == sat_add_i64(t, 3600),
    {
        AuthServiceImpl { token_repository, credential_repository, ttl_minutes: 60 }
    }
}

impl<R: TokenRepository, C: CredentialRepository> AuthService for AuthServiceImpl<R, C> {
    closed spec fn wf(&self) -> bool {
        0 <= self.ttl_minutes <= 1440
    }

    closed spec fn credentials_ok(&self, request: AuthRequestDto) -> bool {
        spec_request_ok(self.credential_repository, request)
    }

    closed spec fn issued_tokens(&self) -> Seq<(Seq<char>, int)> {
        self.token_repository.tokens_model()
    }

    closed spec fn expiry_for(&self, now: int) -> int {
        sat_add_i64(now, self.ttl_minutes * 60)
    }

    fn generate_token(&mut self, request: AuthRequestDto, now: i64) -> (r: Result<
        TokenResponseDto,
        ApiError,
    >) {
        let valid = match &request {
            AuthRequestDto::User { username, password } => self.credential_repository.validate_user(
                username.as_str(),
                password.as_str(),
            ),
            AuthRequestDto::Client { client_id, client_secret } => self.credential_repository
                .validate_client(client_id.as_str(), client_secret.as_str()),
        };
        if !valid {
            return Err(ApiError::BadRequest(String::from_str("Invalid credentials"), 401));
        }
        let bytes = random_token_bytes();
        let token = base64_url_encode(bytes.as_slice());
        let hashed_hex = hash_token(token.as_str());
        let ttl_seconds: i64 = self.ttl_minutes * 60;
        let expires_at: i64 = match now.checked_add(ttl_seconds) {
            Some(v) => v,
            None => i64::MAX,
        };
        self.token_repository.store_token(hashed_hex, expires_at);
        Ok(TokenResponseDto { token })
    }

    fn validate_token(&mut self, token: &str, now: i64) -> (r: bool) {
        let hashed = hash_token(token);
        self.token_repository.is_valid(hashed.as_str(), now)
    }
}

} // verus!
