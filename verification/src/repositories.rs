//! In-memory stores: messages with sequential identifiers, seeded user
//! and client credentials, and hashed opaque tokens with expiry.

use vstd::prelude::*;
use vstd::string::*;

use crate::models::MessageModel;
use crate::text::contains_substring;
use crate::text::seq_contains;
use crate::text::str_eq;

verus! {

/// The contents of a message store, as (id, content) pairs.
pub open spec fn messages_view(s: Seq<MessageModel>) -> Seq<(nat, Seq<char>)> {
    s.map_values(|m: MessageModel| m@)
}

/// The messages whose content contains `query`, in stored order.
pub open spec fn matching_messages(msgs: Seq<(nat, Seq<char>)>, query: Seq<char>) -> Seq<
    (nat, Seq<char>),
>
    decreases msgs.len(),
{
    if msgs.len() == 0 {
        Seq::empty()
    } else {
        let rest = matching_messages(msgs.drop_last(), query);
        if seq_contains(msgs.last().1, query) {
            rest.push(msgs.last())
        } else {
            rest
        }
    }
}

/// A store of messages, each filed under the next sequential identifier.
pub trait BaseRepository: Sized {
    /// The stored messages as (id, content) pairs, in insertion order.
    spec fn messages_model(&self) -> Seq<(nat, Seq<char>)>;

    /// Returns every stored message in insertion order.
    fn get_messages(&self) -> (r: Vec<MessageModel>)
        ensures
            messages_view(r@) == self.messages_model(),
    ;

    /// The number of stored messages.
    fn message_count(&self) -> (r: usize)
        ensures
            r == self.messages_model().len(),
    ;

    /// Stores a message under the next sequential identifier (one more
    /// than the current count) and returns it.
    fn add_message(&mut self, content: String) -> (r: MessageModel)
        requires
            old(self).messages_model().len() < usize::MAX,
        ensures
            final(self).messages_model() == old(self).messages_model().push(
                ((old(self).messages_model().len() + 1) as nat, content@),
            ),
            r@ == ((old(self).messages_model().len() + 1) as nat, content@),
    ;

    /// Returns the messages whose content contains `query`, in stored
    /// order.
    fn search_messages(&self, query: &str) -> (r: Vec<MessageModel>)
        ensures
            messages_view(r@) == matching_messages(self.messages_model(), query@),
    ;
}

/// An in-memory message store backed by a vector.
pub struct InMemoryBaseRepository {
    messages: Vec<MessageModel>,
}

impl InMemoryBaseRepository {
    /// Begins with no messages.
    pub fn new() -> (r: Self)
        ensures
            r.messages_model() == Seq::<(nat, Seq<char>)>::empty(),
    {
        let r = InMemoryBaseRepository { messages: Vec::new() };
        proof {
            assert(r.messages_model() =~= Seq::<(nat, Seq<char>)>::empty());
        }
        r
    }
}

impl BaseRepository for InMemoryBaseRepository {
    closed spec fn messages_model(&self) -> Seq<(nat, Seq<char>)> {
        messages_view(self.messages@)
    }

    fn get_messages(&self) -> (r: Vec<MessageModel>) {
        let mut out: Vec<MessageModel> = Vec::new();
        let n = self.messages.len();
        let mut i: usize = 0;
        proof {
            assert(messages_view(out@) =~= messages_view(self.messages@.take(0)));
            assert(messages_view(self.messages@) =~= self.messages_model());
        }
        while i < n
            invariant
                n == self.messages@.len(),
                0 <= i <= n,
                messages_view(out@) == messages_view(self.messages@.take(i as int)),
            decreases n - i,
        {
            let m = &self.messages[i];
            out.push(MessageModel { id: m.id, content: m.content.clone() });
            proof {
                assert(messages_view(out@) =~= messages_view(
                    self.messages@.take(i as int),
                ).push(self.messages@[i as int]@));
                assert(self.messages@.take(i as int + 1).drop_last() =~= self.messages@.take(
                    i as int,
                ));
                assert(messages_view(self.messages@.take(i as int + 1)) =~= messages_view(
                    self.messages@.take(i as int),
                ).push(self.messages@[i as int]@));
            }
            i = i + 1;
        }
        proof {
            assert(self.messages@.take(n as int) =~= self.messages@);
        }
        out
    }

    fn message_count(&self) -> (r: usize) {
        self.messages.len()
    }

    fn add_message(&mut self, content: String) -> (r: MessageModel) {
        proof {
            assert(self.messages_model().len() == self.messages@.len());
        }
        let id = self.messages.len() + 1;
        let result = MessageModel { id, content: content.clone() };
        self.messages.push(MessageModel { id, content });
        proof {
            assert(self.messages_model() =~= old(self).messages_model().push(
                ((old(self).messages_model().len() + 1) as nat, result.content@),
            ));
        }
        result
    }

    fn search_messages(&self, query: &str) -> (r: Vec<MessageModel>) {
        let mut out: Vec<MessageModel> = Vec::new();
        let n = self.messages.len();
        let mut i: usize = 0;
        let ghost model = self.messages_model();
        proof {
            assert(messages_view(out@) =~= matching_messages(model.take(0), query@));
        }
        while i < n
            invariant
                n == self.messages@.len(),
                model == self.messages_model(),
                model == messages_view(self.messages@),
                model.len() == n,
                0 <= i <= n,
                messages_view(out@) == matching_messages(model.take(i as int), query@),
            decreases n - i,
        {
            let m = &self.messages[i];
            let ghost before = out@;
            proof {
                assert(model.take(i as int + 1).drop_last() =~= model.take(i as int));
                assert(model.take(i as int + 1).last() == model[i as int]);
                assert(model[i as int] == self.messages@[i as int]@);
            }
            if contains_substring(m.content.as_str(), query) {
                out.push(MessageModel { id: m.id, content: m.content.clone() });
                proof {
                    assert(messages_view(out@) =~= messages_view(before).push(
                        self.messages@[i as int]@,
                    ));
                }
            }
            i = i + 1;
        }
        proof {
            assert(model.take(n as int) =~= model);
        }
        out
    }
}

/// The (name, secret) pairs of a credential table, as character
/// sequences.
pub open spec fn pairs_view(s: Seq<(String, String)>) -> Seq<(Seq<char>, Seq<char>)> {
    s.map_values(|p: (String, String)| (p.0@, p.1@))
}

/// The secret of the first pair registered under `key`, if any.
pub open spec fn lookup_secret(pairs: Seq<(Seq<char>, Seq<char>)>, key: Seq<char>) -> Option<
    Seq<char>,
>
    decreases pairs.len(),
{
    if pairs.len() == 0 {
        None
    } else if pairs[0].0 == key {
        Some(pairs[0].1)
    } else {
        lookup_secret(pairs.drop_first(), key)
    }
}

/// A read-only table of user and client credentials.
pub trait CredentialRepository: Sized {
    /// The (username, password) pairs.
    spec fn users_model(&self) -> Seq<(Seq<char>, Seq<char>)>;

    /// The (client id, client secret) pairs.
    spec fn clients_model(&self) -> Seq<(Seq<char>, Seq<char>)>;

    /// Whether the username is registered with exactly this password.
    fn validate_user(&self, username: &str, password: &str) -> (r: bool)
        ensures
            r == (lookup_secret(self.users_model(), username@) == Some(password@)),
    ;

    /// Whether the client id is registered with exactly this secret.
    fn validate_client(&self, client_id: &str, client_secret: &str) -> (r: bool)
        ensures
            r == (lookup_secret(self.clients_model(), client_id@) == Some(client_secret@)),
    ;
}

/// An in-memory credential table seeded with one user and one client.
pub struct InMemoryCredentialRepository {
    users: Vec<(String, String)>,
    clients: Vec<(String, String)>,
}

/// Scans a credential table for `key` and compares the stored secret
/// with `secret`.
fn scan_pairs(pairs: &Vec<(String, String)>, key: &str, secret: &str) -> (r: bool)
    ensures
        r == (lookup_secret(pairs_view(pairs@), key@) == Some(secret@)),
{
    let n = pairs.len();
    let mut i: usize = 0;
    let ghost model = pairs_view(pairs@);
    proof {
        assert(model.skip(0) =~= model);
    }
    while i < n
        invariant
            n == pairs@.len(),
            model == pairs_view(pairs@),
            model.len() == n,
            0 <= i <= n,
            lookup_secret(model.skip(i as int), key@) == lookup_secret(model, key@),
        decreases n - i,
    {
        proof {
            assert(model.skip(i as int)[0] == model[i as int]);
            assert(model.skip(i as int).drop_first() =~= model.skip(i as int + 1));
        }
        if str_eq(pairs[i].0.as_str(), key) {
            return str_eq(pairs[i].1.as_str(), secret);
        }
        i = i + 1;
    }
    proof {
        assert(model.skip(n as int) =~= Seq::<(Seq<char>, Seq<char>)>::empty());
    }
    false
}

impl InMemoryCredentialRepository {
    /// Begins with the seeded credentials: user `admin`/`password` and
    /// client `client`/`secret`.
    pub fn new() -> (r: Self)
        ensures
            r.users_model() == seq![("admin"@, "password"@)],
            r.clients_model() == seq![("client"@, "secret"@)],
    {
        let mut users: Vec<(String, String)> = Vec::new();
        users.push((String::from_str("admin"), String::from_str("password")));
        let mut clients: Vec<(String, String)> = Vec::new();
        clients.push((String::from_str("client"), String::from_str("secret")));
        let r = InMemoryCredentialRepository { users, clients };
        proof {
            assert(r.users_model() =~= seq![("admin"@, "password"@)]);
            assert(r.clients_model() =~= seq![("client"@, "secret"@)]);
        }
        r
    }
}

impl CredentialRepository for InMemoryCredentialRepository {
    closed spec fn users_model(&self) -> Seq<(Seq<char>, Seq<char>)> {
        pairs_view(self.users@)
    }

    closed spec fn clients_model(&self) -> Seq<(Seq<char>, Seq<char>)> {
        pairs_view(self.clients@)
    }

    fn validate_user(&self, username: &str, password: &str) -> (r: bool) {
        scan_pairs(&self.users, username, password)
    }

    fn validate_client(&self, client_id: &str, client_secret: &str) -> (r: bool) {
        scan_pairs(&self.clients, client_id, client_secret)
    }
}

/// The tokens whose expiry lies strictly after `now`, in stored order.
pub open spec fn live_tokens(tokens: Seq<(Seq<char>, int)>, now: int) -> Seq<(Seq<char>, int)>
    decreases tokens.len(),
{
    if tokens.len() == 0 {
        Seq::empty()
    } else {
        let rest = live_tokens(tokens.drop_last(), now);
        if tokens.last().1 > now {
            rest.push(tokens.last())
        } else {
            rest
        }
    }
}

/// A store of hashed tokens with their expiry timestamps (seconds since
/// the Unix epoch).
pub trait TokenRepository: Sized {
    /// The stored (hashed token, expiry) pairs, in insertion order.
    spec fn tokens_model(&self) -> Seq<(Seq<char>, int)>;

    /// Stores one hashed token with its expiry.
    fn store_token(&mut self, hashed_token: String, expires_at: i64)
        ensures
            final(self).tokens_model() == old(self).tokens_model().push(
                (hashed_token@, expires_at as int),
            ),
    ;

    /// Drops every token expired at `now`, then reports whether the
    /// hashed token is still stored.
    fn is_valid(&mut self, hashed_token: &str, now: i64) -> (r: bool)
        ensures
            final(self).tokens_model() == live_tokens(old(self).tokens_model(), now as int),
            r == (exists|k: int|
                0 <= k < final(self).tokens_model().len() && final(self).tokens_model()[k].0
                    == hashed_token@),
    ;
}

struct TokenEntry {
    hashed: String,
    expires_at: i64,
}

/// The stored (hash, expiry) pairs of a token vector.
spec fn entries_view(s: Seq<TokenEntry>) -> Seq<(Seq<char>, int)> {
    s.map_values(|t: TokenEntry| (t.hashed@, t.expires_at as int))
}

/// An in-memory token store backed by a vector.
pub struct InMemoryTokenRepository {
    tokens: Vec<TokenEntry>,
}

impl InMemoryTokenRepository {
    /// Begins with no tokens.
    pub fn new() -> (r: Self)
        ensures
            r.tokens_model() == Seq::<(Seq<char>, int)>::empty(),
    {
        let r = InMemoryTokenRepository { tokens: Vec::new() };
        proof {
            assert(r.tokens_model() =~= Seq::<(Seq<char>, int)>::empty());
        }
        r
    }
}

impl TokenRepository for InMemoryTokenRepository {
    closed spec fn tokens_model(&self) -> Seq<(Seq<char>, int)> {
        entries_view(self.tokens@)
    }

    fn store_token(&mut self, hashed_token: String, expires_at: i64) {
        let ghost h = hashed_token@;
        self.tokens.push(TokenEntry { hashed: hashed_token, expires_at });
        proof {
            assert(entries_view(self.tokens@) =~= entries_view(old(self).tokens@).push(
                (h, expires_at as int),
            ));
        }
    }

    fn is_valid(&mut self, hashed_token: &str, now: i64) -> (r: bool) {
        let ghost model = entries_view(self.tokens@);
        let mut kept: Vec<TokenEntry> = Vec::new();
        let n = self.tokens.len();
        let mut i: usize = 0;
        proof {
            assert(entries_view(kept@) =~= live_tokens(model.take(0), now as int));
        }
        while i < n
            invariant
                n == self.tokens@.len(),
                model == entries_view(self.tokens@),
                model.len() == n,
                0 <= i <= n,
                entries_view(kept@) == live_tokens(model.take(i as int), now as int),
            decreases n - i,
        {
            let entry = &self.tokens[i];
            let ghost before = kept@;
            proof {
                assert(model.take(i as int + 1).drop_last() =~= model.take(i as int));
                assert(model.take(i as int + 1).last() == model[i as int]);
                assert(model[i as int] == (
                    self.tokens@[i as int].hashed@,
                    self.tokens@[i as int].expires_at as int,
                ));
            }
            if entry.expires_at > now {
                kept.push(TokenEntry { hashed: entry.hashed.clone(), expires_at: entry.expires_at });
                proof {
                    assert(entries_view(kept@) =~= entries_view(before).push(
                        (self.tokens@[i as int].hashed@, self.tokens@[i as int].expires_at as int),
                    ));
                }
            }
            i = i + 1;
        }
        proof {
            assert(model.take(n as int) =~= model);
        }
        self.tokens = kept;
        let m = self.tokens.len();
        let mut k: usize = 0;
        while k < m
            invariant
                m == self.tokens@.len(),
                0 <= k <= m,
                entries_view(self.tokens@) == live_tokens(old(self).tokens_model(), now as int),
                forall|t: int| 0 <= t < k ==> entries_view(self.tokens@)[t].0 != hashed_token@,
            decreases m - k,
        {
            if str_eq(self.tokens[k].hashed.as_str(), hashed_token) {
                proof {
                    assert(entries_view(self.tokens@)[k as int].0 == hashed_token@);
                }
                return true;
            }
            k = k + 1;
        }
        false
    }
}

} // verus!
