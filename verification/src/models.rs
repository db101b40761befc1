//! Plain data carriers: message models, auth request and token payloads,
//! the wire-format error response, and the fixed-point numeric value the
//! rule engine validates in place of machine floating point.

use vstd::prelude::*;

verus! {

/// A stored message: its identifier and text content.
#[derive(Clone, Debug)]
pub struct MessageModel {
    pub id: usize,
    pub content: String,
}

impl View for MessageModel {
    type V = (nat, Seq<char>);

    open spec fn view(&self) -> (nat, Seq<char>) {
        (self.id as nat, self.content@)
    }
}

/// Request body for creating a message; an absent `content` means the
/// field was not provided at all.
#[derive(Debug)]
pub struct CreateMessageModelDto {
    pub content: Option<String>,
}

/// Wire form of a message returned to clients.
#[derive(Debug)]
pub struct MessageResponseDto {
    pub id: usize,
    pub content: String,
}

impl View for MessageResponseDto {
    type V = (nat, Seq<char>);

    open spec fn view(&self) -> (nat, Seq<char>) {
        (self.id as nat, self.content@)
    }
}

/// Converts stored messages into their wire form, keeping order, ids and
/// content.
pub fn to_message_responses(messages: Vec<MessageModel>) -> (r: Vec<MessageResponseDto>)
    ensures
        r@.map_values(|d: MessageResponseDto| d@) == messages@.map_values(
            |m: MessageModel| m@,
        ),
{
    let mut out: Vec<MessageResponseDto> = Vec::new();
    let n = messages.len();
    let mut i: usize = 0;
    proof {
        assert(out@.map_values(|d: MessageResponseDto| d@) =~= messages@.take(0).map_values(
            |m: MessageModel| m@,
        ));
    }
    while i < n
        invariant
            n == messages@.len(),
            0 <= i <= n,
            out@.map_values(|d: MessageResponseDto| d@) == messages@.take(i as int).map_values(
                |m: MessageModel| m@,
            ),
        decreases n - i,
    {
        let m = &messages[i];
        let ghost before = out@;
        out.push(MessageResponseDto { id: m.id, content: m.content.clone() });
        proof {
            assert(out@.map_values(|d: MessageResponseDto| d@) =~= before.map_values(
                |d: MessageResponseDto| d@,
            ).push(messages@[i as int]@));
            assert(messages@.take(i as int + 1).map_values(|m: MessageModel| m@) =~= messages@.take(
                i as int,
            ).map_values(|m: MessageModel| m@).push(messages@[i as int]@));
        }
        i = i + 1;
    }
    proof {
        assert(messages@.take(n as int) =~= messages@);
    }
    out
}

/// Wire form of an issued opaque token.
#[derive(Debug)]
pub struct TokenResponseDto {
    pub token: String,
}

/// Username/password login payload.
#[derive(Debug, Clone)]
pub struct LoginRequest {
    pub username: String,
    pub password: String,
}

/// Bearer-token response payload.
#[derive(Debug)]
pub struct TokenResponse {
    pub access_token: String,
    pub token_type: String,
    pub expires_in: i64,
}

/// JWT claim set: subject plus issued-at and expiry timestamps
/// (seconds since the Unix epoch).
#[derive(Debug)]
pub struct Claims {
    pub sub: String,
    pub exp: i64,
    pub iat: i64,
}

/// A token request: either user credentials or client credentials.
#[derive(Debug)]
pub enum AuthRequestDto {
    User { username: String, password: String },
    Client { client_id: String, client_secret: String },
}

/// One reported violation in a structured error response.
#[derive(Debug)]
pub struct ValidationProblem {
    pub field: Option<String>,
    pub message: String,
    pub error_code: u16,
}

impl View for ValidationProblem {
    type V = (Option<Seq<char>>, Seq<char>, u16);

    open spec fn view(&self) -> (Option<Seq<char>>, Seq<char>, u16) {
        (opt_str_view(self.field), self.message@, self.error_code)
    }
}

/// The wire-format structured error payload.
#[derive(Debug)]
pub struct ErrorResponse {
    pub title: String,
    pub status: u16,
    pub instance: Option<String>,
    pub details: Option<Vec<ValidationProblem>>,
}

/// The character sequence held by an optional string.
pub open spec fn opt_str_view(o: Option<String>) -> Option<Seq<char>> {
    match o {
        Some(s) => Some(s@),
        None => None,
    }
}

/// A non-negative-fraction fixed-point number standing in for a machine
/// float: its value is `units + nanos / 1_000_000_000`, with `nanos`
/// kept below one billion.
#[derive(Clone, Copy, Debug, PartialEq, Eq, Structural)]
pub struct Real {
    pub units: i64,
    pub nanos: u32,
}

impl Real {
    /// The fractional part is a count of billionths, so it must stay
    /// below one billion.
    pub open spec fn wf(self) -> bool {
        self.nanos < 1_000_000_000
    }

    /// Strict order on fixed-point values: compare whole units first,
    /// then the fractional part.
    pub open spec fn spec_lt(self, other: Real) -> bool {
        self.units < other.units || (self.units == other.units && self.nanos < other.nanos)
    }

    /// Whether the value has no fractional part.
    pub open spec fn spec_integral(self) -> bool {
        self.nanos == 0
    }

    pub fn new(units: i64, nanos: u32) -> (r: Real)
        requires
            nanos < 1_000_000_000,
        ensures
            r.units == units,
            r.nanos == nanos,
            r.wf(),
    {
        Real { units, nanos }
    }

    /// Executable form of the strict order.
    pub fn lt(&self, other: &Real) -> (r: bool)
        ensures
            r == self.spec_lt(*other),
    {
        self.units < other.units || (self.units == other.units && self.nanos < other.nanos)
    }
}

} // verus!
