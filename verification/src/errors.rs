//! The closed error taxonomy carried through a request's lifecycle, and
//! the mapper that turns a taxonomy value into the wire-format error
//! payload plus the HTTP status to send.

use vstd::prelude::*;
use vstd::string::*;

use crate::error_codes::ErrorCodes;
use crate::error_codes::Registry;
use crate::models::ErrorResponse;
use crate::models::ValidationProblem;
use crate::models::opt_str_view;

verus! {

/// The single currency for failure reporting: every failing collaborator
/// produces one of these variants.
#[derive(Debug)]
pub enum ApiError {
    /// A referenced entity is absent.
    NotFound,
    /// An ad hoc client error not backed by the registry: a message and a
    /// numeric code.
    BadRequest(String, u16),
    /// An unexpected internal failure.
    InternalServerError,
    /// A single registry-backed failure.
    ErrorCode(ErrorCodes),
    /// Aggregated validation failure: every failed code in declaration
    /// order, the field name they all apply to, and the request path.
    MultipleErrors(Vec<ErrorCodes>, Option<String>, Option<String>),
}

impl ApiError {
    /// Diagnostic text for each variant, used internally and never shown
    /// verbatim to clients for registry-backed variants.
    pub open spec fn spec_description(&self) -> Seq<char> {
        match self {
            ApiError::NotFound => "Message not found"@,
            ApiError::BadRequest(msg, _) => "Invalid input: "@ + msg@,
            ApiError::InternalServerError => "Internal server error"@,
            ApiError::ErrorCode(_) => "custom"@,
            ApiError::MultipleErrors(..) => "Multiple validation errors"@,
        }
    }

    /// Builds the diagnostic text for this variant.
    pub fn description(&self) -> (r: String)
        ensures
            r@ == self.spec_description(),
    {
        match self {
            ApiError::NotFound => String::from_str("Message not found"),
            ApiError::BadRequest(msg, _) => String::from_str("Invalid input: ").concat(
                msg.as_str(),
            ),
            ApiError::InternalServerError => String::from_str("Internal server error"),
            ApiError::ErrorCode(_) => String::from_str("custom"),
            ApiError::MultipleErrors(..) => String::from_str("Multiple validation errors"),
        }
    }
}

/// Copies an optional string; the copy holds the same value.
pub(crate) fn clone_opt_string(s: &Option<String>) -> (r: Option<String>)
    ensures
        r == *s,
{
    match s {
        Some(x) => Some(x.clone()),
        None => None,
    }
}

/// The observable content of one reported problem: field name, message
/// and numeric code.
pub open spec fn problems_view(v: Seq<ValidationProblem>) -> Seq<(Option<Seq<char>>, Seq<char>, u16)> {
    v.map_values(|p: ValidationProblem| p@)
}

/// The observable content of an optional problem list.
pub open spec fn opt_details_view(d: Option<Vec<ValidationProblem>>) -> Option<
    Seq<(Option<Seq<char>>, Seq<char>, u16)>,
> {
    match d {
        Some(v) => Some(problems_view(v@)),
        None => None,
    }
}

/// The problems reported for an aggregated failure: one per code that
/// resolves in the registry, in order, each echoing the field name and
/// carrying the entry's message and numeric code. Codes that do not
/// resolve are silently omitted.
pub open spec fn spec_problems(
    codes: Seq<ErrorCodes>,
    field: Option<Seq<char>>,
    dict: Registry,
) -> Seq<(Option<Seq<char>>, Seq<char>, u16)>
    decreases codes.len(),
{
    if codes.len() == 0 {
        Seq::empty()
    } else {
        let rest = spec_problems(codes.drop_last(), field, dict);
        match dict.spec_resolve(codes.last()) {
            Some(e) => rest.push((field, e.message@, e.code)),
            None => rest,
        }
    }
}

/// The status reported for an aggregated failure: the status of the last
/// code in the list that resolves in the registry, and 0 when none does.
pub open spec fn spec_multi_status(codes: Seq<ErrorCodes>, dict: Registry) -> u16
    decreases codes.len(),
{
    if codes.len() == 0 {
        0u16
    } else {
        match dict.spec_resolve(codes.last()) {
            Some(e) => e.status_code,
            None => spec_multi_status(codes.drop_last(), dict),
        }
    }
}

/// Whether `s` can be sent as an HTTP status.
pub open spec fn valid_status(s: u16) -> bool {
    100 <= s <= 999
}

/// The status actually sent: an invalid computed status is replaced by
/// Internal Server Error rather than emitted.
pub open spec fn final_status(s: u16) -> u16 {
    if valid_status(s) {
        s
    } else {
        500u16
    }
}

/// The response title for each taxonomy variant.
pub open spec fn spec_title(e: ApiError, dict: Registry) -> Seq<char> {
    match e {
        ApiError::NotFound => "Not Found"@,
        ApiError::BadRequest(..) => "Bad request"@,
        ApiError::InternalServerError => "Internal server error"@,
        ApiError::ErrorCode(c) => match dict.spec_resolve(c) {
            Some(en) => en.message@,
            None => "Internal server error"@,
        },
        ApiError::MultipleErrors(..) => "Multiple validation errors"@,
    }
}

/// The status computed for each taxonomy variant, before the validity
/// substitution.
pub open spec fn spec_raw_status(e: ApiError, dict: Registry) -> u16 {
    match e {
        ApiError::NotFound => 404u16,
        ApiError::BadRequest(..) => 400u16,
        ApiError::InternalServerError => 500u16,
        ApiError::ErrorCode(c) => match dict.spec_resolve(c) {
            Some(en) => en.status_code,
            None => 500u16,
        },
        ApiError::MultipleErrors(codes, _, _) => spec_multi_status(codes@, dict),
    }
}

/// The request path echoed for each taxonomy variant.
pub open spec fn spec_instance(e: ApiError) -> Option<Seq<char>> {
    match e {
        ApiError::MultipleErrors(_, _, inst) => opt_str_view(inst),
        _ => None,
    }
}

/// The problem list for each taxonomy variant. A single registry-backed
/// code that does not resolve falls back to the internal-error problem.
pub open spec fn spec_details(e: ApiError, dict: Registry) -> Option<
    Seq<(Option<Seq<char>>, Seq<char>, u16)>,
> {
    match e {
        ApiError::NotFound => None,
        ApiError::BadRequest(msg, code) => Some(seq![(Option::<Seq<char>>::None, msg@, code)]),
        ApiError::InternalServerError => Some(
            seq![(Option::<Seq<char>>::None, "Internal server error"@, 0u16)],
        ),
        ApiError::ErrorCode(c) => match dict.spec_resolve(c) {
            Some(en) => Some(seq![(Option::<Seq<char>>::None, en.message@, en.code)]),
            None => Some(seq![(Option::<Seq<char>>::None, "Internal server error"@, 0u16)]),
        },
        ApiError::MultipleErrors(codes, field, _) => Some(
            spec_problems(codes@, opt_str_view(field), dict),
        ),
    }
}

/// Whether `(resp, status)` is the response the mapper owes for `e`
/// under `dict`: every component is a function of those two inputs.
pub open spec fn response_matches(
    e: ApiError,
    dict: Registry,
    resp: ErrorResponse,
    status: u16,
) -> bool {
    &&& resp.title@ == spec_title(e, dict)
    &&& resp.status == final_status(spec_raw_status(e, dict))
    &&& opt_str_view(resp.instance) == spec_instance(e)
    &&& opt_details_view(resp.details) == spec_details(e, dict)
    &&& status == final_status(spec_raw_status(e, dict))
}

/// Converts a taxonomy value into the wire-format payload and the HTTP
/// status to send. Every component of the result is determined by the
/// error and the registry alone.
pub fn to_response(error: &ApiError, dict: &Registry) -> (r: (ErrorResponse, u16))
    ensures
        response_matches(*error, *dict, r.0, r.1),
{
    let raw: ErrorResponse = match error {
        ApiError::NotFound => ErrorResponse {
            title: String::from_str("Not Found"),
            status: 404,
            instance: None,
            details: None,
        },
        ApiError::BadRequest(msg, code) => {
            let mut problems: Vec<ValidationProblem> = Vec::new();
            problems.push(
                ValidationProblem { field: None, message: msg.clone(), error_code: *code },
            );
            proof {
                assert(problems_view(problems@) =~= spec_details(*error, *dict).unwrap());
            }
            ErrorResponse {
                title: String::from_str("Bad request"),
                status: 400,
                instance: None,
                details: Some(problems),
            }
        },
        ApiError::InternalServerError => {
            let mut problems: Vec<ValidationProblem> = Vec::new();
            problems.push(
                ValidationProblem {
                    field: None,
                    message: error.description(),
                    error_code: 0,
                },
            );
            proof {
                assert(problems_view(problems@) =~= spec_details(*error, *dict).unwrap());
            }
            ErrorResponse {
                title: String::from_str("Internal server error"),
                status: 500,
                instance: None,
                details: Some(problems),
            }
        },
        ApiError::ErrorCode(code) => match dict.resolve(code) {
            Some(en) => {
                let mut problems: Vec<ValidationProblem> = Vec::new();
                problems.push(
                    ValidationProblem {
                        field: None,
                        message: en.message.clone(),
                        error_code: en.code,
                    },
                );
                proof {
                    assert(problems_view(problems@) =~= spec_details(*error, *dict).unwrap());
                }
                ErrorResponse {
                    title: en.message.clone(),
                    status: en.status_code,
                    instance: None,
                    details: Some(problems),
                }
            },
            None => {
                let mut problems: Vec<ValidationProblem> = Vec::new();
                problems.push(
                    ValidationProblem {
                        field: None,
                        message: String::from_str("Internal server error"),
                        error_code: 0,
                    },
                );
                proof {
                    assert(problems_view(problems@) =~= spec_details(*error, *dict).unwrap());
                }
                ErrorResponse {
                    title: String::from_str("Internal server error"),
                    status: 500,
                    instance: None,
                    details: Some(problems),
                }
            },
        },
        ApiError::MultipleErrors(codes, field, inst) => {
            let mut problems: Vec<ValidationProblem> = Vec::new();
            let mut status_code: u16 = 0;
            let n = codes.len();
            let mut i: usize = 0;
            proof {
                assert(codes@.take(0) =~= Seq::<ErrorCodes>::empty());
                assert(problems_view(problems@) =~= Seq::<(
                    Option<Seq<char>>,
                    Seq<char>,
                    u16,
                )>::empty());
            }
            while i < n
                invariant
                    n == codes@.len(),
                    0 <= i <= n,
                    problems_view(problems@) == spec_problems(
                        codes@.take(i as int),
                        opt_str_view(*field),
                        *dict,
                    ),
                    status_code == spec_multi_status(codes@.take(i as int), *dict),
                decreases n - i,
            {
                proof {
                    let pre = codes@.take(i as int + 1);
                    assert(pre.drop_last() =~= codes@.take(i as int));
                    assert(pre.last() == codes@[i as int]);
                }
                let ghost before = problems@;
                match dict.resolve(&codes[i]) {
                    Some(en) => {
                        status_code = en.status_code;
                        problems.push(
                            ValidationProblem {
                                field: clone_opt_string(field),
                                message: en.message.clone(),
                                error_code: en.code,
                            },
                        );
                        proof {
                            assert(problems_view(problems@) =~= problems_view(before).push(
                                (opt_str_view(*field), en.message@, en.code),
                            ));
                        }
                    },
                    None => {},
                }
                i = i + 1;
            }
            proof {
                assert(codes@.take(n as int) =~= codes@);
            }
            ErrorResponse {
                title: error.description(),
                status: status_code,
                instance: clone_opt_string(inst),
                details: Some(problems),
            }
        },
    };
    let status: u16 = if raw.status >= 100 && raw.status <= 999 {
        raw.status
    } else {
        500
    };
    let resp = ErrorResponse {
        title: raw.title,
        status,
        instance: raw.instance,
        details: raw.details,
    };
    (resp, status)
}

/// Law: the mapper is deterministic — any two response/status pairs
/// meeting `to_response`'s contract for one taxonomy value and one
/// registry agree on every observable component.
pub proof fn lemma_to_response_deterministic(
    e: ApiError,
    dict: Registry,
    r1: (ErrorResponse, u16),
    r2: (ErrorResponse, u16),
)
    requires
        response_matches(e, dict, r1.0, r1.1),
        response_matches(e, dict, r2.0, r2.1),
    ensures
        r1.0.title@ == r2.0.title@,
        r1.0.status == r2.0.status,
        opt_str_view(r1.0.instance) == opt_str_view(r2.0.instance),
        opt_details_view(r1.0.details) == opt_details_view(r2.0.details),
        r1.1 == r2.1,
{
}

/// Maps the outcome of looking for a taxonomy value in a rejected
/// request: a plain not-found rejection gets the Not Found response, a
/// carried taxonomy value goes through the mapper, and anything else is
/// an internal error.
pub fn rejection_response(found: Option<&ApiError>, is_not_found: bool, dict: &Registry) -> (r: (
    ErrorResponse,
    u16,
))
    ensures
        is_not_found ==> (r.0.title@ == "Not Found"@ && r.0.status == 404 && r.0.instance is None
            && r.0.details is None && r.1 == 404),
        !is_not_found ==> match found {
            Some(e) => response_matches(*e, *dict, r.0, r.1),
            None => (r.0.title@ == "Internal server error"@ && r.0.status == 500
                && r.0.instance is None && r.0.details is None && r.1 == 500),
        },
{
    if is_not_found {
        (
            ErrorResponse {
                title: String::from_str("Not Found"),
                status: 404,
                instance: None,
                details: None,
            },
            404,
        )
    } else {
        match found {
            Some(e) => to_response(e, dict),
            None => (
                ErrorResponse {
                    title: String::from_str("Internal server error"),
                    status: 500,
                    instance: None,
                    details: None,
                },
                500,
            ),
        }
    }
}

} // verus!
