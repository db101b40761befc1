//! Request-body validation for message creation: the `content` field
//! must be present, non-empty, and at most 32 characters, and every
//! violated constraint is reported in one pass.

use vstd::prelude::*;
use vstd::string::*;

use crate::error_codes::ErrorCodes;
use crate::errors::ApiError;
use crate::models::CreateMessageModelDto;
use crate::models::opt_str_view;
use crate::validator::Rule;
use crate::validator::RuleItem;
use crate::validator::ValidationRule;
use crate::validator::failure_codes;
use crate::validator::plain_item;
use crate::validator::with_code;

verus! {

/// The codes the content chain reports: exactly `NotNull` for an absent
/// value, exactly `NotEmpty` for a present empty string, exactly
/// `MaxSize` for a present string of more than 32 characters, and none
/// otherwise.
pub open spec fn content_violations(content: Option<Seq<char>>) -> Seq<ErrorCodes> {
    match content {
        None => seq![ErrorCodes::NotNull],
        Some(s) => if s.len() == 0 {
            seq![ErrorCodes::NotEmpty]
        } else if s.len() > 32 {
            seq![ErrorCodes::MaxSize]
        } else {
            Seq::empty()
        },
    }
}

/// Whether the content satisfies every constraint of the chain.
pub open spec fn content_ok(content: Option<Seq<char>>) -> bool {
    content_violations(content).len() == 0
}

/// Validates a create-message body against the content chain
/// `not_null + not_empty + max_length(32)`, echoing the field name
/// `content` and the request path into any failure report.
pub fn validate_create_message(dto: &CreateMessageModelDto, path: Option<String>) -> (r: Result<
    (),
    ApiError,
>)
    ensures
        r is Ok <==> content_ok(opt_str_view(dto.content)),
        r is Err ==> (r->Err_0 matches ApiError::MultipleErrors(codes, f, inst)
            && codes@ == content_violations(opt_str_view(dto.content)) && (f matches Some(fname)
            && fname@ == "content"@) && inst == path),
{
    let rule = Rule::new(
        dto.content.as_ref(),
        Some(String::from_str("content")),
        path,
    ).not_null().with_error_code(ErrorCodes::NotNull).not_empty().with_error_code(
        ErrorCodes::NotEmpty,
    ).max_length(32).with_error_code(ErrorCodes::MaxSize);
    proof {
        let i1 = with_code(plain_item(ValidationRule::<String>::NotNull), ErrorCodes::NotNull);
        let i2 = with_code(plain_item(ValidationRule::<String>::NotEmpty), ErrorCodes::NotEmpty);
        let i3 = with_code(
            plain_item(ValidationRule::<String>::MaxLength(32)),
            ErrorCodes::MaxSize,
        );
        let items = rule.rules_seq();
        assert(items =~= seq![i1, i2, i3]);
        let v = rule.spec_value();
        assert(v is Some <==> dto.content is Some);
        assert(v is Some ==> v.unwrap() == dto.content.unwrap());
        let d1 = items.drop_last();
        let d2 = d1.drop_last();
        let d3 = d2.drop_last();
        assert(d1 =~= seq![i1, i2]);
        assert(d2 =~= seq![i1]);
        assert(d3 =~= Seq::<RuleItem<String>>::empty());
        assert(failure_codes(d3, v) =~= Seq::<ErrorCodes>::empty());
        if v is None {
            assert(failure_codes(d2, v) =~= seq![ErrorCodes::NotNull]);
            assert(failure_codes(d1, v) =~= seq![ErrorCodes::NotNull]);
            assert(failure_codes(items, v) =~= seq![ErrorCodes::NotNull]);
        } else if v.unwrap()@.len() == 0 {
            assert(failure_codes(d2, v) =~= Seq::<ErrorCodes>::empty());
            assert(failure_codes(d1, v) =~= seq![ErrorCodes::NotEmpty]);
            assert(failure_codes(items, v) =~= seq![ErrorCodes::NotEmpty]);
        } else if v.unwrap()@.len() > 32 {
            assert(failure_codes(d2, v) =~= Seq::<ErrorCodes>::empty());
            assert(failure_codes(d1, v) =~= Seq::<ErrorCodes>::empty());
            assert(failure_codes(items, v) =~= seq![ErrorCodes::MaxSize]);
        } else {
            assert(failure_codes(d2, v) =~= Seq::<ErrorCodes>::empty());
            assert(failure_codes(d1, v) =~= Seq::<ErrorCodes>::empty());
            assert(failure_codes(items, v) =~= Seq::<ErrorCodes>::empty());
        }
        assert(failure_codes(items, v) =~= content_violations(opt_str_view(dto.content)));
    }
    match rule.validate() {
        Ok(_) => Ok(()),
        Err(e) => Err(e),
    }
}

} // verus!
