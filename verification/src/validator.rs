//! The rule engine: an ordered chain of named checks declared against one
//! optional field value, evaluated in declaration order with every
//! violation accumulated rather than short-circuited.

use vstd::prelude::*;

use crate::error_codes::ErrorCodes;
use crate::errors::ApiError;
use crate::errors::clone_opt_string;
use crate::models::Real;

verus! {

/// One check a rule chain can apply to a value.
pub enum ValidationRule<T> {
    NotNull,
    NotEmpty,
    MaxLength(usize),
    WithinRange(T, T),
    IsInteger,
    IsDecimal,
    IsNumber,
    HasDecimals,
}

/// One check paired with the error code reported when it fails; with no
/// code attached the `Nodeclared` sentinel is reported.
pub struct RuleItem<T> {
    pub validation_rule: ValidationRule<T>,
    pub error_code: Option<ErrorCodes>,
}

/// The error code an item reports when its check fails.
pub open spec fn code_or_default(error_code: Option<ErrorCodes>) -> ErrorCodes {
    match error_code {
        Some(c) => c,
        None => ErrorCodes::Nodeclared,
    }
}

/// Executable form of [`code_or_default`].
pub fn resolve_code(error_code: Option<ErrorCodes>) -> (r: ErrorCodes)
    ensures
        r == code_or_default(error_code),
{
    match error_code {
        Some(c) => c,
        None => ErrorCodes::Nodeclared,
    }
}

/// Per-type capabilities: which checks can fail on a value of the type,
/// and the checking methods themselves. A check that is meaningless for
/// a type never fails on it.
pub trait Validation: Sized {
    /// Whether the "not empty" check fails on this value.
    spec fn fails_not_empty(&self) -> bool;

    /// Whether the "maximum length" check with bound `max` fails.
    spec fn fails_max_length(&self, max: usize) -> bool;

    /// Whether the "within range" check with bounds `min..=max` fails.
    spec fn fails_within_range(&self, min: &Self, max: &Self) -> bool;

    /// Whether the "is integer" check fails (the value has a fraction).
    spec fn fails_is_integer(&self) -> bool;

    /// Whether the "is decimal" check fails (the value has no fraction).
    spec fn fails_is_decimal(&self) -> bool;

    /// Whether the "is number" check fails.
    spec fn fails_is_number(&self) -> bool;

    /// Whether the "has decimals" check fails (no fraction).
    spec fn fails_has_decimals(&self) -> bool;

    /// A standalone whole-value check; it reports no failure for any of
    /// the supported types.
    fn validate(&self, error_code: Option<ErrorCodes>) -> (r: Option<ErrorCodes>)
        ensures
            r is None,
    ;

    /// The one check permitted to fire on an absent value.
    fn check_not_null(value: &Option<&Self>, error_code: Option<ErrorCodes>) -> (r: Option<
        ErrorCodes,
    >)
        ensures
            r == (if value is None {
                Some(code_or_default(error_code))
            } else {
                None::<ErrorCodes>
            }),
    ;

    fn check_not_empty(&self, error_code: Option<ErrorCodes>) -> (r: Option<ErrorCodes>)
        ensures
            r == (if self.fails_not_empty() {
                Some(code_or_default(error_code))
            } else {
                None::<ErrorCodes>
            }),
    ;

    fn check_max_length(&self, max: usize, error_code: Option<ErrorCodes>) -> (r: Option<
        ErrorCodes,
    >)
        ensures
            r == (if self.fails_max_length(max) {
                Some(code_or_default(error_code))
            } else {
                None::<ErrorCodes>
            }),
    ;

    fn check_within_range(&self, min: &Self, max: &Self, error_code: Option<ErrorCodes>) -> (r:
        Option<ErrorCodes>)
        ensures
            r == (if self.fails_within_range(min, max) {
                Some(code_or_default(error_code))
            } else {
                None::<ErrorCodes>
            }),
    ;

    fn check_is_integer(&self, error_code: Option<ErrorCodes>) -> (r: Option<ErrorCodes>)
        ensures
            r == (if self.fails_is_integer() {
                Some(code_or_default(error_code))
            } else {
                None::<ErrorCodes>
            }),
    ;

    fn check_is_decimal(&self, error_code: Option<ErrorCodes>) -> (r: Option<ErrorCodes>)
        ensures
            r == (if self.fails_is_decimal() {
                Some(code_or_default(error_code))
            } else {
                None::<ErrorCodes>
            }),
    ;

    fn check_is_number(&self, error_code: Option<ErrorCodes>) -> (r: Option<ErrorCodes>)
        ensures
            r == (if self.fails_is_number() {
                Some(code_or_default(error_code))
            } else {
                None::<ErrorCodes>
            }),
    ;

    fn check_has_decimals(&self, error_code: Option<ErrorCodes>) -> (r: Option<ErrorCodes>)
        ensures
            r == (if self.fails_has_decimals() {
                Some(code_or_default(error_code))
            } else {
                None::<ErrorCodes>
            }),
    ;
}

/// The value an optional reference points at.
pub open spec fn deref_opt<T>(v: Option<&T>) -> Option<T> {
    match v {
        Some(x) => Some(*x),
        None => None,
    }
}

/// Whether one rule item's check fails against the (possibly absent)
/// value under test. Only the not-null check can fire on an absent
/// value; every other check degenerates to "no failure" there.
pub open spec fn item_fires<T: Validation>(item: RuleItem<T>, value: Option<T>) -> bool {
    match item.validation_rule {
        ValidationRule::NotNull => value is None,
        ValidationRule::NotEmpty => value is Some && value.unwrap().fails_not_empty(),
        ValidationRule::MaxLength(max) => value is Some && value.unwrap().fails_max_length(max),
        ValidationRule::WithinRange(min, max) => value is Some && value.unwrap().fails_within_range(
            &min,
            &max,
        ),
        ValidationRule::IsInteger => value is Some && value.unwrap().fails_is_integer(),
        ValidationRule::IsDecimal => value is Some && value.unwrap().fails_is_decimal(),
        ValidationRule::IsNumber => value is Some && value.unwrap().fails_is_number(),
        ValidationRule::HasDecimals => value is Some && value.unwrap().fails_has_decimals(),
    }
}

/// The code one rule item reports when it fails.
pub open spec fn item_code<T>(item: RuleItem<T>) -> ErrorCodes {
    code_or_default(item.error_code)
}

/// The codes of every failing item, in declaration order.
pub open spec fn failure_codes<T: Validation>(
    items: Seq<RuleItem<T>>,
    value: Option<T>,
) -> Seq<ErrorCodes>
    decreases items.len(),
{
    if items.len() == 0 {
        Seq::empty()
    } else {
        failure_codes(items.drop_last(), value) + (if item_fires(items.last(), value) {
            seq![item_code(items.last())]
        } else {
            Seq::<ErrorCodes>::empty()
        })
    }
}

/// A rule item with no error-code override.
pub open spec fn plain_item<T>(rule: ValidationRule<T>) -> RuleItem<T> {
    RuleItem { validation_rule: rule, error_code: None }
}

/// `item` with its reported code replaced by `code`.
pub open spec fn with_code<T>(item: RuleItem<T>, code: ErrorCodes) -> RuleItem<T> {
    RuleItem { validation_rule: item.validation_rule, error_code: Some(code) }
}

/// An ephemeral, per-validation-call chain: an optional reference to the
/// value under test, the field name and request path echoed into any
/// failure report, and the ordered checks to run.
pub struct Rule<'a, T> {
    value: Option<&'a T>,
    field: Option<String>,
    instance: Option<String>,
    rules: Vec<RuleItem<T>>,
}

impl<'a, T> Rule<'a, T> {
    /// The value under test, with the reference followed.
    pub closed spec fn spec_value(self) -> Option<T> {
        deref_opt(self.value)
    }

    /// The field name echoed into failure reports.
    pub closed spec fn spec_field(self) -> Option<String> {
        self.field
    }

    /// The request path echoed into failure reports.
    pub closed spec fn spec_instance(self) -> Option<String> {
        self.instance
    }

    /// The declared checks, in order.
    pub closed spec fn rules_seq(self) -> Seq<RuleItem<T>> {
        self.rules@
    }

    /// Begins a chain over an optional field value; `None` denotes
    /// "field absent from input". The field name and request path are
    /// echoed into any failure report.
    pub fn new(value: Option<&'a T>, field: Option<String>, instance: Option<String>) -> (r: Self)
        ensures
            r.spec_value() == deref_opt(value),
            r.spec_field() == field,
            r.spec_instance() == instance,
            r.rules_seq() == Seq::<RuleItem<T>>::empty(),
    {
        Rule { value, field, instance, rules: Vec::new() }
    }

    /// Attaches `error_code` to the most recently appended check; with no
    /// check appended yet the chain is unchanged.
    pub fn with_error_code(self, error_code: ErrorCodes) -> (r: Self)
        ensures
            r.spec_value() == self.spec_value(),
            r.spec_field() == self.spec_field(),
            r.spec_instance() == self.spec_instance(),
            self.rules_seq().len() == 0 ==> r.rules_seq() == self.rules_seq(),
            self.rules_seq().len() > 0 ==> r.rules_seq() == self.rules_seq().update(
                self.rules_seq().len() - 1,
                with_code(self.rules_seq().last(), error_code),
            ),
    {
        let mut s = self;
        let ghost orig = s.rules@;
        if let Some(last) = s.rules.pop() {
            s.rules.push(RuleItem { validation_rule: last.validation_rule, error_code: Some(error_code) });
            proof {
                assert(s.rules@ =~= orig.update(orig.len() - 1, with_code(orig.last(), error_code)));
            }
        }
        s
    }

    /// Appends one rule item as given.
    fn push_item(&mut self, item: RuleItem<T>)
        ensures
            final(self).spec_value() == old(self).spec_value(),
            final(self).spec_field() == old(self).spec_field(),
            final(self).spec_instance() == old(self).spec_instance(),
            final(self).rules_seq() == old(self).rules_seq().push(item),
    {
        self.rules.push(item);
    }
}

impl<'a, T: Validation> Rule<'a, T> {
    /// Evaluates every declared check in order against the held value and
    /// accumulates every failure. With no failures the original value is
    /// returned; otherwise every failed code is reported, in declaration
    /// order, together with the field name and request path.
    pub fn validate(&self) -> (r: Result<Option<&'a T>, ApiError>)
        ensures
            r is Ok <==> failure_codes(self.rules_seq(), self.spec_value()).len() == 0,
            r is Ok ==> deref_opt(r->Ok_0) == self.spec_value(),
            r is Err ==> (r->Err_0 matches ApiError::MultipleErrors(codes, f, inst)
                && codes@ == failure_codes(self.rules_seq(), self.spec_value())
                && f == self.spec_field()
                && inst == self.spec_instance()),
    {
        let mut errors: Vec<ErrorCodes> = Vec::new();
        let n = self.rules.len();
        let mut i: usize = 0;
        proof {
            assert(self.rules_seq().take(0) =~= Seq::<RuleItem<T>>::empty());
        }
        while i < n
            invariant
                n == self.rules_seq().len(),
                0 <= i <= n,
                errors@ == failure_codes(self.rules_seq().take(i as int), self.spec_value()),
            decreases n - i,
        {
            let item = &self.rules[i];
            let failure: Option<ErrorCodes> = match &item.validation_rule {
                ValidationRule::NotNull => T::check_not_null(&self.value, item.error_code),
                ValidationRule::NotEmpty => match self.value {
                    Some(v) => v.check_not_empty(item.error_code),
                    None => None,
                },
                ValidationRule::MaxLength(max) => match self.value {
                    Some(v) => v.check_max_length(*max, item.error_code),
                    None => None,
                },
                ValidationRule::WithinRange(min, max) => match self.value {
                    Some(v) => v.check_within_range(min, max, item.error_code),
                    None => None,
                },
                ValidationRule::IsInteger => match self.value {
                    Some(v) => v.check_is_integer(item.error_code),
                    None => None,
                },
                ValidationRule::IsDecimal => match self.value {
                    Some(v) => v.check_is_decimal(item.error_code),
                    None => None,
                },
                ValidationRule::IsNumber => match self.value {
                    Some(v) => v.check_is_number(item.error_code),
                    None => None,
                },
                ValidationRule::HasDecimals => match self.value {
                    Some(v) => v.check_has_decimals(item.error_code),
                    None => None,
                },
            };
            proof {
                let pre = self.rules_seq().take(i as int + 1);
                assert(pre.drop_last() =~= self.rules_seq().take(i as int));
                assert(pre.last() == self.rules_seq()[i as int]);
                assert(failure == (if item_fires(self.rules_seq()[i as int], self.spec_value()) {
                    Some(item_code(self.rules_seq()[i as int]))
                } else {
                    None::<ErrorCodes>
                }));
            }
            if let Some(code) = failure {
                errors.push(code);
            }
            i = i + 1;
        }
        proof {
            assert(self.rules_seq().take(n as int) =~= self.rules_seq());
        }
        if errors.len() == 0 {
            Ok(self.value)
        } else {
            Err(
                ApiError::MultipleErrors(
                    errors,
                    clone_opt_string(&self.field),
                    clone_opt_string(&self.instance),
                ),
            )
        }
    }
}

impl<'a> Rule<'a, String> {
    /// Appends the not-null check: it fails exactly when the field is
    /// absent.
    pub fn not_null(self) -> (r: Self)
        ensures
            r.spec_value() == self.spec_value(),
            r.spec_field() == self.spec_field(),
            r.spec_instance() == self.spec_instance(),
            r.rules_seq() == self.rules_seq().push(plain_item(ValidationRule::NotNull)),
    {
        let mut s = self;
        s.push_item(RuleItem { validation_rule: ValidationRule::NotNull, error_code: None });
        s
    }

    /// Appends the not-empty check: it fails on a present empty string.
    pub fn not_empty(self) -> (r: Self)
        ensures
            r.spec_value() == self.spec_value(),
            r.spec_field() == self.spec_field(),
            r.spec_instance() == self.spec_instance(),
            r.rules_seq() == self.rules_seq().push(plain_item(ValidationRule::NotEmpty)),
    {
        let mut s = self;
        s.push_item(RuleItem { validation_rule: ValidationRule::NotEmpty, error_code: None });
        s
    }

    /// Appends the maximum-length check: it fails on a present string of
    /// more than `max` characters.
    pub fn max_length(self, max: usize) -> (r: Self)
        ensures
            r.spec_value() == self.spec_value(),
            r.spec_field() == self.spec_field(),
            r.spec_instance() == self.spec_instance(),
            r.rules_seq() == self.rules_seq().push(plain_item(ValidationRule::MaxLength(max))),
    {
        let mut s = self;
        s.push_item(RuleItem { validation_rule: ValidationRule::MaxLength(max), error_code: None });
        s
    }
}

impl<'a> Rule<'a, u32> {
    /// Appends the range check: it fails on a present value outside
    /// `min..=max`.
    pub fn within_range(self, min: u32, max: u32) -> (r: Self)
        ensures
            r.spec_value() == self.spec_value(),
            r.spec_field() == self.spec_field(),
            r.spec_instance() == self.spec_instance(),
            r.rules_seq() == self.rules_seq().push(
                plain_item(ValidationRule::WithinRange(min, max)),
            ),
    {
        let mut s = self;
        s.push_item(
            RuleItem { validation_rule: ValidationRule::WithinRange(min, max), error_code: None },
        );
        s
    }
}

impl<'a> Rule<'a, Real> {
    /// Appends the is-integer check: it fails on a present value with a
    /// fractional part.
    pub fn is_integer(self) -> (r: Self)
        ensures
            r.spec_value() == self.spec_value(),
            r.spec_field() == self.spec_field(),
            r.spec_instance() == self.spec_instance(),
            r.rules_seq() == self.rules_seq().push(plain_item(ValidationRule::IsInteger)),
    {
        let mut s = self;
        s.push_item(RuleItem { validation_rule: ValidationRule::IsInteger, error_code: None });
        s
    }

    /// Appends the is-decimal check: it fails on a present value with no
    /// fractional part.
    pub fn is_decimal(self) -> (r: Self)
        ensures
            r.spec_value() == self.spec_value(),
            r.spec_field() == self.spec_field(),
            r.spec_instance() == self.spec_instance(),
            r.rules_seq() == self.rules_seq().push(plain_item(ValidationRule::IsDecimal)),
    {
        let mut s = self;
        s.push_item(RuleItem { validation_rule: ValidationRule::IsDecimal, error_code: None });
        s
    }

    /// Appends the is-number check, which never fails.
    pub fn is_number(self) -> (r: Self)
        ensures
            r.spec_value() == self.spec_value(),
            r.spec_field() == self.spec_field(),
            r.spec_instance() == self.spec_instance(),
            r.rules_seq() == self.rules_seq().push(plain_item(ValidationRule::IsNumber)),
    {
        let mut s = self;
        s.push_item(RuleItem { validation_rule: ValidationRule::IsNumber, error_code: None });
        s
    }

    /// Appends the has-decimals check: it fails on a present value with
    /// no fractional part.
    pub fn has_decimals(self) -> (r: Self)
        ensures
            r.spec_value() == self.spec_value(),
            r.spec_field() == self.spec_field(),
            r.spec_instance() == self.spec_instance(),
            r.rules_seq() == self.rules_seq().push(plain_item(ValidationRule::HasDecimals)),
    {
        let mut s = self;
        s.push_item(RuleItem { validation_rule: ValidationRule::HasDecimals, error_code: None });
        s
    }

    /// Appends the range check: it fails on a present value outside
    /// `min..=max`.
    pub fn within_range(self, min: Real, max: Real) -> (r: Self)
        ensures
            r.spec_value() == self.spec_value(),
            r.spec_field() == self.spec_field(),
            r.spec_instance() == self.spec_instance(),
            r.rules_seq() == self.rules_seq().push(
                plain_item(ValidationRule::WithinRange(min, max)),
            ),
    {
        let mut s = self;
        s.push_item(
            RuleItem { validation_rule: ValidationRule::WithinRange(min, max), error_code: None },
        );
        s
    }
}

impl Validation for String {
    open spec fn fails_not_empty(&self) -> bool {
        self@.len() == 0
    }

    open spec fn fails_max_length(&self, max: usize) -> bool {
        self@.len() > max
    }

    open spec fn fails_within_range(&self, min: &Self, max: &Self) -> bool {
        false
    }

    open spec fn fails_is_integer(&self) -> bool {
        false
    }

    open spec fn fails_is_decimal(&self) -> bool {
        false
    }

    open spec fn fails_is_number(&self) -> bool {
        false
    }

    open spec fn fails_has_decimals(&self) -> bool {
        false
    }

    fn validate(&self, error_code: Option<ErrorCodes>) -> (r: Option<ErrorCodes>) {
        None
    }

    fn check_not_null(value: &Option<&Self>, error_code: Option<ErrorCodes>) -> (r: Option<
        ErrorCodes,
    >) {
        if value.is_none() {
            Some(resolve_code(error_code))
        } else {
            None
        }
    }

    fn check_not_empty(&self, error_code: Option<ErrorCodes>) -> (r: Option<ErrorCodes>) {
        if self.as_str().unicode_len() == 0 {
            Some(resolve_code(error_code))
        } else {
            None
        }
    }

    fn check_max_length(&self, max: usize, error_code: Option<ErrorCodes>) -> (r: Option<
        ErrorCodes,
    >) {
        if self.as_str().unicode_len() > max {
            Some(resolve_code(error_code))
        } else {
            None
        }
    }

    fn check_within_range(&self, min: &Self, max: &Self, error_code: Option<ErrorCodes>) -> (r:
        Option<ErrorCodes>) {
        None
    }

    fn check_is_integer(&self, error_code: Option<ErrorCodes>) -> (r: Option<ErrorCodes>) {
        None
    }

    fn check_is_decimal(&self, error_code: Option<ErrorCodes>) -> (r: Option<ErrorCodes>) {
        None
    }

    fn check_is_number(&self, error_code: Option<ErrorCodes>) -> (r: Option<ErrorCodes>) {
        None
    }

    fn check_has_decimals(&self, error_code: Option<ErrorCodes>) -> (r: Option<ErrorCodes>) {
        None
    }
}

impl Validation for u32 {
    open spec fn fails_not_empty(&self) -> bool {
        false
    }

    open spec fn fails_max_length(&self, max: usize) -> bool {
        false
    }

    open spec fn fails_within_range(&self, min: &Self, max: &Self) -> bool {
        *self < *min || *self > *max
    }

    open spec fn fails_is_integer(&self) -> bool {
        false
    }

    open spec fn fails_is_decimal(&self) -> bool {
        false
    }

    open spec fn fails_is_number(&self) -> bool {
        false
    }

    open spec fn fails_has_decimals(&self) -> bool {
        false
    }

    fn validate(&self, error_code: Option<ErrorCodes>) -> (r: Option<ErrorCodes>) {
        None
    }

    fn check_not_null(value: &Option<&Self>, error_code: Option<ErrorCodes>) -> (r: Option<
        ErrorCodes,
    >) {
        if value.is_none() {
            Some(resolve_code(error_code))
        } else {
            None
        }
    }

    fn check_not_empty(&self, error_code: Option<ErrorCodes>) -> (r: Option<ErrorCodes>) {
        None
    }

    fn check_max_length(&self, max: usize, error_code: Option<ErrorCodes>) -> (r: Option<
        ErrorCodes,
    >) {
        None
    }

    fn check_within_range(&self, min: &Self, max: &Self, error_code: Option<ErrorCodes>) -> (r:
        Option<ErrorCodes>) {
        if *self < *min || *self > *max {
            Some(resolve_code(error_code))
        } else {
            None
        }
    }

    fn check_is_integer(&self, error_code: Option<ErrorCodes>) -> (r: Option<ErrorCodes>) {
        None
    }

    fn check_is_decimal(&self, error_code: Option<ErrorCodes>) -> (r: Option<ErrorCodes>) {
        None
    }

    fn check_is_number(&self, error_code: Option<ErrorCodes>) -> (r: Option<ErrorCodes>) {
        None
    }

    fn check_has_decimals(&self, error_code: Option<ErrorCodes>) -> (r: Option<ErrorCodes>) {
        None
    }
}

impl Validation for bool {
    open spec fn fails_not_empty(&self) -> bool {
        false
    }

    open spec fn fails_max_length(&self, max: usize) -> bool {
        false
    }

    open spec fn fails_within_range(&self, min: &Self, max: &Self) -> bool {
        false
    }

    open spec fn fails_is_integer(&self) -> bool {
        false
    }

    open spec fn fails_is_decimal(&self) -> bool {
        false
    }

    open spec fn fails_is_number(&self) -> bool {
        false
    }

    open spec fn fails_has_decimals(&self) -> bool {
        false
    }

    fn validate(&self, error_code: Option<ErrorCodes>) -> (r: Option<ErrorCodes>) {
        None
    }

    fn check_not_null(value: &Option<&Self>, error_code: Option<ErrorCodes>) -> (r: Option<
        ErrorCodes,
    >) {
        if value.is_none() {
            Some(resolve_code(error_code))
        } else {
            None
        }
    }

    fn check_not_empty(&self, error_code: Option<ErrorCodes>) -> (r: Option<ErrorCodes>) {
        None
    }

    fn check_max_length(&self, max: usize, error_code: Option<ErrorCodes>) -> (r: Option<
        ErrorCodes,
    >) {
        None
    }

    fn check_within_range(&self, min: &Self, max: &Self, error_code: Option<ErrorCodes>) -> (r:
        Option<ErrorCodes>) {
        None
    }

    fn check_is_integer(&self, error_code: Option<ErrorCodes>) -> (r: Option<ErrorCodes>) {
        None
    }

    fn check_is_decimal(&self, error_code: Option<ErrorCodes>) -> (r: Option<ErrorCodes>) {
        None
    }

    fn check_is_number(&self, error_code: Option<ErrorCodes>) -> (r: Option<ErrorCodes>) {
        None
    }

    fn check_has_decimals(&self, error_code: Option<ErrorCodes>) -> (r: Option<ErrorCodes>) {
        None
    }
}

impl Validation for Real {
    open spec fn fails_not_empty(&self) -> bool {
        false
    }

    open spec fn fails_max_length(&self, max: usize) -> bool {
        false
    }

    open spec fn fails_within_range(&self, min: &Self, max: &Self) -> bool {
        self.spec_lt(*min) || max.spec_lt(*self)
    }

    open spec fn fails_is_integer(&self) -> bool {
        !self.spec_integral()
    }

    open spec fn fails_is_decimal(&self) -> bool {
        self.spec_integral()
    }

    open spec fn fails_is_number(&self) -> bool {
        false
    }

    open spec fn fails_has_decimals(&self) -> bool {
        self.spec_integral()
    }

    fn validate(&self, error_code: Option<ErrorCodes>) -> (r: Option<ErrorCodes>) {
        None
    }

    fn check_not_null(value: &Option<&Self>, error_code: Option<ErrorCodes>) -> (r: Option<
        ErrorCodes,
    >) {
        if value.is_none() {
            Some(resolve_code(error_code))
        } else {
            None
        }
    }

    fn check_not_empty(&self, error_code: Option<ErrorCodes>) -> (r: Option<ErrorCodes>) {
        None
    }

    fn check_max_length(&self, max: usize, error_code: Option<ErrorCodes>) -> (r: Option<
        ErrorCodes,
    >) {
        None
    }

    fn check_within_range(&self, min: &Self, max: &Self, error_code: Option<ErrorCodes>) -> (r:
        Option<ErrorCodes>) {
        if self.lt(min) || max.lt(self) {
            Some(resolve_code(error_code))
        } else {
            None
        }
    }

    fn check_is_integer(&self, error_code: Option<ErrorCodes>) -> (r: Option<ErrorCodes>) {
        if self.nanos != 0 {
            Some(resolve_code(error_code))
        } else {
            None
        }
    }

    fn check_is_decimal(&self, error_code: Option<ErrorCodes>) -> (r: Option<ErrorCodes>) {
        if self.nanos == 0 {
            Some(resolve_code(error_code))
        } else {
            None
        }
    }

    fn check_is_number(&self, error_code: Option<ErrorCodes>) -> (r: Option<ErrorCodes>) {
        None
    }

    fn check_has_decimals(&self, error_code: Option<ErrorCodes>) -> (r: Option<ErrorCodes>) {
        if self.nanos == 0 {
            Some(resolve_code(error_code))
        } else {
            None
        }
    }
}

/// Law: an empty rule chain accumulates no failures, so `validate`
/// returns success with the original value for every value under test.
pub proof fn lemma_empty_chain_no_failures<T: Validation>(value: Option<T>)
    ensures
        failure_codes(Seq::<RuleItem<T>>::empty(), value).len() == 0,
{
}

/// Law: a chain containing only checks the value under test satisfies
/// accumulates no failures, so `validate` returns success.
pub proof fn lemma_satisfied_chain_no_failures<T: Validation>(
    items: Seq<RuleItem<T>>,
    value: Option<T>,
)
    requires
        forall|i: int| 0 <= i < items.len() ==> !item_fires(items[i], value),
    ensures
        failure_codes(items, value).len() == 0,
    decreases items.len(),
{
    if items.len() > 0 {
        lemma_satisfied_chain_no_failures(items.drop_last(), value);
        assert(!item_fires(items.last(), value));
    }
}

/// Law: the accumulated codes are exactly the codes of the failing
/// items, kept in declaration order — the order of two failing checks in
/// the chain is the order of their codes in the report.
pub proof fn lemma_failure_codes_in_declaration_order<T: Validation>(
    items: Seq<RuleItem<T>>,
    value: Option<T>,
)
    ensures
        failure_codes(items, value) == items.filter(
            |it: RuleItem<T>| item_fires(it, value),
        ).map_values(|it: RuleItem<T>| item_code(it)),
    decreases items.len(),
{
    reveal(Seq::filter);
    let pred = |it: RuleItem<T>| item_fires(it, value);
    let f = |it: RuleItem<T>| item_code(it);
    if items.len() == 0 {
        assert(items.filter(pred).map_values(f) =~= Seq::<ErrorCodes>::empty());
    } else {
        lemma_failure_codes_in_declaration_order(items.drop_last(), value);
        let sub = items.drop_last().filter(pred);
        if pred(items.last()) {
            assert(items.filter(pred) == sub.push(items.last()));
            assert(sub.push(items.last()).map_values(f) =~= sub.map_values(f) + seq![
                f(items.last()),
            ]);
        } else {
            assert(items.filter(pred) == sub);
            assert(failure_codes(items, value) =~= failure_codes(items.drop_last(), value));
        }
    }
}

} // verus!
