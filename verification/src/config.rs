//! Server configuration values, and the verified decimal parse used for
//! the port.

use vstd::prelude::*;
use vstd::string::*;

verus! {

/// Server configuration: listen port, API base path and static-file
/// directory.
pub struct Config {
    pub port: u16,
    pub api_base: String,
    pub static_dir: String,
}

/// Whether `c` is a decimal digit.
pub open spec fn is_digit_char(c: char) -> bool {
    48 <= c as int <= 57
}

/// The numeric value of a decimal digit.
pub open spec fn digit_val(c: char) -> int {
    c as int - 48
}

/// Whether every character of `s` is a decimal digit.
pub open spec fn all_digits(s: Seq<char>) -> bool {
    forall|i: int| 0 <= i < s.len() ==> is_digit_char(s[i])
}

/// The number a digit sequence denotes in base ten.
pub open spec fn decimal_value(s: Seq<char>) -> int
    decreases s.len(),
{
    if s.len() == 0 {
        0
    } else {
        decimal_value(s.drop_last()) * 10 + digit_val(s.last())
    }
}

/// A digit sequence denotes a non-negative number.
proof fn lemma_decimal_nonneg(s: Seq<char>)
    requires
        all_digits(s),
    ensures
        decimal_value(s) >= 0,
    decreases s.len(),
{
    if s.len() > 0 {
        assert(all_digits(s.drop_last()));
        lemma_decimal_nonneg(s.drop_last());
    }
}

/// Extending a digit sequence never shrinks its value.
proof fn lemma_decimal_prefix_bound(s: Seq<char>, i: int)
    requires
        all_digits(s),
        0 <= i <= s.len(),
    ensures
        decimal_value(s) >= decimal_value(s.take(i)),
    decreases s.len() - i,
{
    if i < s.len() {
        assert(all_digits(s.take(i)));
        lemma_decimal_nonneg(s.take(i));
        assert(s.take(i + 1).drop_last() =~= s.take(i));
        assert(s.take(i + 1).last() == s[i]);
        lemma_decimal_prefix_bound(s, i + 1);
    } else {
        assert(s.take(i) =~= s);
    }
}

/// Parses a decimal port number: the digits' value when the text is a
/// non-empty digit string whose value fits in sixteen bits, and nothing
/// otherwise.
pub fn parse_port(s: &str) -> (r: Option<u16>)
    ensures
        match r {
            Some(p) => s@.len() > 0 && all_digits(s@) && decimal_value(s@) == p as int,
            None => s@.len() == 0 || !all_digits(s@) || decimal_value(s@) > u16::MAX,
        },
{
    let n = s.unicode_len();
    if n == 0 {
        return None;
    }
    let mut acc: u32 = 0;
    let mut i: usize = 0;
    proof {
        assert(s@.take(0) =~= Seq::<char>::empty());
    }
    while i < n
        invariant
            n == s@.len(),
            0 <= i <= n,
            all_digits(s@.take(i as int)),
            acc as int == decimal_value(s@.take(i as int)),
            acc <= 65535,
        decreases n - i,
    {
        let c = s.get_char(i);
        let cv = c as u32;
        if cv < 48 || cv > 57 {
            proof {
                assert(!is_digit_char(s@[i as int]));
            }
            return None;
        }
        let d: u32 = cv - 48;
        proof {
            assert(s@.take(i as int + 1).drop_last() =~= s@.take(i as int));
            assert(s@.take(i as int + 1).last() == s@[i as int]);
        }
        let next: u32 = acc * 10 + d;
        if next > 65535 {
            proof {
                assert(decimal_value(s@.take(i as int + 1)) == next as int);
                if all_digits(s@) {
                    lemma_decimal_prefix_bound(s@, i as int + 1);
                }
            }
            return None;
        }
        acc = next;
        i = i + 1;
    }
    proof {
        assert(s@.take(n as int) =~= s@);
    }
    Some(acc as u16)
}

} // verus!
