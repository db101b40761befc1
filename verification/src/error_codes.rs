//! Symbolic validation error codes and the registry that maps each code
//! to its numeric code, HTTP status and canonical message.

use vstd::prelude::*;
use vstd::string::*;

verus! {

/// A symbolic identifier for one kind of field-validation failure.
///
/// `Nodeclared` is the sentinel substituted whenever a failing check has
/// no explicit code attached.
#[derive(Clone, Copy, Debug, PartialEq, Eq, Hash, Structural)]
pub enum ErrorCodes {
    NotNull,
    NotEmpty,
    MaxSize,
    Nodeclared,
}

/// One registry entry: the numeric code sent on the wire, the HTTP
/// status it maps to, and the canonical message shown to clients.
pub struct Errorcode {
    pub code: u16,
    pub status_code: u16,
    pub message: String,
}

impl Errorcode {
    /// The (numeric code, status, message) triple of the generic
    /// internal-error entry returned for codes absent from the registry.
    pub open spec fn synthetic_spec() -> (u16, u16, Seq<char>) {
        (0u16, 500u16, "Unspecified internal error"@)
    }
}

/// Whether `e` carries exactly the (numeric code, status, message)
/// triple `m`.
pub open spec fn entry_matches(e: Errorcode, m: (u16, u16, Seq<char>)) -> bool {
    e.code == m.0 && e.status_code == m.1 && e.message@ == m.2
}

/// The (numeric code, HTTP status, message) triple seeded for each code.
/// `Nodeclared` is seeded too, so that every code resolves without the
/// synthetic fallback.
pub open spec fn default_entry_model(code: ErrorCodes) -> (u16, u16, Seq<char>) {
    match code {
        ErrorCodes::NotNull => (1001u16, 400u16, "Content must not be null"@),
        ErrorCodes::NotEmpty => (1002u16, 400u16, "Content must not be empty"@),
        ErrorCodes::MaxSize => (1003u16, 400u16, "Content must be maximum size 32"@),
        ErrorCodes::Nodeclared => (1000u16, 400u16, "Unspecified validation error"@),
    }
}

/// Whether `r` holds the default seed: every code resolves to its seeded
/// entry.
pub open spec fn seeded(r: Registry) -> bool {
    forall|c: ErrorCodes|
        (#[trigger] r.spec_resolve(c)) is Some && entry_matches(
            r.spec_resolve(c).unwrap(),
            default_entry_model(c),
        )
}

/// Immutable mapping from `ErrorCodes` to `Errorcode`, built once and
/// only read thereafter.
pub struct Registry {
    entries: Vec<(ErrorCodes, Errorcode)>,
}

impl Registry {
    /// The sequence of (code, entry) pairs the registry holds.
    pub closed spec fn entries_seq(self) -> Seq<(ErrorCodes, Errorcode)> {
        self.entries@
    }

    /// The first entry registered under `code`, if any.
    pub open spec fn spec_resolve(self, code: ErrorCodes) -> Option<Errorcode> {
        spec_resolve_in(self.entries_seq(), code)
    }

    /// Builds the registry from explicit seed pairs.
    pub fn from_entries(entries: Vec<(ErrorCodes, Errorcode)>) -> (r: Registry)
        ensures
            r.entries_seq() == entries@,
    {
        Registry { entries }
    }

    /// Builds the default registry, holding one entry per code.
    pub fn new() -> (r: Registry)
        ensures
            seeded(r),
    {
        let mut entries: Vec<(ErrorCodes, Errorcode)> = Vec::new();
        entries.push(
            (
                ErrorCodes::NotNull,
                Errorcode {
                    code: 1001,
                    status_code: 400,
                    message: String::from_str("Content must not be null"),
                },
            ),
        );
        entries.push(
            (
                ErrorCodes::NotEmpty,
                Errorcode {
                    code: 1002,
                    status_code: 400,
                    message: String::from_str("Content must not be empty"),
                },
            ),
        );
        entries.push(
            (
                ErrorCodes::MaxSize,
                Errorcode {
                    code: 1003,
                    status_code: 400,
                    message: String::from_str("Content must be maximum size 32"),
                },
            ),
        );
        entries.push(
            (
                ErrorCodes::Nodeclared,
                Errorcode {
                    code: 1000,
                    status_code: 400,
                    message: String::from_str("Unspecified validation error"),
                },
            ),
        );
        let r = Registry { entries };
        proof {
            let s = r.entries_seq();
            assert forall|c: ErrorCodes|
                (#[trigger] r.spec_resolve(c)) is Some && entry_matches(
                    r.spec_resolve(c).unwrap(),
                    default_entry_model(c),
                ) by {
                let s1 = s.drop_first();
                let s2 = s1.drop_first();
                let s3 = s2.drop_first();
                assert(s.len() == 4);
                assert(s1[0] == s[1] && s2[0] == s[2] && s3[0] == s[3]);
                match c {
                    ErrorCodes::NotNull => {
                        assert(spec_resolve_in(s, c) == Some(s[0].1));
                    },
                    ErrorCodes::NotEmpty => {
                        assert(spec_resolve_in(s, c) == spec_resolve_in(s1, c));
                        assert(spec_resolve_in(s1, c) == Some(s1[0].1));
                    },
                    ErrorCodes::MaxSize => {
                        assert(spec_resolve_in(s, c) == spec_resolve_in(s1, c));
                        assert(spec_resolve_in(s1, c) == spec_resolve_in(s2, c));
                        assert(spec_resolve_in(s2, c) == Some(s2[0].1));
                    },
                    ErrorCodes::Nodeclared => {
                        assert(spec_resolve_in(s, c) == spec_resolve_in(s1, c));
                        assert(spec_resolve_in(s1, c) == spec_resolve_in(s2, c));
                        assert(spec_resolve_in(s2, c) == spec_resolve_in(s3, c));
                        assert(spec_resolve_in(s3, c) == Some(s3[0].1));
                    },
                }
            }
        }
        r
    }

    /// Total lookup: the entry registered for `code`, or the generic
    /// internal-error entry when the code is absent from the registry.
    pub fn lookup(&self, code: &ErrorCodes) -> (r: Errorcode)
        ensures
            match self.spec_resolve(*code) {
                Some(e) => r == e,
                None => entry_matches(r, Errorcode::synthetic_spec()),
            },
    {
        match self.resolve(code) {
            Some(e) => Errorcode {
                code: e.code,
                status_code: e.status_code,
                message: e.message.clone(),
            },
            None => Errorcode {
                code: 0,
                status_code: 500,
                message: String::from_str("Unspecified internal error"),
            },
        }
    }

    /// Looks a code up, returning the entry if the code is registered.
    pub fn resolve(&self, code: &ErrorCodes) -> (r: Option<&Errorcode>)
        ensures
            match r {
                Some(e) => self.spec_resolve(*code) == Some(*e),
                None => self.spec_resolve(*code) is None,
            },
    {
        let n = self.entries.len();
        let mut i: usize = 0;
        proof {
            assert(self.entries_seq().skip(0) =~= self.entries_seq());
        }
        while i < n
            invariant
                n == self.entries_seq().len(),
                0 <= i <= n,
                spec_resolve_in(self.entries_seq().skip(i as int), *code) == self.spec_resolve(*code),
            decreases n - i,
        {
            proof {
                assert(self.entries_seq().skip(i as int)[0] == self.entries_seq()[i as int]);
                assert(self.entries_seq().skip(i as int).drop_first() =~= self.entries_seq().skip(
                    i as int + 1,
                ));
            }
            if self.entries[i].0 == *code {
                return Some(&self.entries[i].1);
            }
            i = i + 1;
        }
        proof {
            assert(self.entries_seq().skip(n as int) =~= Seq::<(ErrorCodes, Errorcode)>::empty());
        }
        None
    }
}

/// Law: in the seeded registry every code resolves, and the resolved
/// entry is not the synthetic internal-error entry. Together with
/// `lookup`'s contract, which pins the returned entry to
/// `spec_resolve(code)` alone, repeated lookups of one code yield
/// identical values.
pub proof fn lemma_seeded_lookup_round_trip(r: Registry, code: ErrorCodes)
    requires
        seeded(r),
    ensures
        r.spec_resolve(code) is Some,
        !entry_matches(r.spec_resolve(code).unwrap(), Errorcode::synthetic_spec()),
{
    assert(entry_matches(r.spec_resolve(code).unwrap(), default_entry_model(code)));
}

/// The first entry registered under `code` within `entries`, if any.
pub open spec fn spec_resolve_in(
    entries: Seq<(ErrorCodes, Errorcode)>,
    code: ErrorCodes,
) -> Option<Errorcode>
    decreases entries.len(),
{
    if entries.len() == 0 {
        None
    } else if entries[0].0 == code {
        Some(entries[0].1)
    } else {
        spec_resolve_in(entries.drop_first(), code)
    }
}

} // verus!
