//! The exchange's deployments and their base URLs.
use vstd::prelude::*;
use crate::text::{chars_of, concat_str};
use crate::constants::{DEFAULT_BASE_URL, SANDBOX_BASE_URL};

verus! {

/// A deployment of the exchange.
#[derive(Debug, Clone, Copy, PartialEq, Eq, Structural)]
pub enum Environment {
    Production,
    Sandbox,
}

/// `c` with an ASCII capital letter made small.
pub open spec fn ascii_lower(c: char) -> char {
    if 'A' <= c && c <= 'Z' {
        ((c as u32) + 32) as char
    } else {
        c
    }
}

/// Whether `s`, with ASCII letters made small, reads `w`.
pub open spec fn lower_equals(s: Seq<char>, w: Seq<char>) -> bool {
    s.len() == w.len() && forall|i: int| 0 <= i < s.len() ==> ascii_lower(#[trigger] s[i]) == w[i]
}

/// The deployment a name gives, case aside: `production` or `prod`, and
/// `sandbox` or `test`.
pub open spec fn environment_named(s: Seq<char>) -> Option<Environment> {
    if lower_equals(s, "production"@) || lower_equals(s, "prod"@) {
        Some(Environment::Production)
    } else if lower_equals(s, "sandbox"@) || lower_equals(s, "test"@) {
        Some(Environment::Sandbox)
    } else {
        None
    }
}

/// Whether `s`, with ASCII letters made small, reads the lower-case word `w`.
fn lower_eq(s: &[char], w: &str) -> (r: bool)
    ensures
        r == lower_equals(s@, w@),
{
    let wc = chars_of(w);
    if s.len() != wc.len() {
        return false;
    }
    let mut i: usize = 0;
    while i < s.len()
        invariant
            s@.len() == wc@.len(),
            wc@ == w@,
            i <= s@.len(),
            forall|j: int| 0 <= j < i ==> ascii_lower(#[trigger] s@[j]) == wc@[j],
        decreases s.len() - i,
    {
        let c = s[i];
        let l = if 'A' <= c && c <= 'Z' {
            proof {
                assert(((c as u32) + 32) < 0xD800);
            }
            ((c as u32 + 32) as u8) as char
        } else {
            c
        };
        assert(l == ascii_lower(c)) by {
            if 'A' <= c && c <= 'Z' {
                assert(((c as u32 + 32) as u8) as char == ((c as u32) + 32) as char);
            }
        }
        if l != wc[i] {
            return false;
        }
        i = i + 1;
    }
    true
}

impl Environment {
    /// The base URL of the deployment.
    pub fn base_url(&self) -> (r: &'static str)
        ensures
            r@ == match self {
                Environment::Production => DEFAULT_BASE_URL@,
                Environment::Sandbox => SANDBOX_BASE_URL@,
            },
    {
        match self {
            Environment::Production => DEFAULT_BASE_URL,
            Environment::Sandbox => SANDBOX_BASE_URL,
        }
    }

    /// The deployment a name gives, ignoring case (the `FromStr` of the
    /// type); the error is `invalid environment: <s>`.
    pub fn from_str(s: &str) -> (r: Result<Environment, String>)
        ensures
            environment_named(s@) matches Some(e) ==> r == Ok::<Environment, String>(e),
            environment_named(s@) is None ==> (r matches Err(m) && m@ == "invalid environment: "@ + s@),
    {
        let c = chars_of(s);
        proof {
            reveal_strlit("production");
            reveal_strlit("prod");
            reveal_strlit("sandbox");
            reveal_strlit("test");
        }
        if lower_eq(c.as_slice(), "production") || lower_eq(c.as_slice(), "prod") {
            Ok(Environment::Production)
        } else if lower_eq(c.as_slice(), "sandbox") || lower_eq(c.as_slice(), "test") {
            Ok(Environment::Sandbox)
        } else {
            Err(concat_str("invalid environment: ", s))
        }
    }
}

} // verus!
