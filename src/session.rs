//! Dashboard sessions: a credential recomputed from a process-lifetime
//! secret and the dashboard password, with no server-side table.

use std::collections::hash_map::DefaultHasher;
use std::hash::{BuildHasher, BuildHasherDefault};
use vstd::prelude::*;

verus! {

/// The characters of the lowercase hexadecimal digit for `d < 16`.
pub open spec fn hex_char(d: nat) -> char {
    if d < 10 {
        (('0' as u8) + d) as char
    } else {
        (('a' as u8) + (d - 10)) as char
    }
}

/// The last `k` hexadecimal digits of `n`, most significant first.
pub open spec fn hex_digits(n: nat, k: nat) -> Seq<char>
    decreases k,
{
    if k == 0 {
        Seq::empty()
    } else {
        hex_digits(n / 16, (k - 1) as nat).push(hex_char(n % 16))
    }
}

/// `n` written as sixteen lowercase hexadecimal digits, zero-padded.
pub open spec fn hex16(n: u64) -> Seq<char> {
    hex_digits(n as nat, 16)
}

/// What the standard library's default hasher yields for the pair.
pub uninterp spec fn session_hash(secret: Seq<char>, password: Seq<char>) -> u64;

/// The session credential for a secret and a password.
pub open spec fn session_token(secret: Seq<char>, password: Seq<char>) -> Seq<char> {
    hex16(session_hash(secret, password))
}

/// Relies on `BuildHasher::hash_one` with hashers made by
/// `DefaultHasher::default`: every such hasher is the same, so the digest of
/// the pair depends on the two strings alone.
#[verifier::external_body]
fn session_digest(secret: &str, password: &str) -> (r: u64)
    ensures
        r == session_hash(secret@, password@),
{
    BuildHasherDefault::<DefaultHasher>::default().hash_one((secret, password))
}

/// Relies on `rand::random`: a value drawn from the thread-local generator.
pub assume_specification<T>[ rand::random::<T> ]() -> (r: T)
    where
        rand::distributions::Standard: rand::distributions::Distribution<T>,
;

/// One lowercase hexadecimal digit.
fn hex_digit_string(d: u64) -> (r: String)
    requires
        d < 16,
    ensures
        r@ == seq![hex_char(d as nat)],
{
    let digits = "0123456789abcdef";
    proof {
        reveal_strlit("0123456789abcdef");
    }
    let s = digits.substring_char(d as usize, (d + 1) as usize);
    let r = String::from_str(s);
    proof {
        assert(r@ =~= seq![hex_char(d as nat)]);
    }
    r
}

/// `n` as sixteen zero-padded lowercase hexadecimal digits.
pub fn to_hex16(n: u64) -> (r: String)
    ensures
        r@ == hex16(n),
        r@.len() == 16,
{
    let mut acc = String::new();
    let mut m: u64 = n;
    let mut k: u64 = 0;
    while k < 16
        invariant
            k <= 16,
            hex16(n) == hex_digits(m as nat, (16 - k) as nat) + acc@,
            acc@.len() == k,
        decreases 16 - k,
    {
        let d = m % 16;
        let digit = hex_digit_string(d);
        proof {
            let r = (16 - k) as nat;
            assert(hex_digits(m as nat, r) == hex_digits((m / 16) as nat, (r - 1) as nat).push(
                hex_char(d as nat),
            ));
            assert(hex_digits(m as nat, r) + acc@ =~= hex_digits((m / 16) as nat, (r - 1) as nat)
                + (digit@ + acc@));
        }
        acc = digit.concat(acc.as_str());
        m = m / 16;
        k = k + 1;
    }
    proof {
        assert(hex_digits(m as nat, 0) + acc@ =~= acc@);
    }
    acc
}

/// The session credential derived from `secret` and `password`.
pub fn generate_session_token(secret: &str, password: &str) -> (r: String)
    ensures
        r@ == session_token(secret@, password@),
{
    to_hex16(session_digest(secret, password))
}

/// Sixteen hexadecimal digits of a random 64-bit number: a fresh session
/// secret, or a fresh editor password.
pub fn random_hex16() -> (r: String)
    ensures
        exists|n: u64| r@ == hex16(n),
{
    let n: u64 = rand::random();
    to_hex16(n)
}

/// The dashboard guard: the live secret and the configured password.
pub struct SessionAuthenticator {
    pub secret: String,
    pub password: String,
}

impl SessionAuthenticator {
    pub fn new(secret: String, password: String) -> (r: Self)
        ensures
            r.secret@ == secret@,
            r.password@ == password@,
    {
        SessionAuthenticator { secret, password }
    }

    /// The credential that is valid right now.
    pub open spec fn current(&self) -> Seq<char> {
        session_token(self.secret@, self.password@)
    }

    /// Whether a presented credential (absent when no cookie came) is valid.
    pub open spec fn accepts(&self, presented: Option<Seq<char>>) -> bool {
        match presented {
            Some(p) => p == self.current(),
            None => false,
        }
    }

    /// The credential a login attempt obtains: the current one for the exact
    /// password, none otherwise.
    pub open spec fn login_outcome(&self, attempt: Seq<char>) -> Option<Seq<char>> {
        if attempt == self.password@ {
            Some(self.current())
        } else {
            None
        }
    }

    /// Issues the credential when `attempt` is exactly the password.
    pub fn login(&self, attempt: &str) -> (r: Option<String>)
        ensures
            match r {
                Some(t) => self.login_outcome(attempt@) == Some(t@),
                None => self.login_outcome(attempt@) is None,
            },
    {
        let attempt = String::from_str(attempt);
        if attempt == self.password {
            Some(generate_session_token(self.secret.as_str(), self.password.as_str()))
        } else {
            None
        }
    }

    /// Recomputes the credential and compares the presented one to it.
    pub fn check(&self, presented: Option<&str>) -> (r: bool)
        ensures
            r == self.accepts(
                match presented {
                    Some(p) => Some(p@),
                    None => None,
                },
            ),
    {
        match presented {
            Some(p) => {
                let expected = generate_session_token(self.secret.as_str(), self.password.as_str());
                let p = String::from_str(p);
                p == expected
            },
            None => false,
        }
    }
}

/// A login with the password yields a credential that the check accepts; a
/// login with anything else yields none, so the check that follows refuses;
/// and once logged out (no credential presented) the check refuses.
pub proof fn lemma_session_round_trip(auth: SessionAuthenticator, attempt: Seq<char>)
    ensures
        auth.accepts(auth.login_outcome(auth.password@)),
        attempt != auth.password@ ==> !auth.accepts(auth.login_outcome(attempt)),
        !auth.accepts(None),
{
}

} // verus!
