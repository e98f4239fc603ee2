//! HTTP Basic authentication: the startup credential format check, the
//! parsed credential pair, and the per-request authorization decision.
//!
//! The logic works on bytes: header values and base64 output are byte
//! strings, and a configured `user:password` pair is compared bytewise.

use vstd::prelude::*;
use vstd::slice::{slice_index_get, slice_subrange};
use vstd::string::StringSliceAdditionalSpecFns;

verus! {

/// The byte that separates the user half from the password half.
pub const COLON_BYTE: u8 = 58;

/// The challenge value sent with every refusal: scheme and realm.
pub const WWW_AUTHENTICATE_VALUE: &'static str = "Basic realm=\"MacOCR Server\"";

/// The body of a refusal response. It never says which half failed.
pub const AUTH_FAILED_BODY: &'static str =
    "Authentication failed: A valid username and password are required.";

/// How many times `b` occurs in `s`.
pub open spec fn count_byte(s: Seq<u8>, b: u8) -> nat
    decreases s.len(),
{
    if s.len() == 0 {
        0
    } else {
        count_byte(s.drop_last(), b) + if s.last() == b {
            1nat
        } else {
            0nat
        }
    }
}

proof fn lemma_count_byte_zero(s: Seq<u8>, b: u8)
    requires
        forall|i: int| 0 <= i < s.len() ==> s[i] != b,
    ensures
        count_byte(s, b) == 0,
    decreases s.len(),
{
    if s.len() > 0 {
        lemma_count_byte_zero(s.drop_last(), b);
    }
}

proof fn lemma_count_byte_at_least_one(s: Seq<u8>, b: u8, k: int)
    requires
        0 <= k < s.len(),
        s[k] == b,
    ensures
        count_byte(s, b) >= 1,
    decreases s.len(),
{
    if k < s.len() - 1 {
        lemma_count_byte_at_least_one(s.drop_last(), b, k);
    }
}

proof fn lemma_count_byte_at_least_two(s: Seq<u8>, b: u8, k: int, m: int)
    requires
        0 <= k < m < s.len(),
        s[k] == b,
        s[m] == b,
    ensures
        count_byte(s, b) >= 2,
    decreases s.len(),
{
    if m == s.len() - 1 {
        lemma_count_byte_at_least_one(s.drop_last(), b, k);
    } else {
        lemma_count_byte_at_least_two(s.drop_last(), b, k, m);
    }
}

/// A well-formed credential setting: exactly one colon, with a non-empty,
/// colon-free half on each side.
pub open spec fn spec_valid_auth_format(s: Seq<u8>) -> bool {
    count_byte(s, COLON_BYTE) == 1 && s.len() >= 2 && s[0] != COLON_BYTE && s[s.len() - 1]
        != COLON_BYTE
}

/// Checks the `user:password` startup setting: accepted exactly when one
/// colon splits it into two non-empty colon-free halves.
pub fn is_valid_auth_format(input: &str) -> (r: bool)
    ensures
        r == spec_valid_auth_format(input.spec_bytes()),
{
    let bytes = input.as_bytes();
    let n = bytes.len();
    if n < 2 {
        proof {
            if bytes@.len() == 1 {
                assert(count_byte(bytes@, COLON_BYTE) == count_byte(bytes@.drop_last(), COLON_BYTE)
                    + if bytes@.last() == COLON_BYTE {
                    1nat
                } else {
                    0nat
                });
            }
        }
        return false;
    }
    let mut i: usize = 0;
    let mut cnt: u64 = 0;
    while i < n
        invariant
            n == bytes@.len(),
            i <= n,
            cnt <= i,
            cnt == count_byte(bytes@.take(i as int), COLON_BYTE),
        decreases n - i,
    {
        let c = *slice_index_get(bytes, i);
        proof {
            assert(bytes@.take(i + 1).drop_last() =~= bytes@.take(i as int));
            assert(bytes@.take(i + 1).last() == bytes@[i as int]);
        }
        if c == COLON_BYTE {
            cnt = cnt + 1;
        }
        i = i + 1;
    }
    proof {
        assert(bytes@.take(n as int) =~= bytes@);
    }
    let first = *slice_index_get(bytes, 0);
    let last = *slice_index_get(bytes, n - 1);
    cnt == 1 && first != COLON_BYTE && last != COLON_BYTE
}

/// The configured credential pair, parsed once at startup and immutable
/// afterwards.
#[derive(Clone, Debug)]
pub struct AuthCredential {
    pub username: Vec<u8>,
    pub password: Vec<u8>,
}

impl AuthCredential {
    /// Both halves are non-empty and colon-free.
    pub open spec fn wf(self) -> bool {
        self.username@.len() > 0 && self.password@.len() > 0 && (forall|i: int|
            0 <= i < self.username@.len() ==> self.username@[i] != COLON_BYTE) && (forall|i: int|
            0 <= i < self.password@.len() ==> self.password@[i] != COLON_BYTE)
    }

    /// Splits a `user:password` setting at its colon. Returns a pair
    /// exactly when the setting is well-formed.
    pub fn parse(input: &str) -> (r: Option<AuthCredential>)
        ensures
            r is Some <==> spec_valid_auth_format(input.spec_bytes()),
            match r {
                Some(c) => c.wf() && input.spec_bytes() == c.username@ + seq![COLON_BYTE]
                    + c.password@,
                None => true,
            },
    {
        if !is_valid_auth_format(input) {
            return None;
        }
        let bytes = input.as_bytes();
        let n = bytes.len();
        let mut username: Vec<u8> = Vec::new();
        let mut password: Vec<u8> = Vec::new();
        let mut seen = false;
        let ghost mut colon_at: int = 0;
        let mut i: usize = 0;
        while i < n
            invariant
                n == bytes@.len(),
                i <= n,
                !seen ==> username@ == bytes@.take(i as int) && password@.len() == 0 && (forall|
                    j: int,
                |
                    0 <= j < i ==> bytes@[j] != COLON_BYTE),
                seen ==> 0 <= colon_at < i && bytes@[colon_at] == COLON_BYTE && username@
                    == bytes@.take(colon_at) && (forall|j: int|
                    0 <= j < colon_at ==> bytes@[j] != COLON_BYTE) && password@ == bytes@.subrange(
                    colon_at + 1,
                    i as int,
                ),
            decreases n - i,
        {
            let c = *slice_index_get(bytes, i);
            if c == COLON_BYTE && !seen {
                seen = true;
                proof {
                    colon_at = i as int;
                }
            } else if !seen {
                username.push(c);
                proof {
                    assert(bytes@.take(i + 1) =~= bytes@.take(i as int).push(bytes@[i as int]));
                }
            } else {
                password.push(c);
                proof {
                    assert(bytes@.subrange(colon_at + 1, i + 1) =~= bytes@.subrange(
                        colon_at + 1,
                        i as int,
                    ).push(bytes@[i as int]));
                }
            }
            i = i + 1;
        }
        if !seen {
            proof {
                assert(bytes@.take(n as int) =~= bytes@);
                lemma_count_byte_zero(bytes@, COLON_BYTE);
            }
            return None;
        }
        proof {
            // The split is exact: everything before the colon, the colon,
            // everything after it.
            assert(bytes@ =~= username@ + seq![COLON_BYTE] + bytes@.subrange(
                colon_at + 1,
                n as int,
            ));
            // No second colon follows: the total count is one.
            assert forall|j: int| colon_at < j < n implies bytes@[j] != COLON_BYTE by {
                if bytes@[j] == COLON_BYTE {
                    lemma_count_byte_at_least_two(bytes@, COLON_BYTE, colon_at, j);
                }
            }
            // Both halves are non-empty because the setting neither starts
            // nor ends with a colon.
            assert(colon_at != 0);
            assert(colon_at != n - 1);
        }
        Some(AuthCredential { username, password })
    }
}

/// What the standard base64 alphabet decodes a byte string to, or `None`
/// when the input is not valid base64.
pub uninterp spec fn b64_decoded(input: Seq<u8>) -> Option<Seq<u8>>;

/// Relies on base64's STANDARD engine: strict decoding under the standard
/// alphabet with padding, a function of the input bytes alone.
#[verifier::external_body]
fn base64_decode(input: &[u8]) -> (r: Option<Vec<u8>>)
    ensures
        match r {
            Some(v) => b64_decoded(input@) == Some(v@),
            None => b64_decoded(input@) == None::<Seq<u8>>,
        },
{
    match base64::Engine::decode(&base64::engine::general_purpose::STANDARD, input) {
        Ok(v) => Some(v),
        Err(_) => None,
    }
}

/// The scheme prefix of a Basic authorization header: `"Basic "`.
pub open spec fn spec_basic_prefix() -> Seq<u8> {
    seq![66u8, 97u8, 115u8, 105u8, 99u8, 32u8]
}

/// A header value authorizes the request exactly when it is the Basic
/// scheme prefix followed by the base64 encoding of `user:password` for
/// the configured pair.
pub open spec fn spec_header_authorizes(h: Seq<u8>, user: Seq<u8>, pass: Seq<u8>) -> bool {
    h.len() >= 6 && h.subrange(0, 6) == spec_basic_prefix() && match b64_decoded(h.skip(6)) {
        Some(d) => d == user + seq![COLON_BYTE] + pass,
        None => false,
    }
}

fn bytes_eq(a: &[u8], b: &[u8]) -> (r: bool)
    ensures
        r == (a@ == b@),
{
    let n = a.len();
    if n != b.len() {
        return false;
    }
    let mut i: usize = 0;
    while i < n
        invariant
            n == a@.len(),
            n == b@.len(),
            i <= n,
            forall|j: int| 0 <= j < i ==> a@[j] == b@[j],
        decreases n - i,
    {
        if *slice_index_get(a, i) != *slice_index_get(b, i) {
            return false;
        }
        i = i + 1;
    }
    proof {
        assert(a@ =~= b@);
    }
    true
}

/// The byte string `user:password` that a correct header must decode to.
fn credential_line(cred: &AuthCredential) -> (r: Vec<u8>)
    ensures
        r@ == cred.username@ + seq![COLON_BYTE] + cred.password@,
{
    let mut line: Vec<u8> = Vec::new();
    let mut i: usize = 0;
    let un = cred.username.len();
    while i < un
        invariant
            un == cred.username@.len(),
            i <= un,
            line@ == cred.username@.take(i as int),
        decreases un - i,
    {
        line.push(cred.username[i]);
        proof {
            assert(cred.username@.take(i + 1) =~= cred.username@.take(i as int).push(
                cred.username@[i as int],
            ));
        }
        i = i + 1;
    }
    line.push(COLON_BYTE);
    let pn = cred.password.len();
    let mut j: usize = 0;
    while j < pn
        invariant
            un == cred.username@.len(),
            pn == cred.password@.len(),
            j <= pn,
            line@ == cred.username@.take(un as int).push(COLON_BYTE) + cred.password@.take(
                j as int,
            ),
        decreases pn - j,
    {
        line.push(cred.password[j]);
        proof {
            assert(cred.password@.take(j + 1) =~= cred.password@.take(j as int).push(
                cred.password@[j as int],
            ));
        }
        j = j + 1;
    }
    proof {
        assert(cred.username@.take(un as int) =~= cred.username@);
        assert(cred.password@.take(pn as int) =~= cred.password@);
        assert(line@ =~= cred.username@ + seq![COLON_BYTE] + cred.password@);
    }
    line
}

/// Decides one request: `true` exactly when the `Authorization` header is
/// present and correct. Any malformed or mismatching header — and an
/// absent one — is refused alike.
pub fn authorize(header: Option<&[u8]>, cred: &AuthCredential) -> (r: bool)
    ensures
        r == match header {
            Some(h) => spec_header_authorizes(h@, cred.username@, cred.password@),
            None => false,
        },
{
    let h = match header {
        Some(h) => h,
        None => {
            return false;
        },
    };
    let n = h.len();
    if n < 6 {
        return false;
    }
    let ok_prefix = *slice_index_get(h, 0) == 66 && *slice_index_get(h, 1) == 97
        && *slice_index_get(h, 2) == 115 && *slice_index_get(h, 3) == 105 && *slice_index_get(h, 4)
        == 99 && *slice_index_get(h, 5) == 32;
    if !ok_prefix {
        proof {
            if h@.subrange(0, 6) == spec_basic_prefix() {
                assert(h@[0] == h@.subrange(0, 6)[0]);
                assert(h@[1] == h@.subrange(0, 6)[1]);
                assert(h@[2] == h@.subrange(0, 6)[2]);
                assert(h@[3] == h@.subrange(0, 6)[3]);
                assert(h@[4] == h@.subrange(0, 6)[4]);
                assert(h@[5] == h@.subrange(0, 6)[5]);
            }
        }
        return false;
    }
    proof {
        assert(h@.subrange(0, 6) =~= spec_basic_prefix());
    }
    let encoded = slice_subrange(h, 6, n);
    proof {
        assert(encoded@ =~= h@.skip(6));
    }
    match base64_decode(encoded) {
        Some(decoded) => {
            let expected = credential_line(cred);
            bytes_eq(decoded.as_slice(), expected.as_slice())
        },
        None => false,
    }
}

} // verus!
