//! Token verification: the bearer scheme is parsed here, and the credential
//! itself is judged by the `jsonwebtoken` crate behind a trusted wrapper.

use vstd::prelude::*;

verus! {

/// The token carried by an `Authorization` header value, when the value uses
/// the `Bearer` scheme: everything after `"Bearer "`. A missing header or any
/// other scheme carries no token.
pub open spec fn bearer_token_of(header: Option<Seq<char>>) -> Option<Seq<char>> {
    match header {
        Option::None => Option::None,
        Option::Some(h) => if h.len() >= 7 && h.subrange(0, 7) == "Bearer "@ {
            Option::Some(h.subrange(7, h.len() as int))
        } else {
            Option::None
        },
    }
}

/// Extracts the bearer token from an `Authorization` header value, if the
/// header is present and uses the `Bearer` scheme.
pub fn bearer_token(header: Option<&str>) -> (t: Option<String>)
    ensures
        t matches Some(tok) ==> bearer_token_of(header.deep_view()) == Some(tok@),
        t is None ==> bearer_token_of(header.deep_view()) is None,
{
    proof {
        reveal_strlit("Bearer ");
    }
    match header {
        None => None,
        Some(h) => {
            let n = h.unicode_len();
            if n < 7 {
                return None;
            }
            let scheme = "Bearer ";
            let mut i: usize = 0;
            let mut same = true;
            while i < 7 && same
                invariant
                    0 <= i <= 7,
                    7 <= n == h@.len(),
                    scheme@ == "Bearer "@,
                    scheme@.len() == 7,
                    same ==> forall|k: int| 0 <= k < i ==> h@[k] == "Bearer "@[k],
                    !same ==> h@.subrange(0, 7) != "Bearer "@,
                decreases 7 - i + (if same { 1int } else { 0int }),
            {
                if h.get_char(i) != scheme.get_char(i) {
                    proof {
                        assert(h@.subrange(0, 7)[i as int] == h@[i as int]);
                    }
                    same = false;
                } else {
                    i += 1;
                }
            }
            if same {
                proof {
                    assert(h@.subrange(0, 7) =~= "Bearer "@);
                }
                let token = h.substring_char(7, n);
                Some(String::from_str(token))
            } else {
                None
            }
        },
    }
}

/// Relies on `jsonwebtoken::decode` with algorithm `HS256`: the call returns
/// `Ok` exactly when that crate's signature check against `secret` and its
/// standard claim validation accept the token. The validation consults the
/// current time (expiry), so nothing is stated about the verdict; only the
/// verdict itself is passed on.
#[verifier::external_body]
fn hs256_accepts(token: &str, secret: &str) -> (ok: bool) {
    let key = jsonwebtoken::DecodingKey::from_secret(secret.as_bytes());
    let validation = jsonwebtoken::Validation::new(jsonwebtoken::Algorithm::HS256);
    jsonwebtoken::decode::<serde_json::Value>(token, &key, &validation).is_ok()
}

/// Verifies a credential: accepts only when the header carries a bearer
/// token and that token passes the HS256 check against the shared secret.
pub fn verify_credential(header: Option<&str>, secret: &str) -> (ok: bool)
    ensures
        bearer_token_of(header.deep_view()) is None ==> !ok,
{
    match bearer_token(header) {
        None => false,
        Some(token) => hs256_accepts(token.as_str(), secret),
    }
}

} // verus!
