//! Token-based caller identity around the core: claims, token issuance and
//! verification, and the small decisions the request pipeline makes on
//! claims. Signing and verification are delegated to an HS256 JWT
//! implementation behind trusted wrappers; everything around the calls —
//! claim construction, the decimal rendering of the user id, header parsing
//! and the admin check — is verified.

use vstd::prelude::*;
use vstd::string::{StrSliceExecFns, StringExecFns};

verus! {

/// Why an authentication step failed.
#[derive(Clone, Copy, Debug, PartialEq, Eq, Structural)]
pub enum AuthError {
    /// The token or header was missing, malformed, expired or unsigned.
    Unauthorized,
    /// Token creation failed.
    Internal,
}

/// The claims carried by a signed token.
#[derive(Debug)]
pub struct JwtClaims {
    /// The user id, rendered in decimal.
    pub sub: String,
    pub username: String,
    pub role: String,
    /// Expiration, as Unix seconds.
    pub exp: usize,
    /// Issued-at, as Unix seconds.
    pub iat: usize,
}

impl Clone for JwtClaims {
    fn clone(&self) -> (r: Self)
        ensures
            r == *self,
    {
        JwtClaims {
            sub: self.sub.clone(),
            username: self.username.clone(),
            role: self.role.clone(),
            exp: self.exp,
            iat: self.iat,
        }
    }
}

/// Profile data extracted from a caller's claims.
#[derive(Debug)]
pub struct ProfileResponse {
    pub message: String,
    pub user_id: String,
    pub username: String,
    pub role: String,
}

/// The HS256 JWT signed with `secret` over exactly these claims. Named
/// rather than spelled out: the result depends on the claims and the secret
/// alone.
pub uninterp spec fn hs256_token(
    sub: Seq<char>,
    username: Seq<char>,
    role: Seq<char>,
    exp: int,
    iat: int,
    secret: Seq<char>,
) -> Seq<char>;

/// Relies on jsonwebtoken::encode with an HS256 header: the token is an
/// HMAC-signed, deterministic function of the claims and the secret.
#[verifier::external_body]
fn jwt_encode(claims: &JwtClaims, secret: &str) -> (r: Result<String, AuthError>)
    ensures
        r matches Ok(t) ==> t@ == hs256_token(
            claims.sub@,
            claims.username@,
            claims.role@,
            claims.exp as int,
            claims.iat as int,
            secret@,
        ),
{
    let header = jsonwebtoken::Header::new(jsonwebtoken::Algorithm::HS256);
    let key = jsonwebtoken::EncodingKey::from_secret(secret.as_bytes());
    let mut m = serde_json::Map::new();
    m.insert("sub".to_string(), serde_json::Value::String(claims.sub.clone()));
    m.insert("username".to_string(), serde_json::Value::String(claims.username.clone()));
    m.insert("role".to_string(), serde_json::Value::String(claims.role.clone()));
    m.insert("exp".to_string(), serde_json::Value::from(claims.exp as u64));
    m.insert("iat".to_string(), serde_json::Value::from(claims.iat as u64));
    jsonwebtoken::encode(&header, &serde_json::Value::Object(m), &key).map_err(|_| AuthError::Internal)
}

/// Relies on jsonwebtoken::decode with HS256 validation: checks the
/// signature against the secret and the expiry against the current time,
/// then hands back the claims of the token's payload. Success depends on
/// the wall clock, so nothing is promised of the outcome.
#[verifier::external_body]
fn jwt_decode(token: &str, secret: &str) -> (r: Result<JwtClaims, AuthError>) {
    let key = jsonwebtoken::DecodingKey::from_secret(secret.as_bytes());
    let validation = jsonwebtoken::Validation::new(jsonwebtoken::Algorithm::HS256);
    let data = jsonwebtoken::decode::<serde_json::Value>(token, &key, &validation)
        .map_err(|_| AuthError::Unauthorized)?;
    let v = data.claims;
    match (v["sub"].as_str(), v["username"].as_str(), v["role"].as_str(), v["exp"].as_u64(), v["iat"].as_u64()) {
        (Some(s), Some(u), Some(ro), Some(e), Some(i)) => Ok(JwtClaims {
            sub: s.to_string(),
            username: u.to_string(),
            role: ro.to_string(),
            exp: e as usize,
            iat: i as usize,
        }),
        _ => Err(AuthError::Unauthorized),
    }
}

/// The decimal digit for one value in 0..9.
pub open spec fn digit_char(d: int) -> char {
    if d == 0 {
        '0'
    } else if d == 1 {
        '1'
    } else if d == 2 {
        '2'
    } else if d == 3 {
        '3'
    } else if d == 4 {
        '4'
    } else if d == 5 {
        '5'
    } else if d == 6 {
        '6'
    } else if d == 7 {
        '7'
    } else if d == 8 {
        '8'
    } else {
        '9'
    }
}

/// The decimal rendering of a non-negative integer, most significant digit
/// first, without leading zeroes (except for zero itself).
pub open spec fn decimal_of(n: int) -> Seq<char>
    recommends
        0 <= n,
    decreases n,
{
    if n < 10 {
        seq![digit_char(n)]
    } else {
        decimal_of(n / 10).push(digit_char(n % 10))
    }
}

/// Appends the decimal rendering of `n`.
fn push_decimal(out: &mut String, n: u64)
    ensures
        final(out)@ == old(out)@ + decimal_of(n as int),
    decreases n,
{
    if n >= 10 {
        push_decimal(out, n / 10);
    }
    let d = n % 10;
    let ds: &str = match d {
        0 => "0",
        1 => "1",
        2 => "2",
        3 => "3",
        4 => "4",
        5 => "5",
        6 => "6",
        7 => "7",
        8 => "8",
        _ => "9",
    };
    proof {
        reveal_strlit("0");
        reveal_strlit("1");
        reveal_strlit("2");
        reveal_strlit("3");
        reveal_strlit("4");
        reveal_strlit("5");
        reveal_strlit("6");
        reveal_strlit("7");
        reveal_strlit("8");
        reveal_strlit("9");
        assert(ds@ =~= seq![digit_char(d as int)]);
    }
    out.append(ds);
    proof {
        if n >= 10 {
            assert(old(out)@ + decimal_of((n / 10) as int) + ds@ =~= old(out)@ + decimal_of(
                n as int,
            ));
        } else {
            assert(old(out)@ + ds@ =~= old(out)@ + decimal_of(n as int));
        }
    }
}

/// The decimal rendering of a non-negative id as a `String`.
pub fn i64_to_decimal(n: i64) -> (r: String)
    requires
        0 <= n,
    ensures
        r@ == decimal_of(n as int),
{
    let mut s = String::new();
    push_decimal(&mut s, n as u64);
    proof {
        assert(Seq::<char>::empty() + decimal_of(n as int) =~= decimal_of(n as int));
    }
    s
}

/// Builds the claims for a fresh token: the decimal user id as subject,
/// issued now, expiring one hour later.
pub fn build_claims(user_id: i64, username: &str, role: &str, now: u64) -> (c: JwtClaims)
    requires
        0 <= user_id,
        now + 3600 <= usize::MAX,
    ensures
        c.sub@ == decimal_of(user_id as int),
        c.username@ == username@,
        c.role@ == role@,
        c.exp == now + 3600,
        c.iat == now,
{
    JwtClaims {
        sub: i64_to_decimal(user_id),
        username: username.to_owned(),
        role: role.to_owned(),
        exp: (now + 3600) as usize,
        iat: now as usize,
    }
}

/// Issues a signed token for the user: subject is the decimal user id,
/// expiry one hour after `now`.
pub fn create_token(user_id: i64, username: &str, role: &str, secret: &str, now: u64) -> (r:
    Result<String, AuthError>)
    requires
        0 <= user_id,
        now + 3600 <= usize::MAX,
    ensures
        r matches Ok(t) ==> t@ == hs256_token(
            decimal_of(user_id as int),
            username@,
            role@,
            now + 3600,
            now as int,
            secret@,
        ),
{
    let claims = build_claims(user_id, username, role, now);
    jwt_encode(&claims, secret)
}

/// Verifies a token's signature and expiry and hands back its claims.
/// Verification itself is delegated to the trusted JWT wrapper; this
/// function promises only that a failure is reported as `Unauthorized`.
pub fn verify_token(token: &str, secret: &str) -> (r: Result<JwtClaims, AuthError>)
    ensures
        r matches Err(e) ==> e == AuthError::Unauthorized,
{
    match jwt_decode(token, secret) {
        Ok(c) => Ok(c),
        Err(_) => Err(AuthError::Unauthorized),
    }
}

/// Pulls the bearer token out of an Authorization header value: succeeds if
/// and only if the value starts with "Bearer ", and returns exactly what
/// follows that prefix.
pub fn extract_bearer_token(header: &str) -> (r: Result<String, AuthError>)
    ensures
        r is Ok <==> (header@.len() >= 7 && header@.subrange(0, 7) == "Bearer "@),
        match r {
            Ok(t) => t@ == header@.skip(7),
            Err(e) => e == AuthError::Unauthorized,
        },
{
    proof {
        reveal_strlit("Bearer ");
    }
    let n = header.unicode_len();
    if n < 7 {
        return Err(AuthError::Unauthorized);
    }
    let mut i: usize = 0;
    while i < 7
        invariant
            7 <= header@.len(),
            i <= 7,
            forall|j: int| 0 <= j < i ==> header@[j] == "Bearer "@[j],
        decreases 7 - i,
    {
        let c = header.get_char(i);
        let e = match i {
            0 => 'B',
            1 => 'e',
            2 => 'a',
            3 => 'r',
            4 => 'e',
            5 => 'r',
            _ => ' ',
        };
        proof {
            reveal_strlit("Bearer ");
            assert("Bearer "@[i as int] == e);
        }
        if c != e {
            proof {
                assert(header@.subrange(0, 7) != "Bearer "@) by {
                    assert(header@.subrange(0, 7)[i as int] != "Bearer "@[i as int]);
                }
            }
            return Err(AuthError::Unauthorized);
        }
        i = i + 1;
    }
    let t = header.substring_char(7, n);
    proof {
        assert(header@.subrange(0, 7) =~= "Bearer "@);
        assert(t@ =~= header@.skip(7));
    }
    Ok(t.to_owned())
}

/// Whether the claims carry the administrator role.
pub fn is_admin(claims: &JwtClaims) -> (r: bool)
    ensures
        r == (claims.role@ == "admin"@),
{
    crate::order::str_eq(claims.role.as_str(), "admin")
}

/// The profile view of a caller's claims.
pub fn get_profile(claims: &JwtClaims) -> (r: ProfileResponse)
    ensures
        r.user_id@ == claims.sub@,
        r.username@ == claims.username@,
        r.role@ == claims.role@,
{
    ProfileResponse {
        message: "Profile information retrieved successfully".to_owned(),
        user_id: claims.sub.clone(),
        username: claims.username.clone(),
        role: claims.role.clone(),
    }
}

} // verus!
