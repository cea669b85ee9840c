//! The token codec: issues and verifies the signed, self-contained
//! credential that binds a subject identity to an authority level and an
//! expiration instant. The codec is stateless; a credential's lifecycle
//! is entirely the expiration timestamp embedded in it, and tampering is
//! detectable through the signature alone. Instants are unix timestamps
//! in seconds, handed in by the caller, so the codec itself never reads
//! a clock.

use vstd::prelude::*;

use crate::authority::{authority_from_rank, authority_of_rank, Authority};
use crate::config::Auth;
use crate::error::Error;

verus! {

/// The payload of a signed token: who, with what authority, until when.
#[derive(Clone, Copy, Debug, PartialEq, Eq, Structural)]
pub struct Credential {
    pub subject_id: i32,
    pub authority: Authority,
    pub expires_at: i64,
}

/// Why a presented token was rejected.
#[derive(Clone, Copy, Debug, PartialEq, Eq, Structural)]
pub enum TokenError {
    /// The signature does not verify, or the payload has the wrong shape.
    Invalid,
    /// The claims are intact but the credential's expiry has passed.
    Expired,
}

/// The claims `(subject id, authority rank, expiry)` that signed-token
/// verification recovers from a token under a secret, or `None` where
/// the signature or the payload shape is rejected. The result depends on
/// the token and the secret alone.
pub uninterp spec fn claims_of(token: Seq<char>, secret: Seq<char>) -> Option<(int, int, int)>;

/// The signed token that issuing the claims `(subject id, authority rank,
/// expiry)` under a secret produces. Signing is deterministic: the fixed
/// header, the claims serialized with sorted keys, and an HMAC tag are a
/// function of these arguments alone.
pub uninterp spec fn token_of(id: int, rank: int, exp: int, secret: Seq<char>) -> Seq<char>;

/// Relies on `jsonwebtoken::encode` with the default header (HS256) and a
/// key from `EncodingKey::from_secret`, under the crate's own default
/// crypto provider (nothing installs another): it cannot fail in this
/// configuration — the HMAC signer takes a secret of any length and its
/// signing step always succeeds, and serializing the integer claims
/// cannot fail. The token is a function of the claims and the secret
/// alone, named `token_of`, and carries exactly the claims `{id, auth,
/// exp}` it was given, so decoding it with the same secret (see
/// `jwt_parse`) recovers them. Expiries are carried as unsigned integers
/// on the wire, hence the bound on `exp`.
#[verifier::external_body]
fn jwt_sign(id: i32, rank: u16, exp: i64, secret: &str) -> (r: String)
    requires
        0 <= exp,
    ensures
        r@ == token_of(id as int, rank as int, exp as int, secret@),
        claims_of(r@, secret@) == Some((id as int, rank as int, exp as int)),
{
    let mut claims = serde_json::Map::new();
    claims.insert("id".to_owned(), serde_json::Value::from(id));
    claims.insert("auth".to_owned(), serde_json::Value::from(rank));
    claims.insert("exp".to_owned(), serde_json::Value::from(exp));
    let key = jsonwebtoken::EncodingKey::from_secret(secret.as_bytes());
    jsonwebtoken::encode(&jsonwebtoken::Header::default(), &serde_json::Value::Object(claims), &key)
        .expect("HMAC signing of integer claims cannot fail")
}

/// Relies on `jsonwebtoken::decode` with HS256, a key from
/// `DecodingKey::from_secret`, and expiry validation switched off, under
/// the crate's own default crypto provider (nothing installs another): it
/// checks the signature and the payload shape and nothing that depends on
/// a clock, so the result is a function of the token and the secret
/// alone, named `claims_of`. Every rejection comes back as `None`.
#[verifier::external_body]
fn jwt_parse(token: &str, secret: &str) -> (r: Option<(i64, i64, i64)>)
    ensures
        match r {
            Some(c) => claims_of(token@, secret@) == Some((c.0 as int, c.1 as int, c.2 as int)),
            None => claims_of(token@, secret@) is None,
        },
{
    let mut validation = jsonwebtoken::Validation::default();
    validation.validate_exp = false;
    let key = jsonwebtoken::DecodingKey::from_secret(secret.as_bytes());
    let data = jsonwebtoken::decode::<serde_json::Value>(token, &key, &validation).ok()?;
    let id = data.claims.get("id")?.as_i64()?;
    let rank = data.claims.get("auth")?.as_i64()?;
    let exp = data.claims.get("exp")?.as_i64()?;
    Some((id, rank, exp))
}

/// What verification returns for a given token, secret and instant: the
/// embedded credential when the claims are intact, in range and not yet
/// expired, and the reason for rejection otherwise.
pub open spec fn decode_spec(token: Seq<char>, secret: Seq<char>, now: int) -> Result<
    Credential,
    TokenError,
> {
    match claims_of(token, secret) {
        None => Err(TokenError::Invalid),
        Some((id, rank, exp)) => {
            if id < i32::MIN || id > i32::MAX {
                Err(TokenError::Invalid)
            } else {
                match authority_of_rank(rank) {
                    None => Err(TokenError::Invalid),
                    Some(authority) => {
                        if exp <= now {
                            Err(TokenError::Expired)
                        } else {
                            Ok(
                                Credential {
                                    subject_id: id as i32,
                                    authority,
                                    expires_at: exp as i64,
                                },
                            )
                        }
                    },
                }
            }
        },
    }
}

/// The token codec, configured with the signing secret and the validity
/// window it stamps into every credential it issues.
pub struct Jwt {
    pub auth: Auth,
}

impl Jwt {
    /// A codec over the given configuration.
    pub fn new(auth: Auth) -> (jwt: Jwt)
        ensures
            jwt.auth == auth,
    {
        Jwt { auth }
    }

    /// Issues a signed token for `id` at level `authority`, expiring one
    /// validity window after `now`. Issuing always succeeds — the signing
    /// scheme cannot fail in this configuration — and is deterministic:
    /// the token is `token_of` applied to the claims and the secret. The
    /// fallible shape stays for the pipeline's callers, and the contract
    /// owes them the success.
    pub fn encode(&self, id: i32, authority: Authority, now: i64) -> (r: Result<
        (String, i64),
        Error,
    >)
        requires
            0 <= now,
            0 <= self.auth.expires,
            now + self.auth.expires * 86400 <= i64::MAX,
        ensures
            r matches Ok(p) && {
                &&& p.1 == now + self.auth.expires * 86400
                &&& p.0@ == token_of(
                    id as int,
                    authority.rank_spec(),
                    p.1 as int,
                    self.auth.secret@,
                )
                &&& claims_of(p.0@, self.auth.secret@) == Some(
                    (id as int, authority.rank_spec(), p.1 as int),
                )
            },
    {
        let exp: i64 = now + self.auth.expires * 86400;
        Ok((jwt_sign(id, authority.rank(), exp, self.auth.secret.as_str()), exp))
    }

    /// Verifies a presented token against the codec's secret at instant
    /// `now`, returning exactly what `decode_spec` says: the embedded
    /// credential, or why the token was rejected.
    pub fn decode(&self, token: String, now: i64) -> (r: Result<Credential, TokenError>)
        ensures
            r == decode_spec(token@, self.auth.secret@, now as int),
    {
        match jwt_parse(token.as_str(), self.auth.secret.as_str()) {
            None => Err(TokenError::Invalid),
            Some((id, rank, exp)) => {
                if id < i32::MIN as i64 || id > i32::MAX as i64 {
                    Err(TokenError::Invalid)
                } else {
                    match authority_from_rank(rank) {
                        None => Err(TokenError::Invalid),
                        Some(authority) => {
                            if exp <= now {
                                Err(TokenError::Expired)
                            } else {
                                Ok(Credential { subject_id: id as i32, authority, expires_at: exp })
                            }
                        },
                    }
                }
            },
        }
    }
}

/// Round trip: a token whose claims bind `id` to `authority` with expiry
/// `exp` verifies, at any instant strictly before `exp`, to exactly the
/// credential it was issued for.
pub proof fn lemma_round_trip(
    token: Seq<char>,
    secret: Seq<char>,
    id: i32,
    authority: Authority,
    exp: i64,
    now: int,
)
    requires
        claims_of(token, secret) == Some((id as int, authority.rank_spec(), exp as int)),
        now < exp,
    ensures
        decode_spec(token, secret, now) == Ok::<Credential, TokenError>(
            (Credential { subject_id: id, authority, expires_at: exp }),
        ),
{
    crate::authority::lemma_rank_injective(authority);
}

/// Expiry enforcement: with intact claims, verification succeeds at every
/// instant strictly before the embedded expiry and fails as expired at
/// every instant from the expiry on.
pub proof fn lemma_expiry_boundary(
    token: Seq<char>,
    secret: Seq<char>,
    id: i32,
    authority: Authority,
    exp: i64,
    now: int,
)
    requires
        claims_of(token, secret) == Some((id as int, authority.rank_spec(), exp as int)),
    ensures
        now < exp ==> decode_spec(token, secret, now) == Ok::<Credential, TokenError>(
            (Credential { subject_id: id, authority, expires_at: exp }),
        ),
        exp <= now ==> decode_spec(token, secret, now) == Err::<Credential, TokenError>(
            TokenError::Expired,
        ),
{
    crate::authority::lemma_rank_injective(authority);
}

} // verus!


