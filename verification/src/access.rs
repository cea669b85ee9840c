//! The access decision: one predicate combining "is this the subject's
//! own resource" with "does the token's authority meet the required
//! floor". A failure to verify the token and a failure of the policy both
//! collapse to "not authorized"; no distinct signal leaves this layer.

use vstd::prelude::*;

use crate::authority::Authority;
use crate::token::{decode_spec, Jwt};

verus! {

/// The ownership-aware policy: the presented token decodes to a live
/// credential whose subject owns the resource or whose authority meets
/// the floor. A subject always may act on their own resource, whatever
/// their level.
pub open spec fn authorized_spec(
    token: Seq<char>,
    secret: Seq<char>,
    now: int,
    owner_id: int,
    required: Authority,
) -> bool {
    match decode_spec(token, secret, now) {
        Ok(c) => c.subject_id == owner_id || c.authority.ge_spec(required),
        Err(_) => false,
    }
}

/// The ownership-agnostic policy, for resources with no owner yet: the
/// presented token decodes to a live credential whose authority meets the
/// floor.
pub open spec fn authorized_level_spec(
    token: Seq<char>,
    secret: Seq<char>,
    now: int,
    required: Authority,
) -> bool {
    match decode_spec(token, secret, now) {
        Ok(c) => c.authority.ge_spec(required),
        Err(_) => false,
    }
}

/// Decides whether the bearer of `token` may act, at instant `now`, on
/// the resource owned by `id` when the floor is `auth`: true exactly when
/// the token verifies and the subject owns the resource or holds at least
/// `auth`.
pub fn check_authority(jwt: &Jwt, token: String, id: i32, auth: Authority, now: i64) -> (r: bool)
    ensures
        r == authorized_spec(token@, jwt.auth.secret@, now as int, id as int, auth),
{
    match jwt.decode(token, now) {
        Ok(c) => c.subject_id == id || c.authority.ge(auth),
        Err(_) => false,
    }
}

/// Decides whether the bearer of `token` holds, at instant `now`, at
/// least the authority `auth`: the ownership-agnostic shape of the
/// policy, with no owner consulted.
pub fn check_authority_level(jwt: &Jwt, token: String, auth: Authority, now: i64) -> (r: bool)
    ensures
        r == authorized_level_spec(token@, jwt.auth.secret@, now as int, auth),
{
    match jwt.decode(token, now) {
        Ok(c) => c.authority.ge(auth),
        Err(_) => false,
    }
}

/// Self-service bypass: a bearer whose credential names them as the
/// resource's owner is authorized whatever floor is required, however low
/// their own authority.
pub proof fn lemma_self_service_bypass(
    token: Seq<char>,
    secret: Seq<char>,
    now: int,
    required: Authority,
)
    requires
        decode_spec(token, secret, now) is Ok,
    ensures
        authorized_spec(
            token,
            secret,
            now,
            decode_spec(token, secret, now)->Ok_0.subject_id as int,
            required,
        ),
{
}

/// Sufficient authority is accepted: a bearer whose credential holds at
/// least the required floor is authorized on every resource, owned by
/// whomever.
pub proof fn lemma_sufficient_authority(
    token: Seq<char>,
    secret: Seq<char>,
    now: int,
    owner_id: int,
    required: Authority,
)
    requires
        decode_spec(token, secret, now) is Ok,
        decode_spec(token, secret, now)->Ok_0.authority.ge_spec(required),
    ensures
        authorized_spec(token, secret, now, owner_id, required),
        authorized_level_spec(token, secret, now, required),
{
}

/// Insufficient authority is rejected: a bearer who neither owns the
/// resource nor holds the required floor is not authorized, and a token
/// that does not verify authorizes nothing.
pub proof fn lemma_insufficient_authority(
    token: Seq<char>,
    secret: Seq<char>,
    now: int,
    owner_id: int,
    required: Authority,
)
    requires
        decode_spec(token, secret, now) matches Ok(c) ==> c.subject_id != owner_id
            && !c.authority.ge_spec(required),
    ensures
        !authorized_spec(token, secret, now, owner_id, required),
        !authorized_level_spec(token, secret, now, required),
{
}

} // verus!
