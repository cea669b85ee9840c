//! The decisions behind the user endpoints: what a registration, a login
//! or a mutation of a user row must check, which failure each check
//! produces, and what row comes out on success. The surrounding program
//! parses the request, fetches and stores rows, and renders the outcome
//! through the pipeline; every rule stands here.

use vstd::prelude::*;

use crate::access::{authorized_spec, check_authority};
use crate::authority::Authority;
use crate::error::Error;
use crate::token::{decode_spec, Jwt};

verus! {

/// A user row, every column optional, as a partial request or a stored
/// row presents it. Instants are unix timestamps in seconds.
#[derive(Clone, Debug)]
pub struct User {
    pub uid: Option<i32>,
    pub avatar: Option<String>,
    pub account: Option<String>,
    pub password: Option<String>,
    pub join_time: Option<i64>,
    pub auth: Option<Authority>,
}

/// A credential field that is unusable: absent, or present but empty.
pub open spec fn missing_or_empty(s: Option<String>) -> bool {
    match s {
        None => true,
        Some(x) => x@.len() == 0,
    }
}

/// Two optional strings holding the same text.
pub open spec fn opt_str_eq(a: Option<String>, b: Option<String>) -> bool {
    match (a, b) {
        (Some(x), Some(y)) => x@ == y@,
        (None, None) => true,
        _ => false,
    }
}

/// The avatar every fresh registration starts with.
pub open spec fn default_avatar() -> Seq<char> {
    "http://127.0.0.1:8001/null"@
}

/// Decides a registration: the account and the password must be present
/// and non-empty, and the account name must be free; the row to insert is
/// the request completed with the default avatar, the joining instant and
/// the entry authority level.
pub fn register_decision(user: User, account_taken: bool, now: i64) -> (r: Result<User, Error>)
    ensures
        r is Ok <==> (!missing_or_empty(user.account) && !missing_or_empty(user.password)
            && !account_taken),
        (missing_or_empty(user.account) || missing_or_empty(user.password)) ==> (r matches Err(e)
            && e is ValidationFailed && e.detail_spec() == "empty account or password"@),
        (!missing_or_empty(user.account) && !missing_or_empty(user.password) && account_taken)
            ==> (r matches Err(e) && e is Conflict && e.detail_spec() == "duplicate account: "@
            + user.account->0@),
        r matches Ok(u) ==> {
            &&& u.uid == user.uid
            &&& u.account == user.account
            &&& u.password == user.password
            &&& u.avatar matches Some(a) && a@ == default_avatar()
            &&& u.join_time == Some(now)
            &&& u.auth == Some(Authority::User)
        },
{
    let account_bad = match &user.account {
        None => true,
        Some(a) => a.as_str().is_empty(),
    };
    let password_bad = match &user.password {
        None => true,
        Some(p) => p.as_str().is_empty(),
    };
    if account_bad || password_bad {
        return Err(Error::ValidationFailed("empty account or password".to_owned()));
    }
    if account_taken {
        let detail = match &user.account {
            Some(a) => "duplicate account: ".to_owned().concat(a.as_str()),
            None => unreached(),
        };
        return Err(Error::Conflict(detail));
    }
    Ok(
        User {
            avatar: Some("http://127.0.0.1:8001/null".to_owned()),
            join_time: Some(now),
            auth: Some(Authority::User),
            ..user
        },
    )
}

/// Decides a login: both credentials must be present, and the stored row
/// must exist and hold exactly the supplied password; a missing account
/// and a wrong password are indistinguishable to the caller. On success,
/// hands back the identity and authority to issue a token for.
pub fn login_decision(
    account: &Option<String>,
    password: &Option<String>,
    stored: &Option<User>,
) -> (r: Result<(i32, Authority), Error>)
    requires
        (account is Some && password is Some) ==> match *stored {
            Some(u) => opt_str_eq(u.password, *password) ==> (u.uid is Some && u.auth is Some),
            None => true,
        },
    ensures
        (account is None || password is None) ==> (r matches Err(e) && e is ValidationFailed
            && e.detail_spec() == "empty account or password"@),
        (account is Some && password is Some) ==> match *stored {
            Some(u) => {
                if opt_str_eq(u.password, *password) {
                    r == Ok::<(i32, Authority), Error>((u.uid->0, u.auth->0))
                } else {
                    r matches Err(e) && e is WrongCredentialValue && e.detail_spec()
                        == "wrong account or password"@
                }
            },
            None => r matches Err(e) && e is WrongCredentialValue && e.detail_spec()
                == "wrong account or password"@,
        },
{
    if account.is_none() || password.is_none() {
        return Err(Error::ValidationFailed("empty account or password".to_owned()));
    }
    let pw: &String = match password {
        Some(p) => p,
        None => unreached(),
    };
    match stored {
        Some(u) => {
            let pw_match = match u.password.as_ref() {
                Some(sp) => *sp == *pw,
                None => false,
            };
            if pw_match {
                match (u.uid, u.auth) {
                    (Some(uid), Some(auth)) => Ok((uid, auth)),
                    _ => unreached(),
                }
            } else {
                Err(Error::WrongCredentialValue("wrong account or password".to_owned()))
            }
        },
        None => Err(Error::WrongCredentialValue("wrong account or password".to_owned())),
    }
}

/// Decides a token login: a cookie must be presented and must verify; the
/// subject it names is who the session belongs to. Whether that subject
/// still exists is the caller's lookup, decided by `require_found`.
pub fn token_subject(jwt: &Jwt, cookie: Option<String>, now: i64) -> (r: Result<i32, Error>)
    ensures
        cookie is None ==> (r matches Err(e) && e is MissingCredential && e.detail_spec()
            == "no token presented"@),
        cookie matches Some(t) ==> match decode_spec(t@, jwt.auth.secret@, now as int) {
            Ok(c) => r == Ok::<i32, Error>(c.subject_id),
            Err(_) => r matches Err(e) && e is InvalidOrExpiredCredential && e.detail_spec()
                == "token is wrong or expired"@,
        },
{
    match cookie {
        None => Err(Error::MissingCredential("no token presented".to_owned())),
        Some(t) => match jwt.decode(t, now) {
            Ok(c) => Ok(c.subject_id),
            Err(_) => Err(
                Error::InvalidOrExpiredCredential("token is wrong or expired".to_owned()),
            ),
        },
    }
}

/// The row that updating `existing` with the set fields of `request`
/// stores: the identity and joining instant are kept, everything else is
/// overlaid where the request supplies it.
pub open spec fn merged_user(existing: User, request: User) -> User {
    User {
        uid: existing.uid,
        avatar: if request.avatar is Some {
            request.avatar
        } else {
            existing.avatar
        },
        account: if request.account is Some {
            request.account
        } else {
            existing.account
        },
        password: if request.password is Some {
            request.password
        } else {
            existing.password
        },
        join_time: existing.join_time,
        auth: if request.auth is Some {
            request.auth
        } else {
            existing.auth
        },
    }
}

/// Decides an update of a user row: a token must be presented, the target
/// must be named, the bearer must own the target or hold the
/// administrator floor, the target must exist, and the row's authority
/// may never be raised above what it already holds. On success, the
/// merged row to store.
pub fn update_user_decision(
    jwt: &Jwt,
    token: Option<String>,
    request: User,
    existing: Option<User>,
    now: i64,
) -> (r: Result<User, Error>)
    requires
        existing matches Some(u) ==> request.auth is Some ==> u.auth is Some,
    ensures
        token is None ==> (r matches Err(e) && e is MissingCredential && e.detail_spec()
            == "no token presented"@),
        (token is Some && request.uid is None) ==> (r matches Err(e) && e is ValidationFailed
            && e.detail_spec() == "missing uid"@),
        (token matches Some(t) && request.uid matches Some(uid) && !authorized_spec(
            t@,
            jwt.auth.secret@,
            now as int,
            uid as int,
            Authority::Admin,
        )) ==> (r matches Err(e) && e is InvalidOrExpiredCredential && e.detail_spec()
            == "not authorized"@),
        (token matches Some(t) && request.uid matches Some(uid) && authorized_spec(
            t@,
            jwt.auth.secret@,
            now as int,
            uid as int,
            Authority::Admin,
        )) ==> match existing {
            None => r matches Err(e) && e is NotFound && e.detail_spec() == "user not found"@,
            Some(u) => {
                if request.auth matches Some(a) && !u.auth->0.ge_spec(a) {
                    r matches Err(e) && e is InvalidOrExpiredCredential && e.detail_spec()
                        == "may not raise authority"@
                } else {
                    r == Ok::<User, Error>(merged_user(u, request))
                }
            },
        },
{
    let t = match token {
        Some(t) => t,
        None => { return Err(Error::MissingCredential("no token presented".to_owned())) },
    };
    let uid = match request.uid {
        Some(uid) => uid,
        None => { return Err(Error::ValidationFailed("missing uid".to_owned())) },
    };
    if !check_authority(jwt, t, uid, Authority::Admin, now) {
        return Err(Error::InvalidOrExpiredCredential("not authorized".to_owned()));
    }
    let u = match existing {
        Some(u) => u,
        None => { return Err(Error::NotFound("user not found".to_owned())) },
    };
    if let Some(a) = request.auth {
        let held = match u.auth {
            Some(h) => h,
            None => unreached(),
        };
        if !held.ge(a) {
            return Err(Error::InvalidOrExpiredCredential("may not raise authority".to_owned()));
        }
    }
    Ok(
        User {
            uid: u.uid,
            avatar: if request.avatar.is_some() {
                request.avatar
            } else {
                u.avatar
            },
            account: if request.account.is_some() {
                request.account
            } else {
                u.account
            },
            password: if request.password.is_some() {
                request.password
            } else {
                u.password
            },
            join_time: u.join_time,
            auth: if request.auth.is_some() {
                request.auth
            } else {
                u.auth
            },
        },
    )
}

/// Decides a deletion of a user row: a token must be presented, the
/// target must be named, and the bearer must be the target or hold the
/// administrator floor. On success, the identity to delete.
pub fn delete_user_decision(
    jwt: &Jwt,
    token: Option<String>,
    request_uid: Option<i32>,
    now: i64,
) -> (r: Result<i32, Error>)
    ensures
        token is None ==> (r matches Err(e) && e is MissingCredential && e.detail_spec()
            == "no token presented"@),
        (token is Some && request_uid is None) ==> (r matches Err(e) && e is ValidationFailed
            && e.detail_spec() == "missing uid"@),
        token matches Some(t) ==> request_uid matches Some(uid) ==> {
            if authorized_spec(t@, jwt.auth.secret@, now as int, uid as int, Authority::Admin) {
                r == Ok::<i32, Error>(uid)
            } else {
                r matches Err(e) && e is InvalidOrExpiredCredential && e.detail_spec()
                    == "not authorized"@
            }
        },
{
    let t = match token {
        Some(t) => t,
        None => { return Err(Error::MissingCredential("no token presented".to_owned())) },
    };
    let uid = match request_uid {
        Some(uid) => uid,
        None => { return Err(Error::ValidationFailed("missing uid".to_owned())) },
    };
    if !check_authority(jwt, t, uid, Authority::Admin, now) {
        return Err(Error::InvalidOrExpiredCredential("not authorized".to_owned()));
    }
    Ok(uid)
}

} // verus!
