//! The decisions behind the problem endpoints: who may insert, update or
//! delete a problem, which failure each check produces, and what row
//! comes out on success. Anyone holding at least user authority may
//! insert; updating or deleting takes the problem's owner or an
//! administrator. The surrounding program parses, stores and renders.

use vstd::prelude::*;

use crate::access::{authorized_level_spec, authorized_spec, check_authority};
use crate::authority::Authority;
use crate::error::Error;
use crate::token::{decode_spec, Jwt};

verus! {

/// A problem row, every column optional, as a partial request or a
/// stored row presents it. Limits are in milliseconds and megabytes.
#[derive(Clone, Debug)]
pub struct Problem {
    pub pid: Option<i32>,
    pub title: Option<String>,
    pub description: Option<String>,
    pub judge_num: Option<i32>,
    pub time_limit: Option<i32>,
    pub memory_limit: Option<i32>,
    pub uid: Option<i32>,
}

/// The row that updating `existing` with the set fields of `request`
/// stores: the identity is kept, everything else is overlaid where the
/// request supplies it, ownership included.
pub open spec fn merged_problem(existing: Problem, request: Problem) -> Problem {
    Problem {
        pid: existing.pid,
        title: if request.title is Some {
            request.title
        } else {
            existing.title
        },
        description: if request.description is Some {
            request.description
        } else {
            existing.description
        },
        judge_num: if request.judge_num is Some {
            request.judge_num
        } else {
            existing.judge_num
        },
        time_limit: if request.time_limit is Some {
            request.time_limit
        } else {
            existing.time_limit
        },
        memory_limit: if request.memory_limit is Some {
            request.memory_limit
        } else {
            existing.memory_limit
        },
        uid: if request.uid is Some {
            request.uid
        } else {
            existing.uid
        },
    }
}

/// Decides an insertion: a token must be presented and must decode to at
/// least user authority — no owner is consulted, the resource does not
/// exist yet — and the title must be present. The row to insert is the
/// request owned by the token's subject, with the judging defaults
/// filled in where the request left them out.
pub fn insert_problem_decision(
    jwt: &Jwt,
    token: Option<String>,
    problem: Problem,
    now: i64,
) -> (r: Result<Problem, Error>)
    ensures
        token is None ==> (r matches Err(e) && e is MissingCredential && e.detail_spec()
            == "no token presented"@),
        token matches Some(t) ==> {
            if !authorized_level_spec(t@, jwt.auth.secret@, now as int, Authority::User) {
                r matches Err(e) && e is InvalidOrExpiredCredential && e.detail_spec()
                    == "not authorized"@
            } else if problem.title is None {
                r matches Err(e) && e is ValidationFailed && e.detail_spec() == "empty title"@
            } else {
                r matches Ok(p) && {
                    &&& p.pid == problem.pid
                    &&& p.title == problem.title
                    &&& p.description == problem.description
                    &&& p.uid == Some(
                        decode_spec(t@, jwt.auth.secret@, now as int)->Ok_0.subject_id,
                    )
                    &&& p.judge_num == if problem.judge_num is Some {
                        problem.judge_num
                    } else {
                        Some(0i32)
                    }
                    &&& p.time_limit == if problem.time_limit is Some {
                        problem.time_limit
                    } else {
                        Some(1000i32)
                    }
                    &&& p.memory_limit == if problem.memory_limit is Some {
                        problem.memory_limit
                    } else {
                        Some(128i32)
                    }
                }
            }
        },
{
    let t = match token {
        Some(t) => t,
        None => { return Err(Error::MissingCredential("no token presented".to_owned())) },
    };
    let cred = match jwt.decode(t, now) {
        Ok(c) => c,
        Err(_) => { return Err(Error::InvalidOrExpiredCredential("not authorized".to_owned())) },
    };
    if !cred.authority.ge(Authority::User) {
        return Err(Error::InvalidOrExpiredCredential("not authorized".to_owned()));
    }
    if problem.title.is_none() {
        return Err(Error::ValidationFailed("empty title".to_owned()));
    }
    let judge_num = match problem.judge_num {
        Some(n) => Some(n),
        None => Some(0),
    };
    let time_limit = match problem.time_limit {
        Some(n) => Some(n),
        None => Some(1000),
    };
    let memory_limit = match problem.memory_limit {
        Some(n) => Some(n),
        None => Some(128),
    };
    Ok(
        Problem {
            uid: Some(cred.subject_id),
            judge_num,
            time_limit,
            memory_limit,
            ..problem
        },
    )
}

/// The owner a stored problem row names, with the ownerless sentinel
/// where the column is empty.
pub open spec fn problem_owner(existing: Problem) -> int {
    match existing.uid {
        Some(uid) => uid as int,
        None => 0,
    }
}

/// Decides an update: a token must be presented, the target must be
/// named and must exist, and the bearer must own the problem or hold the
/// administrator floor. On success, the merged row to store.
pub fn update_problem_decision(
    jwt: &Jwt,
    token: Option<String>,
    request: Problem,
    existing: Option<Problem>,
    now: i64,
) -> (r: Result<Problem, Error>)
    ensures
        token is None ==> (r matches Err(e) && e is MissingCredential && e.detail_spec()
            == "no token presented"@),
        (token is Some && request.pid is None) ==> (r matches Err(e) && e is ValidationFailed
            && e.detail_spec() == "missing pid"@),
        token matches Some(t) ==> request.pid is Some ==> match existing {
            None => r matches Err(e) && e is NotFound && e.detail_spec() == "problem not found"@,
            Some(p) => {
                if authorized_spec(
                    t@,
                    jwt.auth.secret@,
                    now as int,
                    problem_owner(p),
                    Authority::Admin,
                ) {
                    r == Ok::<Problem, Error>(merged_problem(p, request))
                } else {
                    r matches Err(e) && e is InvalidOrExpiredCredential && e.detail_spec()
                        == "not authorized"@
                }
            },
        },
{
    let t = match token {
        Some(t) => t,
        None => { return Err(Error::MissingCredential("no token presented".to_owned())) },
    };
    if request.pid.is_none() {
        return Err(Error::ValidationFailed("missing pid".to_owned()));
    }
    let p = match existing {
        Some(p) => p,
        None => { return Err(Error::NotFound("problem not found".to_owned())) },
    };
    let owner = match p.uid {
        Some(uid) => uid,
        None => 0,
    };
    if !check_authority(jwt, t, owner, Authority::Admin, now) {
        return Err(Error::InvalidOrExpiredCredential("not authorized".to_owned()));
    }
    Ok(
        Problem {
            pid: p.pid,
            title: if request.title.is_some() {
                request.title
            } else {
                p.title
            },
            description: if request.description.is_some() {
                request.description
            } else {
                p.description
            },
            judge_num: if request.judge_num.is_some() {
                request.judge_num
            } else {
                p.judge_num
            },
            time_limit: if request.time_limit.is_some() {
                request.time_limit
            } else {
                p.time_limit
            },
            memory_limit: if request.memory_limit.is_some() {
                request.memory_limit
            } else {
                p.memory_limit
            },
            uid: if request.uid.is_some() {
                request.uid
            } else {
                p.uid
            },
        },
    )
}

/// Decides a deletion: a token must be presented, the target must be
/// named and must exist, and the bearer must own the problem or hold the
/// administrator floor. On success, the identity to delete.
pub fn delete_problem_decision(
    jwt: &Jwt,
    token: Option<String>,
    request_pid: Option<i32>,
    existing: Option<Problem>,
    now: i64,
) -> (r: Result<i32, Error>)
    ensures
        token is None ==> (r matches Err(e) && e is MissingCredential && e.detail_spec()
            == "no token presented"@),
        (token is Some && request_pid is None) ==> (r matches Err(e) && e is ValidationFailed
            && e.detail_spec() == "missing pid"@),
        token matches Some(t) ==> request_pid matches Some(pid) ==> match existing {
            None => r matches Err(e) && e is NotFound && e.detail_spec() == "problem not found"@,
            Some(p) => {
                if authorized_spec(
                    t@,
                    jwt.auth.secret@,
                    now as int,
                    problem_owner(p),
                    Authority::Admin,
                ) {
                    r == Ok::<i32, Error>(pid)
                } else {
                    r matches Err(e) && e is InvalidOrExpiredCredential && e.detail_spec()
                        == "not authorized"@
                }
            },
        },
{
    let t = match token {
        Some(t) => t,
        None => { return Err(Error::MissingCredential("no token presented".to_owned())) },
    };
    let pid = match request_pid {
        Some(pid) => pid,
        None => { return Err(Error::ValidationFailed("missing pid".to_owned())) },
    };
    let p = match existing {
        Some(p) => p,
        None => { return Err(Error::NotFound("problem not found".to_owned())) },
    };
    let owner = match p.uid {
        Some(uid) => uid,
        None => 0,
    };
    if !check_authority(jwt, t, owner, Authority::Admin, now) {
        return Err(Error::InvalidOrExpiredCredential("not authorized".to_owned()));
    }
    Ok(pid)
}

} // verus!
