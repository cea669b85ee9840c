//! The decisions behind the judging-record endpoints: any authenticated
//! user may submit, only the judging machine may write results back, and
//! each failure is the taxonomy kind the check produces. The surrounding
//! program parses, stores, relays to the judging service and renders.

use vstd::prelude::*;

use crate::access::{authorized_level_spec, check_authority_level};
use crate::authority::Authority;
use crate::error::Error;
use crate::token::Jwt;

verus! {

/// The judging state of a submission.
#[derive(Clone, Copy, Debug, PartialEq, Eq, Structural)]
pub enum Status {
    /// Waiting to be judged.
    Waiting,
    /// Being judged.
    Pending,
    /// Accepted.
    Ac,
    /// Wrong answer.
    Wa,
    /// Runtime error.
    Re,
    /// Memory limit exceeded.
    Mle,
    /// Time limit exceeded.
    Tle,
    /// Compile error.
    Ce,
    /// Unknown error.
    Uke,
}

/// The language a submission is written in.
#[derive(Clone, Copy, Debug, PartialEq, Eq, Structural)]
pub enum Language {
    C,
    Cpp,
    Python3,
    Rust,
}

/// A judging record, every column optional, as a partial request or a
/// stored row presents it. Instants are unix timestamps in seconds; the
/// running time is in milliseconds.
#[derive(Clone, Debug)]
pub struct Record {
    pub rid: Option<i32>,
    pub uid: Option<i32>,
    pub pid: Option<i32>,
    pub language: Option<Language>,
    pub code: Option<String>,
    pub submit_time: Option<i64>,
    pub status: Option<Status>,
    pub run_time: Option<i32>,
}

/// Decides a submission: a token must be presented and must decode to at
/// least user authority — no owner is consulted, the record does not
/// exist yet — and the user, problem and language must all be named. The
/// row to insert is the request stamped with the submission instant and
/// the waiting state.
pub fn insert_record_decision(
    jwt: &Jwt,
    token: Option<String>,
    record: Record,
    now: i64,
) -> (r: Result<Record, Error>)
    ensures
        token is None ==> (r matches Err(e) && e is MissingCredential && e.detail_spec()
            == "no token presented"@),
        token matches Some(t) ==> {
            if !authorized_level_spec(t@, jwt.auth.secret@, now as int, Authority::User) {
                r matches Err(e) && e is InvalidOrExpiredCredential && e.detail_spec()
                    == "not authorized"@
            } else if record.uid is None || record.pid is None || record.language is None {
                r matches Err(e) && e is ValidationFailed && e.detail_spec()
                    == "missing uid, pid or language"@
            } else {
                r matches Ok(s) && {
                    &&& s.rid == record.rid
                    &&& s.uid == record.uid
                    &&& s.pid == record.pid
                    &&& s.language == record.language
                    &&& s.code == record.code
                    &&& s.submit_time == Some(now)
                    &&& s.status == Some(Status::Waiting)
                    &&& s.run_time == record.run_time
                }
            }
        },
{
    let t = match token {
        Some(t) => t,
        None => { return Err(Error::MissingCredential("no token presented".to_owned())) },
    };
    if !check_authority_level(jwt, t, Authority::User, now) {
        return Err(Error::InvalidOrExpiredCredential("not authorized".to_owned()));
    }
    if record.uid.is_none() || record.pid.is_none() || record.language.is_none() {
        return Err(Error::ValidationFailed("missing uid, pid or language".to_owned()));
    }
    Ok(Record { submit_time: Some(now), status: Some(Status::Waiting), ..record })
}

/// The row that writing the judging result of `request` into `existing`
/// stores: only the state and the running time change, and only where the
/// request supplies them.
pub open spec fn merged_record(existing: Record, request: Record) -> Record {
    Record {
        status: if request.status is Some {
            request.status
        } else {
            existing.status
        },
        run_time: if request.run_time is Some {
            request.run_time
        } else {
            existing.run_time
        },
        ..existing
    }
}

/// Decides a result write-back: a token must be presented, the record
/// must be named and must exist, and the bearer must hold at least the
/// judging machine's authority — results come from the judger, not from
/// the submitter. On success, the merged row to store.
pub fn update_record_decision(
    jwt: &Jwt,
    token: Option<String>,
    request: Record,
    existing: Option<Record>,
    now: i64,
) -> (r: Result<Record, Error>)
    ensures
        token is None ==> (r matches Err(e) && e is MissingCredential && e.detail_spec()
            == "no token presented"@),
        (token is Some && request.rid is None) ==> (r matches Err(e) && e is ValidationFailed
            && e.detail_spec() == "missing rid"@),
        token matches Some(t) ==> request.rid is Some ==> match existing {
            None => r matches Err(e) && e is NotFound && e.detail_spec() == "record not found"@,
            Some(s) => {
                if authorized_level_spec(t@, jwt.auth.secret@, now as int, Authority::Judger) {
                    r == Ok::<Record, Error>(merged_record(s, request))
                } else {
                    r matches Err(e) && e is InvalidOrExpiredCredential && e.detail_spec()
                        == "not authorized"@
                }
            },
        },
{
    let t = match token {
        Some(t) => t,
        None => { return Err(Error::MissingCredential("no token presented".to_owned())) },
    };
    if request.rid.is_none() {
        return Err(Error::ValidationFailed("missing rid".to_owned()));
    }
    let s = match existing {
        Some(s) => s,
        None => { return Err(Error::NotFound("record not found".to_owned())) },
    };
    if !check_authority_level(jwt, t, Authority::Judger, now) {
        return Err(Error::InvalidOrExpiredCredential("not authorized".to_owned()));
    }
    Ok(
        Record {
            status: if request.status.is_some() {
                request.status
            } else {
                s.status
            },
            run_time: if request.run_time.is_some() {
                request.run_time
            } else {
                s.run_time
            },
            ..s
        },
    )
}

} // verus!
