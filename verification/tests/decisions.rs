use auth_core::authority::Authority;
use auth_core::config::Auth;
use auth_core::error::{require_field, require_found, Error};
use auth_core::problem::{delete_problem_decision, insert_problem_decision, update_problem_decision, Problem};
use auth_core::record::{insert_record_decision, update_record_decision, Language, Record, Status};
use auth_core::token::Jwt;
use auth_core::user::{
    delete_user_decision, login_decision, register_decision, token_subject, update_user_decision,
    User,
};

const NOW: i64 = 1_700_000_000;

fn codec() -> Jwt {
    Jwt::new(Auth { secret: "test-secret".to_owned(), expires: 7 })
}

fn token_for(jwt: &Jwt, subject: i32, authority: Authority) -> String {
    jwt.encode(subject, authority, NOW).unwrap().0
}

fn blank_user() -> User {
    User { uid: None, avatar: None, account: None, password: None, join_time: None, auth: None }
}

fn blank_problem() -> Problem {
    Problem {
        pid: None,
        title: None,
        description: None,
        judge_num: None,
        time_limit: None,
        memory_limit: None,
        uid: None,
    }
}

fn blank_record() -> Record {
    Record {
        rid: None,
        uid: None,
        pid: None,
        language: None,
        code: None,
        submit_time: None,
        status: None,
        run_time: None,
    }
}

#[test]
fn register_fills_the_defaults() {
    let request = User {
        account: Some("alice".to_owned()),
        password: Some("pw".to_owned()),
        ..blank_user()
    };
    let row = register_decision(request, false, NOW).unwrap();
    assert_eq!(row.account.as_deref(), Some("alice"));
    assert_eq!(row.password.as_deref(), Some("pw"));
    assert_eq!(row.avatar.as_deref(), Some("http://127.0.0.1:8001/null"));
    assert_eq!(row.join_time, Some(NOW));
    assert_eq!(row.auth, Some(Authority::User));
    assert_eq!(row.uid, None);
}

#[test]
fn register_rejects_missing_or_empty_credentials() {
    let cases = [
        (None, Some("pw".to_owned())),
        (Some("alice".to_owned()), None),
        (Some("".to_owned()), Some("pw".to_owned())),
        (Some("alice".to_owned()), Some("".to_owned())),
    ];
    for (account, password) in cases {
        let r = register_decision(User { account, password, ..blank_user() }, false, NOW);
        assert!(matches!(r, Err(Error::ValidationFailed(_))));
    }
}

#[test]
fn register_rejects_a_taken_account() {
    let request = User {
        account: Some("alice".to_owned()),
        password: Some("pw".to_owned()),
        ..blank_user()
    };
    match register_decision(request, true, NOW) {
        Err(Error::Conflict(detail)) => assert_eq!(detail, "duplicate account: alice"),
        other => panic!("expected a conflict, got {:?}", other),
    }
}

#[test]
fn login_succeeds_only_on_the_stored_password() {
    let stored = Some(User {
        uid: Some(7),
        account: Some("alice".to_owned()),
        password: Some("pw".to_owned()),
        auth: Some(Authority::Judger),
        ..blank_user()
    });
    let r = login_decision(&Some("alice".to_owned()), &Some("pw".to_owned()), &stored);
    assert_eq!(r.unwrap(), (7, Authority::Judger));
    let r = login_decision(&Some("alice".to_owned()), &Some("other".to_owned()), &stored);
    assert!(matches!(r, Err(Error::WrongCredentialValue(_))));
    let r = login_decision(&Some("alice".to_owned()), &Some("pw".to_owned()), &None);
    assert!(matches!(r, Err(Error::WrongCredentialValue(_))));
    let r = login_decision(&None, &Some("pw".to_owned()), &stored);
    assert!(matches!(r, Err(Error::ValidationFailed(_))));
    let r = login_decision(&Some("alice".to_owned()), &None, &stored);
    assert!(matches!(r, Err(Error::ValidationFailed(_))));
}

#[test]
fn token_subject_follows_the_cookie() {
    let jwt = codec();
    let token = token_for(&jwt, 42, Authority::User);
    assert_eq!(token_subject(&jwt, Some(token.clone()), NOW).unwrap(), 42);
    assert!(matches!(
        token_subject(&jwt, None, NOW),
        Err(Error::MissingCredential(_))
    ));
    assert!(matches!(
        token_subject(&jwt, Some("garbage".to_owned()), NOW),
        Err(Error::InvalidOrExpiredCredential(_))
    ));
    assert!(matches!(
        token_subject(&jwt, Some(token), NOW + 8 * 86400),
        Err(Error::InvalidOrExpiredCredential(_))
    ));
}

#[test]
fn update_user_overlays_only_the_set_fields() {
    let jwt = codec();
    let admin = token_for(&jwt, 1, Authority::Admin);
    let existing = Some(User {
        uid: Some(7),
        avatar: Some("old-avatar".to_owned()),
        account: Some("alice".to_owned()),
        password: Some("pw".to_owned()),
        join_time: Some(123),
        auth: Some(Authority::Judger),
    });
    let request = User {
        uid: Some(7),
        password: Some("new-pw".to_owned()),
        auth: Some(Authority::User),
        ..blank_user()
    };
    let row = update_user_decision(&jwt, Some(admin), request, existing, NOW).unwrap();
    assert_eq!(row.uid, Some(7));
    assert_eq!(row.avatar.as_deref(), Some("old-avatar"));
    assert_eq!(row.account.as_deref(), Some("alice"));
    assert_eq!(row.password.as_deref(), Some("new-pw"));
    assert_eq!(row.join_time, Some(123));
    assert_eq!(row.auth, Some(Authority::User));
}

#[test]
fn update_user_never_raises_authority() {
    let jwt = codec();
    let admin = token_for(&jwt, 1, Authority::Admin);
    let existing = Some(User { uid: Some(7), auth: Some(Authority::User), ..blank_user() });
    let request = User { uid: Some(7), auth: Some(Authority::Admin), ..blank_user() };
    let r = update_user_decision(&jwt, Some(admin), request, existing, NOW);
    assert!(matches!(r, Err(Error::InvalidOrExpiredCredential(_))));
}

#[test]
fn update_user_checks_in_the_handlers_order() {
    let jwt = codec();
    let admin = token_for(&jwt, 1, Authority::Admin);
    let low = token_for(&jwt, 2, Authority::User);
    let r = update_user_decision(&jwt, None, blank_user(), None, NOW);
    assert!(matches!(r, Err(Error::MissingCredential(_))));
    let r = update_user_decision(&jwt, Some(admin.clone()), blank_user(), None, NOW);
    assert!(matches!(r, Err(Error::ValidationFailed(_))));
    let request = User { uid: Some(7), ..blank_user() };
    let r = update_user_decision(&jwt, Some(low.clone()), request.clone(), None, NOW);
    assert!(matches!(r, Err(Error::InvalidOrExpiredCredential(_))));
    let r = update_user_decision(&jwt, Some(admin), request.clone(), None, NOW);
    assert!(matches!(r, Err(Error::NotFound(_))));
    let selfsame = User { uid: Some(2), ..blank_user() };
    let existing = Some(User { uid: Some(2), ..blank_user() });
    let row = update_user_decision(&jwt, Some(low), selfsame, existing, NOW).unwrap();
    assert_eq!(row.uid, Some(2));
}

#[test]
fn delete_user_takes_the_owner_or_an_admin() {
    let jwt = codec();
    let owner = token_for(&jwt, 7, Authority::Tourist);
    let admin = token_for(&jwt, 1, Authority::Admin);
    let other = token_for(&jwt, 2, Authority::User);
    assert_eq!(delete_user_decision(&jwt, Some(owner), Some(7), NOW).unwrap(), 7);
    assert_eq!(delete_user_decision(&jwt, Some(admin), Some(7), NOW).unwrap(), 7);
    assert!(matches!(
        delete_user_decision(&jwt, Some(other), Some(7), NOW),
        Err(Error::InvalidOrExpiredCredential(_))
    ));
    assert!(matches!(
        delete_user_decision(&jwt, None, Some(7), NOW),
        Err(Error::MissingCredential(_))
    ));
}

#[test]
fn insert_problem_stamps_the_submitter_and_defaults() {
    let jwt = codec();
    let token = token_for(&jwt, 9, Authority::User);
    let request = Problem { title: Some("two sum".to_owned()), ..blank_problem() };
    let row = insert_problem_decision(&jwt, Some(token), request, NOW).unwrap();
    assert_eq!(row.title.as_deref(), Some("two sum"));
    assert_eq!(row.uid, Some(9));
    assert_eq!(row.judge_num, Some(0));
    assert_eq!(row.time_limit, Some(1000));
    assert_eq!(row.memory_limit, Some(128));
}

#[test]
fn insert_problem_requires_a_user_and_a_title() {
    let jwt = codec();
    let tourist = token_for(&jwt, 9, Authority::Tourist);
    let user = token_for(&jwt, 9, Authority::User);
    let titled = Problem { title: Some("two sum".to_owned()), ..blank_problem() };
    assert!(matches!(
        insert_problem_decision(&jwt, None, titled.clone(), NOW),
        Err(Error::MissingCredential(_))
    ));
    assert!(matches!(
        insert_problem_decision(&jwt, Some(tourist), titled, NOW),
        Err(Error::InvalidOrExpiredCredential(_))
    ));
    assert!(matches!(
        insert_problem_decision(&jwt, Some(user), blank_problem(), NOW),
        Err(Error::ValidationFailed(_))
    ));
}

#[test]
fn update_problem_overlays_and_checks_ownership() {
    let jwt = codec();
    let owner = token_for(&jwt, 9, Authority::User);
    let stranger = token_for(&jwt, 8, Authority::User);
    let existing = Some(Problem {
        pid: Some(3),
        title: Some("old".to_owned()),
        uid: Some(9),
        time_limit: Some(1000),
        ..blank_problem()
    });
    let request = Problem { pid: Some(3), title: Some("new".to_owned()), ..blank_problem() };
    let row =
        update_problem_decision(&jwt, Some(owner), request.clone(), existing.clone(), NOW).unwrap();
    assert_eq!(row.pid, Some(3));
    assert_eq!(row.title.as_deref(), Some("new"));
    assert_eq!(row.uid, Some(9));
    assert_eq!(row.time_limit, Some(1000));
    assert!(matches!(
        update_problem_decision(&jwt, Some(stranger), request.clone(), existing, NOW),
        Err(Error::InvalidOrExpiredCredential(_))
    ));
}

#[test]
fn update_problem_reports_a_missing_row() {
    let jwt = codec();
    let token = token_for(&jwt, 9, Authority::User);
    let request = Problem { pid: Some(3), ..blank_problem() };
    assert!(matches!(
        update_problem_decision(&jwt, Some(token.clone()), request, None, NOW),
        Err(Error::NotFound(_))
    ));
    assert!(matches!(
        update_problem_decision(&jwt, Some(token), blank_problem(), None, NOW),
        Err(Error::ValidationFailed(_))
    ));
}

#[test]
fn delete_problem_takes_the_owner_or_an_admin() {
    let jwt = codec();
    let owner = token_for(&jwt, 9, Authority::Tourist);
    let stranger = token_for(&jwt, 8, Authority::User);
    let existing = Some(Problem { pid: Some(3), uid: Some(9), ..blank_problem() });
    assert_eq!(
        delete_problem_decision(&jwt, Some(owner), Some(3), existing.clone(), NOW).unwrap(),
        3
    );
    assert!(matches!(
        delete_problem_decision(&jwt, Some(stranger), Some(3), existing, NOW),
        Err(Error::InvalidOrExpiredCredential(_))
    ));
}

#[test]
fn insert_record_stamps_the_submission() {
    let jwt = codec();
    let token = token_for(&jwt, 9, Authority::User);
    let request = Record {
        uid: Some(9),
        pid: Some(3),
        language: Some(Language::Rust),
        code: Some("fn main() {}".to_owned()),
        ..blank_record()
    };
    let row = insert_record_decision(&jwt, Some(token), request, NOW).unwrap();
    assert_eq!(row.uid, Some(9));
    assert_eq!(row.pid, Some(3));
    assert_eq!(row.language, Some(Language::Rust));
    assert_eq!(row.submit_time, Some(NOW));
    assert_eq!(row.status, Some(Status::Waiting));
}

#[test]
fn insert_record_validates_its_inputs() {
    let jwt = codec();
    let tourist = token_for(&jwt, 9, Authority::Tourist);
    let user = token_for(&jwt, 9, Authority::User);
    assert!(matches!(
        insert_record_decision(&jwt, None, blank_record(), NOW),
        Err(Error::MissingCredential(_))
    ));
    assert!(matches!(
        insert_record_decision(&jwt, Some(tourist), blank_record(), NOW),
        Err(Error::InvalidOrExpiredCredential(_))
    ));
    assert!(matches!(
        insert_record_decision(&jwt, Some(user), blank_record(), NOW),
        Err(Error::ValidationFailed(_))
    ));
}

#[test]
fn update_record_takes_the_judger() {
    let jwt = codec();
    let judger = token_for(&jwt, 100, Authority::Judger);
    let submitter = token_for(&jwt, 9, Authority::User);
    let existing = Some(Record {
        rid: Some(11),
        uid: Some(9),
        pid: Some(3),
        status: Some(Status::Waiting),
        run_time: None,
        ..blank_record()
    });
    let request = Record { rid: Some(11), status: Some(Status::Ac), run_time: Some(42), ..blank_record() };
    let row = update_record_decision(&jwt, Some(judger), request.clone(), existing.clone(), NOW)
        .unwrap();
    assert_eq!(row.rid, Some(11));
    assert_eq!(row.uid, Some(9));
    assert_eq!(row.status, Some(Status::Ac));
    assert_eq!(row.run_time, Some(42));
    assert!(matches!(
        update_record_decision(&jwt, Some(submitter), request.clone(), existing, NOW),
        Err(Error::InvalidOrExpiredCredential(_))
    ));
    assert!(matches!(
        update_record_decision(&jwt, Some("junk".to_owned()), request, None, NOW),
        Err(Error::NotFound(_))
    ));
}

#[test]
fn shared_steps_produce_their_kinds() {
    assert_eq!(require_field(Some(5), "missing uid").unwrap(), 5);
    match require_field::<i32>(None, "missing uid") {
        Err(Error::ValidationFailed(d)) => assert_eq!(d, "missing uid"),
        other => panic!("expected a validation failure, got {:?}", other),
    }
    assert_eq!(require_found(Some("row"), "user not found").unwrap(), "row");
    match require_found::<String>(None, "user not found") {
        Err(Error::NotFound(d)) => assert_eq!(d, "user not found"),
        other => panic!("expected not-found, got {:?}", other),
    }
}
