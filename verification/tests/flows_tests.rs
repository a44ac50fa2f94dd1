use stat_api_rs::common::errors::ApiError;
use stat_api_rs::controllers::auth::{login_next, missing_user_agent, refresh_next, revoke_next, LoginStep, Outcome, RefreshStep, RevokeStep};

fn run_login(outcomes: Vec<Outcome>, long: bool) -> LoginStep {
    let mut step = LoginStep::FindUser;
    for o in outcomes {
        step = login_next(step, o, long);
    }
    step
}

fn unauthorized(step: &LoginStep) -> bool {
    matches!(step, LoginStep::Fail(ApiError::Unauthorized(m)) if m == "Invalid credentials!")
}

#[test]
fn short_login() {
    let s = run_login(
        vec![Outcome::Found(true), Outcome::Passed(true), Outcome::Completed(None), Outcome::Passed(true)],
        false,
    );
    assert!(matches!(s, LoginStep::Respond { with_cookie: false }));
}

#[test]
fn long_login_sets_cookie() {
    let s = run_login(
        vec![
            Outcome::Found(true),
            Outcome::Passed(true),
            Outcome::Completed(None),
            Outcome::Passed(true),
            Outcome::Completed(None),
            Outcome::Passed(true),
            Outcome::Completed(None),
        ],
        true,
    );
    assert!(matches!(s, LoginStep::Respond { with_cookie: true }));
}

#[test]
fn refused_logins() {
    assert!(unauthorized(&run_login(vec![Outcome::Found(false)], false)));
    assert!(unauthorized(&run_login(vec![Outcome::Found(true), Outcome::Passed(false)], true)));
    assert!(unauthorized(&run_login(
        vec![Outcome::Found(true), Outcome::Passed(true), Outcome::Completed(None), Outcome::Passed(false)],
        true
    )));
    let no_agent = run_login(
        vec![
            Outcome::Found(true),
            Outcome::Passed(true),
            Outcome::Completed(None),
            Outcome::Passed(true),
            Outcome::Completed(None),
            Outcome::Passed(false),
        ],
        true,
    );
    match no_agent {
        LoginStep::Fail(ApiError::BadRequest(m)) => assert_eq!(m, "Missing User-Agent header"),
        _ => panic!("a login without a User-Agent is a bad request"),
    }
    let (status, body) = missing_user_agent().into_response();
    assert_eq!(status, 400);
    assert_eq!(body.description.as_deref(), Some("Missing User-Agent header"));
    let config = run_login(
        vec![Outcome::Found(true), Outcome::Passed(true), Outcome::Completed(Some(ApiError::Forbidden))],
        false,
    );
    assert!(matches!(config, LoginStep::Fail(ApiError::Forbidden)));
    assert!(matches!(login_next(LoginStep::FindUser, Outcome::Passed(true), false), LoginStep::Fail(ApiError::InternalServerError)));
}

#[test]
fn refresh_flow() {
    let mut step = RefreshStep::ReadJti;
    for o in [
        Outcome::Completed(None),
        Outcome::Found(true),
        Outcome::Found(true),
        Outcome::Passed(true),
        Outcome::Completed(None),
        Outcome::Completed(None),
        Outcome::Passed(true),
        Outcome::Completed(None),
        Outcome::Completed(None),
    ] {
        step = refresh_next(step, o);
    }
    assert!(matches!(step, RefreshStep::Respond));
    let s = refresh_next(RefreshStep::FindToken, Outcome::Found(true));
    assert!(matches!(s, RefreshStep::CheckRevoked));
    let s = refresh_next(RefreshStep::CheckRevoked, Outcome::Passed(false));
    assert!(matches!(s, RefreshStep::Fail(ApiError::Unauthorized(m)) if m == "Invalid refresh token!"));
    let s = refresh_next(RefreshStep::FindToken, Outcome::Found(false));
    assert!(matches!(s, RefreshStep::Fail(ApiError::Unauthorized(m)) if m == "Invalid refresh token!"));
    let s = refresh_next(RefreshStep::FindUser, Outcome::Found(false));
    assert!(matches!(s, RefreshStep::Fail(ApiError::Unauthorized(m)) if m == "Invalid credentials!"));
    let s = refresh_next(RefreshStep::ReadJti, Outcome::Completed(Some(ApiError::BadRequest("b".to_string()))));
    assert!(matches!(s, RefreshStep::Fail(ApiError::BadRequest(_))));
}

#[test]
fn revoke_flow() {
    let own = revoke_next(revoke_next(RevokeStep::FindUser, Outcome::Found(true)), Outcome::Token(Some(true)));
    assert!(matches!(own, RevokeStep::RevokeToken));
    assert!(matches!(revoke_next(own, Outcome::Completed(None)), RevokeStep::Respond));
    let other = revoke_next(RevokeStep::FindToken, Outcome::Token(Some(false)));
    assert!(matches!(other, RevokeStep::CheckPermission));
    assert!(matches!(revoke_next(RevokeStep::CheckPermission, Outcome::Passed(false)), RevokeStep::Fail(ApiError::Forbidden)));
    assert!(matches!(revoke_next(RevokeStep::CheckPermission, Outcome::Passed(true)), RevokeStep::RevokeToken));
    assert!(matches!(
        revoke_next(RevokeStep::FindToken, Outcome::Token(None)),
        RevokeStep::Fail(ApiError::NotFound(m)) if m == "JTI"
    ));
    assert!(matches!(
        revoke_next(RevokeStep::FindUser, Outcome::Found(false)),
        RevokeStep::Fail(ApiError::Unauthorized(m)) if m == "Invalid credentials!"
    ));
}
