use stat_api_rs::common::errors::{ApiError, BacktraceState, ErrorDetail, LocoError, ModelError};

fn answer(e: ApiError) -> (u16, Option<String>, Option<String>, Option<String>) {
    let (code, detail) = e.into_response();
    (code, detail.error, detail.description, detail.errors)
}

fn s(x: &str) -> Option<String> {
    Some(x.to_string())
}

#[test]
fn client_errors_are_answered_with_their_status() {
    assert_eq!(
        answer(ApiError::NotFound("JTI".to_string())),
        (404, s("not_found"), s("JTI was not found"), None)
    );
    assert_eq!(
        answer(ApiError::Unauthorized("Invalid credentials!".to_string())),
        (401, s("unauthorized"), s("You do not have permission to access this resource"), None)
    );
    assert_eq!(
        answer(ApiError::BadRequest("bad".to_string())),
        (400, s("Bad Request"), s("bad"), None)
    );
    assert_eq!(answer(ApiError::Forbidden), (403, s("Forbidden"), s("Access is forbidden"), None));
    assert_eq!(
        answer(ApiError::UnprocessableEntity("Invalid payload value type".to_string())),
        (422, s("Unprocessable entity"), s("Invalid payload value type"), None)
    );
    assert_eq!(
        answer(ApiError::JsonRejection { status: 415, body: "x".to_string() }),
        (415, s("Bad Request"), None, None)
    );
    assert_eq!(answer(ApiError::Validation("{}".to_string())), (400, None, None, s("{}")));
    assert_eq!(
        answer(ApiError::CustomError(418, ErrorDetail::new("tea", "pot"))),
        (418, s("tea"), s("pot"), None)
    );
}

#[test]
fn model_not_found_is_404_and_other_model_errors_are_500() {
    assert_eq!(
        answer(ApiError::Model(ModelError::EntityNotFound)),
        (404, s("not_found"), s("Resource was not found"), None)
    );
    assert_eq!(
        answer(ApiError::Model(ModelError::EntityAlreadyExists)),
        (500, s("internal_server_error"), s("Internal Server Error"), None)
    );
}

#[test]
fn server_errors_hide_their_details() {
    for e in [
        ApiError::InternalServerError,
        ApiError::DB("connection lost".to_string()),
        ApiError::Message("m".to_string()),
        ApiError::Any("a".to_string()),
    ] {
        assert_eq!(answer(e), (500, s("internal_server_error"), s("Internal Server Error"), None));
    }
}

#[test]
fn framework_not_found_becomes_resource_not_found() {
    let e = ApiError::from_loco(LocoError::NotFound);
    assert!(matches!(&e, ApiError::NotFound(m) if m == "Resource"));
    assert_eq!(answer(e), (404, s("not_found"), s("Resource was not found"), None));
}

#[test]
fn framework_errors_keep_kind_or_become_internal() {
    assert!(matches!(ApiError::from_loco(LocoError::Tera("t".to_string())), ApiError::InternalServerError));
    assert!(matches!(ApiError::from_loco(LocoError::Sqlx("q".to_string())), ApiError::InternalServerError));
    assert!(matches!(
        ApiError::from_loco(LocoError::Unauthorized("u".to_string())),
        ApiError::Unauthorized(m) if m == "u"
    ));
    assert!(matches!(
        ApiError::from_loco(LocoError::Model(ModelError::EntityNotFound)),
        ApiError::Model(ModelError::EntityNotFound)
    ));
    let wrapped = LocoError::WithBacktrace {
        inner: Box::new(LocoError::NotFound),
        backtrace: Box::new(std::backtrace::Backtrace::disabled()),
    };
    match ApiError::from_loco(wrapped) {
        ApiError::WithBacktrace { inner, .. } => {
            assert!(matches!(*inner, ApiError::NotFound(ref m) if m == "Resource"))
        }
        _ => panic!("backtrace lost"),
    }
}

#[test]
fn wrapped_errors_are_answered_as_internal() {
    let e = ApiError::NotFound("x".to_string())
        .with_backtrace(std::backtrace::Backtrace::disabled(), BacktraceState::Captured);
    assert_eq!(answer(e), (500, s("internal_server_error"), s("Internal Server Error"), None));
    let e = ApiError::Forbidden.with_backtrace(std::backtrace::Backtrace::disabled(), BacktraceState::Other);
    assert!(matches!(e, ApiError::WithBacktrace { .. }));
    let e = ApiError::Forbidden.with_backtrace(std::backtrace::Backtrace::disabled(), BacktraceState::Disabled);
    assert!(matches!(e, ApiError::Forbidden));
    let e = ApiError::Forbidden.with_backtrace(std::backtrace::Backtrace::disabled(), BacktraceState::Unsupported);
    assert!(matches!(e, ApiError::Forbidden));
}

#[test]
fn message_builders() {
    assert!(matches!(ApiError::string("s"), ApiError::Message(m) if m == "s"));
    assert!(matches!(ApiError::msg("m"), ApiError::Message(m) if m == "m"));
    assert!(matches!(ApiError::wrap("w"), ApiError::Any(m) if m == "w"));
    assert!(matches!(LocoError::string("l"), LocoError::Message(m) if m == "l"));
    let e = ApiError::Forbidden.bt();
    match e {
        ApiError::Forbidden => {}
        ApiError::WithBacktrace { inner, .. } => assert!(matches!(*inner, ApiError::Forbidden)),
        _ => panic!("bt changed the error"),
    }
    let d = ErrorDetail::with_reason("r");
    assert_eq!((d.error, d.description, d.errors), (s("r"), None, None));
}
