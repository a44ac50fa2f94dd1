//! Errors of the service and the public answer that each of them gets.
use std::backtrace::Backtrace;
use vstd::prelude::*;
use vstd::string::*;

verus! {

#[verifier::external_type_specification]
#[verifier::external_body]
pub struct ExBacktrace(Backtrace);

/// The body of an error answer.
pub struct ErrorDetail {
    pub error: Option<String>,
    pub description: Option<String>,
    /// Field errors, as JSON text.
    pub errors: Option<String>,
}

/// An error answer body, with its texts taken by their characters.
pub struct ErrorDetailView {
    pub error: Option<Seq<char>>,
    pub description: Option<Seq<char>>,
    pub errors: Option<Seq<char>>,
}

pub open spec fn opt_text(o: Option<String>) -> Option<Seq<char>> {
    match o {
        Some(s) => Some(s@),
        None => None,
    }
}

impl View for ErrorDetail {
    type V = ErrorDetailView;

    open spec fn view(&self) -> ErrorDetailView {
        ErrorDetailView {
            error: opt_text(self.error),
            description: opt_text(self.description),
            errors: opt_text(self.errors),
        }
    }
}

/// The body with an error code and a description.
pub open spec fn detail_of(error: Seq<char>, description: Seq<char>) -> ErrorDetailView {
    ErrorDetailView { error: Some(error), description: Some(description), errors: None }
}

impl ErrorDetail {
    /// A body with an error code and a description.
    pub fn new(error: &str, description: &str) -> (r: ErrorDetail)
        ensures
            r@ == detail_of(error@, description@),
    {
        ErrorDetail {
            error: Some(error.to_owned()),
            description: Some(description.to_owned()),
            errors: None,
        }
    }

    /// A body with an error code only.
    pub fn with_reason(reason: &str) -> (r: ErrorDetail)
        ensures
            r@ == (ErrorDetailView { error: Some(reason@), description: None, errors: None }),
    {
        ErrorDetail { error: Some(reason.to_owned()), description: None, errors: None }
    }
}

/// Errors of the model layer.
pub enum ModelError {
    EntityAlreadyExists,
    EntityNotFound,
    /// Field validation failed; the field errors as JSON text.
    ModelValidation(String),
    Jwt(String),
    DbErr(String),
    Any(String),
    Message(String),
}

/// Errors of the web framework, with outside payloads held as their texts.
pub enum LocoError {
    WithBacktrace { inner: Box<LocoError>, backtrace: Box<Backtrace> },
    Message(String),
    QueueProviderMissing,
    TaskNotFound(String),
    Scheduler(String),
    Axum(String),
    Tera(String),
    JSON(String),
    JsonRejection { status: u16, body: String },
    YAMLFile(String, String),
    YAML(String),
    EnvVar(String),
    EmailSender(String),
    Smtp(String),
    Worker(String),
    IO(String),
    DB(String),
    ParseAddress(String),
    Hash(String),
    Unauthorized(String),
    NotFound,
    BadRequest(String),
    CustomError(u16, ErrorDetail),
    InternalServerError,
    InvalidHeaderValue(String),
    InvalidHeaderName(String),
    InvalidMethod(String),
    TaskJoinError(String),
    Model(ModelError),
    Redis(String),
    Sqlx(String),
    Storage(String),
    Cache(String),
    Generators(String),
    VersionCheck(String),
    SemVer(String),
    Any(String),
    /// Field validation failed; the field errors as JSON text.
    Validation(String),
    AxumFormRejection(String),
}

impl LocoError {
    /// A framework error that carries a message.
    pub fn string(s: &str) -> (r: LocoError)
        ensures
            r matches LocoError::Message(m) && m@ == s@,
    {
        LocoError::Message(s.to_owned())
    }
}

/// Errors of the service's API.
pub enum ApiError {
    WithBacktrace { inner: Box<ApiError>, backtrace: Box<Backtrace> },
    Message(String),
    QueueProviderMissing,
    TaskNotFound(String),
    Scheduler(String),
    Axum(String),
    JSON(String),
    JsonRejection { status: u16, body: String },
    YAMLFile(String, String),
    YAML(String),
    EnvVar(String),
    Worker(String),
    IO(String),
    DB(String),
    Hash(String),
    Unauthorized(String),
    NotFound(String),
    BadRequest(String),
    Forbidden,
    UnprocessableEntity(String),
    CustomError(u16, ErrorDetail),
    InternalServerError,
    InvalidHeaderValue(String),
    InvalidHeaderName(String),
    InvalidMethod(String),
    TaskJoinError(String),
    Model(ModelError),
    Storage(String),
    Cache(String),
    Any(String),
    /// Field validation failed; the field errors as JSON text.
    Validation(String),
    AxumFormRejection(String),
}

/// The status code with which an error is answered.
pub open spec fn spec_status(e: ApiError) -> u16 {
    match e {
        ApiError::NotFound(_) => 404,
        ApiError::Unauthorized(_) => 401,
        ApiError::CustomError(code, _) => code,
        ApiError::BadRequest(_) => 400,
        ApiError::Forbidden => 403,
        ApiError::UnprocessableEntity(_) => 422,
        ApiError::JsonRejection { status, .. } => status,
        ApiError::Validation(_) => 400,
        ApiError::Model(ModelError::EntityNotFound) => 404,
        _ => 500,
    }
}

/// The body with which an error is answered.
pub open spec fn spec_detail(e: ApiError) -> ErrorDetailView {
    match e {
        ApiError::NotFound(res) => detail_of("not_found"@, res@ + " was not found"@),
        ApiError::Unauthorized(_) => detail_of(
            "unauthorized"@,
            "You do not have permission to access this resource"@,
        ),
        ApiError::CustomError(_, d) => d@,
        ApiError::BadRequest(err) => detail_of("Bad Request"@, err@),
        ApiError::Forbidden => detail_of("Forbidden"@, "Access is forbidden"@),
        ApiError::UnprocessableEntity(err) => detail_of("Unprocessable entity"@, err@),
        ApiError::JsonRejection { .. } => ErrorDetailView {
            error: Some("Bad Request"@),
            description: None,
            errors: None,
        },
        ApiError::Validation(errs) => ErrorDetailView {
            error: None,
            description: None,
            errors: Some(errs@),
        },
        ApiError::Model(ModelError::EntityNotFound) => detail_of(
            "not_found"@,
            "Resource was not found"@,
        ),
        _ => detail_of("internal_server_error"@, "Internal Server Error"@),
    }
}

/// Whether `r` is the API error that the framework error `e` becomes: the
/// framework's own failures of mail, templates, address parsing, Redis, SQL
/// drivers, generators and version checks become an internal server error, a
/// missing entity becomes "Resource" not found, and every other error keeps its
/// kind and payload.
pub open spec fn loco_to_api(e: LocoError, r: ApiError) -> bool
    decreases e,
{
    match e {
        LocoError::WithBacktrace { inner, backtrace } => r matches ApiError::WithBacktrace {
            inner: ri,
            backtrace: rb,
        } && rb == backtrace && loco_to_api(*inner, *ri),
        LocoError::Message(m) => r == ApiError::Message(m),
        LocoError::QueueProviderMissing => r == ApiError::QueueProviderMissing,
        LocoError::TaskNotFound(m) => r == ApiError::TaskNotFound(m),
        LocoError::Scheduler(m) => r == ApiError::Scheduler(m),
        LocoError::Axum(m) => r == ApiError::Axum(m),
        LocoError::Tera(_) => r == ApiError::InternalServerError,
        LocoError::JSON(m) => r == ApiError::JSON(m),
        LocoError::JsonRejection { status, body } => r == (ApiError::JsonRejection { status, body }),
        LocoError::YAMLFile(e, m) => r == ApiError::YAMLFile(e, m),
        LocoError::YAML(m) => r == ApiError::YAML(m),
        LocoError::EnvVar(m) => r == ApiError::EnvVar(m),
        LocoError::EmailSender(_) => r == ApiError::InternalServerError,
        LocoError::Smtp(_) => r == ApiError::InternalServerError,
        LocoError::Worker(m) => r == ApiError::Worker(m),
        LocoError::IO(m) => r == ApiError::IO(m),
        LocoError::DB(m) => r == ApiError::DB(m),
        LocoError::ParseAddress(_) => r == ApiError::InternalServerError,
        LocoError::Hash(m) => r == ApiError::Hash(m),
        LocoError::Unauthorized(m) => r == ApiError::Unauthorized(m),
        LocoError::NotFound => r matches ApiError::NotFound(m) && m@ == "Resource"@,
        LocoError::BadRequest(m) => r == ApiError::BadRequest(m),
        LocoError::CustomError(c, d) => r == ApiError::CustomError(c, d),
        LocoError::InternalServerError => r == ApiError::InternalServerError,
        LocoError::InvalidHeaderValue(m) => r == ApiError::InvalidHeaderValue(m),
        LocoError::InvalidHeaderName(m) => r == ApiError::InvalidHeaderName(m),
        LocoError::InvalidMethod(m) => r == ApiError::InvalidMethod(m),
        LocoError::TaskJoinError(m) => r == ApiError::TaskJoinError(m),
        LocoError::Model(m) => r == ApiError::Model(m),
        LocoError::Redis(_) => r == ApiError::InternalServerError,
        LocoError::Sqlx(_) => r == ApiError::InternalServerError,
        LocoError::Storage(m) => r == ApiError::Storage(m),
        LocoError::Cache(m) => r == ApiError::Cache(m),
        LocoError::Generators(_) => r == ApiError::InternalServerError,
        LocoError::VersionCheck(_) => r == ApiError::InternalServerError,
        LocoError::SemVer(_) => r == ApiError::InternalServerError,
        LocoError::Any(m) => r == ApiError::Any(m),
        LocoError::Validation(m) => r == ApiError::Validation(m),
        LocoError::AxumFormRejection(m) => r == ApiError::AxumFormRejection(m),
    }
}

impl ApiError {
    /// The API error that a framework error becomes.
    pub fn from_loco(value: LocoError) -> (r: ApiError)
        ensures
            loco_to_api(value, r),
        decreases value,
    {
        match value {
            LocoError::WithBacktrace { inner, backtrace } => ApiError::WithBacktrace {
                backtrace,
                inner: Box::new(ApiError::from_loco(*inner)),
            },
            LocoError::Message(m) => ApiError::Message(m),
            LocoError::QueueProviderMissing => ApiError::QueueProviderMissing,
            LocoError::TaskNotFound(m) => ApiError::TaskNotFound(m),
            LocoError::Scheduler(m) => ApiError::Scheduler(m),
            LocoError::Axum(m) => ApiError::Axum(m),
            LocoError::Tera(_) => ApiError::InternalServerError,
            LocoError::JSON(m) => ApiError::JSON(m),
            LocoError::JsonRejection { status, body } => ApiError::JsonRejection { status, body },
            LocoError::YAMLFile(e, m) => ApiError::YAMLFile(e, m),
            LocoError::YAML(m) => ApiError::YAML(m),
            LocoError::EnvVar(m) => ApiError::EnvVar(m),
            LocoError::EmailSender(_) => ApiError::InternalServerError,
            LocoError::Smtp(_) => ApiError::InternalServerError,
            LocoError::Worker(m) => ApiError::Worker(m),
            LocoError::IO(m) => ApiError::IO(m),
            LocoError::DB(m) => ApiError::DB(m),
            LocoError::ParseAddress(_) => ApiError::InternalServerError,
            LocoError::Hash(m) => ApiError::Hash(m),
            LocoError::Unauthorized(m) => ApiError::Unauthorized(m),
            LocoError::NotFound => ApiError::NotFound("Resource".to_owned()),
            LocoError::BadRequest(m) => ApiError::BadRequest(m),
            LocoError::CustomError(c, d) => ApiError::CustomError(c, d),
            LocoError::InternalServerError => ApiError::InternalServerError,
            LocoError::InvalidHeaderValue(m) => ApiError::InvalidHeaderValue(m),
            LocoError::InvalidHeaderName(m) => ApiError::InvalidHeaderName(m),
            LocoError::InvalidMethod(m) => ApiError::InvalidMethod(m),
            LocoError::TaskJoinError(m) => ApiError::TaskJoinError(m),
            LocoError::Model(m) => ApiError::Model(m),
            LocoError::Redis(_) => ApiError::InternalServerError,
            LocoError::Sqlx(_) => ApiError::InternalServerError,
            LocoError::Storage(m) => ApiError::Storage(m),
            LocoError::Cache(m) => ApiError::Cache(m),
            LocoError::Generators(_) => ApiError::InternalServerError,
            LocoError::VersionCheck(_) => ApiError::InternalServerError,
            LocoError::SemVer(_) => ApiError::InternalServerError,
            LocoError::Any(m) => ApiError::Any(m),
            LocoError::Validation(m) => ApiError::Validation(m),
            LocoError::AxumFormRejection(m) => ApiError::AxumFormRejection(m),
        }
    }

    /// An error that wraps another one, given by its text.
    pub fn wrap(err: &str) -> (r: ApiError)
        ensures
            r matches ApiError::Any(m) && m@ == err@,
    {
        ApiError::Any(err.to_owned())
    }

    /// An error that carries the text of another one.
    pub fn msg(err: &str) -> (r: ApiError)
        ensures
            r matches ApiError::Message(m) && m@ == err@,
    {
        ApiError::Message(err.to_owned())
    }

    /// An error that carries a message.
    pub fn string(s: &str) -> (r: ApiError)
        ensures
            r matches ApiError::Message(m) && m@ == s@,
    {
        ApiError::Message(s.to_owned())
    }

    /// Attaches a backtrace to the error, given the backtrace's status: a
    /// disabled or unsupported backtrace leaves the error as it is; any other
    /// is attached.
    pub fn with_backtrace(self, backtrace: Backtrace, status: BacktraceState) -> (r: ApiError)
        ensures
            status is Disabled || status is Unsupported ==> r == self,
            !(status is Disabled || status is Unsupported) ==> r == (ApiError::WithBacktrace {
                inner: Box::new(self),
                backtrace: Box::new(backtrace),
            }),
    {
        match status {
            BacktraceState::Disabled => self,
            BacktraceState::Unsupported => self,
            _ => ApiError::WithBacktrace { inner: Box::new(self), backtrace: Box::new(backtrace) },
        }
    }

    /// Attaches a backtrace of the current call stack to the error, unless the
    /// environment leaves backtraces disabled or unsupported.
    pub fn bt(self) -> (r: ApiError)
        ensures
            r == self || (r matches ApiError::WithBacktrace { inner, backtrace } && *inner == self
                && !(backtrace_state(*backtrace) is Disabled) && !(backtrace_state(
                *backtrace,
            ) is Unsupported)),
    {
        let backtrace = capture_backtrace();
        let status = backtrace_status(&backtrace);
        self.with_backtrace(backtrace, status)
    }

    /// The status code and body with which the error is answered.
    pub fn into_response(self) -> (r: (u16, ErrorDetail))
        ensures
            r.0 == spec_status(self),
            r.1@ == spec_detail(self),
    {
        match self {
            ApiError::NotFound(res) => {
                let description = res.concat(" was not found");
                (404, ErrorDetail::new("not_found", description.as_str()))
            },
            ApiError::Unauthorized(_) => (
                401,
                ErrorDetail::new("unauthorized", "You do not have permission to access this resource"),
            ),
            ApiError::CustomError(code, detail) => (code, detail),
            ApiError::BadRequest(err) => (400, ErrorDetail::new("Bad Request", err.as_str())),
            ApiError::Forbidden => (403, ErrorDetail::new("Forbidden", "Access is forbidden")),
            ApiError::UnprocessableEntity(err) => (
                422,
                ErrorDetail::new("Unprocessable entity", err.as_str()),
            ),
            ApiError::JsonRejection { status, .. } => (status, ErrorDetail::with_reason("Bad Request")),
            ApiError::Validation(errors) => (
                400,
                ErrorDetail { error: None, description: None, errors: Some(errors) },
            ),
            ApiError::Model(ModelError::EntityNotFound) => (
                404,
                ErrorDetail::new("not_found", "Resource was not found"),
            ),
            _ => (500, ErrorDetail::new("internal_server_error", "Internal Server Error")),
        }
    }
}

/// A missing resource is answered alike whether the framework or the model
/// reports it: status 404, error "not_found", "Resource was not found".
pub proof fn lemma_not_found_answers_alike(r: ApiError)
    requires
        loco_to_api(LocoError::NotFound, r),
    ensures
        spec_status(r) == 404,
        spec_status(ApiError::Model(ModelError::EntityNotFound)) == 404,
        spec_detail(r) == spec_detail(ApiError::Model(ModelError::EntityNotFound)),
{
    reveal_strlit("Resource");
    reveal_strlit(" was not found");
    reveal_strlit("Resource was not found");
    let m = match r {
        ApiError::NotFound(m) => m,
        _ => arbitrary(),
    };
    assert(m@ + " was not found"@ =~= "Resource was not found"@);
}

/// Failures of the framework's own machinery (mail, templates, address
/// parsing, Redis, SQL drivers, generators, version checks) never show their
/// details: they are answered with status 500 and the generic body.
pub proof fn lemma_framework_failures_are_internal(e: LocoError, r: ApiError)
    requires
        loco_to_api(e, r),
        e is Tera || e is EmailSender || e is Smtp || e is ParseAddress || e is Redis || e is Sqlx
            || e is Generators || e is VersionCheck || e is SemVer,
    ensures
        spec_status(r) == 500,
        spec_detail(r) == detail_of("internal_server_error"@, "Internal Server Error"@),
{
}

/// Every error is answered with a client or server error status, except a
/// custom error or a JSON rejection, which carry their own status.
pub proof fn lemma_status_is_error(e: ApiError)
    requires
        !(e is CustomError),
        !(e is JsonRejection),
    ensures
        400 <= spec_status(e) <= 500,
{
}

/// The status codes of the answers: a missing resource 404, an unauthorized
/// request 401, a bad request 400, a forbidden one 403, an unprocessable
/// entity 422, failed field checks 400, a missing model entity 404; a custom
/// error and a JSON rejection carry their own status; everything else 500.
pub proof fn lemma_status_codes(e: ApiError)
    ensures
        e is NotFound ==> spec_status(e) == 404,
        e is Unauthorized ==> spec_status(e) == 401,
        e is BadRequest ==> spec_status(e) == 400,
        e is Forbidden ==> spec_status(e) == 403,
        e is UnprocessableEntity ==> spec_status(e) == 422,
        e is Validation ==> spec_status(e) == 400,
        e matches ApiError::CustomError(code, _) ==> spec_status(e) == code,
        e matches ApiError::JsonRejection { status, .. } ==> spec_status(e) == status,
        e == ApiError::Model(ModelError::EntityNotFound) ==> spec_status(e) == 404,
        !(e is NotFound || e is Unauthorized || e is BadRequest || e is Forbidden
            || e is UnprocessableEntity || e is Validation || e is CustomError || e is JsonRejection
            || e == ApiError::Model(ModelError::EntityNotFound)) ==> spec_status(e) == 500,
{
}

/// The bodies of the client-error answers name the kind of error and, where
/// the error carries one, its message; every error answered 500 other than a
/// custom one or a JSON rejection gets the generic internal error body and
/// shows nothing of its payload.
pub proof fn lemma_answer_bodies(e: ApiError)
    ensures
        e matches ApiError::NotFound(res) ==> spec_detail(e) == detail_of(
            "not_found"@,
            res@ + " was not found"@,
        ),
        e matches ApiError::BadRequest(m) ==> spec_detail(e) == detail_of("Bad Request"@, m@),
        e matches ApiError::UnprocessableEntity(m) ==> spec_detail(e) == detail_of(
            "Unprocessable entity"@,
            m@,
        ),
        e is Forbidden ==> spec_detail(e) == detail_of("Forbidden"@, "Access is forbidden"@),
        e is Unauthorized ==> spec_detail(e) == detail_of(
            "unauthorized"@,
            "You do not have permission to access this resource"@,
        ),
        spec_status(e) == 500 && !(e is CustomError) && !(e is JsonRejection) ==> spec_detail(e)
            == detail_of("internal_server_error"@, "Internal Server Error"@),
{
}

/// A bad request, an unauthorized request and failed field checks reported
/// by the framework are answered as such, with the framework's message: 400
/// "Bad Request" with the message, 401, and 400 with the field errors.
pub proof fn lemma_client_errors_keep_their_answer(m: String, r: ApiError)
    ensures
        loco_to_api(LocoError::BadRequest(m), r) ==> r == ApiError::BadRequest(m) && spec_status(r)
            == 400 && spec_detail(r) == detail_of("Bad Request"@, m@),
        loco_to_api(LocoError::Unauthorized(m), r) ==> r == ApiError::Unauthorized(m)
            && spec_status(r) == 401,
        loco_to_api(LocoError::Validation(m), r) ==> r == ApiError::Validation(m) && spec_status(r)
            == 400 && spec_detail(r).errors == Some(m@),
{
}

/// Only the framework's own machinery failures (templates, mail, SMTP,
/// address parsing, Redis, SQL drivers, generators, version checks) and an
/// internal server error itself become an internal server error; every other
/// framework error keeps its own kind.
pub proof fn lemma_only_machinery_becomes_internal(e: LocoError, r: ApiError)
    requires
        loco_to_api(e, r),
        r == ApiError::InternalServerError,
    ensures
        e is Tera || e is EmailSender || e is Smtp || e is ParseAddress || e is Redis || e is Sqlx
            || e is Generators || e is VersionCheck || e is SemVer || e is InternalServerError,
{
}

/// A framework error answered with a client error status (below 500) is
/// answered with the status of the same kind of framework error: a bad
/// request 400, unauthorized 401, not found 404, field errors 400, a custom
/// error or JSON rejection its own status.
pub proof fn lemma_framework_client_statuses(e: LocoError, r: ApiError)
    requires
        loco_to_api(e, r),
    ensures
        e is BadRequest ==> spec_status(r) == 400,
        e is Unauthorized ==> spec_status(r) == 401,
        e is NotFound ==> spec_status(r) == 404,
        e is Validation ==> spec_status(r) == 400,
        e matches LocoError::CustomError(code, d) ==> spec_status(r) == code && spec_detail(r) == d@,
        e matches LocoError::JsonRejection { status, .. } ==> spec_status(r) == status,
        e == LocoError::Model(ModelError::EntityNotFound) ==> spec_status(r) == 404,
{
}

/// Captures a backtrace of the current call stack through
/// `std::backtrace::Backtrace::capture`. Nothing is stated of it: whether a
/// backtrace is recorded depends on the environment.
#[verifier::external_body]
fn capture_backtrace() -> Backtrace {
    Backtrace::capture()
}

/// The status of a backtrace, as `std::backtrace::BacktraceStatus` reports it.
pub enum BacktraceState {
    Unsupported,
    Disabled,
    Captured,
    /// A status that this library does not know.
    Other,
}

/// What `std::backtrace::Backtrace::status` reports of a backtrace.
pub uninterp spec fn backtrace_state(backtrace: Backtrace) -> BacktraceState;

/// The status of a backtrace through `std::backtrace::Backtrace::status`,
/// one variant for each of std's. Claimed: the answer is what
/// `backtrace_state` names for the backtrace; which status a captured
/// backtrace has depends on the environment it was taken in.
#[verifier::external_body]
fn backtrace_status(backtrace: &Backtrace) -> (r: BacktraceState)
    ensures
        r == backtrace_state(*backtrace),
{
    match backtrace.status() {
        std::backtrace::BacktraceStatus::Unsupported => BacktraceState::Unsupported,
        std::backtrace::BacktraceStatus::Disabled => BacktraceState::Disabled,
        std::backtrace::BacktraceStatus::Captured => BacktraceState::Captured,
        _ => BacktraceState::Other,
    }
}

} // verus!
