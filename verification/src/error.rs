//! Every failure the server reports, and the problem document each becomes.

use vstd::prelude::*;
use vstd::std_specs::convert::FromSpecImpl;

verus! {

/// RFC 9457 problem details.
///
/// Clients switch on `code`, never on `detail`: `code` is a stable identifier, `detail` is prose
/// and may change between engine releases.
#[derive(Debug)]
pub struct Problem {
    /// Stable URN identifying the error class.
    pub problem_type: String,
    /// Short, human-readable summary of the error class.
    pub title: String,
    /// HTTP status code, repeated here as RFC 9457 specifies.
    pub status: u16,
    /// Stable machine-readable code. Switch on this.
    pub code: String,
    /// Prose explanation for this occurrence. Not stable; do not parse.
    pub detail: Option<String>,
}

/// Every failure this server reports. `Internal` is the catch-all that keeps a future engine
/// error from leaking as a debug string.
#[derive(Debug)]
pub enum ApiError {
    InvalidPath(String),
    InvalidGlob(String),
    /// A request body that cannot be read, or that asks for something contradictory.
    InvalidBody(String),
    Forbidden(String),
    NotFound(String),
    Conflict(String),
    NotReady(String),
    Internal(String),
}

pub type ApiResult<T> = Result<T, ApiError>;

/// An engine failure: which it is, with the engine's own description.
#[derive(Debug)]
pub enum EngineError {
    InvalidPath(String),
    FilesystemRoot(String),
    InvalidGlobPattern(String),
    FilePickerMissing(String),
    WatcherNotReady(String),
    WatcherDisabled(String),
    DbInUse(String),
    EnvSpecMismatch(String),
    /// Any other failure, those of later engine releases among them.
    Other(String),
}

impl ApiError {
    /// The prose of this occurrence.
    pub open spec fn message(self) -> Seq<char> {
        match self {
            ApiError::InvalidPath(s) => s@,
            ApiError::InvalidGlob(s) => s@,
            ApiError::InvalidBody(s) => s@,
            ApiError::Forbidden(s) => s@,
            ApiError::NotFound(s) => s@,
            ApiError::Conflict(s) => s@,
            ApiError::NotReady(s) => s@,
            ApiError::Internal(s) => s@,
        }
    }

    /// The HTTP status of the error class.
    pub open spec fn status_code(self) -> u16 {
        match self {
            ApiError::InvalidPath(_) => 400,
            ApiError::InvalidGlob(_) => 400,
            ApiError::InvalidBody(_) => 400,
            ApiError::Forbidden(_) => 403,
            ApiError::NotFound(_) => 404,
            ApiError::Conflict(_) => 409,
            ApiError::NotReady(_) => 503,
            ApiError::Internal(_) => 500,
        }
    }

    /// The stable code of the error class.
    pub open spec fn code(self) -> Seq<char> {
        match self {
            ApiError::InvalidPath(_) => "invalid-path"@,
            ApiError::InvalidGlob(_) => "invalid-glob-pattern"@,
            ApiError::InvalidBody(_) => "invalid-request-body"@,
            ApiError::Forbidden(_) => "forbidden-root"@,
            ApiError::NotFound(_) => "not-found"@,
            ApiError::Conflict(_) => "database-in-use"@,
            ApiError::NotReady(_) => "index-not-ready"@,
            ApiError::Internal(_) => "internal"@,
        }
    }

    /// The summary of the error class.
    pub open spec fn title(self) -> Seq<char> {
        match self {
            ApiError::InvalidPath(_) => "Invalid path"@,
            ApiError::InvalidGlob(_) => "Invalid glob pattern"@,
            ApiError::InvalidBody(_) => "Invalid request body"@,
            ApiError::Forbidden(_) => "Forbidden root"@,
            ApiError::NotFound(_) => "Not found"@,
            ApiError::Conflict(_) => "Database in use"@,
            ApiError::NotReady(_) => "Index not ready"@,
            ApiError::Internal(_) => "Internal error"@,
        }
    }

    /// Status, code and title of the error class.
    pub fn parts(&self) -> (r: (u16, &'static str, &'static str))
        ensures
            r.0 == self.status_code(),
            r.1@ == self.code(),
            r.2@ == self.title(),
    {
        match self {
            ApiError::InvalidPath(_) => (400, "invalid-path", "Invalid path"),
            ApiError::InvalidGlob(_) => (400, "invalid-glob-pattern", "Invalid glob pattern"),
            ApiError::InvalidBody(_) => (400, "invalid-request-body", "Invalid request body"),
            ApiError::Forbidden(_) => (403, "forbidden-root", "Forbidden root"),
            ApiError::NotFound(_) => (404, "not-found", "Not found"),
            ApiError::Conflict(_) => (409, "database-in-use", "Database in use"),
            ApiError::NotReady(_) => (503, "index-not-ready", "Index not ready"),
            ApiError::Internal(_) => (500, "internal", "Internal error"),
        }
    }

    /// The prose of this occurrence.
    pub fn to_string(&self) -> (r: String)
        ensures
            r@ == self.message(),
    {
        match self {
            ApiError::InvalidPath(s) => s.clone(),
            ApiError::InvalidGlob(s) => s.clone(),
            ApiError::InvalidBody(s) => s.clone(),
            ApiError::Forbidden(s) => s.clone(),
            ApiError::NotFound(s) => s.clone(),
            ApiError::Conflict(s) => s.clone(),
            ApiError::NotReady(s) => s.clone(),
            ApiError::Internal(s) => s.clone(),
        }
    }

    /// The problem document for this error.
    pub fn problem(&self) -> (r: Problem)
        ensures
            r.status == self.status_code(),
            r.code@ == self.code(),
            r.title@ == self.title(),
            r.problem_type@ == "urn:fff-server:error:"@ + self.code(),
            r.detail matches Some(d) && d@ == self.message(),
    {
        let (status, code, title) = self.parts();
        let mut problem_type = "urn:fff-server:error:".to_owned();
        problem_type.append(code);
        Problem {
            problem_type,
            title: title.to_owned(),
            status,
            code: code.to_owned(),
            detail: Some(self.to_string()),
        }
    }

    /// Whether the fault is the server's, which is what decides how loudly it is logged.
    pub fn is_server_error(&self) -> (r: bool)
        ensures
            r == (self is NotReady || self is Internal),
            r == (500 <= self.status_code() < 600),
    {
        let (status, _, _) = self.parts();
        500 <= status && status < 600
    }
}

impl From<EngineError> for ApiError {
    fn from(err: EngineError) -> (r: ApiError) {
        match err {
            EngineError::InvalidPath(text) => ApiError::InvalidPath(text),
            EngineError::FilesystemRoot(text) => ApiError::Forbidden(text),
            EngineError::InvalidGlobPattern(text) => ApiError::InvalidGlob(text),
            EngineError::FilePickerMissing(text) => ApiError::NotReady(text),
            EngineError::WatcherNotReady(text) => ApiError::NotReady(text),
            EngineError::WatcherDisabled(text) => ApiError::NotReady(text),
            EngineError::DbInUse(text) => ApiError::Conflict(text),
            EngineError::EnvSpecMismatch(text) => ApiError::Conflict(text),
            EngineError::Other(text) => ApiError::Internal(text),
        }
    }
}

/// What an engine failure is reported as. The engine's description is kept.
pub open spec fn reported(err: EngineError) -> ApiError {
    match err {
        EngineError::InvalidPath(text) => ApiError::InvalidPath(text),
        EngineError::FilesystemRoot(text) => ApiError::Forbidden(text),
        EngineError::InvalidGlobPattern(text) => ApiError::InvalidGlob(text),
        EngineError::FilePickerMissing(text) => ApiError::NotReady(text),
        EngineError::WatcherNotReady(text) => ApiError::NotReady(text),
        EngineError::WatcherDisabled(text) => ApiError::NotReady(text),
        EngineError::DbInUse(text) => ApiError::Conflict(text),
        EngineError::EnvSpecMismatch(text) => ApiError::Conflict(text),
        EngineError::Other(text) => ApiError::Internal(text),
    }
}

impl FromSpecImpl<EngineError> for ApiError {
    open spec fn obeys_from_spec() -> bool {
        true
    }

    open spec fn from_spec(err: EngineError) -> ApiError {
        reported(err)
    }
}

/// The engine's error.
#[verifier::external_type_specification]
#[verifier::external_body]
pub struct ExError(fff_search::Error);

/// The class of an engine failure, as a number.
pub open spec fn failure_class(err: EngineError) -> int {
    match err {
        EngineError::InvalidPath(_) => 0,
        EngineError::FilesystemRoot(_) => 1,
        EngineError::InvalidGlobPattern(_) => 2,
        EngineError::FilePickerMissing(_) => 3,
        EngineError::WatcherNotReady(_) => 4,
        EngineError::WatcherDisabled(_) => 5,
        EngineError::DbInUse(_) => 6,
        EngineError::EnvSpecMismatch(_) => 7,
        EngineError::Other(_) => 8,
    }
}

/// The class of the engine's error: which of its variants it is.
pub uninterp spec fn engine_class(err: fff_search::Error) -> int;

/// The text that an engine failure comes with.
pub open spec fn failure_text(err: EngineError) -> Seq<char> {
    match err {
        EngineError::InvalidPath(text) => text@,
        EngineError::FilesystemRoot(text) => text@,
        EngineError::InvalidGlobPattern(text) => text@,
        EngineError::FilePickerMissing(text) => text@,
        EngineError::WatcherNotReady(text) => text@,
        EngineError::WatcherDisabled(text) => text@,
        EngineError::DbInUse(text) => text@,
        EngineError::EnvSpecMismatch(text) => text@,
        EngineError::Other(text) => text@,
    }
}

/// The `Display` text of the engine's error, for the variants that have a class of their own.
pub uninterp spec fn engine_text(err: fff_search::Error) -> Seq<char>;

/// Whether a failure is the engine's error: of its class and, where that class is one of the
/// variants with a class of their own, with its text.
pub open spec fn stands_for(e: EngineError, err: fff_search::Error) -> bool {
    &&& failure_class(e) == engine_class(err)
    &&& e !is Other ==> failure_text(e) == engine_text(err)
}

/// Tells the variants of `fff_search::Error` apart and takes its `Display` text. The class of the
/// result is that of the variant, which the name `engine_class` stands for; the variants it does
/// not list, those of later releases among them, come out as `Other`. For the listed variants the
/// text is made of the error's own fields and the name `engine_text` stands for it. Nothing is
/// claimed of the text of the others: it can hold a message of the operating system.
#[verifier::external_body]
fn engine_error(err: fff_search::Error) -> (r: EngineError)
    ensures
        failure_class(r) == engine_class(err),
        r !is Other ==> failure_text(r) == engine_text(err),
{
    let text = format!("{}", err);
    match err {
        fff_search::Error::InvalidPath(_) => EngineError::InvalidPath(text),
        fff_search::Error::FilesystemRoot(_) => EngineError::FilesystemRoot(text),
        fff_search::Error::InvalidGlobPattern { .. } => EngineError::InvalidGlobPattern(text),
        fff_search::Error::FilePickerMissing => EngineError::FilePickerMissing(text),
        fff_search::Error::WatcherNotReady => EngineError::WatcherNotReady(text),
        fff_search::Error::WatcherDisabled => EngineError::WatcherDisabled(text),
        fff_search::Error::DbInUse { .. } => EngineError::DbInUse(text),
        fff_search::Error::EnvSpecMismatch { .. } => EngineError::EnvSpecMismatch(text),
        _ => EngineError::Other(text),
    }
}

impl From<fff_search::Error> for EngineError {
    fn from(err: fff_search::Error) -> (r: EngineError)
        ensures
            stands_for(r, err),
    {
        engine_error(err)
    }
}

impl FromSpecImpl<fff_search::Error> for EngineError {
    open spec fn obeys_from_spec() -> bool {
        false
    }

    open spec fn from_spec(err: fff_search::Error) -> EngineError {
        arbitrary()
    }
}

impl From<fff_search::Error> for ApiError {
    fn from(err: fff_search::Error) -> (r: ApiError)
        ensures
            exists|e: EngineError| stands_for(e, err) && r == #[trigger] reported(e),
            r !is Internal ==> r.message() == engine_text(err),
    {
        let e = EngineError::from(err);
        let r = ApiError::from(e);
        assert(r == reported(e));
        r
    }
}

impl FromSpecImpl<fff_search::Error> for ApiError {
    open spec fn obeys_from_spec() -> bool {
        false
    }

    open spec fn from_spec(err: fff_search::Error) -> ApiError {
        arbitrary()
    }
}

/// The error of a background task that died: `what` names the task, `cause` says how.
pub fn task_failed(what: &str, cause: &str) -> (r: ApiError)
    ensures
        r is Internal,
        r.message() == what@ + " task failed: "@ + cause@,
{
    let mut text = what.to_owned();
    text.append(" task failed: ");
    text.append(cause);
    ApiError::Internal(text)
}

/// A client that switches on `code` can tell every class of error apart: two errors share a code
/// only when they are of the same class, and errors of one class share code, title and status.
pub proof fn codes_identify_the_class(a: ApiError, b: ApiError)
    ensures
        a.code() == b.code() <==> (a is InvalidPath && b is InvalidPath) || (a is InvalidGlob
            && b is InvalidGlob) || (a is InvalidBody && b is InvalidBody) || (a is Forbidden
            && b is Forbidden) || (a is NotFound && b is NotFound) || (a is Conflict
            && b is Conflict) || (a is NotReady && b is NotReady) || (a is Internal
            && b is Internal),
        a.code() == b.code() ==> a.status_code() == b.status_code() && a.title() == b.title(),
{
    reveal_strlit("invalid-path");
    reveal_strlit("invalid-glob-pattern");
    reveal_strlit("invalid-request-body");
    reveal_strlit("forbidden-root");
    reveal_strlit("not-found");
    reveal_strlit("database-in-use");
    reveal_strlit("index-not-ready");
    reveal_strlit("internal");
    let x = a.code();
    let y = b.code();
    assert(x.len() == y.len() && x[0] == y[0] ==> (a is InvalidPath && b is InvalidPath) || (
    a is InvalidGlob && b is InvalidGlob) || (a is InvalidBody && b is InvalidBody) || (
    a is Forbidden && b is Forbidden) || (a is NotFound && b is NotFound) || (a is Conflict
        && b is Conflict) || (a is NotReady && b is NotReady) || (a is Internal && b is Internal)
        || x[8] != y[8]);
}

/// What an engine failure is reported as, its text apart, depends on its class alone.
pub proof fn the_class_decides_the_report(a: EngineError, b: EngineError)
    requires
        failure_class(a) == failure_class(b),
    ensures
        reported(a).code() == reported(b).code(),
        reported(a).status_code() == reported(b).status_code(),
{
}

/// The engine's description survives every report, and only an error the engine adds later, or
/// one without a class of its own, is reported as internal.
pub proof fn reports_keep_the_description(text: String)
    ensures
        reported(EngineError::InvalidPath(text)).message() == text@,
        reported(EngineError::FilesystemRoot(text)).message() == text@,
        reported(EngineError::InvalidGlobPattern(text)).message() == text@,
        reported(EngineError::FilePickerMissing(text)).message() == text@,
        reported(EngineError::WatcherNotReady(text)).message() == text@,
        reported(EngineError::WatcherDisabled(text)).message() == text@,
        reported(EngineError::DbInUse(text)).message() == text@,
        reported(EngineError::EnvSpecMismatch(text)).message() == text@,
        reported(EngineError::Other(text)).message() == text@,
        forall|e: EngineError| (#[trigger] reported(e)) is Internal <==> e is Other,
{
}

/// What each class of error is answered with: a status that says whose fault it is, and the code
/// that clients switch on.
pub proof fn each_class_has_its_answer(e: ApiError)
    ensures
        e is InvalidPath ==> e.status_code() == 400 && e.code() == "invalid-path"@ && e.title()
            == "Invalid path"@,
        e is InvalidGlob ==> e.status_code() == 400 && e.code() == "invalid-glob-pattern"@
            && e.title() == "Invalid glob pattern"@,
        e is InvalidBody ==> e.status_code() == 400 && e.code() == "invalid-request-body"@
            && e.title() == "Invalid request body"@,
        e is Forbidden ==> e.status_code() == 403 && e.code() == "forbidden-root"@ && e.title()
            == "Forbidden root"@,
        e is NotFound ==> e.status_code() == 404 && e.code() == "not-found"@ && e.title()
            == "Not found"@,
        e is Conflict ==> e.status_code() == 409 && e.code() == "database-in-use"@ && e.title()
            == "Database in use"@,
        e is NotReady ==> e.status_code() == 503 && e.code() == "index-not-ready"@ && e.title()
            == "Index not ready"@,
        e is Internal ==> e.status_code() == 500 && e.code() == "internal"@ && e.title()
            == "Internal error"@,
{
}

/// The prose of an error is the text it was made with, whatever its class.
pub proof fn errors_say_what_they_were_made_with(text: String)
    ensures
        ApiError::InvalidPath(text).message() == text@,
        ApiError::InvalidGlob(text).message() == text@,
        ApiError::InvalidBody(text).message() == text@,
        ApiError::Forbidden(text).message() == text@,
        ApiError::NotFound(text).message() == text@,
        ApiError::Conflict(text).message() == text@,
        ApiError::NotReady(text).message() == text@,
        ApiError::Internal(text).message() == text@,
{
}

/// What each failure of the engine is answered with: a path that is none with a bad request, a
/// filesystem root with a refusal, a bad glob with a bad request, whatever passes by itself with a
/// request to come back, a database in use with a conflict, and the rest with a server error.
pub proof fn each_engine_failure_has_its_answer(err: EngineError)
    ensures
        err is InvalidPath ==> reported(err).status_code() == 400 && reported(err).code()
            == "invalid-path"@,
        err is FilesystemRoot ==> reported(err).status_code() == 403 && reported(err).code()
            == "forbidden-root"@,
        err is InvalidGlobPattern ==> reported(err).status_code() == 400 && reported(err).code()
            == "invalid-glob-pattern"@,
        err is FilePickerMissing || err is WatcherNotReady || err is WatcherDisabled ==> reported(
            err,
        ).status_code() == 503 && reported(err).code() == "index-not-ready"@,
        err is DbInUse || err is EnvSpecMismatch ==> reported(err).status_code() == 409
            && reported(err).code() == "database-in-use"@,
        err is Other ==> reported(err).status_code() == 500 && reported(err).code() == "internal"@,
{
}

/// The problem document of an error repeats its status, its code and its title, names the class by
/// the code, and gives the error's own text as the detail.
pub proof fn problems_describe_their_error(e: ApiError, p: Problem)
    requires
        call_ensures(ApiError::problem, (&e,), p),
    ensures
        e is NotFound ==> p.status == 404 && p.code@ == "not-found"@ && p.title@ == "Not found"@
            && p.problem_type@ == "urn:fff-server:error:"@ + "not-found"@,
        e is NotReady ==> p.status == 503 && p.code@ == "index-not-ready"@ && p.title@
            == "Index not ready"@ && p.problem_type@ == "urn:fff-server:error:"@
            + "index-not-ready"@,
        e is Internal ==> p.status == 500 && p.code@ == "internal"@,
        e is Forbidden ==> p.status == 403 && p.code@ == "forbidden-root"@,
        e is Conflict ==> p.status == 409 && p.code@ == "database-in-use"@,
        e is InvalidPath ==> p.status == 400 && p.code@ == "invalid-path"@,
        e is InvalidGlob ==> p.status == 400 && p.code@ == "invalid-glob-pattern"@,
        e is InvalidBody ==> p.status == 400 && p.code@ == "invalid-request-body"@,
        p.problem_type@ == "urn:fff-server:error:"@ + p.code@,
        p.detail matches Some(d) && d@ == e.message(),
{
}

/// A task that died is the server's fault, and the error names the task and the cause.
pub proof fn dead_tasks_are_named(what: &str, cause: &str, e: ApiError, fault: bool)
    requires
        call_ensures(task_failed, (what, cause), e),
        call_ensures(ApiError::is_server_error, (&e,), fault),
    ensures
        e.status_code() == 500,
        fault,
        e.message() == what@ + " task failed: "@ + cause@,
{
}

} // verus!
