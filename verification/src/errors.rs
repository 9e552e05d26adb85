//! The error every API handler answers with, the HTTP status each kind of
//! error maps to, and the single place where a database failure is classified
//! into one of them.
//!
//! The classification answers one question for every failure: can the caller
//! do anything about it? A constraint the caller's own input violated is
//! theirs and gets a 4xx; anything else is the server's and gets a 500.

use vstd::prelude::*;
use vstd::string::*;
use diesel::result::DatabaseErrorKind;
use crate::text::chars_of;

verus! {

/// The kinds of [`ApiError`], without their messages.
#[derive(Clone, Copy, Debug, PartialEq, Eq, Structural)]
pub enum ApiErrorKind {
    Unauthorized,
    Forbidden,
    ValidationError,
    BadRequest,
    NotFound,
    Conflict,
    TooManyRequests,
    InternalServerError,
    DatabaseError,
    NotImplemented,
}

/// The HTTP status of each kind: the table `IntoResponse` answers with.
pub open spec fn kind_status(k: ApiErrorKind) -> u16 {
    match k {
        ApiErrorKind::Unauthorized => 401,
        ApiErrorKind::Forbidden => 403,
        ApiErrorKind::ValidationError => 400,
        ApiErrorKind::BadRequest => 400,
        ApiErrorKind::NotFound => 404,
        ApiErrorKind::Conflict => 409,
        ApiErrorKind::TooManyRequests => 429,
        ApiErrorKind::InternalServerError => 500,
        ApiErrorKind::DatabaseError => 500,
        ApiErrorKind::NotImplemented => 501,
    }
}

/// Whether a kind is the server's fault.
pub open spec fn kind_is_server_error(k: ApiErrorKind) -> bool {
    k == ApiErrorKind::InternalServerError || k == ApiErrorKind::DatabaseError || k
        == ApiErrorKind::NotImplemented
}

/// An error, as its kind and its message.
pub struct ApiErrorView {
    pub kind: ApiErrorKind,
    pub message: Seq<char>,
}

/// The view of an error of kind `kind` carrying `message`.
pub open spec fn api_err(kind: ApiErrorKind, message: Seq<char>) -> ApiErrorView {
    ApiErrorView { kind, message }
}

/// An API error: what went wrong, and the message the caller is told.
#[derive(Debug)]
pub enum ApiError {
    // Authentication errors
    Unauthorized(String),
    Forbidden(String),
    // Validation errors
    ValidationError(String),
    BadRequest(String),
    // Resource errors
    NotFound(String),
    Conflict(String),
    // Rate limiting errors
    TooManyRequests(String),
    // Server errors
    InternalServerError(String),
    DatabaseError(String),
    NotImplemented(String),
}

impl View for ApiError {
    type V = ApiErrorView;

    open spec fn view(&self) -> ApiErrorView {
        match self {
            ApiError::Unauthorized(m) => api_err(ApiErrorKind::Unauthorized, m@),
            ApiError::Forbidden(m) => api_err(ApiErrorKind::Forbidden, m@),
            ApiError::ValidationError(m) => api_err(ApiErrorKind::ValidationError, m@),
            ApiError::BadRequest(m) => api_err(ApiErrorKind::BadRequest, m@),
            ApiError::NotFound(m) => api_err(ApiErrorKind::NotFound, m@),
            ApiError::Conflict(m) => api_err(ApiErrorKind::Conflict, m@),
            ApiError::TooManyRequests(m) => api_err(ApiErrorKind::TooManyRequests, m@),
            ApiError::InternalServerError(m) => api_err(ApiErrorKind::InternalServerError, m@),
            ApiError::DatabaseError(m) => api_err(ApiErrorKind::DatabaseError, m@),
            ApiError::NotImplemented(m) => api_err(ApiErrorKind::NotImplemented, m@),
        }
    }
}

/// Builds the error of kind `kind` with message `message`.
pub fn make_error(kind: ApiErrorKind, message: String) -> (e: ApiError)
    ensures
        e@ == api_err(kind, message@),
{
    match kind {
        ApiErrorKind::Unauthorized => ApiError::Unauthorized(message),
        ApiErrorKind::Forbidden => ApiError::Forbidden(message),
        ApiErrorKind::ValidationError => ApiError::ValidationError(message),
        ApiErrorKind::BadRequest => ApiError::BadRequest(message),
        ApiErrorKind::NotFound => ApiError::NotFound(message),
        ApiErrorKind::Conflict => ApiError::Conflict(message),
        ApiErrorKind::TooManyRequests => ApiError::TooManyRequests(message),
        ApiErrorKind::InternalServerError => ApiError::InternalServerError(message),
        ApiErrorKind::DatabaseError => ApiError::DatabaseError(message),
        ApiErrorKind::NotImplemented => ApiError::NotImplemented(message),
    }
}

/// Builds the error of kind `kind` whose message is the literal `message`.
pub fn error_with(kind: ApiErrorKind, message: &str) -> (e: ApiError)
    ensures
        e@ == api_err(kind, message@),
{
    make_error(kind, String::from_str(message))
}

/// Builds the error of kind `kind` whose message is `prefix` followed by
/// `detail`.
pub fn error_joined(kind: ApiErrorKind, prefix: &str, detail: &str) -> (e: ApiError)
    ensures
        e@ == api_err(kind, prefix@ + detail@),
{
    let s = String::from_str(prefix).concat(detail);
    make_error(kind, s)
}

/// How loudly a failure is logged: a 4xx is the caller's mistake and logs at
/// WARN; a 5xx is the server's and logs at ERROR.
#[derive(Clone, Copy, Debug, PartialEq, Eq, Structural)]
pub enum LogLevel {
    Warn,
    Error,
}

/// One line for the log: its level and its text.
#[derive(Clone, Debug)]
pub struct LogRecord {
    pub level: LogLevel,
    pub text: String,
}

impl ApiError {
    /// The kind of this error.
    pub fn kind(&self) -> (k: ApiErrorKind)
        ensures
            k == self@.kind,
    {
        match self {
            ApiError::Unauthorized(_) => ApiErrorKind::Unauthorized,
            ApiError::Forbidden(_) => ApiErrorKind::Forbidden,
            ApiError::ValidationError(_) => ApiErrorKind::ValidationError,
            ApiError::BadRequest(_) => ApiErrorKind::BadRequest,
            ApiError::NotFound(_) => ApiErrorKind::NotFound,
            ApiError::Conflict(_) => ApiErrorKind::Conflict,
            ApiError::TooManyRequests(_) => ApiErrorKind::TooManyRequests,
            ApiError::InternalServerError(_) => ApiErrorKind::InternalServerError,
            ApiError::DatabaseError(_) => ApiErrorKind::DatabaseError,
            ApiError::NotImplemented(_) => ApiErrorKind::NotImplemented,
        }
    }

    /// The HTTP status this error is answered with.
    pub fn status(&self) -> (s: u16)
        ensures
            s == kind_status(self@.kind),
    {
        match self.kind() {
            ApiErrorKind::Unauthorized => 401,
            ApiErrorKind::Forbidden => 403,
            ApiErrorKind::ValidationError => 400,
            ApiErrorKind::BadRequest => 400,
            ApiErrorKind::NotFound => 404,
            ApiErrorKind::Conflict => 409,
            ApiErrorKind::TooManyRequests => 429,
            ApiErrorKind::InternalServerError => 500,
            ApiErrorKind::DatabaseError => 500,
            ApiErrorKind::NotImplemented => 501,
        }
    }

    /// Does this map onto a 5xx?
    pub fn is_server_error(&self) -> (r: bool)
        ensures
            r == kind_is_server_error(self@.kind),
            r == (kind_status(self@.kind) >= 500),
    {
        match self {
            ApiError::InternalServerError(_) | ApiError::DatabaseError(_)
            | ApiError::NotImplemented(_) => true,
            _ => false,
        }
    }

    /// The level a failure of this kind is logged at.
    pub fn log_level(&self) -> (l: LogLevel)
        ensures
            l == (if kind_is_server_error(self@.kind) {
                LogLevel::Error
            } else {
                LogLevel::Warn
            }),
    {
        if self.is_server_error() {
            LogLevel::Error
        } else {
            LogLevel::Warn
        }
    }

    /// The message placed in the `error` field of the response body. A
    /// database error never repeats the database's own message.
    pub fn response_message(&self) -> (m: String)
        ensures
            m@ == response_message_spec(self@),
    {
        match self {
            ApiError::DatabaseError(_) => String::from_str("Database operation failed"),
            ApiError::Unauthorized(m) | ApiError::Forbidden(m) | ApiError::ValidationError(m)
            | ApiError::BadRequest(m) | ApiError::NotFound(m) | ApiError::Conflict(m)
            | ApiError::TooManyRequests(m) | ApiError::InternalServerError(m)
            | ApiError::NotImplemented(m) => m.clone(),
        }
    }

    /// The human-readable description (`Display`): a label for the kind, a
    /// colon, and the message.
    pub fn describe(&self) -> (d: String)
        ensures
            d@ == kind_label(self@.kind) + ": "@ + self@.message,
    {
        let label = match self.kind() {
            ApiErrorKind::Unauthorized => "Unauthorized",
            ApiErrorKind::Forbidden => "Forbidden",
            ApiErrorKind::ValidationError => "Validation error",
            ApiErrorKind::BadRequest => "Bad request",
            ApiErrorKind::NotFound => "Not found",
            ApiErrorKind::Conflict => "Conflict",
            ApiErrorKind::TooManyRequests => "Too many requests",
            ApiErrorKind::InternalServerError => "Internal server error",
            ApiErrorKind::DatabaseError => "Database error",
            ApiErrorKind::NotImplemented => "Not implemented",
        };
        let msg = match self {
            ApiError::Unauthorized(m) | ApiError::Forbidden(m) | ApiError::ValidationError(m)
            | ApiError::BadRequest(m) | ApiError::NotFound(m) | ApiError::Conflict(m)
            | ApiError::TooManyRequests(m) | ApiError::InternalServerError(m)
            | ApiError::DatabaseError(m) | ApiError::NotImplemented(m) => m,
        };
        String::from_str(label).concat(": ").concat(msg.as_str())
    }

    /// Classify a database error, and give the line to log it with:
    /// `context` (naming the operation), a colon and a space, then `detail`
    /// (the error's own description, which the caller takes before handing
    /// the error over), at ERROR when the result is a 5xx and at WARN when it
    /// is the caller's mistake. Exactly this one line is logged.
    pub fn from_db(context: &str, err: DatabaseError, detail: &str) -> (r: (ApiError, LogRecord))
        ensures
            r.0@ == database_error_spec(err@),
            r.1.text@ == context@ + ": "@ + detail@,
            r.1.level == (if kind_is_server_error(r.0@.kind) {
                LogLevel::Error
            } else {
                LogLevel::Warn
            }),
    {
        let api = ApiError::from_database(err);
        let level = api.log_level();
        let text = String::from_str(context).concat(": ").concat(detail);
        (api, LogRecord { level, text })
    }

    /// `From<DatabaseError>`: delegates the diesel case rather than
    /// re-implementing it, so the two conversion paths cannot disagree.
    pub fn from_database(err: DatabaseError) -> (e: ApiError)
        ensures
            e@ == database_error_spec(err@),
    {
        match err {
            DatabaseError::Pool(_) => error_with(
                ApiErrorKind::InternalServerError,
                "Database connection error",
            ),
            DatabaseError::Diesel(d) => ApiError::from_diesel_failure(&d),
            DatabaseError::Migration(_) => error_with(
                ApiErrorKind::InternalServerError,
                "Database migration error",
            ),
            DatabaseError::ConnectionTimeout => error_with(
                ApiErrorKind::InternalServerError,
                "Database connection timeout",
            ),
            DatabaseError::Other(msg) => error_joined(
                ApiErrorKind::InternalServerError,
                "Database error: ",
                msg.as_str(),
            ),
        }
    }

    /// `From<diesel::result::Error>`, over the plain description of the
    /// failure: the single place a database failure becomes an HTTP status.
    pub fn from_diesel_failure(f: &DieselFailure) -> (e: ApiError)
        ensures
            e@ == diesel_error_spec(f@),
    {
        match f {
            DieselFailure::NotFound => error_with(
                ApiErrorKind::NotFound,
                "Requested resource not found",
            ),
            DieselFailure::Database { kind, message, description } => {
                match kind {
                    DbErrorKind::UniqueViolation => error_with(
                        ApiErrorKind::Conflict,
                        "Resource already exists",
                    ),
                    DbErrorKind::ForeignKeyViolation => error_with(
                        ApiErrorKind::Conflict,
                        "Referenced resource does not exist or is still in use",
                    ),
                    DbErrorKind::NotNullViolation => error_with(
                        ApiErrorKind::BadRequest,
                        "A required field was missing",
                    ),
                    DbErrorKind::CheckViolation => error_with(
                        ApiErrorKind::BadRequest,
                        "A value was not one this field accepts",
                    ),
                    DbErrorKind::SerializationFailure => error_with(
                        ApiErrorKind::Conflict,
                        "The request conflicted with a concurrent change; retry",
                    ),
                    DbErrorKind::Unknown => {
                        if is_unrepresentable_text(message.as_str()) {
                            error_with(
                                ApiErrorKind::BadRequest,
                                "Text contained characters this database cannot store",
                            )
                        } else {
                            error_joined(
                                ApiErrorKind::DatabaseError,
                                "Database operation failed: ",
                                description.as_str(),
                            )
                        }
                    },
                    _ => error_joined(
                        ApiErrorKind::DatabaseError,
                        "Database operation failed: ",
                        description.as_str(),
                    ),
                }
            },
            DieselFailure::Other { description } => error_joined(
                ApiErrorKind::DatabaseError,
                "Database operation failed: ",
                description.as_str(),
            ),
        }
    }

    /// `From<diesel::result::Error>`: the classification, by
    /// [`diesel_error_spec`], of the failure diesel's error describes (which
    /// failure that is, the opaque outside error decides).
    pub fn from_diesel(err: &diesel::result::Error) -> (e: ApiError)
        ensures
            exists|f: DieselFailureView| e@ == #[trigger] diesel_error_spec(f),
            kind_status(e@.kind) == 404 || kind_status(e@.kind) == 409 || kind_status(e@.kind)
                == 400 || kind_status(e@.kind) == 500,
    {
        let f = describe_diesel_error(err);
        let e = ApiError::from_diesel_failure(&f);
        proof {
            lemma_diesel_status(f@);
            assert(e@ == diesel_error_spec(f@));
        }
        e
    }

    /// `From<r2d2::PoolError>`: a pool that cannot hand out a connection is
    /// the server's problem.
    pub fn from_pool_error(description: &str) -> (e: ApiError)
        ensures
            e@ == api_err(
                ApiErrorKind::InternalServerError,
                "Database connection pool error: "@ + description@,
            ),
    {
        error_joined(
            ApiErrorKind::InternalServerError,
            "Database connection pool error: ",
            description,
        )
    }
}

/// The `Display` label of each kind.
pub open spec fn kind_label(k: ApiErrorKind) -> Seq<char> {
    match k {
        ApiErrorKind::Unauthorized => "Unauthorized"@,
        ApiErrorKind::Forbidden => "Forbidden"@,
        ApiErrorKind::ValidationError => "Validation error"@,
        ApiErrorKind::BadRequest => "Bad request"@,
        ApiErrorKind::NotFound => "Not found"@,
        ApiErrorKind::Conflict => "Conflict"@,
        ApiErrorKind::TooManyRequests => "Too many requests"@,
        ApiErrorKind::InternalServerError => "Internal server error"@,
        ApiErrorKind::DatabaseError => "Database error"@,
        ApiErrorKind::NotImplemented => "Not implemented"@,
    }
}

/// The `error` field of the response body for an error.
pub open spec fn response_message_spec(e: ApiErrorView) -> Seq<char> {
    if e.kind == ApiErrorKind::DatabaseError {
        "Database operation failed"@
    } else {
        e.message
    }
}

/// Validation error helper.
pub fn validation_error(message: &str) -> (e: ApiError)
    ensures
        e@ == api_err(ApiErrorKind::ValidationError, message@),
{
    error_with(ApiErrorKind::ValidationError, message)
}

// ---------------------------------------------------------------------------
// Database failures
// ---------------------------------------------------------------------------

/// The kinds of constraint and connection failure the database reports.
#[derive(Clone, Copy, Debug, PartialEq, Eq, Structural)]
pub enum DbErrorKind {
    UniqueViolation,
    ForeignKeyViolation,
    UnableToSendCommand,
    SerializationFailure,
    ReadOnlyTransaction,
    RestrictViolation,
    NotNullViolation,
    CheckViolation,
    ExclusionViolation,
    ClosedConnection,
    Unknown,
    /// A kind added to the database layer after these were listed.
    Other,
}

/// A failed database operation, as the plain values the classification
/// reads: whether a row was missing, the kind and message of a database
/// error, and the failure's own description.
#[derive(Debug)]
pub enum DieselFailure {
    NotFound,
    Database { kind: DbErrorKind, message: String, description: String },
    Other { description: String },
}

/// The view of a [`DieselFailure`].
pub enum DieselFailureView {
    NotFound,
    Database { kind: DbErrorKind, message: Seq<char>, description: Seq<char> },
    Other { description: Seq<char> },
}

impl View for DieselFailure {
    type V = DieselFailureView;

    open spec fn view(&self) -> DieselFailureView {
        match self {
            DieselFailure::NotFound => DieselFailureView::NotFound,
            DieselFailure::Database { kind, message, description } => DieselFailureView::Database {
                kind: *kind,
                message: message@,
                description: description@,
            },
            DieselFailure::Other { description } => DieselFailureView::Other {
                description: description@,
            },
        }
    }
}

/// The failures of the database layer (`DatabaseError`).
#[derive(Debug)]
pub enum DatabaseError {
    Pool(String),
    Diesel(DieselFailure),
    Migration(String),
    ConnectionTimeout,
    Other(String),
}

/// The view of a [`DatabaseError`].
pub enum DatabaseErrorView {
    Pool(Seq<char>),
    Diesel(DieselFailureView),
    Migration(Seq<char>),
    ConnectionTimeout,
    Other(Seq<char>),
}

impl View for DatabaseError {
    type V = DatabaseErrorView;

    open spec fn view(&self) -> DatabaseErrorView {
        match self {
            DatabaseError::Pool(s) => DatabaseErrorView::Pool(s@),
            DatabaseError::Diesel(d) => DatabaseErrorView::Diesel(d@),
            DatabaseError::Migration(s) => DatabaseErrorView::Migration(s@),
            DatabaseError::ConnectionTimeout => DatabaseErrorView::ConnectionTimeout,
            DatabaseError::Other(s) => DatabaseErrorView::Other(s@),
        }
    }
}

/// Does this Postgres message mean "the bytes you sent cannot be stored"?
pub open spec fn unrepresentable_text(message: Seq<char>) -> bool {
    contains_sub(message, "invalid byte sequence for encoding"@) || contains_sub(
        message,
        "has no equivalent in encoding"@,
    )
}

/// Whether `needle` occurs in `hay` as a contiguous run.
pub open spec fn contains_sub(hay: Seq<char>, needle: Seq<char>) -> bool {
    exists|i: int| 0 <= i <= hay.len() - needle.len() && #[trigger] hay.subrange(i, i + needle.len()) == needle
}

/// `str::contains` for a literal needle.
pub fn contains_str(hay: &[char], needle: &str) -> (r: bool)
    ensures
        r == contains_sub(hay@, needle@),
{
    let nd = chars_of(needle);
    let n = hay.len();
    let m = nd.len();
    if m > n {
        return false;
    }
    let mut i: usize = 0;
    while i <= n - m
        invariant
            m <= n,
            n == hay@.len(),
            m == nd@.len(),
            nd@ == needle@,
            i <= n - m + 1,
            forall|k: int| 0 <= k < i ==> #[trigger] hay@.subrange(k, k + m) != needle@,
        decreases n - m + 1 - i,
    {
        let mut j: usize = 0;
        let mut same = true;
        while j < m
            invariant
                j <= m,
                i + m <= n,
                n == hay@.len(),
                m == nd@.len(),
                same == (forall|t: int| 0 <= t < j ==> hay@[i + t] == nd@[t]),
            decreases m - j,
        {
            if hay[i + j] != nd[j] {
                same = false;
            }
            j = j + 1;
        }
        if same {
            assert(hay@.subrange(i as int, i + m) =~= needle@);
            return true;
        }
        assert(hay@.subrange(i as int, i + m) != needle@) by {
            let t = choose|t: int| 0 <= t < m && hay@[i + t] != nd@[t];
            assert(hay@.subrange(i as int, i + m)[t] == hay@[i + t]);
        }
        i = i + 1;
    }
    false
}

/// Does this Postgres message mean "the bytes you sent cannot be stored"?
///
/// A NUL inside a string (`invalid byte sequence for encoding`) or a
/// character outside the cluster's encoding (`has no equivalent in
/// encoding`).
pub fn is_unrepresentable_text(message: &str) -> (r: bool)
    ensures
        r == unrepresentable_text(message@),
{
    let cs = chars_of(message);
    contains_str(cs.as_slice(), "invalid byte sequence for encoding") || contains_str(
        cs.as_slice(),
        "has no equivalent in encoding",
    )
}

/// How a diesel failure is classified.
pub open spec fn diesel_error_spec(f: DieselFailureView) -> ApiErrorView {
    match f {
        DieselFailureView::NotFound => api_err(
            ApiErrorKind::NotFound,
            "Requested resource not found"@,
        ),
        DieselFailureView::Database { kind, message, description } => {
            match kind {
                DbErrorKind::UniqueViolation => api_err(
                    ApiErrorKind::Conflict,
                    "Resource already exists"@,
                ),
                DbErrorKind::ForeignKeyViolation => api_err(
                    ApiErrorKind::Conflict,
                    "Referenced resource does not exist or is still in use"@,
                ),
                DbErrorKind::NotNullViolation => api_err(
                    ApiErrorKind::BadRequest,
                    "A required field was missing"@,
                ),
                DbErrorKind::CheckViolation => api_err(
                    ApiErrorKind::BadRequest,
                    "A value was not one this field accepts"@,
                ),
                DbErrorKind::SerializationFailure => api_err(
                    ApiErrorKind::Conflict,
                    "The request conflicted with a concurrent change; retry"@,
                ),
                DbErrorKind::Unknown => if unrepresentable_text(message) {
                    api_err(
                        ApiErrorKind::BadRequest,
                        "Text contained characters this database cannot store"@,
                    )
                } else {
                    api_err(
                        ApiErrorKind::DatabaseError,
                        "Database operation failed: "@ + description,
                    )
                },
                _ => api_err(ApiErrorKind::DatabaseError, "Database operation failed: "@ + description),
            }
        },
        DieselFailureView::Other { description } => api_err(
            ApiErrorKind::DatabaseError,
            "Database operation failed: "@ + description,
        ),
    }
}

/// How a failure of the database layer is classified.
pub open spec fn database_error_spec(e: DatabaseErrorView) -> ApiErrorView {
    match e {
        DatabaseErrorView::Pool(_) => api_err(
            ApiErrorKind::InternalServerError,
            "Database connection error"@,
        ),
        DatabaseErrorView::Diesel(d) => diesel_error_spec(d),
        DatabaseErrorView::Migration(_) => api_err(
            ApiErrorKind::InternalServerError,
            "Database migration error"@,
        ),
        DatabaseErrorView::ConnectionTimeout => api_err(
            ApiErrorKind::InternalServerError,
            "Database connection timeout"@,
        ),
        DatabaseErrorView::Other(msg) => api_err(
            ApiErrorKind::InternalServerError,
            "Database error: "@ + msg,
        ),
    }
}

proof fn lemma_diesel_status(f: DieselFailureView)
    ensures
        kind_status(diesel_error_spec(f).kind) == 404 || kind_status(diesel_error_spec(f).kind)
            == 409 || kind_status(diesel_error_spec(f).kind) == 400 || kind_status(
            diesel_error_spec(f).kind,
        ) == 500,
{
}

/// The two conversion paths agree: a diesel failure classifies the same
/// whether it reaches the response directly or wrapped in the database
/// layer's own error first.
pub proof fn law_diesel_paths_agree(f: DieselFailureView)
    ensures
        database_error_spec(DatabaseErrorView::Diesel(f)) == diesel_error_spec(f),
{
}

/// A pool failure, a timeout or any other failure of the database layer that
/// is not a diesel error is a 500, never mistaken for a missing row.
pub proof fn law_database_layer_faults_are_ours(e: DatabaseErrorView)
    requires
        !(e is Diesel),
    ensures
        kind_status(database_error_spec(e).kind) == 500,
{
}

/// A constraint the caller violated is a 4xx; a text-representation failure
/// is a 400; any other database error is a 500 whose response body never
/// repeats the database's message.
pub proof fn law_diesel_classification(kind: DbErrorKind, message: Seq<char>, description: Seq<char>)
    ensures
        ({
            let e = diesel_error_spec(
                DieselFailureView::Database { kind, message, description },
            );
            &&& (kind == DbErrorKind::UniqueViolation || kind == DbErrorKind::ForeignKeyViolation
                || kind == DbErrorKind::SerializationFailure) ==> kind_status(e.kind) == 409
            &&& (kind == DbErrorKind::NotNullViolation || kind == DbErrorKind::CheckViolation)
                ==> kind_status(e.kind) == 400
            &&& (kind == DbErrorKind::Unknown && unrepresentable_text(message)) ==> kind_status(
                e.kind,
            ) == 400
            &&& (kind == DbErrorKind::Unknown && !unrepresentable_text(message)) ==> (
            kind_status(e.kind) == 500 && response_message_spec(e) == "Database operation failed"@)
        }),
{
}

/// An error kind is a 5xx exactly when it is the server's fault.
pub proof fn law_server_error_iff_5xx(k: ApiErrorKind)
    ensures
        kind_is_server_error(k) <==> kind_status(k) >= 500,
{
}

// ---------------------------------------------------------------------------
// Trusted conversions from the diesel crate
// ---------------------------------------------------------------------------

#[verifier::external_type_specification]
#[verifier::external_body]
pub struct ExDieselError(diesel::result::Error);

#[verifier::external_type_specification]
#[verifier::external_body]
pub struct ExDieselErrorKind(diesel::result::DatabaseErrorKind);

impl DatabaseError {
    /// The database layer's wrapping of a diesel failure.
    pub fn from_diesel_error(err: &diesel::result::Error) -> (r: DatabaseError)
        ensures
            r is Diesel,
    {
        DatabaseError::Diesel(describe_diesel_error(err))
    }
}

/// `diesel::result::DatabaseErrorKind`, variant for variant.
///
/// Trusted without a contract: the outside kind is opaque here, so nothing
/// is stated of which model kind comes back.
#[verifier::external_body]
fn db_kind_of(k: &diesel::result::DatabaseErrorKind) -> DbErrorKind {
    match k {
        DatabaseErrorKind::UniqueViolation => DbErrorKind::UniqueViolation,
        DatabaseErrorKind::ForeignKeyViolation => DbErrorKind::ForeignKeyViolation,
        DatabaseErrorKind::UnableToSendCommand => DbErrorKind::UnableToSendCommand,
        DatabaseErrorKind::SerializationFailure => DbErrorKind::SerializationFailure,
        DatabaseErrorKind::ReadOnlyTransaction => DbErrorKind::ReadOnlyTransaction,
        DatabaseErrorKind::RestrictViolation => DbErrorKind::RestrictViolation,
        DatabaseErrorKind::NotNullViolation => DbErrorKind::NotNullViolation,
        DatabaseErrorKind::CheckViolation => DbErrorKind::CheckViolation,
        DatabaseErrorKind::ExclusionViolation => DbErrorKind::ExclusionViolation,
        DatabaseErrorKind::ClosedConnection => DbErrorKind::ClosedConnection,
        DatabaseErrorKind::Unknown => DbErrorKind::Unknown,
        _ => DbErrorKind::Other,
    }
}

/// A diesel error taken apart, its database kind still diesel's.
enum DieselParts {
    NotFound,
    Database { kind: diesel::result::DatabaseErrorKind, message: String, description: String },
    Other { description: String },
}

/// `diesel::result::Error` taken apart: whether it is `NotFound`, the kind
/// and `message()` of a `DatabaseError`, and the error's `Display` text.
///
/// Trusted without a contract: the outside error is opaque here, so nothing
/// is stated of the parts that come back.
#[verifier::external_body]
fn diesel_error_parts(e: &diesel::result::Error) -> DieselParts {
    match e {
        diesel::result::Error::NotFound => DieselParts::NotFound,
        diesel::result::Error::DatabaseError(kind, info) => DieselParts::Database {
            kind: *kind,
            message: info.message().to_string(),
            description: e.to_string(),
        },
        _ => DieselParts::Other { description: e.to_string() },
    }
}

/// A diesel failure in the library's terms.
fn describe_diesel_error(e: &diesel::result::Error) -> DieselFailure {
    match diesel_error_parts(e) {
        DieselParts::NotFound => DieselFailure::NotFound,
        DieselParts::Database { kind, message, description } => DieselFailure::Database {
            kind: db_kind_of(&kind),
            message,
            description,
        },
        DieselParts::Other { description } => DieselFailure::Other { description },
    }
}

} // verus!
