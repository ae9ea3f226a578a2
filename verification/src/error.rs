use vstd::prelude::*;
use vstd::string::StringExecFns;

verus! {

/// Observable data of a database driver failure: the SQLSTATE error code,
/// when the driver reported one, and a human-readable message.
#[derive(Clone, Debug)]
pub struct DbCause {
    pub code: Option<String>,
    pub message: String,
}

/// Mathematical model of a `DbCause`.
#[verifier::ext_equal]
pub struct DbCauseV {
    pub code: Option<Seq<char>>,
    pub message: Seq<char>,
}

impl View for DbCause {
    type V = DbCauseV;

    open spec fn view(&self) -> DbCauseV {
        DbCauseV {
            code: match self.code {
                Some(c) => Some(c@),
                None => None,
            },
            message: self.message@,
        }
    }
}

/// SQLSTATE code 23505 is `unique_violation`: a statement broke a uniqueness
/// constraint.
pub open spec fn spec_is_unique_violation(c: DbCauseV) -> bool {
    c.code matches Some(s) && s == "23505"@
}

impl DbCause {
    /// Whether the driver reported a broken uniqueness constraint.
    pub fn is_unique_violation(&self) -> (r: bool)
        ensures
            r == spec_is_unique_violation(self@),
    {
        match &self.code {
            Some(c) => {
                let unique_violation = String::from_str("23505");
                *c == unique_violation
            },
            None => false,
        }
    }
}

/// Every failure the library can report, each constructed at the failure
/// site and propagated unchanged to the request boundary.
#[derive(Debug)]
pub enum Error {
    /// The database connection could not be established or used.
    ConnectionFailure { cause: DbCause },
    /// A statement failed to execute; `context` names the failing operation.
    QueryFailure { context: String, cause: DbCause },
    /// A returned row did not match the expected shape.
    DecodeFailure { context: String },
    /// A stored uniqueness constraint was violated: `field` must be unique
    /// among all records of `table`.
    NonUniqueViolation { table: String, field: String },
    /// A lookup matched no record; raised by the handler layer, never by the
    /// client operations themselves.
    NotFound { context: String },
}

/// Mathematical model of an `Error`.
#[verifier::ext_equal]
pub enum ErrorV {
    ConnectionFailure { cause: DbCauseV },
    QueryFailure { context: Seq<char>, cause: DbCauseV },
    DecodeFailure { context: Seq<char> },
    NonUniqueViolation { table: Seq<char>, field: Seq<char> },
    NotFound { context: Seq<char> },
}

impl View for Error {
    type V = ErrorV;

    open spec fn view(&self) -> ErrorV {
        match self {
            Error::ConnectionFailure { cause } => ErrorV::ConnectionFailure { cause: cause@ },
            Error::QueryFailure { context, cause } => ErrorV::QueryFailure {
                context: context@,
                cause: cause@,
            },
            Error::DecodeFailure { context } => ErrorV::DecodeFailure { context: context@ },
            Error::NonUniqueViolation { table, field } => ErrorV::NonUniqueViolation {
                table: table@,
                field: field@,
            },
            Error::NotFound { context } => ErrorV::NotFound { context: context@ },
        }
    }
}

/// The HTTP status that a failure maps to: a broken uniqueness constraint is
/// the caller's fault (400), a missing record is 404, and everything else is
/// an internal failure (500).
pub open spec fn spec_http_status(e: ErrorV) -> u16 {
    match e {
        ErrorV::NonUniqueViolation { .. } => 400,
        ErrorV::NotFound { .. } => 404,
        ErrorV::ConnectionFailure { .. } => 500,
        ErrorV::QueryFailure { .. } => 500,
        ErrorV::DecodeFailure { .. } => 500,
    }
}

/// The display text of a failure, rendered into the response body.
pub open spec fn spec_message(e: ErrorV) -> Seq<char> {
    match e {
        ErrorV::ConnectionFailure { cause } => "Database error connecting to database: "@
            + cause.message,
        ErrorV::QueryFailure { context, cause } => "Database error "@ + context + ": "@
            + cause.message,
        ErrorV::DecodeFailure { context } => "Error parsing row: "@ + context,
        ErrorV::NonUniqueViolation { table, field } => "A "@ + table + " must have a unique "@
            + field + "!"@,
        ErrorV::NotFound { context } => "Not found: "@ + context,
    }
}

impl Error {
    /// Builds a `QueryFailure` over borrowed context text.
    pub fn query_failure(context: &str, cause: DbCause) -> (e: Error)
        ensures
            e@ == (ErrorV::QueryFailure { context: context@, cause: cause@ }),
    {
        Error::QueryFailure { context: String::from_str(context), cause }
    }

    /// Builds a `DecodeFailure` over borrowed context text.
    pub fn decode_failure(context: &str) -> (e: Error)
        ensures
            e@ == (ErrorV::DecodeFailure { context: context@ }),
    {
        Error::DecodeFailure { context: String::from_str(context) }
    }

    /// Builds a `NotFound` over borrowed context text.
    pub fn not_found(context: &str) -> (e: Error)
        ensures
            e@ == (ErrorV::NotFound { context: context@ }),
    {
        Error::NotFound { context: String::from_str(context) }
    }

    pub fn http_status(&self) -> (s: u16)
        ensures
            s == spec_http_status(self@),
    {
        match self {
            Error::NonUniqueViolation { .. } => 400,
            Error::NotFound { .. } => 404,
            Error::ConnectionFailure { .. } => 500,
            Error::QueryFailure { .. } => 500,
            Error::DecodeFailure { .. } => 500,
        }
    }

    /// The display text of this failure.
    pub fn message(&self) -> (m: String)
        ensures
            m@ == spec_message(self@),
    {
        match self {
            Error::ConnectionFailure { cause } => {
                let mut m = String::from_str("Database error connecting to database: ");
                m.append(cause.message.as_str());
                m
            },
            Error::QueryFailure { context, cause } => {
                let mut m = String::from_str("Database error ");
                m.append(context.as_str());
                m.append(": ");
                m.append(cause.message.as_str());
                m
            },
            Error::DecodeFailure { context } => {
                let mut m = String::from_str("Error parsing row: ");
                m.append(context.as_str());
                m
            },
            Error::NonUniqueViolation { table, field } => {
                let mut m = String::from_str("A ");
                m.append(table.as_str());
                m.append(" must have a unique ");
                m.append(field.as_str());
                m.append("!");
                m
            },
            Error::NotFound { context } => {
                let mut m = String::from_str("Not found: ");
                m.append(context.as_str());
                m
            },
        }
    }
}

} // verus!
