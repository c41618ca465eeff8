use vstd::prelude::*;
use crate::db_error::{db_error_text, DbError, SqlState};
use crate::fault::Fault;
use crate::num::{dec_str, push_dec};

verus! {

/// An indication of a row count, for reporting an unexpected one.
#[derive(Debug, Clone, Copy, PartialEq, Eq, Structural)]
pub enum RowCountCategory {
    /// Exactly one row.
    One,
    /// An optional row.
    ZeroOrOne,
    /// More than one row.
    MoreThanOne,
    /// No result rows.
    Zero,
}

/// The stable wording of a row count indication.
pub open spec fn row_count_text(c: RowCountCategory) -> Seq<char> {
    match c {
        RowCountCategory::One => "one"@,
        RowCountCategory::ZeroOrOne => "zero or one"@,
        RowCountCategory::MoreThanOne => "more than one"@,
        RowCountCategory::Zero => "zero"@,
    }
}

impl RowCountCategory {
    /// The stable wording of this indication.
    pub fn to_string(&self) -> (r: String)
        ensures
            r@ == row_count_text(*self),
    {
        match self {
            RowCountCategory::One => "one".to_owned(),
            RowCountCategory::ZeroOrOne => "zero or one".to_owned(),
            RowCountCategory::MoreThanOne => "more than one".to_owned(),
            RowCountCategory::Zero => "zero".to_owned(),
        }
    }
}

/// The exhaustive taxonomy of failures the client can report.
#[derive(Debug)]
pub enum Kind {
    /// A transport input or output fault.
    Io(Fault),
    /// An unexpected message was received from the server.
    UnexpectedMessage,
    /// A fault during the TLS handshake.
    Tls(Fault),
    /// A fault while encoding the parameter at the given index.
    ToSql(usize, Fault),
    /// A fault while decoding the column at the given index.
    FromSql(usize, Fault),
    /// A reference to an invalid column.
    Column(String),
    /// An unexpected parameter count: the actual one, then the expected one.
    Parameters(usize, usize),
    /// The connection is closed.
    Closed,
    /// An error the server reported.
    Db(Box<DbError>),
    /// A fault while parsing a response.
    Parse(Fault),
    /// A fault while encoding a request.
    Encode(Fault),
    /// A fault during authentication.
    Authentication(Fault),
    /// A malformed configuration string.
    ConfigParse(Fault),
    /// A logically invalid configuration.
    Config(Fault),
    /// A fault while connecting to a server.
    Connect(Fault),
    /// A query returned an unexpected number of rows.
    RowCount {
        /// The expected number of rows.
        expected: RowCountCategory,
        /// The number of rows in the result set.
        got: RowCountCategory,
    },
    /// A timeout while waiting for the server.
    Timeout,
}

/// The stable one-line rendering of each failure kind.
pub open spec fn kind_text(k: Kind) -> Seq<char> {
    match k {
        Kind::Io(f) => "error communicating with the server: "@ + f.spec_text(),
        Kind::UnexpectedMessage => "unexpected message from server"@,
        Kind::Tls(f) => "error performing TLS handshake: "@ + f.spec_text(),
        Kind::ToSql(i, f) => "error serializing parameter "@ + dec_str(i as nat) + ": "@
            + f.spec_text(),
        Kind::FromSql(i, f) => "error deserializing column "@ + dec_str(i as nat) + ": "@
            + f.spec_text(),
        Kind::Column(c) => "invalid column `"@ + c@ + "`"@,
        Kind::Parameters(actual, expected) => "expected "@ + dec_str(expected as nat)
            + " parameters but got "@ + dec_str(actual as nat),
        Kind::Closed => "connection closed"@,
        Kind::Db(e) => "db error: "@ + db_error_text((*e)@),
        Kind::Parse(f) => "error parsing response from server: "@ + f.spec_text(),
        Kind::Encode(f) => "error encoding message to server: "@ + f.spec_text(),
        Kind::Authentication(f) => "authentication error: "@ + f.spec_text(),
        Kind::ConfigParse(f) => "invalid connection string: "@ + f.spec_text(),
        Kind::Config(f) => "invalid configuration: "@ + f.spec_text(),
        Kind::Connect(f) => "error connecting to server: "@ + f.spec_text(),
        Kind::RowCount { expected, got } => "query returned an unexpected number of rows, expected "@
            + row_count_text(expected) + ", got "@ + row_count_text(got),
        Kind::Timeout => "timeout waiting for server"@,
    }
}

impl Kind {
    /// Renders this failure kind as its stable one-line text.
    pub fn to_string(&self) -> (r: String)
        ensures
            r@ == kind_text(*self),
    {
        let mut s = String::new();
        match self {
            Kind::Io(f) => {
                s.append("error communicating with the server: ");
                s.append(f.text());
            },
            Kind::UnexpectedMessage => {
                s.append("unexpected message from server");
            },
            Kind::Tls(f) => {
                s.append("error performing TLS handshake: ");
                s.append(f.text());
            },
            Kind::ToSql(i, f) => {
                s.append("error serializing parameter ");
                push_dec(*i, &mut s);
                s.append(": ");
                s.append(f.text());
            },
            Kind::FromSql(i, f) => {
                s.append("error deserializing column ");
                push_dec(*i, &mut s);
                s.append(": ");
                s.append(f.text());
            },
            Kind::Column(c) => {
                s.append("invalid column `");
                s.append(c.as_str());
                s.append("`");
            },
            Kind::Parameters(actual, expected) => {
                s.append("expected ");
                push_dec(*expected, &mut s);
                s.append(" parameters but got ");
                push_dec(*actual, &mut s);
            },
            Kind::Closed => {
                s.append("connection closed");
            },
            Kind::Db(e) => {
                s.append("db error: ");
                let t = e.to_string();
                s.append(t.as_str());
            },
            Kind::Parse(f) => {
                s.append("error parsing response from server: ");
                s.append(f.text());
            },
            Kind::Encode(f) => {
                s.append("error encoding message to server: ");
                s.append(f.text());
            },
            Kind::Authentication(f) => {
                s.append("authentication error: ");
                s.append(f.text());
            },
            Kind::ConfigParse(f) => {
                s.append("invalid connection string: ");
                s.append(f.text());
            },
            Kind::Config(f) => {
                s.append("invalid configuration: ");
                s.append(f.text());
            },
            Kind::Connect(f) => {
                s.append("error connecting to server: ");
                s.append(f.text());
            },
            Kind::RowCount { expected, got } => {
                s.append("query returned an unexpected number of rows, expected ");
                let t = expected.to_string();
                s.append(t.as_str());
                s.append(", got ");
                let u = got.to_string();
                s.append(u.as_str());
            },
            Kind::Timeout => {
                s.append("timeout waiting for server");
            },
        }
        proof {
            assert(s@ =~= kind_text(*self));
        }
        s
    }
}

#[verifier::external_type_specification]
#[verifier::external_body]
pub struct ExSpanTrace(tracing_error::SpanTrace);

/// Relies on tracing_error::SpanTrace::capture: records the tracing spans
/// active at the call, a fire-and-forget diagnostic side effect.
#[verifier::external_body]
fn capture_span_trace() -> tracing_error::SpanTrace {
    tracing_error::SpanTrace::capture()
}

#[derive(Debug)]
struct ErrorInner {
    kind: Kind,
    span_trace: Option<tracing_error::SpanTrace>,
}

/// An error communicating with the server: exactly one failure kind, plus a
/// diagnostic capture taken at construction and consumable exactly once.
#[derive(Debug)]
pub struct Error {
    inner: Box<ErrorInner>,
}

impl Error {
    /// The failure kind this error wraps.
    pub closed spec fn spec_kind(&self) -> Kind {
        self.inner.kind
    }

    /// The diagnostic capture this error still holds.
    pub closed spec fn spec_span_trace(&self) -> Option<tracing_error::SpanTrace> {
        self.inner.span_trace
    }

    fn new(kind: Kind) -> (r: Error)
        ensures
            r.spec_kind() == kind,
            r.spec_span_trace() is Some,
    {
        Error { inner: Box::new(ErrorInner { kind, span_trace: Some(capture_span_trace()) }) }
    }

    /// Borrows the failure kind.
    pub fn kind(&self) -> (r: &Kind)
        ensures
            *r == self.spec_kind(),
    {
        &self.inner.kind
    }

    /// Consumes the error into its failure kind.
    pub fn into_kind(self) -> (r: Kind)
        ensures
            r == self.spec_kind(),
    {
        self.inner.kind
    }

    /// Consumes the error, returning the nested fault it wraps, if any; a
    /// server-reported record is rendered into a fault.
    pub fn into_source(self) -> (r: Option<Fault>)
        ensures
            match (r, source_text_of(self.spec_kind())) {
                (Some(f), Some(t)) => f.spec_text() == t,
                (None, None) => true,
                _ => false,
            },
    {
        match self.inner.kind {
            Kind::Io(f) => Some(f),
            Kind::UnexpectedMessage => None,
            Kind::Tls(f) => Some(f),
            Kind::ToSql(_, f) => Some(f),
            Kind::FromSql(_, f) => Some(f),
            Kind::Column(_) => None,
            Kind::Parameters(..) => None,
            Kind::Closed => None,
            Kind::Db(e) => Some(Fault::new(e.to_string())),
            Kind::Parse(f) => Some(f),
            Kind::Encode(f) => Some(f),
            Kind::Authentication(f) => Some(f),
            Kind::ConfigParse(f) => Some(f),
            Kind::Config(f) => Some(f),
            Kind::Connect(f) => Some(f),
            Kind::RowCount { .. } => None,
            Kind::Timeout => None,
        }
    }

    /// Borrows the server-reported record, when this error wraps one.
    pub fn as_db_error(&self) -> (r: Option<&DbError>)
        ensures
            match self.spec_kind() {
                Kind::Db(e) => r matches Some(d) && *d == *e,
                _ => r is None,
            },
    {
        match &self.inner.kind {
            Kind::Db(e) => Some(&**e),
            _ => None,
        }
    }

    /// Whether the error reports a closed connection.
    pub fn is_closed(&self) -> (r: bool)
        ensures
            r == (self.spec_kind() is Closed),
    {
        match &self.inner.kind {
            Kind::Closed => true,
            _ => false,
        }
    }

    /// The SQLSTATE code of the server-reported record, when this error
    /// wraps one.
    pub fn code(&self) -> (r: Option<&SqlState>)
        ensures
            match self.spec_kind() {
                Kind::Db(e) => r matches Some(c) && c.spec_code() == (*e)@.code,
                _ => r is None,
            },
    {
        match self.as_db_error() {
            Some(d) => Some(d.code()),
            None => None,
        }
    }

    /// Borrows the diagnostic capture, if it has not been taken.
    pub fn span_trace(&self) -> (r: Option<&tracing_error::SpanTrace>)
        ensures
            match (r, self.spec_span_trace()) {
                (Some(a), Some(b)) => *a == b,
                (None, None) => true,
                _ => false,
            },
    {
        match &self.inner.span_trace {
            Some(s) => Some(s),
            None => None,
        }
    }

    /// Takes ownership of the diagnostic capture: at most one take yields it,
    /// and every later take finds it gone.
    pub fn take_span_trace(&mut self) -> (r: Option<tracing_error::SpanTrace>)
        ensures
            r == old(self).spec_span_trace(),
            final(self).spec_span_trace() is None,
            final(self).spec_kind() == old(self).spec_kind(),
    {
        self.inner.span_trace.take()
    }

    /// Renders the error as the stable one-line text of its kind.
    pub fn to_string(&self) -> (r: String)
        ensures
            r@ == kind_text(self.spec_kind()),
    {
        self.inner.kind.to_string()
    }
}

/// The description of the nested fault a failure kind carries, if any; a
/// server-reported record is rendered as its display text.
pub open spec fn source_text_of(k: Kind) -> Option<Seq<char>> {
    match k {
        Kind::Io(f) => Some(f.spec_text()),
        Kind::UnexpectedMessage => None,
        Kind::Tls(f) => Some(f.spec_text()),
        Kind::ToSql(_, f) => Some(f.spec_text()),
        Kind::FromSql(_, f) => Some(f.spec_text()),
        Kind::Column(_) => None,
        Kind::Parameters(_, _) => None,
        Kind::Closed => None,
        Kind::Db(e) => Some(db_error_text((*e)@)),
        Kind::Parse(f) => Some(f.spec_text()),
        Kind::Encode(f) => Some(f.spec_text()),
        Kind::Authentication(f) => Some(f.spec_text()),
        Kind::ConfigParse(f) => Some(f.spec_text()),
        Kind::Config(f) => Some(f.spec_text()),
        Kind::Connect(f) => Some(f.spec_text()),
        Kind::RowCount { .. } => None,
        Kind::Timeout => None,
    }
}

impl Error {
    /// Wraps a transport input or output fault.
    pub fn io(e: Fault) -> (r: Error)
        ensures
            r.spec_kind() == Kind::Io(e),
            r.spec_span_trace() is Some,
    {
        Error::new(Kind::Io(e))
    }

    /// Reports an unexpected message from the server.
    pub fn unexpected_message() -> (r: Error)
        ensures
            r.spec_kind() == Kind::UnexpectedMessage,
            r.spec_span_trace() is Some,
    {
        Error::new(Kind::UnexpectedMessage)
    }

    /// Wraps a TLS handshake fault.
    pub fn tls(e: Fault) -> (r: Error)
        ensures
            r.spec_kind() == Kind::Tls(e),
            r.spec_span_trace() is Some,
    {
        Error::new(Kind::Tls(e))
    }

    /// Wraps a fault met while encoding the parameter at `idx`.
    pub fn to_sql(e: Fault, idx: usize) -> (r: Error)
        ensures
            r.spec_kind() == Kind::ToSql(idx, e),
            r.spec_span_trace() is Some,
    {
        Error::new(Kind::ToSql(idx, e))
    }

    /// Wraps a fault met while decoding the column at `idx`.
    pub fn from_sql(e: Fault, idx: usize) -> (r: Error)
        ensures
            r.spec_kind() == Kind::FromSql(idx, e),
            r.spec_span_trace() is Some,
    {
        Error::new(Kind::FromSql(idx, e))
    }

    /// Reports a reference to an invalid column.
    pub fn column(column: String) -> (r: Error)
        ensures
            r.spec_kind() == Kind::Column(column),
            r.spec_span_trace() is Some,
    {
        Error::new(Kind::Column(column))
    }

    /// Reports an unexpected parameter count.
    pub fn parameters(actual: usize, expected: usize) -> (r: Error)
        ensures
            r.spec_kind() == Kind::Parameters(actual, expected),
            r.spec_span_trace() is Some,
    {
        Error::new(Kind::Parameters(actual, expected))
    }

    /// Reports a closed connection.
    pub fn closed() -> (r: Error)
        ensures
            r.spec_kind() == Kind::Closed,
            r.spec_span_trace() is Some,
    {
        Error::new(Kind::Closed)
    }

    /// Wraps a response-parsing fault.
    pub fn parse(e: Fault) -> (r: Error)
        ensures
            r.spec_kind() == Kind::Parse(e),
            r.spec_span_trace() is Some,
    {
        Error::new(Kind::Parse(e))
    }

    /// Wraps a request-encoding fault.
    pub fn encode(e: Fault) -> (r: Error)
        ensures
            r.spec_kind() == Kind::Encode(e),
            r.spec_span_trace() is Some,
    {
        Error::new(Kind::Encode(e))
    }

    /// Wraps an authentication fault.
    pub fn authentication(e: Fault) -> (r: Error)
        ensures
            r.spec_kind() == Kind::Authentication(e),
            r.spec_span_trace() is Some,
    {
        Error::new(Kind::Authentication(e))
    }

    /// Wraps a configuration-string parsing fault.
    pub fn config_parse(e: Fault) -> (r: Error)
        ensures
            r.spec_kind() == Kind::ConfigParse(e),
            r.spec_span_trace() is Some,
    {
        Error::new(Kind::ConfigParse(e))
    }

    /// Wraps a fault in a well-formed but invalid configuration.
    pub fn config(e: Fault) -> (r: Error)
        ensures
            r.spec_kind() == Kind::Config(e),
            r.spec_span_trace() is Some,
    {
        Error::new(Kind::Config(e))
    }

    /// Reports a query that returned an unexpected number of rows.
    pub fn row_count(expected: RowCountCategory, got: RowCountCategory) -> (r: Error)
        ensures
            r.spec_kind() == (Kind::RowCount { expected, got }),
            r.spec_span_trace() is Some,
    {
        Error::new(Kind::RowCount { expected, got })
    }

    /// Wraps a fault met while connecting to a server.
    pub fn connect(e: Fault) -> (r: Error)
        ensures
            r.spec_kind() == Kind::Connect(e),
            r.spec_span_trace() is Some,
    {
        Error::new(Kind::Connect(e))
    }

    /// Reports a timeout while waiting for the server.
    pub fn __private_api_timeout() -> (r: Error)
        ensures
            r.spec_kind() == Kind::Timeout,
            r.spec_span_trace() is Some,
    {
        Error::new(Kind::Timeout)
    }

    /// Wraps a parsed server error record.
    pub fn db_record(e: DbError) -> (r: Error)
        ensures
            r.spec_kind() matches Kind::Db(d) && *d == e,
            r.spec_span_trace() is Some,
    {
        Error::new(Kind::Db(Box::new(e)))
    }
}

} // verus!
