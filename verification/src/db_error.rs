use vstd::prelude::*;
use crate::num::{parse_u32, parse_u32_text};
use crate::text::str_eq;

verus! {

// --- Severity --------------------------------------------------------------

/// The severity of a server error or notice.
#[derive(Debug, Copy, Clone, PartialEq, Eq, Structural)]
pub enum Severity {
    /// PANIC
    Panic,
    /// FATAL
    Fatal,
    /// ERROR
    Error,
    /// WARNING
    Warning,
    /// NOTICE
    Notice,
    /// DEBUG
    Debug,
    /// INFO
    Info,
    /// LOG
    Log,
}

/// The token that names a severity level.
pub open spec fn severity_label(s: Severity) -> Seq<char> {
    match s {
        Severity::Panic => "PANIC"@,
        Severity::Fatal => "FATAL"@,
        Severity::Error => "ERROR"@,
        Severity::Warning => "WARNING"@,
        Severity::Notice => "NOTICE"@,
        Severity::Debug => "DEBUG"@,
        Severity::Info => "INFO"@,
        Severity::Log => "LOG"@,
    }
}

/// The severity level a token names, if any.
pub open spec fn severity_token(s: Seq<char>) -> Option<Severity> {
    if s == "PANIC"@ {
        Some(Severity::Panic)
    } else if s == "FATAL"@ {
        Some(Severity::Fatal)
    } else if s == "ERROR"@ {
        Some(Severity::Error)
    } else if s == "WARNING"@ {
        Some(Severity::Warning)
    } else if s == "NOTICE"@ {
        Some(Severity::Notice)
    } else if s == "DEBUG"@ {
        Some(Severity::Debug)
    } else if s == "INFO"@ {
        Some(Severity::Info)
    } else if s == "LOG"@ {
        Some(Severity::Log)
    } else {
        None
    }
}

impl Severity {
    /// The severity level a token names, if any.
    pub fn from_str(s: &str) -> (r: Option<Severity>)
        ensures
            r == severity_token(s@),
    {
        if str_eq(s, "PANIC") {
            Some(Severity::Panic)
        } else if str_eq(s, "FATAL") {
            Some(Severity::Fatal)
        } else if str_eq(s, "ERROR") {
            Some(Severity::Error)
        } else if str_eq(s, "WARNING") {
            Some(Severity::Warning)
        } else if str_eq(s, "NOTICE") {
            Some(Severity::Notice)
        } else if str_eq(s, "DEBUG") {
            Some(Severity::Debug)
        } else if str_eq(s, "INFO") {
            Some(Severity::Info)
        } else if str_eq(s, "LOG") {
            Some(Severity::Log)
        } else {
            None
        }
    }

    /// The token that names this severity level.
    pub fn to_string(&self) -> (r: String)
        ensures
            r@ == severity_label(*self),
    {
        match self {
            Severity::Panic => "PANIC".to_owned(),
            Severity::Fatal => "FATAL".to_owned(),
            Severity::Error => "ERROR".to_owned(),
            Severity::Warning => "WARNING".to_owned(),
            Severity::Notice => "NOTICE".to_owned(),
            Severity::Debug => "DEBUG".to_owned(),
            Severity::Info => "INFO".to_owned(),
            Severity::Log => "LOG".to_owned(),
        }
    }
}

// --- SQLSTATE codes --------------------------------------------------------

/// The server's standardized five-character error classification code.
#[derive(Debug, Clone, PartialEq, Eq)]
pub struct SqlState {
    code: String,
}

impl SqlState {
    /// The characters of the code.
    pub closed spec fn spec_code(&self) -> Seq<char> {
        self.code@
    }

    /// Wraps a raw SQLSTATE code.
    pub fn from_code(s: &str) -> (r: SqlState)
        ensures
            r.spec_code() == s@,
    {
        SqlState { code: s.to_owned() }
    }

    /// The raw code text.
    pub fn code(&self) -> (r: &str)
        ensures
            r@ == self.spec_code(),
    {
        self.code.as_str()
    }
}

// --- Error positions -------------------------------------------------------

/// The position of an error in a query.
#[derive(Clone, PartialEq, Eq, Debug)]
pub enum ErrorPosition {
    /// A character offset in the original query.
    Original(u32),
    /// A position in a query the server generated internally.
    Internal {
        /// The character offset in the generated query.
        position: u32,
        /// The text of the generated query.
        query: String,
    },
}

/// The model of an error position.
pub enum ErrorPositionModel {
    /// A character offset in the original query.
    Original(u32),
    /// A position in a query the server generated internally.
    Internal {
        /// The character offset in the generated query.
        position: u32,
        /// The text of the generated query.
        query: Seq<char>,
    },
}

impl View for ErrorPosition {
    type V = ErrorPositionModel;

    open spec fn view(&self) -> ErrorPositionModel {
        match self {
            ErrorPosition::Original(p) => ErrorPositionModel::Original(*p),
            ErrorPosition::Internal { position, query } => ErrorPositionModel::Internal {
                position: *position,
                query: query@,
            },
        }
    }
}

// --- Field-parsing faults --------------------------------------------------

/// One way that parsing a server error or notice message can fail.
#[derive(Debug, Copy, Clone, PartialEq, Eq, Structural)]
pub enum ParseFault {
    /// The mandatory severity field was absent.
    MissingSeverity,
    /// The mandatory SQLSTATE code field was absent.
    MissingCode,
    /// The mandatory message field was absent.
    MissingMessage,
    /// An internal position was given without the generated query's text.
    MissingInternalQuery,
    /// The original-query position field held no integer.
    PositionNotInteger,
    /// The internal-query position field held no integer.
    InternalPositionNotInteger,
    /// The source line field held no integer.
    LineNotInteger,
    /// The parsed-severity field held no recognized token.
    SeverityInvalid,
}

/// The stable description of one field-parsing fault.
pub open spec fn parse_fault_text(f: ParseFault) -> Seq<char> {
    match f {
        ParseFault::MissingSeverity => "`S` field missing"@,
        ParseFault::MissingCode => "`C` field missing"@,
        ParseFault::MissingMessage => "`M` field missing"@,
        ParseFault::MissingInternalQuery => "`q` field missing but `p` field present"@,
        ParseFault::PositionNotInteger => "`P` field did not contain an integer"@,
        ParseFault::InternalPositionNotInteger => "`p` field did not contain an integer"@,
        ParseFault::LineNotInteger => "`L` field did not contain an integer"@,
        ParseFault::SeverityInvalid => "`V` field contained an invalid value"@,
    }
}

impl ParseFault {
    /// The stable description of this fault.
    pub fn message(&self) -> (r: String)
        ensures
            r@ == parse_fault_text(*self),
    {
        match self {
            ParseFault::MissingSeverity => "`S` field missing".to_owned(),
            ParseFault::MissingCode => "`C` field missing".to_owned(),
            ParseFault::MissingMessage => "`M` field missing".to_owned(),
            ParseFault::MissingInternalQuery => "`q` field missing but `p` field present".to_owned(
            ),
            ParseFault::PositionNotInteger => "`P` field did not contain an integer".to_owned(),
            ParseFault::InternalPositionNotInteger => "`p` field did not contain an integer"
                .to_owned(),
            ParseFault::LineNotInteger => "`L` field did not contain an integer".to_owned(),
            ParseFault::SeverityInvalid => "`V` field contained an invalid value".to_owned(),
        }
    }
}

// --- The structured error record -------------------------------------------

/// The model of a structured server error or notice.
pub struct DbErrorModel {
    /// The raw severity text.
    pub severity: Seq<char>,
    /// The parsed, nonlocalized severity, when the server sent one.
    pub parsed_severity: Option<Severity>,
    /// The SQLSTATE code.
    pub code: Seq<char>,
    /// The primary human-readable message.
    pub message: Seq<char>,
    /// The optional secondary message.
    pub detail: Option<Seq<char>>,
    /// The optional suggestion.
    pub hint: Option<Seq<char>>,
    /// The optional error position.
    pub position: Option<ErrorPositionModel>,
    /// The optional context indication.
    pub where_: Option<Seq<char>>,
    /// The optional schema name.
    pub schema: Option<Seq<char>>,
    /// The optional table name.
    pub table: Option<Seq<char>>,
    /// The optional column name.
    pub column: Option<Seq<char>>,
    /// The optional data type name.
    pub datatype: Option<Seq<char>>,
    /// The optional constraint name.
    pub constraint: Option<Seq<char>>,
    /// The optional reporting source file.
    pub file: Option<Seq<char>>,
    /// The optional reporting source line.
    pub line: Option<u32>,
    /// The optional reporting routine.
    pub routine: Option<Seq<char>>,
}

/// A structured, immutable record of one server error or notice.
#[derive(Debug, Clone, PartialEq, Eq)]
pub struct DbError {
    severity: String,
    parsed_severity: Option<Severity>,
    code: SqlState,
    message: String,
    detail: Option<String>,
    hint: Option<String>,
    position: Option<ErrorPosition>,
    where_: Option<String>,
    schema: Option<String>,
    table: Option<String>,
    column: Option<String>,
    datatype: Option<String>,
    constraint: Option<String>,
    file: Option<String>,
    line: Option<u32>,
    routine: Option<String>,
}

/// The model of an optional text.
pub open spec fn opt_text(o: Option<String>) -> Option<Seq<char>> {
    match o {
        Some(s) => Some(s@),
        None => None,
    }
}

impl View for DbError {
    type V = DbErrorModel;

    closed spec fn view(&self) -> DbErrorModel {
        DbErrorModel {
            severity: self.severity@,
            parsed_severity: self.parsed_severity,
            code: self.code.spec_code(),
            message: self.message@,
            detail: opt_text(self.detail),
            hint: opt_text(self.hint),
            position: match self.position {
                Some(p) => Some(p@),
                None => None,
            },
            where_: opt_text(self.where_),
            schema: opt_text(self.schema),
            table: opt_text(self.table),
            column: opt_text(self.column),
            datatype: opt_text(self.datatype),
            constraint: opt_text(self.constraint),
            file: opt_text(self.file),
            line: self.line,
            routine: opt_text(self.routine),
        }
    }
}

// --- Scanning the field stream ---------------------------------------------

/// The fields gathered while scanning one message, each the last occurrence
/// seen so far.
pub struct FieldAcc {
    /// Raw severity text seen so far.
    pub severity: Option<Seq<char>>,
    /// Parsed severity seen so far.
    pub parsed_severity: Option<Severity>,
    /// SQLSTATE code seen so far.
    pub code: Option<Seq<char>>,
    /// Message text seen so far.
    pub message: Option<Seq<char>>,
    /// Detail text seen so far.
    pub detail: Option<Seq<char>>,
    /// Hint text seen so far.
    pub hint: Option<Seq<char>>,
    /// Original-query position seen so far.
    pub normal_position: Option<u32>,
    /// Internal-query position seen so far.
    pub internal_position: Option<u32>,
    /// Internal query text seen so far.
    pub internal_query: Option<Seq<char>>,
    /// Context text seen so far.
    pub where_: Option<Seq<char>>,
    /// Schema name seen so far.
    pub schema: Option<Seq<char>>,
    /// Table name seen so far.
    pub table: Option<Seq<char>>,
    /// Column name seen so far.
    pub column: Option<Seq<char>>,
    /// Data type name seen so far.
    pub datatype: Option<Seq<char>>,
    /// Constraint name seen so far.
    pub constraint: Option<Seq<char>>,
    /// Source file seen so far.
    pub file: Option<Seq<char>>,
    /// Source line seen so far.
    pub line: Option<u32>,
    /// Routine name seen so far.
    pub routine: Option<Seq<char>>,
}

/// The empty gathering, before any field is seen.
pub open spec fn empty_acc() -> FieldAcc {
    FieldAcc {
        severity: None,
        parsed_severity: None,
        code: None,
        message: None,
        detail: None,
        hint: None,
        normal_position: None,
        internal_position: None,
        internal_query: None,
        where_: None,
        schema: None,
        table: None,
        column: None,
        datatype: None,
        constraint: None,
        file: None,
        line: None,
        routine: None,
    }
}

/// Whether a field code is one the parser recognizes; every other code is
/// ignored, for forward compatibility with future protocol fields.
pub open spec fn recognized_code(c: u8) -> bool {
    ||| c == 83  // S
    ||| c == 67  // C
    ||| c == 77  // M
    ||| c == 68  // D
    ||| c == 72  // H
    ||| c == 80  // P
    ||| c == 112  // p
    ||| c == 113  // q
    ||| c == 87  // W
    ||| c == 115  // s
    ||| c == 116  // t
    ||| c == 99  // c
    ||| c == 100  // d
    ||| c == 110  // n
    ||| c == 70  // F
    ||| c == 76  // L
    ||| c == 82  // R
    ||| c == 86  // V
}

/// Whether a field code is one the parser recognizes.
pub fn is_recognized_code(c: u8) -> (r: bool)
    ensures
        r == recognized_code(c),
{
    c == 83 || c == 67 || c == 77 || c == 68 || c == 72 || c == 80 || c == 112 || c == 113 || c
        == 87 || c == 115 || c == 116 || c == 99 || c == 100 || c == 110 || c == 70 || c == 76 || c
        == 82 || c == 86
}

/// Applies one `(code, value)` field to the gathering: a recognized code
/// overwrites its slot, an unrecognized one is ignored, and a value that a
/// recognized code cannot carry is a fault.
pub open spec fn scan_step(acc: FieldAcc, code: u8, value: Seq<char>) -> Result<
    FieldAcc,
    ParseFault,
> {
    if code == 83 {  // S
        Ok(FieldAcc { severity: Some(value), ..acc })
    } else if code == 67 {  // C
        Ok(FieldAcc { code: Some(value), ..acc })
    } else if code == 77 {  // M
        Ok(FieldAcc { message: Some(value), ..acc })
    } else if code == 68 {  // D
        Ok(FieldAcc { detail: Some(value), ..acc })
    } else if code == 72 {  // H
        Ok(FieldAcc { hint: Some(value), ..acc })
    } else if code == 80 {  // P
        match parse_u32(value) {
            Some(p) => Ok(FieldAcc { normal_position: Some(p), ..acc }),
            None => Err(ParseFault::PositionNotInteger),
        }
    } else if code == 112 {  // p
        match parse_u32(value) {
            Some(p) => Ok(FieldAcc { internal_position: Some(p), ..acc }),
            None => Err(ParseFault::InternalPositionNotInteger),
        }
    } else if code == 113 {  // q
        Ok(FieldAcc { internal_query: Some(value), ..acc })
    } else if code == 87 {  // W
        Ok(FieldAcc { where_: Some(value), ..acc })
    } else if code == 115 {  // s
        Ok(FieldAcc { schema: Some(value), ..acc })
    } else if code == 116 {  // t
        Ok(FieldAcc { table: Some(value), ..acc })
    } else if code == 99 {  // c
        Ok(FieldAcc { column: Some(value), ..acc })
    } else if code == 100 {  // d
        Ok(FieldAcc { datatype: Some(value), ..acc })
    } else if code == 110 {  // n
        Ok(FieldAcc { constraint: Some(value), ..acc })
    } else if code == 70 {  // F
        Ok(FieldAcc { file: Some(value), ..acc })
    } else if code == 76 {  // L
        match parse_u32(value) {
            Some(p) => Ok(FieldAcc { line: Some(p), ..acc }),
            None => Err(ParseFault::LineNotInteger),
        }
    } else if code == 82 {  // R
        Ok(FieldAcc { routine: Some(value), ..acc })
    } else if code == 86 {  // V
        match severity_token(value) {
            Some(s) => Ok(FieldAcc { parsed_severity: Some(s), ..acc }),
            None => Err(ParseFault::SeverityInvalid),
        }
    } else {
        Ok(acc)
    }
}

/// Scans the fields from position `i` on, starting from the gathering `acc`,
/// stopping at the first fault.
pub open spec fn scan_fields(acc: FieldAcc, fs: Seq<(u8, Seq<char>)>, i: int) -> Result<
    FieldAcc,
    ParseFault,
>
    decreases fs.len() - i,
{
    if i < 0 || i >= fs.len() {
        Ok(acc)
    } else {
        match scan_step(acc, fs[i].0, fs[i].1) {
            Ok(a) => scan_fields(a, fs, i + 1),
            Err(f) => Err(f),
        }
    }
}

/// Checks the gathered fields and assembles the record: the severity text,
/// code and message are mandatory; an original-query position is
/// authoritative, else an internal position demands the generated query text.
pub open spec fn finalize_acc(acc: FieldAcc) -> Result<DbErrorModel, ParseFault> {
    if acc.severity is None {
        Err(ParseFault::MissingSeverity)
    } else if acc.code is None {
        Err(ParseFault::MissingCode)
    } else if acc.message is None {
        Err(ParseFault::MissingMessage)
    } else if acc.normal_position is None && acc.internal_position is Some && acc.internal_query
        is None {
        Err(ParseFault::MissingInternalQuery)
    } else {
        Ok(
            DbErrorModel {
                severity: acc.severity->0,
                parsed_severity: acc.parsed_severity,
                code: acc.code->0,
                message: acc.message->0,
                detail: acc.detail,
                hint: acc.hint,
                position: if acc.normal_position is Some {
                    Some(ErrorPositionModel::Original(acc.normal_position->0))
                } else if acc.internal_position is Some {
                    Some(
                        ErrorPositionModel::Internal {
                            position: acc.internal_position->0,
                            query: acc.internal_query->0,
                        },
                    )
                } else {
                    None
                },
                where_: acc.where_,
                schema: acc.schema,
                table: acc.table,
                column: acc.column,
                datatype: acc.datatype,
                constraint: acc.constraint,
                file: acc.file,
                line: acc.line,
                routine: acc.routine,
            },
        )
    }
}

/// The view of a field sequence: each value as its characters.
pub open spec fn field_views(fs: Seq<(u8, String)>) -> Seq<(u8, Seq<char>)> {
    fs.map_values(|p: (u8, String)| (p.0, p.1@))
}

/// What parsing one message's ordered fields yields: the structured record,
/// or the first fault met.
pub open spec fn parse_spec(fs: Seq<(u8, Seq<char>)>) -> Result<DbErrorModel, ParseFault> {
    match scan_fields(empty_acc(), fs, 0) {
        Ok(acc) => finalize_acc(acc),
        Err(f) => Err(f),
    }
}

impl DbError {
    /// Parses one server error or notice message from its ordered
    /// `(field code, value)` pairs: one forward pass in which the last
    /// occurrence of a recognized field wins and unrecognized fields are
    /// ignored, then a check of the mandatory fields.
    pub fn parse(fields: &Vec<(u8, String)>) -> (r: Result<DbError, ParseFault>)
        ensures
            match (r, parse_spec(field_views(fields@))) {
                (Ok(db), Ok(m)) => db@ == m,
                (Err(f), Err(g)) => f == g,
                _ => false,
            },
    {
        let ghost fv = field_views(fields@);
        let mut severity: Option<String> = None;
        let mut parsed_severity: Option<Severity> = None;
        let mut code: Option<String> = None;
        let mut message: Option<String> = None;
        let mut detail: Option<String> = None;
        let mut hint: Option<String> = None;
        let mut normal_position: Option<u32> = None;
        let mut internal_position: Option<u32> = None;
        let mut internal_query: Option<String> = None;
        let mut where_: Option<String> = None;
        let mut schema: Option<String> = None;
        let mut table: Option<String> = None;
        let mut column: Option<String> = None;
        let mut datatype: Option<String> = None;
        let mut constraint: Option<String> = None;
        let mut file: Option<String> = None;
        let mut line: Option<u32> = None;
        let mut routine: Option<String> = None;

        let mut i: usize = 0;
        while i < fields.len()
            invariant
                0 <= i <= fields@.len(),
                fv == field_views(fields@),
                fv.len() == fields@.len(),
                scan_fields(empty_acc(), fv, 0) == scan_fields(
                    FieldAcc {
                        severity: opt_text(severity),
                        parsed_severity: parsed_severity,
                        code: opt_text(code),
                        message: opt_text(message),
                        detail: opt_text(detail),
                        hint: opt_text(hint),
                        normal_position: normal_position,
                        internal_position: internal_position,
                        internal_query: opt_text(internal_query),
                        where_: opt_text(where_),
                        schema: opt_text(schema),
                        table: opt_text(table),
                        column: opt_text(column),
                        datatype: opt_text(datatype),
                        constraint: opt_text(constraint),
                        file: opt_text(file),
                        line: line,
                        routine: opt_text(routine),
                    },
                    fv,
                    i as int,
                ),
            decreases fields@.len() - i,
        {
            let ghost acc_before = FieldAcc {
                severity: opt_text(severity),
                parsed_severity: parsed_severity,
                code: opt_text(code),
                message: opt_text(message),
                detail: opt_text(detail),
                hint: opt_text(hint),
                normal_position: normal_position,
                internal_position: internal_position,
                internal_query: opt_text(internal_query),
                where_: opt_text(where_),
                schema: opt_text(schema),
                table: opt_text(table),
                column: opt_text(column),
                datatype: opt_text(datatype),
                constraint: opt_text(constraint),
                file: opt_text(file),
                line: line,
                routine: opt_text(routine),
            };
            let pair: &(u8, String) = &fields[i];
            let fcode = pair.0;
            let value = &pair.1;
            proof {
                assert(fv[i as int] == (fcode, value@));
            }
            if fcode == 83 {  // S
                severity = Some(value.clone());
            } else if fcode == 67 {  // C
                code = Some(value.clone());
            } else if fcode == 77 {  // M
                message = Some(value.clone());
            } else if fcode == 68 {  // D
                detail = Some(value.clone());
            } else if fcode == 72 {  // H
                hint = Some(value.clone());
            } else if fcode == 80 {  // P
                match parse_u32_text(value.as_str()) {
                    Some(p) => {
                        normal_position = Some(p);
                    },
                    None => {
                        return Err(ParseFault::PositionNotInteger);
                    },
                }
            } else if fcode == 112 {  // p
                match parse_u32_text(value.as_str()) {
                    Some(p) => {
                        internal_position = Some(p);
                    },
                    None => {
                        return Err(ParseFault::InternalPositionNotInteger);
                    },
                }
            } else if fcode == 113 {  // q
                internal_query = Some(value.clone());
            } else if fcode == 87 {  // W
                where_ = Some(value.clone());
            } else if fcode == 115 {  // s
                schema = Some(value.clone());
            } else if fcode == 116 {  // t
                table = Some(value.clone());
            } else if fcode == 99 {  // c
                column = Some(value.clone());
            } else if fcode == 100 {  // d
                datatype = Some(value.clone());
            } else if fcode == 110 {  // n
                constraint = Some(value.clone());
            } else if fcode == 70 {  // F
                file = Some(value.clone());
            } else if fcode == 76 {  // L
                match parse_u32_text(value.as_str()) {
                    Some(p) => {
                        line = Some(p);
                    },
                    None => {
                        return Err(ParseFault::LineNotInteger);
                    },
                }
            } else if fcode == 82 {  // R
                routine = Some(value.clone());
            } else if fcode == 86 {  // V
                match Severity::from_str(value.as_str()) {
                    Some(s) => {
                        parsed_severity = Some(s);
                    },
                    None => {
                        return Err(ParseFault::SeverityInvalid);
                    },
                }
            }
            i = i + 1;
        }
        let acc_final = Ghost(
            FieldAcc {
                severity: opt_text(severity),
                parsed_severity: parsed_severity,
                code: opt_text(code),
                message: opt_text(message),
                detail: opt_text(detail),
                hint: opt_text(hint),
                normal_position: normal_position,
                internal_position: internal_position,
                internal_query: opt_text(internal_query),
                where_: opt_text(where_),
                schema: opt_text(schema),
                table: opt_text(table),
                column: opt_text(column),
                datatype: opt_text(datatype),
                constraint: opt_text(constraint),
                file: opt_text(file),
                line: line,
                routine: opt_text(routine),
            },
        );
        proof {
            assert(scan_fields(empty_acc(), fv, 0) == Ok::<FieldAcc, ParseFault>(acc_final@));
        }
        let severity = match severity {
            Some(s) => s,
            None => {
                return Err(ParseFault::MissingSeverity);
            },
        };
        let code = match code {
            Some(s) => s,
            None => {
                return Err(ParseFault::MissingCode);
            },
        };
        let message = match message {
            Some(s) => s,
            None => {
                return Err(ParseFault::MissingMessage);
            },
        };
        let position: Option<ErrorPosition> = match normal_position {
            Some(p) => Some(ErrorPosition::Original(p)),
            None => match internal_position {
                Some(p) => match internal_query {
                    Some(q) => Some(ErrorPosition::Internal { position: p, query: q }),
                    None => {
                        return Err(ParseFault::MissingInternalQuery);
                    },
                },
                None => None,
            },
        };
        Ok(
            DbError {
                severity,
                parsed_severity,
                code: SqlState::from_code(code.as_str()),
                message,
                detail,
                hint,
                position,
                where_,
                schema,
                table,
                column,
                datatype,
                constraint,
                file,
                line,
                routine,
            },
        )
    }
}

impl DbError {
    /// The raw severity text: ERROR, FATAL, or PANIC (in an error message),
    /// or WARNING, NOTICE, DEBUG, INFO, or LOG (in a notice message), or a
    /// localized translation of one of these.
    pub fn severity(&self) -> (r: &str)
        ensures
            r@ == self@.severity,
    {
        self.severity.as_str()
    }

    /// A parsed, nonlocalized version of the severity, when the server sent
    /// one.
    pub fn parsed_severity(&self) -> (r: Option<Severity>)
        ensures
            r == self@.parsed_severity,
    {
        self.parsed_severity
    }

    /// The SQLSTATE code for the error.
    pub fn code(&self) -> (r: &SqlState)
        ensures
            r.spec_code() == self@.code,
    {
        &self.code
    }

    /// The primary human-readable error message.
    pub fn message(&self) -> (r: &str)
        ensures
            r@ == self@.message,
    {
        self.message.as_str()
    }

    /// An optional secondary error message carrying more detail.
    pub fn detail(&self) -> (r: Option<&str>)
        ensures
            match (r, self@.detail) {
                (Some(a), Some(b)) => a@ == b,
                (None, None) => true,
                _ => false,
            },
    {
        match &self.detail {
            Some(s) => Some(s.as_str()),
            None => None,
        }
    }

    /// An optional suggestion what to do about the problem.
    pub fn hint(&self) -> (r: Option<&str>)
        ensures
            match (r, self@.hint) {
                (Some(a), Some(b)) => a@ == b,
                (None, None) => true,
                _ => false,
            },
    {
        match &self.hint {
            Some(s) => Some(s.as_str()),
            None => None,
        }
    }

    /// An optional error cursor position into the original query string or
    /// an internally generated query.
    pub fn position(&self) -> (r: Option<&ErrorPosition>)
        ensures
            match (r, self@.position) {
                (Some(a), Some(b)) => a@ == b,
                (None, None) => true,
                _ => false,
            },
    {
        match &self.position {
            Some(p) => Some(p),
            None => None,
        }
    }

    /// An indication of the context in which the error occurred.
    pub fn where_(&self) -> (r: Option<&str>)
        ensures
            match (r, self@.where_) {
                (Some(a), Some(b)) => a@ == b,
                (None, None) => true,
                _ => false,
            },
    {
        match &self.where_ {
            Some(s) => Some(s.as_str()),
            None => None,
        }
    }

    /// The schema containing the object the error concerns, if any.
    pub fn schema(&self) -> (r: Option<&str>)
        ensures
            match (r, self@.schema) {
                (Some(a), Some(b)) => a@ == b,
                (None, None) => true,
                _ => false,
            },
    {
        match &self.schema {
            Some(s) => Some(s.as_str()),
            None => None,
        }
    }

    /// The table the error concerns, if any.
    pub fn table(&self) -> (r: Option<&str>)
        ensures
            match (r, self@.table) {
                (Some(a), Some(b)) => a@ == b,
                (None, None) => true,
                _ => false,
            },
    {
        match &self.table {
            Some(s) => Some(s.as_str()),
            None => None,
        }
    }

    /// The table column the error concerns, if any.
    pub fn column(&self) -> (r: Option<&str>)
        ensures
            match (r, self@.column) {
                (Some(a), Some(b)) => a@ == b,
                (None, None) => true,
                _ => false,
            },
    {
        match &self.column {
            Some(s) => Some(s.as_str()),
            None => None,
        }
    }

    /// The data type the error concerns, if any.
    pub fn datatype(&self) -> (r: Option<&str>)
        ensures
            match (r, self@.datatype) {
                (Some(a), Some(b)) => a@ == b,
                (None, None) => true,
                _ => false,
            },
    {
        match &self.datatype {
            Some(s) => Some(s.as_str()),
            None => None,
        }
    }

    /// The constraint the error concerns, if any.
    pub fn constraint(&self) -> (r: Option<&str>)
        ensures
            match (r, self@.constraint) {
                (Some(a), Some(b)) => a@ == b,
                (None, None) => true,
                _ => false,
            },
    {
        match &self.constraint {
            Some(s) => Some(s.as_str()),
            None => None,
        }
    }

    /// The source file that reported the error, if given.
    pub fn file(&self) -> (r: Option<&str>)
        ensures
            match (r, self@.file) {
                (Some(a), Some(b)) => a@ == b,
                (None, None) => true,
                _ => false,
            },
    {
        match &self.file {
            Some(s) => Some(s.as_str()),
            None => None,
        }
    }

    /// The source line that reported the error, if given.
    pub fn line(&self) -> (r: Option<u32>)
        ensures
            r == self@.line,
    {
        self.line
    }

    /// The source routine that reported the error, if given.
    pub fn routine(&self) -> (r: Option<&str>)
        ensures
            match (r, self@.routine) {
                (Some(a), Some(b)) => a@ == b,
                (None, None) => true,
                _ => false,
            },
    {
        match &self.routine {
            Some(s) => Some(s.as_str()),
            None => None,
        }
    }
}

/// The stable rendering of a record: the severity and message, then the
/// optional detail and hint lines.
pub open spec fn db_error_text(m: DbErrorModel) -> Seq<char> {
    m.severity + ": "@ + m.message + (match m.detail {
        Some(d) => "\nDETAIL: "@ + d,
        None => Seq::<char>::empty(),
    }) + (match m.hint {
        Some(h) => "\nHINT: "@ + h,
        None => Seq::<char>::empty(),
    })
}

impl DbError {
    /// Renders the record as its stable display text.
    pub fn to_string(&self) -> (r: String)
        ensures
            r@ == db_error_text(self@),
    {
        let mut s = self.severity.clone();
        s.append(": ");
        s.append(self.message.as_str());
        match &self.detail {
            Some(d) => {
                s.append("\nDETAIL: ");
                s.append(d.as_str());
            },
            None => {},
        }
        match &self.hint {
            Some(h) => {
                s.append("\nHINT: ");
                s.append(h.as_str());
            },
            None => {},
        }
        proof {
            assert(s@ =~= db_error_text(self@));
        }
        s
    }
}

// --- Position resolution law ------------------------------------------------

/// Scanning keeps an original-query position that is already gathered, and
/// gathers one whenever a field still to come carries code `P`.
proof fn lemma_scan_position(acc: FieldAcc, fs: Seq<(u8, Seq<char>)>, i: int)
    requires
        0 <= i,
        scan_fields(acc, fs, i) is Ok,
        acc.normal_position is Some || exists|j: int|
            i <= j < fs.len() && (#[trigger] fs[j]).0 == 80,
    ensures
        scan_fields(acc, fs, i)->Ok_0.normal_position is Some,
    decreases fs.len() - i,
{
    if i < 0 || i >= fs.len() {
    } else {
        let a2 = scan_step(acc, fs[i].0, fs[i].1)->Ok_0;
        if fs[i].0 == 80 {
            lemma_scan_position(a2, fs, i + 1);
        } else if acc.normal_position is Some {
            assert(a2.normal_position == acc.normal_position);
            lemma_scan_position(a2, fs, i + 1);
        } else {
            let j = choose|j: int| i <= j < fs.len() && (#[trigger] fs[j]).0 == 80;
            assert(i + 1 <= j < fs.len() && fs[j].0 == 80);
            lemma_scan_position(a2, fs, i + 1);
        }
    }
}

// --- Last-occurrence law ----------------------------------------------------

/// The value of the last field with the given code at or after `i`, if any.
pub open spec fn last_field_value_from(fs: Seq<(u8, Seq<char>)>, code: u8, i: int) -> Option<
    Seq<char>,
>
    decreases fs.len() - i,
{
    if i < 0 || i >= fs.len() {
        None
    } else {
        match last_field_value_from(fs, code, i + 1) {
            Some(v) => Some(v),
            None => if fs[i].0 == code {
                Some(fs[i].1)
            } else {
                None
            },
        }
    }
}

/// The field codes whose values the record stores directly as text.
pub open spec fn text_code(c: u8) -> bool {
    ||| c == 83  // S
    ||| c == 67  // C
    ||| c == 77  // M
    ||| c == 68  // D
    ||| c == 72  // H
    ||| c == 87  // W
    ||| c == 115  // s
    ||| c == 116  // t
    ||| c == 99  // c
    ||| c == 100  // d
    ||| c == 110  // n
    ||| c == 70  // F
    ||| c == 82  // R
}

/// The gathered slot belonging to a directly stored text field code.
pub open spec fn acc_text_slot(acc: FieldAcc, c: u8) -> Option<Seq<char>> {
    if c == 83 {
        acc.severity
    } else if c == 67 {
        acc.code
    } else if c == 77 {
        acc.message
    } else if c == 68 {
        acc.detail
    } else if c == 72 {
        acc.hint
    } else if c == 87 {
        acc.where_
    } else if c == 115 {
        acc.schema
    } else if c == 116 {
        acc.table
    } else if c == 99 {
        acc.column
    } else if c == 100 {
        acc.datatype
    } else if c == 110 {
        acc.constraint
    } else if c == 70 {
        acc.file
    } else {
        acc.routine
    }
}

/// The record slot belonging to a directly stored text field code.
pub open spec fn model_text_slot(m: DbErrorModel, c: u8) -> Option<Seq<char>> {
    if c == 83 {
        Some(m.severity)
    } else if c == 67 {
        Some(m.code)
    } else if c == 77 {
        Some(m.message)
    } else if c == 68 {
        m.detail
    } else if c == 72 {
        m.hint
    } else if c == 87 {
        m.where_
    } else if c == 115 {
        m.schema
    } else if c == 116 {
        m.table
    } else if c == 99 {
        m.column
    } else if c == 100 {
        m.datatype
    } else if c == 110 {
        m.constraint
    } else if c == 70 {
        m.file
    } else {
        m.routine
    }
}

/// Scanning leaves in each directly stored text slot the value of the last
/// field with that code, or what the slot already held when none comes.
proof fn lemma_scan_text_slot(acc: FieldAcc, fs: Seq<(u8, Seq<char>)>, i: int, c: u8)
    requires
        0 <= i,
        text_code(c),
        scan_fields(acc, fs, i) is Ok,
    ensures
        acc_text_slot(scan_fields(acc, fs, i)->Ok_0, c) == match last_field_value_from(fs, c, i) {
            Some(v) => Some(v),
            None => acc_text_slot(acc, c),
        },
    decreases fs.len() - i,
{
    if i < fs.len() {
        let a2 = scan_step(acc, fs[i].0, fs[i].1)->Ok_0;
        lemma_scan_text_slot(a2, fs, i + 1, c);
    }
}

/// Duplicate fields: when a message parses, each directly stored text field
/// of the record holds the value of the last field with its code — present
/// exactly when the code occurs, and then the latest occurrence. The
/// position and internal-query fields follow the resolution law instead, and
/// the parsed-severity and source-line slots their own laws below.
pub proof fn lemma_last_occurrence_wins(fs: Seq<(u8, Seq<char>)>, c: u8)
    requires
        text_code(c),
        parse_spec(fs) is Ok,
    ensures
        model_text_slot(parse_spec(fs)->Ok_0, c) == last_field_value_from(fs, c, 0),
{
    lemma_scan_text_slot(empty_acc(), fs, 0, c);
}

/// Scanning leaves in the source-line slot the parse of the last line field.
proof fn lemma_scan_line_slot(acc: FieldAcc, fs: Seq<(u8, Seq<char>)>, i: int)
    requires
        0 <= i,
        scan_fields(acc, fs, i) is Ok,
    ensures
        scan_fields(acc, fs, i)->Ok_0.line == match last_field_value_from(fs, 76, i) {
            Some(v) => parse_u32(v),
            None => acc.line,
        },
    decreases fs.len() - i,
{
    if i < fs.len() {
        let a2 = scan_step(acc, fs[i].0, fs[i].1)->Ok_0;
        lemma_scan_line_slot(a2, fs, i + 1);
    }
}

/// Duplicate line fields: when a message parses, the record's source line is
/// the integer of the last line field, absent when none occurs.
pub proof fn lemma_last_line_wins(fs: Seq<(u8, Seq<char>)>)
    requires
        parse_spec(fs) is Ok,
    ensures
        parse_spec(fs)->Ok_0.line == match last_field_value_from(fs, 76, 0) {
            Some(v) => parse_u32(v),
            None => None::<u32>,
        },
{
    lemma_scan_line_slot(empty_acc(), fs, 0);
}

/// Scanning leaves in the parsed-severity slot the token of the last
/// parsed-severity field.
proof fn lemma_scan_parsed_severity_slot(acc: FieldAcc, fs: Seq<(u8, Seq<char>)>, i: int)
    requires
        0 <= i,
        scan_fields(acc, fs, i) is Ok,
    ensures
        scan_fields(acc, fs, i)->Ok_0.parsed_severity == match last_field_value_from(fs, 86, i) {
            Some(v) => severity_token(v),
            None => acc.parsed_severity,
        },
    decreases fs.len() - i,
{
    if i < fs.len() {
        let a2 = scan_step(acc, fs[i].0, fs[i].1)->Ok_0;
        lemma_scan_parsed_severity_slot(a2, fs, i + 1);
    }
}

/// Duplicate parsed-severity fields: when a message parses, the record's
/// parsed severity is the token of the last such field, absent when none
/// occurs.
pub proof fn lemma_last_parsed_severity_wins(fs: Seq<(u8, Seq<char>)>)
    requires
        parse_spec(fs) is Ok,
    ensures
        parse_spec(fs)->Ok_0.parsed_severity == match last_field_value_from(fs, 86, 0) {
            Some(v) => severity_token(v),
            None => None::<Severity>,
        },
{
    lemma_scan_parsed_severity_slot(empty_acc(), fs, 0);
}

/// An original-query position field is authoritative: whenever a message
/// holding one parses, the record's position points into the original query,
/// whatever internal-position fields stand beside it.
pub proof fn lemma_original_position_wins(fs: Seq<(u8, Seq<char>)>)
    requires
        exists|j: int| 0 <= j < fs.len() && (#[trigger] fs[j]).0 == 80,
        parse_spec(fs) is Ok,
    ensures
        parse_spec(fs)->Ok_0.position matches Some(p) && p is Original,
{
    lemma_scan_position(empty_acc(), fs, 0);
}

} // verus!
