use vstd::prelude::*;

verus! {

/// A prepared statement, named on the server.
pub struct Statement {
    /// The server-side name of the prepared statement.
    pub name: String,
}

/// Seals `ToStatement` against outside implementations.
pub trait Sealed {

}

/// Either a statement already prepared or a query text still to prepare.
pub enum StatementType<'a> {
    /// An already prepared statement.
    Statement(&'a Statement),
    /// A query text still to prepare.
    Query(&'a str),
}

/// A value that stands for a statement: either a prepared statement or raw
/// query text. Methods generic over this bound accept both.
pub trait ToStatement: Sealed {
    /// The query text this value carries, when it is not yet prepared.
    spec fn as_query(&self) -> Option<Seq<char>>;

    /// The prepared statement this value carries, when it is one.
    spec fn as_statement(&self) -> Option<Statement>;

    /// Dispatches the value into the prepared or unprepared branch, handing
    /// through exactly what the value carries.
    fn __convert(&self) -> (r: StatementType<'_>)
        ensures
            match r {
                StatementType::Statement(s) => self.as_query() is None && self.as_statement()
                    == Some(*s),
                StatementType::Query(q) => self.as_query() == Some(q@) && self.as_statement()
                    is None,
            },
    ;
}

impl Sealed for Statement {

}

impl ToStatement for Statement {
    open spec fn as_query(&self) -> Option<Seq<char>> {
        None
    }

    open spec fn as_statement(&self) -> Option<Statement> {
        Some(*self)
    }

    fn __convert(&self) -> (r: StatementType<'_>) {
        StatementType::Statement(self)
    }
}

impl Sealed for str {

}

impl ToStatement for str {
    open spec fn as_query(&self) -> Option<Seq<char>> {
        Some(self@)
    }

    open spec fn as_statement(&self) -> Option<Statement> {
        None
    }

    fn __convert(&self) -> (r: StatementType<'_>) {
        StatementType::Query(self)
    }
}

impl Sealed for String {

}

impl ToStatement for String {
    open spec fn as_query(&self) -> Option<Seq<char>> {
        Some(self@)
    }

    open spec fn as_statement(&self) -> Option<Statement> {
        None
    }

    fn __convert(&self) -> (r: StatementType<'_>) {
        StatementType::Query(self.as_str())
    }
}

} // verus!
