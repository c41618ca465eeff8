use vstd::prelude::*;
use crate::codec::FromSql;
use crate::error::{Error, Kind};
use crate::fault::Fault;
use crate::num::{dec_str, dec_string};
use crate::text::str_eq;
use crate::types::Type;

verus! {

/// One named, typed column of a decoded row.
pub struct Column {
    /// The column's name.
    pub name: String,
    /// The column's wire type.
    pub type_: Type,
}

impl Column {
    /// Builds one column description.
    pub fn new(name: String, type_: Type) -> (r: Column)
        ensures
            r.name == name,
            r.type_ == type_,
    {
        Column { name, type_ }
    }
}

/// A decoded row: an ordered sequence of named, typed cells, each either raw
/// wire bytes or SQL NULL.
pub struct Row {
    columns: Vec<Column>,
    values: Vec<Option<Vec<u8>>>,
}

/// The index of the first column with the given name, looking from `i` on.
pub open spec fn col_index_from(cols: Seq<Column>, name: Seq<char>, i: int) -> Option<int>
    decreases cols.len() - i,
{
    if i < 0 || i >= cols.len() {
        None
    } else if cols[i].name@ == name {
        Some(i)
    } else {
        col_index_from(cols, name, i + 1)
    }
}

/// The index of the first column with the given name, if any.
pub open spec fn col_index(cols: Seq<Column>, name: Seq<char>) -> Option<int> {
    col_index_from(cols, name, 0)
}

/// What resolving and decoding the cell at a valid index must yield: a
/// mistyped column is a per-column decode fault, and otherwise the element
/// codec decides, its fault wrapped with the column's index.
pub open spec fn cell_outcome<T: FromSql>(
    cols: Seq<Column>,
    vals: Seq<Option<Vec<u8>>>,
    idx: int,
    r: Result<T, Error>,
) -> bool {
    let ty = cols[idx].type_;
    if !<T as FromSql>::accepts_spec(ty) {
        r matches Err(e) && e.spec_kind() matches Kind::FromSql(j, f) && j == idx && f.spec_text()
            == "wrong type"@
    } else {
        match vals[idx] {
            Some(bytes) => match <T as FromSql>::decoded(ty, bytes@) {
                Ok(m) => r matches Ok(v) && v.model() == m,
                Err(_) => r matches Err(e) && e.spec_kind() matches Kind::FromSql(j, _) && j == idx,
            },
            None => match <T as FromSql>::decoded_null(ty) {
                Ok(m) => r matches Ok(v) && v.model() == m,
                Err(_) => r matches Err(e) && e.spec_kind() matches Kind::FromSql(j, _) && j == idx,
            },
        }
    }
}

impl Row {
    /// The row's columns.
    pub closed spec fn spec_columns(&self) -> Seq<Column> {
        self.columns@
    }

    /// The row's cells.
    pub closed spec fn spec_values(&self) -> Seq<Option<Vec<u8>>> {
        self.values@
    }

    /// Each column has its cell.
    pub open spec fn wf(&self) -> bool {
        self.spec_columns().len() == self.spec_values().len()
    }

    /// Builds a row from its columns and their cells.
    pub fn new(columns: Vec<Column>, values: Vec<Option<Vec<u8>>>) -> (r: Row)
        requires
            columns@.len() == values@.len(),
        ensures
            r.wf(),
            r.spec_columns() == columns@,
            r.spec_values() == values@,
    {
        Row { columns, values }
    }

    /// The row's columns.
    pub fn columns(&self) -> (r: &Vec<Column>)
        ensures
            r@ == self.spec_columns(),
    {
        &self.columns
    }

    /// The count of cells in the row.
    pub fn len(&self) -> (r: usize)
        ensures
            r == self.spec_columns().len(),
    {
        self.columns.len()
    }

    /// Decodes the cell at a fixed position into a value of type `T`: an
    /// index outside the row is an invalid-column error, and otherwise the
    /// cell's outcome stands, any fault carrying the column's index.
    pub fn try_get<T: FromSql>(&self, idx: usize) -> (r: Result<T, Error>)
        requires
            self.wf(),
        ensures
            (idx >= self.spec_columns().len() ==> (r matches Err(e) && e.spec_kind()
                matches Kind::Column(c) && c@ == dec_str(idx as nat))),
            (idx < self.spec_columns().len() ==> cell_outcome::<T>(
                self.spec_columns(),
                self.spec_values(),
                idx as int,
                r,
            )),
    {
        if idx >= self.columns.len() {
            return Err(Error::column(dec_string(idx)));
        }
        let ty = &self.columns[idx].type_;
        if !<T as FromSql>::accepts(ty) {
            return Err(Error::from_sql(Fault::new("wrong type".to_owned()), idx));
        }
        match &self.values[idx] {
            Some(bytes) => match <T as FromSql>::from_sql(ty, bytes.as_slice()) {
                Ok(v) => Ok(v),
                Err(f) => Err(Error::from_sql(f, idx)),
            },
            None => match <T as FromSql>::from_sql_null(ty) {
                Ok(v) => Ok(v),
                Err(f) => Err(Error::from_sql(f, idx)),
            },
        }
    }

    /// Decodes the first cell whose column has the given name: a name no
    /// column carries is an invalid-column error, and otherwise the cell's
    /// outcome stands, any fault carrying the resolved column's index.
    pub fn try_get_by_name<T: FromSql>(&self, name: &str) -> (r: Result<T, Error>)
        requires
            self.wf(),
        ensures
            match col_index(self.spec_columns(), name@) {
                None => r matches Err(e) && e.spec_kind() matches Kind::Column(c) && c@ == name@,
                Some(i) => cell_outcome::<T>(self.spec_columns(), self.spec_values(), i, r),
            },
    {
        let ghost cols = self.spec_columns();
        let mut i: usize = 0;
        while i < self.columns.len()
            invariant
                0 <= i <= cols.len(),
                cols == self.spec_columns(),
                self.wf(),
                col_index(cols, name@) == col_index_from(cols, name@, i as int),
            decreases cols.len() - i,
        {
            if str_eq(self.columns[i].name.as_str(), name) {
                return self.try_get::<T>(i);
            }
            i = i + 1;
        }
        Err(Error::column(name.to_owned()))
    }
}

/// Whether the cell at `i` resolves for type `T`: the index is in range,
/// the column's type is accepted, and the cell decodes (through the null
/// path when the cell is SQL NULL).
pub open spec fn cell_decodes<T: FromSql>(
    cols: Seq<Column>,
    vals: Seq<Option<Vec<u8>>>,
    i: int,
) -> bool {
    &&& 0 <= i < cols.len()
    &&& <T as FromSql>::accepts_spec(cols[i].type_)
    &&& match vals[i] {
        Some(bytes) => <T as FromSql>::decoded(cols[i].type_, bytes@) is Ok,
        None => <T as FromSql>::decoded_null(cols[i].type_) is Ok,
    }
}

/// The model the cell at `i` decodes to for type `T`, when it resolves.
pub open spec fn cell_value<T: FromSql>(
    cols: Seq<Column>,
    vals: Seq<Option<Vec<u8>>>,
    i: int,
) -> T::Model {
    match vals[i] {
        Some(bytes) => <T as FromSql>::decoded(cols[i].type_, bytes@)->Ok_0,
        None => <T as FromSql>::decoded_null(cols[i].type_)->Ok_0,
    }
}

/// A target shape that a decoded row can be mapped into, resolving each of
/// its fields to a source column. An unresolved column or a cell fault aborts
/// the whole conversion: no partial result is ever returned.
pub trait FromRow: Sized {
    /// Whether every column this shape consumes resolves and decodes.
    spec fn row_ok(row: Row) -> bool;

    /// Whether `v` holds exactly the decoded models of the row's cells.
    spec fn of_row(row: Row, v: Self) -> bool;

    /// Maps one row into the target shape: it succeeds exactly when every
    /// consumed column resolves and decodes, yielding their decoded values.
    fn from_row(row: &Row) -> (r: Result<Self, Error>)
        requires
            row.wf(),
        ensures
            (r is Ok <==> Self::row_ok(*row)),
            (r matches Ok(v) ==> Self::of_row(*row, v)),
            (r matches Err(e) ==> (e.spec_kind() matches Kind::Column(_) || e.spec_kind()
                matches Kind::FromSql(_, _))),
    ;
}

impl<T0: FromSql> FromRow for (T0,) {
    open spec fn row_ok(row: Row) -> bool {
        cell_decodes::<T0>(row.spec_columns(), row.spec_values(), 0)
    }

    open spec fn of_row(row: Row, v: Self) -> bool {
        v.0.model() == cell_value::<T0>(row.spec_columns(), row.spec_values(), 0)
    }

    fn from_row(row: &Row) -> (r: Result<Self, Error>) {
        let v0 = match row.try_get::<T0>(0) {
            Ok(v) => v,
            Err(e) => {
                return Err(e);
            },
        };
        Ok((v0,))
    }
}

impl<T0: FromSql, T1: FromSql> FromRow for (T0, T1) {
    open spec fn row_ok(row: Row) -> bool {
        cell_decodes::<T0>(row.spec_columns(), row.spec_values(), 0) && cell_decodes::<T1>(row.spec_columns(), row.spec_values(), 1)
    }

    open spec fn of_row(row: Row, v: Self) -> bool {
        v.0.model() == cell_value::<T0>(row.spec_columns(), row.spec_values(), 0) && v.1.model() == cell_value::<T1>(row.spec_columns(), row.spec_values(), 1)
    }

    fn from_row(row: &Row) -> (r: Result<Self, Error>) {
        let v0 = match row.try_get::<T0>(0) {
            Ok(v) => v,
            Err(e) => {
                return Err(e);
            },
        };
        let v1 = match row.try_get::<T1>(1) {
            Ok(v) => v,
            Err(e) => {
                return Err(e);
            },
        };
        Ok((v0, v1))
    }
}

impl<T0: FromSql, T1: FromSql, T2: FromSql> FromRow for (T0, T1, T2) {
    open spec fn row_ok(row: Row) -> bool {
        cell_decodes::<T0>(row.spec_columns(), row.spec_values(), 0) && cell_decodes::<T1>(row.spec_columns(), row.spec_values(), 1) && cell_decodes::<T2>(row.spec_columns(), row.spec_values(), 2)
    }

    open spec fn of_row(row: Row, v: Self) -> bool {
        v.0.model() == cell_value::<T0>(row.spec_columns(), row.spec_values(), 0) && v.1.model() == cell_value::<T1>(row.spec_columns(), row.spec_values(), 1) && v.2.model() == cell_value::<T2>(row.spec_columns(), row.spec_values(), 2)
    }

    fn from_row(row: &Row) -> (r: Result<Self, Error>) {
        let v0 = match row.try_get::<T0>(0) {
            Ok(v) => v,
            Err(e) => {
                return Err(e);
            },
        };
        let v1 = match row.try_get::<T1>(1) {
            Ok(v) => v,
            Err(e) => {
                return Err(e);
            },
        };
        let v2 = match row.try_get::<T2>(2) {
            Ok(v) => v,
            Err(e) => {
                return Err(e);
            },
        };
        Ok((v0, v1, v2))
    }
}

impl<T0: FromSql, T1: FromSql, T2: FromSql, T3: FromSql> FromRow for (T0, T1, T2, T3) {
    open spec fn row_ok(row: Row) -> bool {
        cell_decodes::<T0>(row.spec_columns(), row.spec_values(), 0) && cell_decodes::<T1>(row.spec_columns(), row.spec_values(), 1) && cell_decodes::<T2>(row.spec_columns(), row.spec_values(), 2) && cell_decodes::<T3>(row.spec_columns(), row.spec_values(), 3)
    }

    open spec fn of_row(row: Row, v: Self) -> bool {
        v.0.model() == cell_value::<T0>(row.spec_columns(), row.spec_values(), 0) && v.1.model() == cell_value::<T1>(row.spec_columns(), row.spec_values(), 1) && v.2.model() == cell_value::<T2>(row.spec_columns(), row.spec_values(), 2) && v.3.model() == cell_value::<T3>(row.spec_columns(), row.spec_values(), 3)
    }

    fn from_row(row: &Row) -> (r: Result<Self, Error>) {
        let v0 = match row.try_get::<T0>(0) {
            Ok(v) => v,
            Err(e) => {
                return Err(e);
            },
        };
        let v1 = match row.try_get::<T1>(1) {
            Ok(v) => v,
            Err(e) => {
                return Err(e);
            },
        };
        let v2 = match row.try_get::<T2>(2) {
            Ok(v) => v,
            Err(e) => {
                return Err(e);
            },
        };
        let v3 = match row.try_get::<T3>(3) {
            Ok(v) => v,
            Err(e) => {
                return Err(e);
            },
        };
        Ok((v0, v1, v2, v3))
    }
}

impl<T0: FromSql, T1: FromSql, T2: FromSql, T3: FromSql, T4: FromSql> FromRow for (T0, T1, T2, T3, T4) {
    open spec fn row_ok(row: Row) -> bool {
        cell_decodes::<T0>(row.spec_columns(), row.spec_values(), 0) && cell_decodes::<T1>(row.spec_columns(), row.spec_values(), 1) && cell_decodes::<T2>(row.spec_columns(), row.spec_values(), 2) && cell_decodes::<T3>(row.spec_columns(), row.spec_values(), 3) && cell_decodes::<T4>(row.spec_columns(), row.spec_values(), 4)
    }

    open spec fn of_row(row: Row, v: Self) -> bool {
        v.0.model() == cell_value::<T0>(row.spec_columns(), row.spec_values(), 0) && v.1.model() == cell_value::<T1>(row.spec_columns(), row.spec_values(), 1) && v.2.model() == cell_value::<T2>(row.spec_columns(), row.spec_values(), 2) && v.3.model() == cell_value::<T3>(row.spec_columns(), row.spec_values(), 3) && v.4.model() == cell_value::<T4>(row.spec_columns(), row.spec_values(), 4)
    }

    fn from_row(row: &Row) -> (r: Result<Self, Error>) {
        let v0 = match row.try_get::<T0>(0) {
            Ok(v) => v,
            Err(e) => {
                return Err(e);
            },
        };
        let v1 = match row.try_get::<T1>(1) {
            Ok(v) => v,
            Err(e) => {
                return Err(e);
            },
        };
        let v2 = match row.try_get::<T2>(2) {
            Ok(v) => v,
            Err(e) => {
                return Err(e);
            },
        };
        let v3 = match row.try_get::<T3>(3) {
            Ok(v) => v,
            Err(e) => {
                return Err(e);
            },
        };
        let v4 = match row.try_get::<T4>(4) {
            Ok(v) => v,
            Err(e) => {
                return Err(e);
            },
        };
        Ok((v0, v1, v2, v3, v4))
    }
}

impl<T0: FromSql, T1: FromSql, T2: FromSql, T3: FromSql, T4: FromSql, T5: FromSql> FromRow for (T0, T1, T2, T3, T4, T5) {
    open spec fn row_ok(row: Row) -> bool {
        cell_decodes::<T0>(row.spec_columns(), row.spec_values(), 0) && cell_decodes::<T1>(row.spec_columns(), row.spec_values(), 1) && cell_decodes::<T2>(row.spec_columns(), row.spec_values(), 2) && cell_decodes::<T3>(row.spec_columns(), row.spec_values(), 3) && cell_decodes::<T4>(row.spec_columns(), row.spec_values(), 4) && cell_decodes::<T5>(row.spec_columns(), row.spec_values(), 5)
    }

    open spec fn of_row(row: Row, v: Self) -> bool {
        v.0.model() == cell_value::<T0>(row.spec_columns(), row.spec_values(), 0) && v.1.model() == cell_value::<T1>(row.spec_columns(), row.spec_values(), 1) && v.2.model() == cell_value::<T2>(row.spec_columns(), row.spec_values(), 2) && v.3.model() == cell_value::<T3>(row.spec_columns(), row.spec_values(), 3) && v.4.model() == cell_value::<T4>(row.spec_columns(), row.spec_values(), 4) && v.5.model() == cell_value::<T5>(row.spec_columns(), row.spec_values(), 5)
    }

    fn from_row(row: &Row) -> (r: Result<Self, Error>) {
        let v0 = match row.try_get::<T0>(0) {
            Ok(v) => v,
            Err(e) => {
                return Err(e);
            },
        };
        let v1 = match row.try_get::<T1>(1) {
            Ok(v) => v,
            Err(e) => {
                return Err(e);
            },
        };
        let v2 = match row.try_get::<T2>(2) {
            Ok(v) => v,
            Err(e) => {
                return Err(e);
            },
        };
        let v3 = match row.try_get::<T3>(3) {
            Ok(v) => v,
            Err(e) => {
                return Err(e);
            },
        };
        let v4 = match row.try_get::<T4>(4) {
            Ok(v) => v,
            Err(e) => {
                return Err(e);
            },
        };
        let v5 = match row.try_get::<T5>(5) {
            Ok(v) => v,
            Err(e) => {
                return Err(e);
            },
        };
        Ok((v0, v1, v2, v3, v4, v5))
    }
}

impl<T0: FromSql, T1: FromSql, T2: FromSql, T3: FromSql, T4: FromSql, T5: FromSql, T6: FromSql> FromRow for (T0, T1, T2, T3, T4, T5, T6) {
    open spec fn row_ok(row: Row) -> bool {
        cell_decodes::<T0>(row.spec_columns(), row.spec_values(), 0) && cell_decodes::<T1>(row.spec_columns(), row.spec_values(), 1) && cell_decodes::<T2>(row.spec_columns(), row.spec_values(), 2) && cell_decodes::<T3>(row.spec_columns(), row.spec_values(), 3) && cell_decodes::<T4>(row.spec_columns(), row.spec_values(), 4) && cell_decodes::<T5>(row.spec_columns(), row.spec_values(), 5) && cell_decodes::<T6>(row.spec_columns(), row.spec_values(), 6)
    }

    open spec fn of_row(row: Row, v: Self) -> bool {
        v.0.model() == cell_value::<T0>(row.spec_columns(), row.spec_values(), 0) && v.1.model() == cell_value::<T1>(row.spec_columns(), row.spec_values(), 1) && v.2.model() == cell_value::<T2>(row.spec_columns(), row.spec_values(), 2) && v.3.model() == cell_value::<T3>(row.spec_columns(), row.spec_values(), 3) && v.4.model() == cell_value::<T4>(row.spec_columns(), row.spec_values(), 4) && v.5.model() == cell_value::<T5>(row.spec_columns(), row.spec_values(), 5) && v.6.model() == cell_value::<T6>(row.spec_columns(), row.spec_values(), 6)
    }

    fn from_row(row: &Row) -> (r: Result<Self, Error>) {
        let v0 = match row.try_get::<T0>(0) {
            Ok(v) => v,
            Err(e) => {
                return Err(e);
            },
        };
        let v1 = match row.try_get::<T1>(1) {
            Ok(v) => v,
            Err(e) => {
                return Err(e);
            },
        };
        let v2 = match row.try_get::<T2>(2) {
            Ok(v) => v,
            Err(e) => {
                return Err(e);
            },
        };
        let v3 = match row.try_get::<T3>(3) {
            Ok(v) => v,
            Err(e) => {
                return Err(e);
            },
        };
        let v4 = match row.try_get::<T4>(4) {
            Ok(v) => v,
            Err(e) => {
                return Err(e);
            },
        };
        let v5 = match row.try_get::<T5>(5) {
            Ok(v) => v,
            Err(e) => {
                return Err(e);
            },
        };
        let v6 = match row.try_get::<T6>(6) {
            Ok(v) => v,
            Err(e) => {
                return Err(e);
            },
        };
        Ok((v0, v1, v2, v3, v4, v5, v6))
    }
}

impl<T0: FromSql, T1: FromSql, T2: FromSql, T3: FromSql, T4: FromSql, T5: FromSql, T6: FromSql, T7: FromSql> FromRow for (T0, T1, T2, T3, T4, T5, T6, T7) {
    open spec fn row_ok(row: Row) -> bool {
        cell_decodes::<T0>(row.spec_columns(), row.spec_values(), 0) && cell_decodes::<T1>(row.spec_columns(), row.spec_values(), 1) && cell_decodes::<T2>(row.spec_columns(), row.spec_values(), 2) && cell_decodes::<T3>(row.spec_columns(), row.spec_values(), 3) && cell_decodes::<T4>(row.spec_columns(), row.spec_values(), 4) && cell_decodes::<T5>(row.spec_columns(), row.spec_values(), 5) && cell_decodes::<T6>(row.spec_columns(), row.spec_values(), 6) && cell_decodes::<T7>(row.spec_columns(), row.spec_values(), 7)
    }

    open spec fn of_row(row: Row, v: Self) -> bool {
        v.0.model() == cell_value::<T0>(row.spec_columns(), row.spec_values(), 0) && v.1.model() == cell_value::<T1>(row.spec_columns(), row.spec_values(), 1) && v.2.model() == cell_value::<T2>(row.spec_columns(), row.spec_values(), 2) && v.3.model() == cell_value::<T3>(row.spec_columns(), row.spec_values(), 3) && v.4.model() == cell_value::<T4>(row.spec_columns(), row.spec_values(), 4) && v.5.model() == cell_value::<T5>(row.spec_columns(), row.spec_values(), 5) && v.6.model() == cell_value::<T6>(row.spec_columns(), row.spec_values(), 6) && v.7.model() == cell_value::<T7>(row.spec_columns(), row.spec_values(), 7)
    }

    fn from_row(row: &Row) -> (r: Result<Self, Error>) {
        let v0 = match row.try_get::<T0>(0) {
            Ok(v) => v,
            Err(e) => {
                return Err(e);
            },
        };
        let v1 = match row.try_get::<T1>(1) {
            Ok(v) => v,
            Err(e) => {
                return Err(e);
            },
        };
        let v2 = match row.try_get::<T2>(2) {
            Ok(v) => v,
            Err(e) => {
                return Err(e);
            },
        };
        let v3 = match row.try_get::<T3>(3) {
            Ok(v) => v,
            Err(e) => {
                return Err(e);
            },
        };
        let v4 = match row.try_get::<T4>(4) {
            Ok(v) => v,
            Err(e) => {
                return Err(e);
            },
        };
        let v5 = match row.try_get::<T5>(5) {
            Ok(v) => v,
            Err(e) => {
                return Err(e);
            },
        };
        let v6 = match row.try_get::<T6>(6) {
            Ok(v) => v,
            Err(e) => {
                return Err(e);
            },
        };
        let v7 = match row.try_get::<T7>(7) {
            Ok(v) => v,
            Err(e) => {
                return Err(e);
            },
        };
        Ok((v0, v1, v2, v3, v4, v5, v6, v7))
    }
}

impl<T0: FromSql, T1: FromSql, T2: FromSql, T3: FromSql, T4: FromSql, T5: FromSql, T6: FromSql, T7: FromSql, T8: FromSql> FromRow for (T0, T1, T2, T3, T4, T5, T6, T7, T8) {
    open spec fn row_ok(row: Row) -> bool {
        cell_decodes::<T0>(row.spec_columns(), row.spec_values(), 0) && cell_decodes::<T1>(row.spec_columns(), row.spec_values(), 1) && cell_decodes::<T2>(row.spec_columns(), row.spec_values(), 2) && cell_decodes::<T3>(row.spec_columns(), row.spec_values(), 3) && cell_decodes::<T4>(row.spec_columns(), row.spec_values(), 4) && cell_decodes::<T5>(row.spec_columns(), row.spec_values(), 5) && cell_decodes::<T6>(row.spec_columns(), row.spec_values(), 6) && cell_decodes::<T7>(row.spec_columns(), row.spec_values(), 7) && cell_decodes::<T8>(row.spec_columns(), row.spec_values(), 8)
    }

    open spec fn of_row(row: Row, v: Self) -> bool {
        v.0.model() == cell_value::<T0>(row.spec_columns(), row.spec_values(), 0) && v.1.model() == cell_value::<T1>(row.spec_columns(), row.spec_values(), 1) && v.2.model() == cell_value::<T2>(row.spec_columns(), row.spec_values(), 2) && v.3.model() == cell_value::<T3>(row.spec_columns(), row.spec_values(), 3) && v.4.model() == cell_value::<T4>(row.spec_columns(), row.spec_values(), 4) && v.5.model() == cell_value::<T5>(row.spec_columns(), row.spec_values(), 5) && v.6.model() == cell_value::<T6>(row.spec_columns(), row.spec_values(), 6) && v.7.model() == cell_value::<T7>(row.spec_columns(), row.spec_values(), 7) && v.8.model() == cell_value::<T8>(row.spec_columns(), row.spec_values(), 8)
    }

    fn from_row(row: &Row) -> (r: Result<Self, Error>) {
        let v0 = match row.try_get::<T0>(0) {
            Ok(v) => v,
            Err(e) => {
                return Err(e);
            },
        };
        let v1 = match row.try_get::<T1>(1) {
            Ok(v) => v,
            Err(e) => {
                return Err(e);
            },
        };
        let v2 = match row.try_get::<T2>(2) {
            Ok(v) => v,
            Err(e) => {
                return Err(e);
            },
        };
        let v3 = match row.try_get::<T3>(3) {
            Ok(v) => v,
            Err(e) => {
                return Err(e);
            },
        };
        let v4 = match row.try_get::<T4>(4) {
            Ok(v) => v,
            Err(e) => {
                return Err(e);
            },
        };
        let v5 = match row.try_get::<T5>(5) {
            Ok(v) => v,
            Err(e) => {
                return Err(e);
            },
        };
        let v6 = match row.try_get::<T6>(6) {
            Ok(v) => v,
            Err(e) => {
                return Err(e);
            },
        };
        let v7 = match row.try_get::<T7>(7) {
            Ok(v) => v,
            Err(e) => {
                return Err(e);
            },
        };
        let v8 = match row.try_get::<T8>(8) {
            Ok(v) => v,
            Err(e) => {
                return Err(e);
            },
        };
        Ok((v0, v1, v2, v3, v4, v5, v6, v7, v8))
    }
}

impl<T0: FromSql, T1: FromSql, T2: FromSql, T3: FromSql, T4: FromSql, T5: FromSql, T6: FromSql, T7: FromSql, T8: FromSql, T9: FromSql> FromRow for (T0, T1, T2, T3, T4, T5, T6, T7, T8, T9) {
    open spec fn row_ok(row: Row) -> bool {
        cell_decodes::<T0>(row.spec_columns(), row.spec_values(), 0) && cell_decodes::<T1>(row.spec_columns(), row.spec_values(), 1) && cell_decodes::<T2>(row.spec_columns(), row.spec_values(), 2) && cell_decodes::<T3>(row.spec_columns(), row.spec_values(), 3) && cell_decodes::<T4>(row.spec_columns(), row.spec_values(), 4) && cell_decodes::<T5>(row.spec_columns(), row.spec_values(), 5) && cell_decodes::<T6>(row.spec_columns(), row.spec_values(), 6) && cell_decodes::<T7>(row.spec_columns(), row.spec_values(), 7) && cell_decodes::<T8>(row.spec_columns(), row.spec_values(), 8) && cell_decodes::<T9>(row.spec_columns(), row.spec_values(), 9)
    }

    open spec fn of_row(row: Row, v: Self) -> bool {
        v.0.model() == cell_value::<T0>(row.spec_columns(), row.spec_values(), 0) && v.1.model() == cell_value::<T1>(row.spec_columns(), row.spec_values(), 1) && v.2.model() == cell_value::<T2>(row.spec_columns(), row.spec_values(), 2) && v.3.model() == cell_value::<T3>(row.spec_columns(), row.spec_values(), 3) && v.4.model() == cell_value::<T4>(row.spec_columns(), row.spec_values(), 4) && v.5.model() == cell_value::<T5>(row.spec_columns(), row.spec_values(), 5) && v.6.model() == cell_value::<T6>(row.spec_columns(), row.spec_values(), 6) && v.7.model() == cell_value::<T7>(row.spec_columns(), row.spec_values(), 7) && v.8.model() == cell_value::<T8>(row.spec_columns(), row.spec_values(), 8) && v.9.model() == cell_value::<T9>(row.spec_columns(), row.spec_values(), 9)
    }

    fn from_row(row: &Row) -> (r: Result<Self, Error>) {
        let v0 = match row.try_get::<T0>(0) {
            Ok(v) => v,
            Err(e) => {
                return Err(e);
            },
        };
        let v1 = match row.try_get::<T1>(1) {
            Ok(v) => v,
            Err(e) => {
                return Err(e);
            },
        };
        let v2 = match row.try_get::<T2>(2) {
            Ok(v) => v,
            Err(e) => {
                return Err(e);
            },
        };
        let v3 = match row.try_get::<T3>(3) {
            Ok(v) => v,
            Err(e) => {
                return Err(e);
            },
        };
        let v4 = match row.try_get::<T4>(4) {
            Ok(v) => v,
            Err(e) => {
                return Err(e);
            },
        };
        let v5 = match row.try_get::<T5>(5) {
            Ok(v) => v,
            Err(e) => {
                return Err(e);
            },
        };
        let v6 = match row.try_get::<T6>(6) {
            Ok(v) => v,
            Err(e) => {
                return Err(e);
            },
        };
        let v7 = match row.try_get::<T7>(7) {
            Ok(v) => v,
            Err(e) => {
                return Err(e);
            },
        };
        let v8 = match row.try_get::<T8>(8) {
            Ok(v) => v,
            Err(e) => {
                return Err(e);
            },
        };
        let v9 = match row.try_get::<T9>(9) {
            Ok(v) => v,
            Err(e) => {
                return Err(e);
            },
        };
        Ok((v0, v1, v2, v3, v4, v5, v6, v7, v8, v9))
    }
}

} // verus!
