use vstd::prelude::*;
use crate::error::{Error, ErrorV};

verus! {

/// One value stored in a database cell, restricted to the types the schema
/// of this service uses.
#[derive(Clone, Debug)]
pub enum SqlValue {
    /// A 64-bit signed integer column.
    BigInt(i64),
    /// A text column.
    Text(String),
    /// An SQL NULL.
    Null,
}

/// One named cell of a returned row.
#[derive(Clone, Debug)]
pub struct Column {
    pub name: String,
    pub value: SqlValue,
}

/// One returned row: its cells in the order the statement produced them.
#[derive(Clone, Debug)]
pub struct Row {
    pub cols: Vec<Column>,
}

impl View for Row {
    type V = Seq<Column>;

    open spec fn view(&self) -> Seq<Column> {
        self.cols@
    }
}

/// The number of occurrences of `$` among the first `n` characters of `s`.
pub open spec fn spec_count_dollars_to(s: Seq<char>, n: int) -> nat
    decreases n,
{
    if n <= 0 {
        0
    } else {
        spec_count_dollars_to(s, n - 1) + if s[n - 1] == '$' {
            1nat
        } else {
            0nat
        }
    }
}

/// The number of positional placeholders (`$1`, `$2`, ...) of a statement,
/// counted as the occurrences of `$`; the statements of this library use
/// `$` for nothing else.
pub open spec fn spec_placeholder_count(s: Seq<char>) -> nat {
    spec_count_dollars_to(s, s.len() as int)
}

/// Row decoding contract: a domain type that can be constructed from one
/// returned row. Decoding must fail with a structured error, never panic,
/// when a column is absent, misplaced, misnamed or of an incompatible type.
pub trait FromRow: Sized + DeepView {
    /// What decoding a row yields, on the row's model.
    spec fn spec_decode(row: Seq<Column>) -> Result<Self::V, ErrorV>;

    /// Every decoding failure is classified as a `DecodeFailure`.
    proof fn lemma_decode_error_is_decode_failure(row: Seq<Column>)
        ensures
            Self::spec_decode(row) matches Err(e) ==> e matches ErrorV::DecodeFailure { .. },
    ;

    /// Constructs one value from one returned row, exactly as `spec_decode`
    /// says.
    fn from_row(row: &Row) -> (r: Result<Self, Error>)
        ensures
            match r {
                Ok(v) => Self::spec_decode(row@) matches Ok(m) && v.deep_view() == m,
                Err(e) => Self::spec_decode(row@) matches Err(m) && e@ == m,
            },
    ;
}

/// The table a domain type is stored in.
pub trait Table {
    /// The table name, as a mathematical value.
    spec fn spec_table_name() -> Seq<char>;

    /// The table name.
    fn table_name() -> (r: &'static str)
        ensures
            r@ == Self::spec_table_name(),
    ;
}

/// Insert encoding contract: a domain type that can produce its fixed,
/// parameterized insert statement together with the bound values, in the
/// exact order of the statement's placeholders.
pub trait IntoInsert: Table + Sized {
    /// The field, if any, that must be unique across all records of the
    /// table; named in the error when a uniqueness violation is detected.
    spec fn spec_name_field() -> Option<Seq<char>>;

    /// The fixed insert statement, as a mathematical value.
    spec fn spec_insert_stmt() -> Seq<char>;

    /// The bound values of `self`, as a mathematical value.
    spec fn spec_insert_params(self) -> Seq<SqlValue>;

    /// The unique-name field, matching `spec_name_field`.
    fn name_field() -> (r: Option<&'static str>)
        ensures
            match r {
                Some(f) => Self::spec_name_field() matches Some(m) && f@ == m,
                None => Self::spec_name_field() is None,
            },
    ;

    /// The fixed insert statement.
    fn insert_stmt() -> (r: &'static str)
        ensures
            r@ == Self::spec_insert_stmt(),
    ;

    /// The bound values of `self`, ordered as the statement's placeholders.
    fn insert_params(&self) -> (r: Vec<SqlValue>)
        ensures
            r@ == (*self).spec_insert_params(),
    ;

    /// The pairing of statement and values is consistent by construction:
    /// the statement has exactly one placeholder per bound value.
    proof fn lemma_params_match_placeholders(&self)
        ensures
            spec_placeholder_count(Self::spec_insert_stmt()) == (*self).spec_insert_params().len(),
    ;
}

} // verus!
