use vstd::prelude::*;
use vstd::string::StringExecFns;
use crate::error::{spec_is_unique_violation, DbCause, DbCauseV, Error, ErrorV};
use crate::id::Id;
use crate::sql::{FromRow, IntoInsert, Row, Table};

verus! {

// The client operations. The database driver executes a statement and hands
// back either the returned rows or a failure; everything the operations
// decide from that outcome stands here, verified for every possible
// outcome. Establishing the connection and executing statements is I/O and
// lives with the caller.

/// The model of a statement execution that returns rows.
pub open spec fn spec_outcome(outcome: Result<Vec<Row>, DbCause>) -> Result<Seq<Row>, DbCauseV> {
    match outcome {
        Ok(rows) => Ok(rows@),
        Err(c) => Err(c@),
    }
}

/// The model of a statement execution that returns a generated identifier.
pub open spec fn spec_id_outcome(outcome: Result<u64, DbCause>) -> Result<u64, DbCauseV> {
    match outcome {
        Ok(id) => Ok(id),
        Err(c) => Err(c@),
    }
}

/// Whether row `r` decodes as a `T`.
pub open spec fn spec_row_decodes<T: FromRow>(r: Row) -> bool {
    T::spec_decode(r@) is Ok
}

/// The value row `r` decodes to, when it decodes.
pub open spec fn spec_decoded<T: FromRow>(r: Row) -> T::V {
    T::spec_decode(r@)->Ok_0
}

/// What decoding a whole result set yields: every row in result order, or
/// the first failure alone — fail-fast, no partial results.
pub open spec fn spec_decode_rows<T: FromRow>(rows: Seq<Row>) -> Result<Seq<T::V>, ErrorV>
    decreases rows.len(),
{
    if rows.len() == 0 {
        Ok(Seq::empty())
    } else {
        match T::spec_decode(rows[0]@) {
            Err(e) => Err(e),
            Ok(v) => match spec_decode_rows::<T>(rows.drop_first()) {
                Err(e) => Err(e),
                Ok(rest) => Ok(seq![v] + rest),
            },
        }
    }
}

/// When every row decodes, the whole result set decodes to the rows' values
/// in result order.
pub proof fn lemma_decode_rows_all_ok<T: FromRow>(rows: Seq<Row>)
    requires
        forall|j: int| 0 <= j < rows.len() ==> spec_row_decodes::<T>(rows[j]),
    ensures
        spec_decode_rows::<T>(rows) == Ok::<Seq<T::V>, ErrorV>(
            Seq::new(rows.len(), |j: int| spec_decoded::<T>(rows[j])),
        ),
    decreases rows.len(),
{
    if rows.len() == 0 {
        assert(Seq::new(rows.len(), |j: int| spec_decoded::<T>(rows[j])) =~= Seq::empty());
    } else {
        let rest = rows.drop_first();
        assert(forall|j: int| 0 <= j < rest.len() ==> spec_row_decodes::<T>(#[trigger] rest[j]))
            by {
            assert(forall|j: int| 0 <= j < rest.len() ==> #[trigger] rest[j] == rows[j + 1]);
        }
        lemma_decode_rows_all_ok::<T>(rest);
        assert(seq![spec_decoded::<T>(rows[0])] + Seq::new(
            rest.len(),
            |j: int| spec_decoded::<T>(rest[j]),
        ) =~= Seq::new(rows.len(), |j: int| spec_decoded::<T>(rows[j])));
    }
}

/// When the rows before `k` decode and row `k` does not, the whole result
/// set fails with exactly row `k`'s failure.
pub proof fn lemma_decode_rows_first_err<T: FromRow>(rows: Seq<Row>, k: int)
    requires
        0 <= k < rows.len(),
        forall|j: int| 0 <= j < k ==> spec_row_decodes::<T>(rows[j]),
        !spec_row_decodes::<T>(rows[k]),
    ensures
        spec_decode_rows::<T>(rows) == Err::<Seq<T::V>, ErrorV>(T::spec_decode(rows[k]@)->Err_0),
    decreases k,
{
    if k > 0 {
        let rest = rows.drop_first();
        assert(forall|j: int| 0 <= j < k - 1 ==> spec_row_decodes::<T>(#[trigger] rest[j])) by {
            assert(forall|j: int| 0 <= j < rest.len() ==> #[trigger] rest[j] == rows[j + 1]);
        }
        assert(rest[k - 1] == rows[k]);
        lemma_decode_rows_first_err::<T>(rest, k - 1);
    }
}

/// How a result models a fetched optional item.
pub open spec fn spec_opt_res_models<T: DeepView>(
    r: Result<Option<T>, Error>,
    m: Result<Option<T::V>, ErrorV>,
) -> bool {
    match r {
        Ok(Some(v)) => m matches Ok(mo) && mo matches Some(mv) && v.deep_view() == mv,
        Ok(None) => m matches Ok(mo) && mo is None,
        Err(e) => m matches Err(me) && e@ == me,
    }
}

/// How a result models a fetched sequence of items.
pub open spec fn spec_seq_res_models<T: DeepView>(
    r: Result<Vec<T>, Error>,
    m: Result<Seq<T::V>, ErrorV>,
) -> bool {
    match r {
        Ok(v) => m matches Ok(mv) && v.deep_view() == mv,
        Err(e) => m matches Err(me) && e@ == me,
    }
}

/// How a result models a generated identifier.
pub open spec fn spec_id_res_models(r: Result<Id, Error>, m: Result<u64, ErrorV>) -> bool {
    match r {
        Ok(id) => m matches Ok(mv) && id.0 == mv,
        Err(e) => m matches Err(me) && e@ == me,
    }
}

/// What the fetch-one-optional operation yields from an execution outcome:
/// zero rows is `Ok(None)` — never `NotFound`, that translation belongs to
/// the handler layer — and with one or more rows only the first is decoded;
/// the rest are silently ignored, the documented single-result convention.
pub open spec fn spec_fetch_item_opt<T: FromRow>(outcome: Result<Seq<Row>, DbCauseV>) -> Result<
    Option<T::V>,
    ErrorV,
> {
    match outcome {
        Err(c) => Err(ErrorV::QueryFailure { context: "loading item"@, cause: c }),
        Ok(rows) => {
            if rows.len() == 0 {
                Ok(None)
            } else {
                match T::spec_decode(rows[0]@) {
                    Ok(v) => Ok(Some(v)),
                    Err(e) => Err(e),
                }
            }
        },
    }
}

/// An execution that returned zero rows yields `Ok(None)`, never a
/// `NotFound`: that translation happens only in the handler layer.
pub proof fn lemma_fetch_item_opt_empty<T: FromRow>(outcome: Result<Seq<Row>, DbCauseV>)
    requires
        outcome matches Ok(rows) && rows.len() == 0,
    ensures
        spec_fetch_item_opt::<T>(outcome) == Ok::<Option<T::V>, ErrorV>(None),
{
}

/// The compute half of the fetch-one-optional operation: the caller has
/// executed the statement and hands in the outcome.
pub fn fetch_item_opt<T: FromRow>(outcome: Result<Vec<Row>, DbCause>) -> (r: Result<
    Option<T>,
    Error,
>)
    ensures
        spec_opt_res_models::<T>(r, spec_fetch_item_opt::<T>(spec_outcome(outcome))),
{
    match outcome {
        Err(c) => Err(Error::query_failure("loading item", c)),
        Ok(rows) => {
            if rows.len() == 0 {
                Ok(None)
            } else {
                match T::from_row(&rows[0]) {
                    Ok(v) => Ok(Some(v)),
                    Err(e) => Err(e),
                }
            }
        },
    }
}

/// What the fetch-many operation yields from an execution outcome: every
/// returned row decoded in result order, or the first failure alone.
pub open spec fn spec_fetch_items<T: FromRow>(outcome: Result<Seq<Row>, DbCauseV>) -> Result<
    Seq<T::V>,
    ErrorV,
> {
    match outcome {
        Err(c) => Err(ErrorV::QueryFailure { context: "loading items"@, cause: c }),
        Ok(rows) => spec_decode_rows::<T>(rows),
    }
}

/// Over rows where row `k` is the first that fails to decode, the whole
/// fetch yields that single decode-classified failure and no partial
/// sequence.
pub proof fn lemma_fetch_items_fail_fast<T: FromRow>(rows: Seq<Row>, k: int)
    requires
        0 <= k < rows.len(),
        forall|j: int| 0 <= j < k ==> spec_row_decodes::<T>(rows[j]),
        !spec_row_decodes::<T>(rows[k]),
    ensures
        spec_fetch_items::<T>(Ok(rows)) == Err::<Seq<T::V>, ErrorV>(
            T::spec_decode(rows[k]@)->Err_0,
        ),
        spec_fetch_items::<T>(Ok(rows))->Err_0 matches ErrorV::DecodeFailure { .. },
{
    lemma_decode_rows_first_err::<T>(rows, k);
    T::lemma_decode_error_is_decode_failure(rows[k]@);
}

/// The compute half of the fetch-many operation: the caller has executed
/// the statement and hands in the outcome.
pub fn fetch_items<T: FromRow>(outcome: Result<Vec<Row>, DbCause>) -> (r: Result<Vec<T>, Error>)
    ensures
        spec_seq_res_models::<T>(r, spec_fetch_items::<T>(spec_outcome(outcome))),
{
    let rows = match outcome {
        Err(c) => {
            return Err(Error::query_failure("loading items", c));
        },
        Ok(rows) => rows,
    };
    let mut items: Vec<T> = Vec::new();
    let mut i: usize = 0;
    while i < rows.len()
        invariant
            spec_outcome(outcome) == Ok::<Seq<Row>, DbCauseV>(rows@),
            i <= rows@.len(),
            items@.len() == i,
            forall|j: int| 0 <= j < i ==> spec_row_decodes::<T>(#[trigger] rows@[j]),
            forall|j: int|
                0 <= j < i ==> #[trigger] items@[j].deep_view() == spec_decoded::<T>(rows@[j]),
        decreases rows@.len() - i,
    {
        match T::from_row(&rows[i]) {
            Ok(v) => {
                items.push(v);
                proof {
                    assert(items@[i as int] == v);
                }
            },
            Err(e) => {
                proof {
                    lemma_decode_rows_first_err::<T>(rows@, i as int);
                }
                return Err(e);
            },
        }
        i += 1;
    }
    proof {
        lemma_decode_rows_all_ok::<T>(rows@);
        assert(items.deep_view() =~= Seq::new(rows@.len(), |j: int| spec_decoded::<T>(rows@[j])));
    }
    Ok(items)
}

/// The fixed statement of the fetch-all-of-table convenience operation,
/// equal to fetching every row of the type's table with no parameters.
pub fn select_all_statement<T: Table>() -> (s: String)
    ensures
        s@ == "SELECT * FROM "@ + T::spec_table_name(),
{
    let mut s = String::from_str("SELECT * FROM ");
    s.append(T::table_name());
    s
}

/// How an insert failure is classified: a uniqueness-constraint report from
/// the storage layer becomes `NonUniqueViolation` naming the contract's
/// table and unique field; any other failure — and a uniqueness report for
/// a type that declares no unique field — is a `QueryFailure` whose context
/// names the table being saved.
pub open spec fn spec_insert_error<T: IntoInsert>(c: DbCauseV) -> ErrorV {
    let general = ErrorV::QueryFailure {
        context: "saving "@ + T::spec_table_name(),
        cause: c,
    };
    match T::spec_name_field() {
        Some(f) => {
            if spec_is_unique_violation(c) {
                ErrorV::NonUniqueViolation { table: T::spec_table_name(), field: f }
            } else {
                general
            }
        },
        None => general,
    }
}

/// What the insert operation yields from an execution outcome: the
/// storage-generated identifier on success, a classified failure otherwise.
pub open spec fn spec_insert<T: IntoInsert>(outcome: Result<u64, DbCauseV>) -> Result<u64, ErrorV> {
    match outcome {
        Ok(id) => Ok(id),
        Err(c) => Err(spec_insert_error::<T>(c)),
    }
}

/// When concurrent inserts race on the same unique value, the storage layer
/// arbitrates: exactly one statement succeeds and every loser is reported
/// with SQLSTATE 23505. The insert operation turns exactly that report into
/// `NonUniqueViolation` over the contract's table and unique field.
pub proof fn lemma_insert_unique_violation<T: IntoInsert>(c: DbCauseV)
    requires
        spec_is_unique_violation(c),
        T::spec_name_field() is Some,
    ensures
        spec_insert::<T>(Err(c)) == Err::<u64, ErrorV>(
            ErrorV::NonUniqueViolation {
                table: T::spec_table_name(),
                field: T::spec_name_field()->Some_0,
            },
        ),
{
}

/// The compute half of the insert operation: the caller has executed the
/// contract's insert statement with the contract's parameters and hands in
/// the outcome.
pub fn insert<T: IntoInsert>(outcome: Result<u64, DbCause>) -> (r: Result<Id, Error>)
    ensures
        spec_id_res_models(r, spec_insert::<T>(spec_id_outcome(outcome))),
{
    match outcome {
        Ok(id) => Ok(Id::new(id)),
        Err(cause) => {
            if cause.is_unique_violation() {
                match T::name_field() {
                    Some(f) => Err(
                        Error::NonUniqueViolation {
                            table: String::from_str(T::table_name()),
                            field: String::from_str(f),
                        },
                    ),
                    None => Err(saving_failure::<T>(cause)),
                }
            } else {
                Err(saving_failure::<T>(cause))
            }
        },
    }
}

/// A `QueryFailure` whose context names the table being saved.
fn saving_failure<T: Table>(cause: DbCause) -> (e: Error)
    ensures
        e@ == (ErrorV::QueryFailure { context: "saving "@ + T::spec_table_name(), cause: cause@ }),
{
    let mut context = String::from_str("saving ");
    context.append(T::table_name());
    Error::QueryFailure { context, cause }
}

} // verus!
