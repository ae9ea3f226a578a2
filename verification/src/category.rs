use vstd::prelude::*;
use vstd::string::StringExecFns;
use crate::error::{Error, ErrorV};
use crate::id::Id;
use crate::sql::{spec_count_dollars_to, Column, FromRow, IntoInsert, Row, SqlValue, Table};

verus! {

/// The domain record of this service: a category with a storage-generated
/// identifier and a name that is unique across all categories. Uniqueness is
/// enforced by the storage layer; a duplicate insert is surfaced as a
/// `NonUniqueViolation`.
#[derive(Clone, Debug)]
pub struct Category {
    pub id: Id,
    pub name: String,
}

/// Mathematical model of a `Category`.
#[verifier::ext_equal]
pub struct CategoryV {
    pub id: u64,
    pub name: Seq<char>,
}

impl DeepView for Category {
    type V = CategoryV;

    open spec fn deep_view(&self) -> CategoryV {
        CategoryV { id: self.id.0, name: self.name@ }
    }
}

impl Category {
    /// A fresh record, before the storage layer has assigned it an
    /// identifier; inserting reads only the name.
    pub fn new(name: String) -> (r: Category)
        ensures
            r.deep_view() == (CategoryV { id: 0, name: name@ }),
    {
        Category { id: Id(0), name }
    }
}

impl FromRow for Category {
    /// A category row holds exactly the columns `id` (a non-negative
    /// bigint) and `name` (text), in this order, as the table schema
    /// declares them; anything else is a decode failure.
    open spec fn spec_decode(row: Seq<Column>) -> Result<CategoryV, ErrorV> {
        if row.len() != 2 {
            Err(
                ErrorV::DecodeFailure {
                    context: "a Category row must have exactly the columns id, name"@,
                },
            )
        } else if !(row[0].name@ == "id"@ && row[0].value matches SqlValue::BigInt(_)) {
            Err(ErrorV::DecodeFailure { context: "column 0 must be a bigint named id"@ })
        } else if row[0].value->BigInt_0 < 0 {
            Err(ErrorV::DecodeFailure { context: "column id must not be negative"@ })
        } else if !(row[1].name@ == "name"@ && row[1].value matches SqlValue::Text(_)) {
            Err(ErrorV::DecodeFailure { context: "column 1 must be text named name"@ })
        } else {
            Ok(CategoryV { id: row[0].value->BigInt_0 as u64, name: row[1].value->Text_0@ })
        }
    }

    proof fn lemma_decode_error_is_decode_failure(row: Seq<Column>) {
    }

    fn from_row(row: &Row) -> (r: Result<Self, Error>) {
        if row.cols.len() != 2 {
            return Err(
                Error::decode_failure("a Category row must have exactly the columns id, name"),
            );
        }
        let id_name = String::from_str("id");
        if !(row.cols[0].name == id_name) {
            return Err(Error::decode_failure("column 0 must be a bigint named id"));
        }
        let id_val: i64 = match &row.cols[0].value {
            SqlValue::BigInt(v) => *v,
            _ => {
                return Err(Error::decode_failure("column 0 must be a bigint named id"));
            },
        };
        if id_val < 0 {
            return Err(Error::decode_failure("column id must not be negative"));
        }
        let name_name = String::from_str("name");
        if !(row.cols[1].name == name_name) {
            return Err(Error::decode_failure("column 1 must be text named name"));
        }
        let name_val: String = match &row.cols[1].value {
            SqlValue::Text(s) => s.clone(),
            _ => {
                return Err(Error::decode_failure("column 1 must be text named name"));
            },
        };
        Ok(Category { id: Id(id_val as u64), name: name_val })
    }
}

impl Table for Category {
    open spec fn spec_table_name() -> Seq<char> {
        "Category"@
    }

    fn table_name() -> (r: &'static str) {
        "Category"
    }
}

impl IntoInsert for Category {
    open spec fn spec_name_field() -> Option<Seq<char>> {
        Some("name"@)
    }

    open spec fn spec_insert_stmt() -> Seq<char> {
        "INSERT INTO Category (name) VALUES ($1) RETURNING id"@
    }

    open spec fn spec_insert_params(self) -> Seq<SqlValue> {
        seq![SqlValue::Text(self.name)]
    }

    fn name_field() -> (r: Option<&'static str>) {
        Some("name")
    }

    fn insert_stmt() -> (r: &'static str) {
        "INSERT INTO Category (name) VALUES ($1) RETURNING id"
    }

    fn insert_params(&self) -> (r: Vec<SqlValue>) {
        let mut v: Vec<SqlValue> = Vec::new();
        v.push(SqlValue::Text(self.name.clone()));
        proof {
            assert(v@ =~= seq![SqlValue::Text(self.name)]);
        }
        v
    }

    proof fn lemma_params_match_placeholders(&self) {
        reveal_strlit("INSERT INTO Category (name) VALUES ($1) RETURNING id");
        let s = Self::spec_insert_stmt();
        assert(spec_count_dollars_to(s, s.len() as int) == 1) by {
            reveal_with_fuel(spec_count_dollars_to, 60);
        }
    }
}

/// Round trip through the storage layer, at the contract level: inserting
/// `c` binds exactly its name, and once the storage has assigned the
/// generated identifier `id`, the table row it keeps — `id` and the bound
/// name, under the schema's column names — decodes back to a category
/// whose identifier is the returned `id` and whose name is the inserted
/// one.
pub proof fn lemma_category_round_trip(c: Category, row: Seq<Column>, id: i64)
    requires
        0 <= id,
        row.len() == 2,
        row[0].name@ == "id"@,
        row[0].value == SqlValue::BigInt(id),
        row[1].name@ == "name"@,
        row[1].value == SqlValue::Text(c.name),
    ensures
        c.spec_insert_params() == seq![SqlValue::Text(c.name)],
        Category::spec_decode(row) == Ok::<CategoryV, ErrorV>(
            CategoryV { id: id as u64, name: c.name@ },
        ),
{
}

} // verus!
