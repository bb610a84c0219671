//! Query construction and result shaping for the database browser: safe
//! quoting of SQL identifiers, the paginated table queries built from them,
//! the wire-type-to-variant mapping of result cells, and the assembly of a
//! well-formed query result.

use vstd::prelude::*;
use vstd::string::StrSliceExecFns;
use vstd::string::StringExecFns;

use crate::database::DbColumn;
use crate::errors::DatabaseError;
use crate::text::str_eq;

verus! {

/// `s` with every double-quote character doubled.
pub open spec fn escaped(s: Seq<char>) -> Seq<char>
    decreases s.len(),
{
    if s.len() == 0 {
        Seq::empty()
    } else {
        (if s[0] == '"' {
            seq!['"', '"']
        } else {
            seq![s[0]]
        }) + escaped(s.subrange(1, s.len() as int))
    }
}

/// `s` quoted as a SQL identifier: wrapped in double quotes, embedded double
/// quotes doubled.
pub open spec fn quoted(s: Seq<char>) -> Seq<char> {
    seq!['"'] + escaped(s) + seq!['"']
}

proof fn lemma_escaped_snoc(s: Seq<char>, c: char)
    ensures
        escaped(s.push(c)) =~= escaped(s) + (if c == '"' {
            seq!['"', '"']
        } else {
            seq![c]
        }),
    decreases s.len(),
{
    let unit = if c == '"' {
        seq!['"', '"']
    } else {
        seq![c]
    };
    if s.len() == 0 {
        assert(s.push(c)[0] == c);
        assert(s.push(c).subrange(1, s.push(c).len() as int) =~= Seq::<char>::empty());
        assert(escaped(Seq::<char>::empty()) =~= Seq::<char>::empty());
        assert(escaped(s.push(c)) =~= unit + escaped(Seq::<char>::empty()));
        assert(escaped(s) =~= Seq::<char>::empty());
        assert(escaped(s.push(c)) =~= escaped(s) + unit);
    } else {
        let t = s.push(c);
        assert(t[0] == s[0]);
        assert(t.subrange(1, t.len() as int) =~= s.subrange(1, s.len() as int).push(c));
        lemma_escaped_snoc(s.subrange(1, s.len() as int), c);
        assert(escaped(t) =~= escaped(s) + unit);
    }
}

/// Quotes a SQL identifier (a schema or table name) so that embedded quote
/// characters cannot end the identifier early: the name is wrapped in double
/// quotes and every double quote inside it is doubled.
pub fn quote_identifier(identifier: &str) -> (r: String)
    ensures
        r@ == quoted(identifier@),
{
    proof {
        reveal_strlit("\"");
        assert("\""@ =~= seq!['"']);
    }
    let n = identifier.unicode_len();
    let mut out = String::new();
    out.append("\"");
    let mut i: usize = 0;
    while i < n
        invariant
            i <= n,
            n == identifier@.len(),
            out@ == seq!['"'] + escaped(identifier@.take(i as int)),
            "\""@ =~= seq!['"'],
        decreases n - i,
    {
        let c = identifier.get_char(i);
        let piece = identifier.substring_char(i, i + 1);
        proof {
            assert(piece@ =~= seq![identifier@[i as int]]);
        }
        out.append(piece);
        if c == '"' {
            out.append(piece);
        }
        proof {
            lemma_escaped_snoc(identifier@.take(i as int), identifier@[i as int]);
            assert(identifier@.take(i + 1) =~= identifier@.take(i as int).push(
                identifier@[i as int],
            ));
            assert(out@ =~= seq!['"'] + escaped(identifier@.take(i + 1)));
        }
        i = i + 1;
    }
    proof {
        assert(identifier@.take(n as int) =~= identifier@);
    }
    out.append("\"");
    proof {
        assert(out@ =~= quoted(identifier@));
    }
    out
}

/// The paginated row query of one table, with both identifiers quoted and the
/// page bounds left as parameters.
pub open spec fn table_data_query_spec(schema: Seq<char>, table: Seq<char>) -> Seq<char> {
    "SELECT * FROM "@ + quoted(schema) + "."@ + quoted(table) + " LIMIT $1 OFFSET $2"@
}

/// Builds the paginated row query of one table.
pub fn table_data_query(schema: &str, table: &str) -> (q: String)
    ensures
        q@ == table_data_query_spec(schema@, table@),
{
    let mut q = "SELECT * FROM ".to_owned();
    let qs = quote_identifier(schema);
    q.append(qs.as_str());
    q.append(".");
    let qt = quote_identifier(table);
    q.append(qt.as_str());
    q.append(" LIMIT $1 OFFSET $2");
    proof {
        assert(q@ =~= table_data_query_spec(schema@, table@));
    }
    q
}

/// The bounded row-count query of one table, with both identifiers quoted.
pub open spec fn row_count_query_spec(schema: Seq<char>, table: Seq<char>) -> Seq<char> {
    "SELECT COUNT(*)::bigint FROM "@ + quoted(schema) + "."@ + quoted(table) + " LIMIT 1000000"@
}

/// Builds the bounded row-count query of one table.
pub fn row_count_query(schema: &str, table: &str) -> (q: String)
    ensures
        q@ == row_count_query_spec(schema@, table@),
{
    let mut q = "SELECT COUNT(*)::bigint FROM ".to_owned();
    let qs = quote_identifier(schema);
    q.append(qs.as_str());
    q.append(".");
    let qt = quote_identifier(table);
    q.append(qt.as_str());
    q.append(" LIMIT 1000000");
    proof {
        assert(q@ =~= row_count_query_spec(schema@, table@));
    }
    q
}

/// The variant a result cell is decoded into, chosen from the column's wire
/// type name.
#[derive(Debug, Clone, Copy, PartialEq, Eq, Structural)]
pub enum PgValueKind {
    /// `bool`.
    Bool,
    /// `int2` and `int4`.
    Integer,
    /// `int8`.
    BigInt,
    /// `float4` and `float8`.
    Float,
    /// The character types.
    Text,
    /// `json` and `jsonb`.
    Json,
    /// `timestamp` and `timestamptz`.
    Timestamp,
    /// `date`.
    Date,
    /// `uuid`.
    Uuid,
    /// `numeric`.
    Numeric,
    /// `_bool`.
    BoolArray,
    /// `_int2` and `_int4`.
    IntArray,
    /// `_int8`.
    BigIntArray,
    /// `_float4` and `_float8`.
    FloatArray,
    /// The character array types.
    TextArray,
    /// Any other array type.
    OtherArray,
    /// Anything else; decoded as text with a placeholder fallback.
    Other,
}

/// The wire-type-name-to-variant table. Array types are the names that start
/// with an underscore; unknown names fall through to `Other`, never fail.
pub open spec fn kind_of(name: Seq<char>) -> PgValueKind {
    if name == "bool"@ {
        PgValueKind::Bool
    } else if name == "int2"@ || name == "int4"@ {
        PgValueKind::Integer
    } else if name == "int8"@ {
        PgValueKind::BigInt
    } else if name == "float4"@ || name == "float8"@ {
        PgValueKind::Float
    } else if name == "text"@ || name == "varchar"@ || name == "bpchar"@ || name == "char"@ || name
        == "name"@ {
        PgValueKind::Text
    } else if name == "json"@ || name == "jsonb"@ {
        PgValueKind::Json
    } else if name == "timestamp"@ || name == "timestamptz"@ {
        PgValueKind::Timestamp
    } else if name == "date"@ {
        PgValueKind::Date
    } else if name == "uuid"@ {
        PgValueKind::Uuid
    } else if name == "numeric"@ {
        PgValueKind::Numeric
    } else if name == "_bool"@ {
        PgValueKind::BoolArray
    } else if name == "_int2"@ || name == "_int4"@ {
        PgValueKind::IntArray
    } else if name == "_int8"@ {
        PgValueKind::BigIntArray
    } else if name == "_float4"@ || name == "_float8"@ {
        PgValueKind::FloatArray
    } else if name == "_text"@ || name == "_varchar"@ || name == "_char"@ || name == "_bpchar"@ {
        PgValueKind::TextArray
    } else if name.len() > 0 && name[0] == '_' {
        PgValueKind::OtherArray
    } else {
        PgValueKind::Other
    }
}

/// Classifies a column's wire type name into the variant its cells are
/// decoded into.
pub fn classify_type(name: &str) -> (k: PgValueKind)
    ensures
        k == kind_of(name@),
{
    if str_eq(name, "bool") {
        PgValueKind::Bool
    } else if str_eq(name, "int2") || str_eq(name, "int4") {
        PgValueKind::Integer
    } else if str_eq(name, "int8") {
        PgValueKind::BigInt
    } else if str_eq(name, "float4") || str_eq(name, "float8") {
        PgValueKind::Float
    } else if str_eq(name, "text") || str_eq(name, "varchar") || str_eq(name, "bpchar") || str_eq(
        name,
        "char",
    ) || str_eq(name, "name") {
        PgValueKind::Text
    } else if str_eq(name, "json") || str_eq(name, "jsonb") {
        PgValueKind::Json
    } else if str_eq(name, "timestamp") || str_eq(name, "timestamptz") {
        PgValueKind::Timestamp
    } else if str_eq(name, "date") {
        PgValueKind::Date
    } else if str_eq(name, "uuid") {
        PgValueKind::Uuid
    } else if str_eq(name, "numeric") {
        PgValueKind::Numeric
    } else if str_eq(name, "_bool") {
        PgValueKind::BoolArray
    } else if str_eq(name, "_int2") || str_eq(name, "_int4") {
        PgValueKind::IntArray
    } else if str_eq(name, "_int8") {
        PgValueKind::BigIntArray
    } else if str_eq(name, "_float4") || str_eq(name, "_float8") {
        PgValueKind::FloatArray
    } else if str_eq(name, "_text") || str_eq(name, "_varchar") || str_eq(name, "_char") || str_eq(
        name,
        "_bpchar",
    ) {
        PgValueKind::TextArray
    } else {
        let n = name.unicode_len();
        if n > 0 && name.get_char(0) == '_' {
            PgValueKind::OtherArray
        } else {
            PgValueKind::Other
        }
    }
}

/// One decoded result cell: a tagged plain value. NULL stays an explicit
/// `Null`, never a zero value; floating-point and arbitrary-precision values
/// carry their decimal rendering, since the verified core holds no floats.
#[derive(Debug, Clone, PartialEq, Eq)]
pub enum CellValue {
    /// SQL NULL.
    Null,
    /// A boolean.
    Bool(bool),
    /// Any integer width.
    Int(i64),
    /// A floating-point or arbitrary-precision number, rendered in decimal.
    Float(String),
    /// Text, and every value decoded through its textual form.
    Text(String),
    /// An array of booleans.
    BoolArray(Vec<bool>),
    /// An array of integers.
    IntArray(Vec<i64>),
    /// An array of decimal renderings.
    FloatArray(Vec<String>),
    /// An array of texts.
    TextArray(Vec<String>),
}

/// The placeholder for a value of a type the decoder does not know:
/// `<name>`.
pub open spec fn placeholder_of(name: Seq<char>) -> Seq<char> {
    seq!['<'] + name + seq!['>']
}

/// The diagnostic cell put in place of a value whose wire type cannot be
/// decoded: its type name in angle brackets, as text.
pub fn fallback_cell(ty_name: &str) -> (c: CellValue)
    ensures
        c matches CellValue::Text(t) && t@ == placeholder_of(ty_name@),
{
    proof {
        reveal_strlit("<");
        reveal_strlit(">");
        assert("<"@ =~= seq!['<']);
        assert(">"@ =~= seq!['>']);
    }
    let mut t = "<".to_owned();
    t.append(ty_name);
    t.append(">");
    proof {
        assert(t@ =~= placeholder_of(ty_name@));
    }
    CellValue::Text(t)
}

/// One page of query results: the columns, the decoded rows, their count,
/// and the elapsed time.
#[derive(Debug, Clone, PartialEq, Eq)]
pub struct QueryResult {
    pub columns: Vec<DbColumn>,
    pub rows: Vec<Vec<CellValue>>,
    pub row_count: usize,
    pub execution_time_ms: u64,
}

/// Assembles a query result, guaranteeing its shape: the reported row count
/// is the number of rows, and every row has exactly one cell per column; a
/// ragged row set is refused instead of shipped.
pub fn build_query_result(
    columns: Vec<DbColumn>,
    rows: Vec<Vec<CellValue>>,
    execution_time_ms: u64,
) -> (r: Result<QueryResult, DatabaseError>)
    ensures
        match r {
            Ok(qr) => {
                &&& qr.columns == columns
                &&& qr.rows == rows
                &&& qr.row_count == rows@.len()
                &&& qr.execution_time_ms == execution_time_ms
                &&& forall|i: int| 0 <= i < rows@.len() ==> #[trigger] rows@[i]@.len() == columns@.len()
            },
            Err(DatabaseError::QueryError(_)) => exists|i: int|
                0 <= i < rows@.len() && #[trigger] rows@[i]@.len() != columns@.len(),
            Err(_) => false,
        },
{
    let ncols = columns.len();
    let nrows = rows.len();
    let mut i: usize = 0;
    while i < nrows
        invariant
            i <= nrows,
            nrows == rows@.len(),
            ncols == columns@.len(),
            forall|j: int| 0 <= j < i ==> #[trigger] rows@[j]@.len() == columns@.len(),
        decreases nrows - i,
    {
        if rows[i].len() != ncols {
            return Err(
                DatabaseError::QueryError("Query returned a row of unexpected width".to_owned()),
            );
        }
        i = i + 1;
    }
    let row_count = rows.len();
    Ok(QueryResult { columns, rows, row_count, execution_time_ms })
}

} // verus!

