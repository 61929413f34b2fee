use vstd::prelude::*;

use crate::coerce::{cell_model, coerce, text_attempt_view, CellModel, CoercedValue, TypedValue};

verus! {

/// Fixed message of a statement that is empty once trimmed.
pub const EMPTY_QUERY_MESSAGE: &'static str = "Empty query";

/// Status of a successful execution.
pub const STATUS_OK: u16 = 200;

/// Status of a failure caused by the caller's statement.
pub const STATUS_BAD_REQUEST: u16 = 400;

/// Whether `char::is_whitespace` holds of a character (Unicode White_Space).
pub uninterp spec fn is_white_space(c: char) -> bool;

/// `t` is a slice of `s` with only white space before and after it.
pub open spec fn is_trim_of(s: Seq<char>, t: Seq<char>) -> bool {
    exists|i: int|
        #![trigger s.subrange(i, i + t.len())]
        0 <= i && i + t.len() <= s.len() && t == s.subrange(i, i + t.len())
            && (forall|k: int| 0 <= k < i ==> is_white_space(#[trigger] s[k]))
            && (forall|k: int| i + t.len() <= k < s.len() ==> is_white_space(#[trigger] s[k]))
}

pub open spec fn all_white_space(s: Seq<char>) -> bool {
    forall|k: int| 0 <= k < s.len() ==> is_white_space(#[trigger] s[k])
}

/// Relies on `str::trim`: the slice of `s` with the leading and trailing
/// characters removed for which `char::is_whitespace` holds.
#[verifier::external_body]
fn trim<'a>(s: &'a str) -> (r: &'a str)
    ensures
        is_trim_of(s@, r@),
        r@.len() > 0 ==> !is_white_space(r@[0]) && !is_white_space(r@[r@.len() - 1]),
{
    s.trim()
}

/// A trimmed statement is empty exactly when every character is white space.
proof fn lemma_trim_empty_iff_white(s: Seq<char>, t: Seq<char>)
    requires
        is_trim_of(s, t),
        t.len() > 0 ==> !is_white_space(t[0]),
    ensures
        t.len() == 0 <==> all_white_space(s),
{
    let i = choose|i: int|
        #![trigger s.subrange(i, i + t.len())]
        0 <= i && i + t.len() <= s.len() && t == s.subrange(i, i + t.len())
            && (forall|k: int| 0 <= k < i ==> is_white_space(#[trigger] s[k]))
            && (forall|k: int| i + t.len() <= k < s.len() ==> is_white_space(#[trigger] s[k]));
    if t.len() > 0 {
        assert(t[0] == s[i]);
    } else {
        assert forall|k: int| 0 <= k < s.len() implies is_white_space(#[trigger] s[k]) by {
            if k >= i {
                assert(i + t.len() <= k);
            }
        }
    }
}

/// The single field of an execution request: the raw statement text.
pub struct SqlRequest {
    pub query: String,
}

/// A failure reported to the caller.
pub struct SqlError {
    pub error: String,
}

/// Checks a request before anything is sent to the database: the statement
/// is trimmed, and an empty one is refused with the fixed message.
pub fn prepare(req: &SqlRequest) -> (r: Result<String, SqlError>)
    ensures
        r is Err <==> all_white_space(req.query@),
        r matches Ok(q) ==> is_trim_of(req.query@, q@) && q@.len() > 0 && !is_white_space(q@[0])
            && !is_white_space(q@[q@.len() - 1]),
        r matches Err(e) ==> e.error@ == EMPTY_QUERY_MESSAGE@,
{
    let q = trim(req.query.as_str());
    proof {
        lemma_trim_empty_iff_white(req.query@, q@);
    }
    if q.is_empty() {
        Err(SqlError { error: EMPTY_QUERY_MESSAGE.to_owned() })
    } else {
        Ok(q.to_owned())
    }
}

/// A column of the result set: its name and the backend's type tag.
pub struct ColumnDescriptor {
    pub name: String,
    pub type_tag: String,
}

/// The outcomes of the decode attempts made on one cell: the typed attempt
/// chosen by the column's tag (`None` when it failed or none was made), and
/// the textual attempt, made only when the typed one did not succeed.
pub struct CellProbe {
    pub typed: Option<Option<TypedValue>>,
    pub text: Option<Option<String>>,
}

/// One row as returned by the backend: its columns and the probes of its cells.
pub struct RawRow {
    pub columns: Vec<ColumnDescriptor>,
    pub cells: Vec<CellProbe>,
}

pub open spec fn probe_model(p: CellProbe) -> CellModel {
    cell_model(p.typed, text_attempt_view(p.text))
}

/// The value at column `j` of a row; a row shorter than the schema reads null.
pub open spec fn row_cell(row: RawRow, j: int) -> CellModel {
    if 0 <= j < row.cells@.len() {
        probe_model(row.cells@[j])
    } else {
        CellModel::Null
    }
}

/// Column names come from the first row; with no row there is no schema.
pub open spec fn discovered(rows: Seq<RawRow>) -> Seq<Seq<char>> {
    if rows.len() == 0 {
        Seq::empty()
    } else {
        rows[0].columns@.map_values(|c: ColumnDescriptor| c.name@)
    }
}

pub open spec fn coerced_rows(rows: Seq<RawRow>) -> Seq<Seq<CellModel>> {
    Seq::new(rows.len(), |i: int| Seq::new(discovered(rows).len(), |j: int| row_cell(rows[i], j)))
}

/// A successful execution: the schema, the coerced rows, the row count and
/// the wall-clock duration in nanoseconds.
pub struct SqlResponse {
    pub columns: Vec<String>,
    pub rows: Vec<Vec<CoercedValue>>,
    pub row_count: usize,
    pub duration_ns: u64,
}

impl SqlResponse {
    pub open spec fn column_names(&self) -> Seq<Seq<char>> {
        self.columns@.map_values(|s: String| s@)
    }

    pub open spec fn row_models(&self) -> Seq<Seq<CellModel>> {
        self.rows@.map_values(|r: Vec<CoercedValue>| r@.map_values(|v: CoercedValue| v@))
    }
}

/// Lists the column names of the first row, in order; none for an empty
/// result set.
pub fn discover(rows: &Vec<RawRow>) -> (r: Vec<String>)
    ensures
        r@.map_values(|s: String| s@) == discovered(rows@),
{
    let mut out: Vec<String> = Vec::new();
    if rows.len() == 0 {
        assert(out@.map_values(|s: String| s@) =~= discovered(rows@));
        return out;
    }
    let cols = &rows[0].columns;
    let mut k: usize = 0;
    while k < cols.len()
        invariant
            rows@.len() > 0,
            cols == rows@[0].columns,
            k <= cols@.len(),
            out@.len() == k,
            forall|m: int| 0 <= m < k ==> (#[trigger] out@[m])@ == cols@[m].name@,
        decreases cols@.len() - k,
    {
        out.push(cols[k].name.clone());
        k = k + 1;
    }
    assert(out@.map_values(|s: String| s@) =~= discovered(rows@));
    out
}

/// Coerces the first `width` cells of a row.
pub fn coerce_row(row: &RawRow, width: usize) -> (r: Vec<CoercedValue>)
    ensures
        r@.map_values(|v: CoercedValue| v@) == Seq::new(width as nat, |j: int| row_cell(*row, j)),
{
    let mut out: Vec<CoercedValue> = Vec::new();
    let mut j: usize = 0;
    while j < width
        invariant
            j <= width,
            out@.len() == j,
            forall|m: int| 0 <= m < j ==> (#[trigger] out@[m])@ == row_cell(*row, m),
        decreases width - j,
    {
        let v = if j < row.cells.len() {
            coerce(&row.cells[j].typed, &row.cells[j].text)
        } else {
            CoercedValue::Null
        };
        out.push(v);
        j = j + 1;
    }
    assert(out@.map_values(|v: CoercedValue| v@) =~= Seq::new(width as nat, |j: int| row_cell(*row, j)));
    out
}

/// Builds the response of a statement that succeeded: the schema of the
/// first row, every row coerced cell by cell to that width, and the count.
pub fn assemble(rows: &Vec<RawRow>, duration_ns: u64) -> (r: SqlResponse)
    ensures
        r.column_names() == discovered(rows@),
        r.row_models() == coerced_rows(rows@),
        r.row_count == rows@.len(),
        r.rows@.len() == rows@.len(),
        forall|i: int| 0 <= i < r.rows@.len() ==> (#[trigger] r.rows@[i])@.len() == r.columns@.len(),
        rows@.len() == 0 ==> r.columns@.len() == 0 && r.rows@.len() == 0,
        r.duration_ns == duration_ns,
{
    let columns = discover(rows);
    let ghost names = discovered(rows@);
    assert(columns@.len() == names.len()) by {
        assert(columns@.map_values(|s: String| s@).len() == columns@.len());
    }
    let width = columns.len();
    let mut out: Vec<Vec<CoercedValue>> = Vec::new();
    let mut i: usize = 0;
    while i < rows.len()
        invariant
            i <= rows@.len(),
            width == names.len(),
            out@.len() == i,
            forall|m: int|
                0 <= m < i ==> (#[trigger] out@[m])@.map_values(|v: CoercedValue| v@) == Seq::new(
                    width as nat,
                    |j: int| row_cell(rows@[m], j),
                ),
        decreases rows@.len() - i,
    {
        let row = coerce_row(&rows[i], width);
        out.push(row);
        i = i + 1;
    }
    let r = SqlResponse { columns, rows: out, row_count: rows.len(), duration_ns };
    assert forall|m: int| 0 <= m < r.rows@.len() implies (#[trigger] r.rows@[m])@.len()
        == r.columns@.len() by {
        assert(r.rows@[m]@.map_values(|v: CoercedValue| v@).len() == r.rows@[m]@.len());
    }
    assert(r.row_models() =~= coerced_rows(rows@));
    r
}

/// The outcome of one execution.
pub enum ExecutionOutcome {
    Success(SqlResponse),
    Failure(SqlError),
}

impl ExecutionOutcome {
    /// The transport status: every failure is the caller's statement.
    pub fn status(&self) -> (r: u16)
        ensures
            r == (match self {
                ExecutionOutcome::Success(_) => STATUS_OK,
                ExecutionOutcome::Failure(_) => STATUS_BAD_REQUEST,
            }),
    {
        match self {
            ExecutionOutcome::Success(_) => STATUS_OK,
            ExecutionOutcome::Failure(_) => STATUS_BAD_REQUEST,
        }
    }
}

/// Settles an execution from what the database returned: the rows, or its
/// diagnostic text, which is passed on unmodified.
pub fn finish(result: Result<Vec<RawRow>, String>, duration_ns: u64) -> (r: ExecutionOutcome)
    ensures
        match result {
            Ok(rows) => match r {
                ExecutionOutcome::Success(resp) => resp.column_names() == discovered(rows@)
                    && resp.row_models() == coerced_rows(rows@) && resp.row_count == rows@.len()
                    && resp.duration_ns == duration_ns,
                ExecutionOutcome::Failure(_) => false,
            },
            Err(message) => match r {
                ExecutionOutcome::Success(_) => false,
                ExecutionOutcome::Failure(e) => e.error@ == message@,
            },
        },
{
    match result {
        Ok(rows) => ExecutionOutcome::Success(assemble(&rows, duration_ns)),
        Err(message) => ExecutionOutcome::Failure(SqlError { error: message }),
    }
}

/// Settles a request refused before execution.
pub fn rejected(e: SqlError) -> (r: ExecutionOutcome)
    ensures
        r matches ExecutionOutcome::Failure(f) && f.error@ == e.error@,
{
    ExecutionOutcome::Failure(e)
}

} // verus!
