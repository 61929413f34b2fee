//! Properties of the gateway that hold for every input.
use vstd::prelude::*;

use crate::coerce::{
    cell_model, decimal_in_range, decimal_text, float_bits_finite, CellModel, TypedValue,
};
use crate::gateway::{coerced_rows, discovered, RawRow, SqlResponse};

verus! {

/// Every coerced row has one value per discovered column, and there are as
/// many coerced rows as rows returned.
pub proof fn lemma_row_shape(rows: Seq<RawRow>)
    ensures
        coerced_rows(rows).len() == rows.len(),
        forall|i: int| 0 <= i < rows.len() ==> (#[trigger] coerced_rows(rows)[i]).len() == discovered(rows).len(),
{
}

/// A result set without rows has neither columns nor rows.
pub proof fn lemma_empty_result(rows: Seq<RawRow>)
    requires
        rows.len() == 0,
    ensures
        discovered(rows).len() == 0,
        coerced_rows(rows).len() == 0,
{
}

/// A cell of a decimal column is emitted as text (or null), never as a
/// number; a present decimal in range is its exact decimal text.
pub proof fn lemma_decimal_is_text(
    typed: Option<Option<TypedValue>>,
    text: Option<Option<Seq<char>>>,
)
    requires
        typed matches Some(Some(v)) ==> v is Decimal,
    ensures
        cell_model(typed, text) is Null || cell_model(typed, text) is Text,
        typed matches Some(Some(TypedValue::Decimal(d))) ==> (decimal_in_range(d) ==> cell_model(
            typed,
            text,
        ) == CellModel::Text(decimal_text(d.mantissa as int, d.scale as int))),
{
}

/// Two responses assembled from the same rows agree on columns and rows,
/// whatever their durations.
pub proof fn lemma_assembly_is_deterministic(rows: Seq<RawRow>, r1: SqlResponse, r2: SqlResponse)
    requires
        r1.column_names() == discovered(rows),
        r1.row_models() == coerced_rows(rows),
        r2.column_names() == discovered(rows),
        r2.row_models() == coerced_rows(rows),
    ensures
        r1.column_names() == r2.column_names(),
        r1.row_models() == r2.row_models(),
{
}

/// A cell of a column whose type has no typed decoder is its text when the
/// textual attempt succeeds, and null otherwise.
pub proof fn lemma_unknown_type_text_or_null(text: Option<Option<Seq<char>>>)
    ensures
        cell_model(None, text) == (match text {
            Some(Some(s)) => CellModel::Text(s),
            _ => CellModel::Null,
        }),
        cell_model(None, text) is Null || cell_model(None, text) is Text,
{
}

/// Every value emitted for a cell can be written as JSON: a float is always
/// finite.
pub proof fn lemma_cells_are_json_safe(
    typed: Option<Option<TypedValue>>,
    text: Option<Option<Seq<char>>>,
)
    ensures
        cell_model(typed, text) matches CellModel::Float(bits) ==> float_bits_finite(bits),
{
}

} // verus!
