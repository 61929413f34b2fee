use vstd::prelude::*;

use crate::text::text_eq;

verus! {

/// The decode strategy chosen for a column from its backend type tag.
#[derive(Clone, Copy, Debug, PartialEq, Eq, Structural)]
pub enum ColumnKind {
    Bool,
    SmallInt,
    Int,
    BigInt,
    Real,
    Double,
    Numeric,
    Date,
    Timestamp,
    TimestampTz,
    Other,
}

/// The fixed dispatch table from backend type tags to decode strategies.
pub open spec fn kind_of_tag(tag: Seq<char>) -> ColumnKind {
    if tag == "BOOL"@ {
        ColumnKind::Bool
    } else if tag == "INT2"@ {
        ColumnKind::SmallInt
    } else if tag == "INT4"@ {
        ColumnKind::Int
    } else if tag == "INT8"@ {
        ColumnKind::BigInt
    } else if tag == "FLOAT4"@ {
        ColumnKind::Real
    } else if tag == "FLOAT8"@ {
        ColumnKind::Double
    } else if tag == "NUMERIC"@ || tag == "MONEY"@ {
        ColumnKind::Numeric
    } else if tag == "DATE"@ {
        ColumnKind::Date
    } else if tag == "TIMESTAMP"@ {
        ColumnKind::Timestamp
    } else if tag == "TIMESTAMPTZ"@ {
        ColumnKind::TimestampTz
    } else {
        ColumnKind::Other
    }
}

/// Picks the decode strategy for a backend type tag; unknown tags go
/// straight to the textual fallback.
pub fn column_kind(tag: &str) -> (r: ColumnKind)
    ensures
        r == kind_of_tag(tag@),
{
    if text_eq(tag, "BOOL") {
        ColumnKind::Bool
    } else if text_eq(tag, "INT2") {
        ColumnKind::SmallInt
    } else if text_eq(tag, "INT4") {
        ColumnKind::Int
    } else if text_eq(tag, "INT8") {
        ColumnKind::BigInt
    } else if text_eq(tag, "FLOAT4") {
        ColumnKind::Real
    } else if text_eq(tag, "FLOAT8") {
        ColumnKind::Double
    } else if text_eq(tag, "NUMERIC") || text_eq(tag, "MONEY") {
        ColumnKind::Numeric
    } else if text_eq(tag, "DATE") {
        ColumnKind::Date
    } else if text_eq(tag, "TIMESTAMP") {
        ColumnKind::Timestamp
    } else if text_eq(tag, "TIMESTAMPTZ") {
        ColumnKind::TimestampTz
    } else {
        ColumnKind::Other
    }
}

} // verus!
