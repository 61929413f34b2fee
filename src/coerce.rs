use vstd::prelude::*;

verus! {

/// Largest magnitude of a decimal mantissa (96 bits).
pub const DECIMAL_MAX_MANTISSA: i128 = 0xFFFF_FFFF_FFFF_FFFF_FFFF_FFFF;

/// Largest number of fractional digits of a decimal.
pub const DECIMAL_MAX_SCALE: u32 = 28;

/// Smallest year of a calendar date.
pub const DATE_MIN_YEAR: i32 = -262143;

/// Largest year of a calendar date.
pub const DATE_MAX_YEAR: i32 = 262142;

/// An exact decimal: `mantissa / 10^scale`.
#[derive(Clone, Copy, Debug, PartialEq, Eq, Structural)]
pub struct DecimalValue {
    pub mantissa: i128,
    pub scale: u32,
}

/// A proleptic Gregorian calendar date.
#[derive(Clone, Copy, Debug, PartialEq, Eq, Structural)]
pub struct CalendarDate {
    pub year: i32,
    pub month: u32,
    pub day: u32,
}

/// A date with a time of day; `nanosecond` may reach into a second
/// second only to mark a leap second at `second == 59`.
#[derive(Clone, Copy, Debug, PartialEq, Eq, Structural)]
pub struct DateTimeValue {
    pub date: CalendarDate,
    pub hour: u32,
    pub minute: u32,
    pub second: u32,
    pub nanosecond: u32,
}

/// A non-null value decoded with the strategy of its column's type tag.
#[derive(Clone, Copy, Debug, PartialEq, Eq, Structural)]
pub enum TypedValue {
    Bool(bool),
    /// Any signed integer width, widened.
    Integer(i64),
    /// An IEEE-754 binary64 value, by its bit pattern.
    Float(u64),
    Decimal(DecimalValue),
    Date(CalendarDate),
    /// A timestamp without time zone.
    Timestamp(DateTimeValue),
    /// An instant, normalized to UTC.
    TimestampUtc(DateTimeValue),
}

/// The JSON-safe value emitted for one cell.
#[derive(Debug, PartialEq)]
pub enum CoercedValue {
    Null,
    Bool(bool),
    Integer(i64),
    /// A finite IEEE-754 binary64 value, by its bit pattern.
    Float(u64),
    Text(String),
}

/// What a `CoercedValue` is, with text as a sequence of characters.
pub enum CellModel {
    Null,
    Bool(bool),
    Integer(i64),
    Float(u64),
    Text(Seq<char>),
}

impl View for CoercedValue {
    type V = CellModel;

    open spec fn view(&self) -> CellModel {
        match self {
            CoercedValue::Null => CellModel::Null,
            CoercedValue::Bool(b) => CellModel::Bool(*b),
            CoercedValue::Integer(i) => CellModel::Integer(*i),
            CoercedValue::Float(bits) => CellModel::Float(*bits),
            CoercedValue::Text(s) => CellModel::Text(s@),
        }
    }
}

/// The text that rust_decimal prints for `mantissa / 10^scale`.
pub uninterp spec fn decimal_text(mantissa: int, scale: int) -> Seq<char>;

/// The text that chrono prints for a calendar date.
pub uninterp spec fn date_text(year: int, month: int, day: int) -> Seq<char>;

/// The text that chrono prints for a date and time without time zone.
pub uninterp spec fn timestamp_text(
    year: int,
    month: int,
    day: int,
    hour: int,
    minute: int,
    second: int,
    nanosecond: int,
) -> Seq<char>;

/// The text that chrono prints for an instant in UTC.
pub uninterp spec fn utc_timestamp_text(
    year: int,
    month: int,
    day: int,
    hour: int,
    minute: int,
    second: int,
    nanosecond: int,
) -> Seq<char>;

pub open spec fn decimal_in_range(d: DecimalValue) -> bool {
    &&& d.scale <= DECIMAL_MAX_SCALE
    &&& -DECIMAL_MAX_MANTISSA <= d.mantissa <= DECIMAL_MAX_MANTISSA
}

pub open spec fn is_leap_year(y: int) -> bool {
    (y % 4 == 0 && y % 100 != 0) || y % 400 == 0
}

pub open spec fn days_in_month(y: int, m: int) -> int {
    if m == 2 {
        if is_leap_year(y) {
            29
        } else {
            28
        }
    } else if m == 4 || m == 6 || m == 9 || m == 11 {
        30
    } else {
        31
    }
}

pub open spec fn date_is_valid(d: CalendarDate) -> bool {
    &&& DATE_MIN_YEAR <= d.year <= DATE_MAX_YEAR
    &&& 1 <= d.month <= 12
    &&& 1 <= d.day <= days_in_month(d.year as int, d.month as int)
}

pub open spec fn time_is_valid(t: DateTimeValue) -> bool {
    &&& t.hour < 24
    &&& t.minute < 60
    &&& t.second < 60
    &&& (t.nanosecond < 1_000_000_000 || (t.second == 59 && t.nanosecond < 2_000_000_000))
}

pub open spec fn datetime_is_valid(t: DateTimeValue) -> bool {
    date_is_valid(t.date) && time_is_valid(t)
}

/// Relies on rust_decimal's `Decimal::try_from_i128_with_scale`, which
/// refuses a scale over 28 or a mantissa over 96 bits, and on `Decimal`'s
/// `Display`, which depends on the mantissa and scale alone.
#[verifier::external_body]
fn render_decimal(d: DecimalValue) -> (r: Option<String>)
    ensures
        r is Some <==> decimal_in_range(d),
        r matches Some(s) ==> s@ == decimal_text(d.mantissa as int, d.scale as int),
{
    rust_decimal::Decimal::try_from_i128_with_scale(d.mantissa, d.scale).ok().map(|v| v.to_string())
}

/// Relies on chrono's `NaiveDate::from_ymd_opt`, which refuses a day that
/// does not exist and a year out of its range, and on `NaiveDate`'s
/// `Display`.
#[verifier::external_body]
fn render_date(d: CalendarDate) -> (r: Option<String>)
    ensures
        r is Some <==> date_is_valid(d),
        r matches Some(s) ==> s@ == date_text(d.year as int, d.month as int, d.day as int),
{
    Some(chrono::NaiveDate::from_ymd_opt(d.year, d.month, d.day)?.to_string())
}

/// Relies on chrono's `NaiveDate::and_hms_nano_opt`, which refuses an
/// invalid time of day, and on `NaiveDateTime`'s `Display`.
#[verifier::external_body]
fn render_timestamp(t: DateTimeValue) -> (r: Option<String>)
    ensures
        r is Some <==> datetime_is_valid(t),
        r matches Some(s) ==> s@ == timestamp_text(
            t.date.year as int,
            t.date.month as int,
            t.date.day as int,
            t.hour as int,
            t.minute as int,
            t.second as int,
            t.nanosecond as int,
        ),
{
    let date = chrono::NaiveDate::from_ymd_opt(t.date.year, t.date.month, t.date.day)?;
    Some(date.and_hms_nano_opt(t.hour, t.minute, t.second, t.nanosecond)?.to_string())
}

/// Relies on chrono's `NaiveDateTime::and_utc` and on the `Display` of
/// `DateTime<Utc>`.
#[verifier::external_body]
fn render_utc_timestamp(t: DateTimeValue) -> (r: Option<String>)
    ensures
        r is Some <==> datetime_is_valid(t),
        r matches Some(s) ==> s@ == utc_timestamp_text(
            t.date.year as int,
            t.date.month as int,
            t.date.day as int,
            t.hour as int,
            t.minute as int,
            t.second as int,
            t.nanosecond as int,
        ),
{
    let date = chrono::NaiveDate::from_ymd_opt(t.date.year, t.date.month, t.date.day)?;
    Some(date.and_hms_nano_opt(t.hour, t.minute, t.second, t.nanosecond)?.and_utc().to_string())
}

/// A binary64 bit pattern is finite when its exponent field is not all ones.
pub open spec fn float_bits_finite(bits: u64) -> bool {
    (bits >> 52u64) & 0x7ffu64 != 0x7ffu64
}

pub open spec fn text_or_null(ok: bool, s: Seq<char>) -> CellModel {
    if ok {
        CellModel::Text(s)
    } else {
        CellModel::Null
    }
}

/// The value emitted for a decoded, non-null cell: exact decimals and
/// temporal values become text; a float that JSON cannot hold, or a value
/// the renderer refuses, becomes null.
pub open spec fn typed_model(v: TypedValue) -> CellModel {
    match v {
        TypedValue::Bool(b) => CellModel::Bool(b),
        TypedValue::Integer(i) => CellModel::Integer(i),
        TypedValue::Float(bits) => if float_bits_finite(bits) {
            CellModel::Float(bits)
        } else {
            CellModel::Null
        },
        TypedValue::Decimal(d) => text_or_null(
            decimal_in_range(d),
            decimal_text(d.mantissa as int, d.scale as int),
        ),
        TypedValue::Date(d) => text_or_null(
            date_is_valid(d),
            date_text(d.year as int, d.month as int, d.day as int),
        ),
        TypedValue::Timestamp(t) => text_or_null(
            datetime_is_valid(t),
            timestamp_text(
                t.date.year as int,
                t.date.month as int,
                t.date.day as int,
                t.hour as int,
                t.minute as int,
                t.second as int,
                t.nanosecond as int,
            ),
        ),
        TypedValue::TimestampUtc(t) => text_or_null(
            datetime_is_valid(t),
            utc_timestamp_text(
                t.date.year as int,
                t.date.month as int,
                t.date.day as int,
                t.hour as int,
                t.minute as int,
                t.second as int,
                t.nanosecond as int,
            ),
        ),
    }
}

/// Whether a binary64 bit pattern is a finite number.
pub fn is_finite_bits(bits: u64) -> (r: bool)
    ensures
        r == float_bits_finite(bits),
{
    (bits >> 52u64) & 0x7ffu64 != 0x7ffu64
}

fn text_value(s: Option<String>) -> (r: CoercedValue)
    ensures
        match s {
            Some(t) => r@ == CellModel::Text(t@),
            None => r@ == CellModel::Null,
        },
{
    match s {
        Some(t) => CoercedValue::Text(t),
        None => CoercedValue::Null,
    }
}

/// Turns a decoded, non-null value into its JSON-safe form.
pub fn render_typed(v: TypedValue) -> (r: CoercedValue)
    ensures
        r@ == typed_model(v),
{
    match v {
        TypedValue::Bool(b) => CoercedValue::Bool(b),
        TypedValue::Integer(i) => CoercedValue::Integer(i),
        TypedValue::Float(bits) => {
            if is_finite_bits(bits) {
                CoercedValue::Float(bits)
            } else {
                CoercedValue::Null
            }
        },
        TypedValue::Decimal(d) => text_value(render_decimal(d)),
        TypedValue::Date(d) => text_value(render_date(d)),
        TypedValue::Timestamp(t) => text_value(render_timestamp(t)),
        TypedValue::TimestampUtc(t) => text_value(render_utc_timestamp(t)),
    }
}

/// The outcome of one decode attempt: `None` when the attempt failed,
/// `Some(None)` for SQL NULL, `Some(Some(v))` for a value.
pub open spec fn text_attempt_view(t: Option<Option<String>>) -> Option<Option<Seq<char>>> {
    match t {
        Some(Some(s)) => Some(Some(s@)),
        Some(None) => Some(None),
        None => None,
    }
}

/// The fallback chain for one cell: the typed attempt decides when it
/// succeeded (SQL NULL gives null); otherwise the textual attempt decides;
/// otherwise null.
pub open spec fn cell_model(
    typed: Option<Option<TypedValue>>,
    text: Option<Option<Seq<char>>>,
) -> CellModel {
    match typed {
        Some(Some(v)) => typed_model(v),
        Some(None) => CellModel::Null,
        None => match text {
            Some(Some(s)) => CellModel::Text(s),
            _ => CellModel::Null,
        },
    }
}

/// Coerces one cell from the outcomes of its typed and textual decode
/// attempts. The textual attempt is read only when the typed one failed.
pub fn coerce(typed: &Option<Option<TypedValue>>, text: &Option<Option<String>>) -> (r: CoercedValue)
    ensures
        r@ == cell_model(*typed, text_attempt_view(*text)),
{
    match typed {
        Some(Some(v)) => render_typed(*v),
        Some(None) => CoercedValue::Null,
        None => match text {
            Some(Some(s)) => CoercedValue::Text(s.clone()),
            _ => CoercedValue::Null,
        },
    }
}

} // verus!
