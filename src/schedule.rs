//! Records of the static schedule dataset (services, routes, stops, trips), as the
//! relational store holds them. Dates are `YYYYMMDD` integers and weekday flags are 0 or 1,
//! as in the dataset's files.
use vstd::prelude::*;

verus! {

/// Relies on std's I/O error only as an opaque value carried inside `GtfsStaticError`.
#[verifier::external_type_specification]
#[verifier::external_body]
pub struct ExIoError(std::io::Error);

/// Relies on std's integer parse error only as an opaque value carried inside
/// `GtfsStaticError`.
#[verifier::external_type_specification]
#[verifier::external_body]
pub struct ExParseIntError(std::num::ParseIntError);

/// Relies on diesel's connection error only as an opaque value carried inside
/// `GtfsStaticError`.
#[verifier::external_type_specification]
#[verifier::external_body]
pub struct ExConnectionError(diesel::ConnectionError);

/// Everything that validating or rebuilding the static dataset can fail with.
#[derive(Debug)]
pub enum GtfsStaticError {
    /// The dataset expired on this date, written `YYYYMMDD`.
    ExpiredDataset(i32),
    MissingDatabase,
    StaticFileError(std::io::Error),
    ParseIntError(std::num::ParseIntError),
    /// A record has fewer fields than were read from it.
    ParseNoneError,
    DatabaseConnectionError(diesel::ConnectionError),
}

impl From<std::io::Error> for GtfsStaticError {
    fn from(e: std::io::Error) -> (r: GtfsStaticError)
        ensures
            r == GtfsStaticError::StaticFileError(e),
    {
        GtfsStaticError::StaticFileError(e)
    }
}

impl vstd::std_specs::convert::FromSpecImpl<std::io::Error> for GtfsStaticError {
    open spec fn obeys_from_spec() -> bool {
        true
    }

    open spec fn from_spec(e: std::io::Error) -> GtfsStaticError {
        GtfsStaticError::StaticFileError(e)
    }
}

impl From<std::num::ParseIntError> for GtfsStaticError {
    fn from(e: std::num::ParseIntError) -> (r: GtfsStaticError)
        ensures
            r == GtfsStaticError::ParseIntError(e),
    {
        GtfsStaticError::ParseIntError(e)
    }
}

impl vstd::std_specs::convert::FromSpecImpl<std::num::ParseIntError> for GtfsStaticError {
    open spec fn obeys_from_spec() -> bool {
        true
    }

    open spec fn from_spec(e: std::num::ParseIntError) -> GtfsStaticError {
        GtfsStaticError::ParseIntError(e)
    }
}

/// The index of the first comma of `s`, or `s.len()` when there is none.
pub open spec fn comma_index(s: Seq<char>) -> nat
    decreases s.len(),
{
    if s.len() == 0 || s[0] == ',' {
        0
    } else {
        1 + comma_index(s.skip(1))
    }
}

/// The comma-separated fields of `s`, in order. A line without a comma is one field, and
/// every comma starts a new field, empty or not.
pub open spec fn fields(s: Seq<char>) -> Seq<Seq<char>>
    decreases s.len(),
{
    let p = comma_index(s) as int;
    if p < s.len() {
        seq![s.take(p)] + fields(s.skip(p + 1))
    } else {
        seq![s]
    }
}

pub open spec fn is_digit(c: char) -> bool {
    '0' <= c && c <= '9'
}

/// The value of a string of decimal digits.
pub open spec fn digits_value(s: Seq<char>) -> int
    decreases s.len(),
{
    if s.len() == 0 {
        0
    } else {
        10 * digits_value(s.drop_last()) + (s.last() as int - '0' as int)
    }
}

/// The value of one or more decimal digits, and nothing else.
pub open spec fn unsigned_value(s: Seq<char>) -> Option<int> {
    if s.len() > 0 && forall|i: int| 0 <= i < s.len() ==> is_digit(#[trigger] s[i]) {
        Some(digits_value(s))
    } else {
        None
    }
}

/// The value of an optional `+` or `-` sign followed by decimal digits.
pub open spec fn decimal_value(s: Seq<char>) -> Option<int> {
    if s.len() > 0 && s[0] == '-' {
        match unsigned_value(s.skip(1)) {
            Some(v) => Some(-v),
            None => None,
        }
    } else if s.len() > 0 && s[0] == '+' {
        unsigned_value(s.skip(1))
    } else {
        unsigned_value(s)
    }
}

/// The `i32` that `s` writes in decimal, if it writes one within range.
pub open spec fn i32_of(s: Seq<char>) -> Option<i32> {
    match decimal_value(s) {
        Some(v) => if i32::MIN <= v && v <= i32::MAX {
            Some(v as i32)
        } else {
            None
        },
        None => None,
    }
}

/// Relies on `str::parse::<i32>`: it accepts exactly an optional sign followed by decimal
/// digits whose value fits in `i32`, and returns that value.
#[verifier::external_body]
fn parse_i32(s: &str) -> (r: Result<i32, std::num::ParseIntError>)
    ensures
        r is Ok <==> i32_of(s@) is Some,
        r is Ok ==> r->Ok_0 == i32_of(s@)->Some_0,
{
    s.parse::<i32>()
}

/// Relies on `str::split` with a `char` pattern: the pieces between the commas, in order.
#[verifier::external_body]
fn split_fields<'a>(line: &'a str) -> (r: Vec<&'a str>)
    ensures
        r@.len() == fields(line@).len(),
        forall|i: int| 0 <= i < r@.len() ==> (#[trigger] r@[i])@ == fields(line@)[i],
{
    line.split(',').collect()
}

/// The field that the `k`-th value of a calendar record is read from. The values are read
/// through one cursor over the fields, and the `k`-th read passes over `k` fields beyond the
/// one read before it, so the reads land on fields 0, 2, 5, 9, 14, 20, 27, 35, 44 and 54.
pub open spec fn calendar_column(k: int) -> int {
    k * (k + 3) / 2
}

/// How reading a record from its fields ends.
pub enum RecordRead {
    Complete,
    MissingField,
    NotAnInteger,
}

/// How reading a calendar record from the fields `fs` ends, from its `k`-th value on: the
/// first value whose field is missing, or (after the service id) does not hold an `i32`,
/// decides.
pub open spec fn calendar_read(fs: Seq<Seq<char>>, k: int) -> RecordRead
    decreases 10 - k,
{
    if k >= 10 {
        RecordRead::Complete
    } else if calendar_column(k) >= fs.len() {
        RecordRead::MissingField
    } else if k > 0 && i32_of(fs[calendar_column(k)]) is None {
        RecordRead::NotAnInteger
    } else {
        calendar_read(fs, k + 1)
    }
}

/// The `k`-th value of a calendar record read from the fields `fs`.
pub open spec fn calendar_value(fs: Seq<Seq<char>>, k: int) -> i32 {
    i32_of(fs[calendar_column(k)])->Some_0
}

/// `c` holds the values of a calendar record read from the fields `fs`.
pub open spec fn calendar_from(c: Calendar, fs: Seq<Seq<char>>) -> bool {
    &&& c.service_id@ == fs[0]
    &&& c.monday == calendar_value(fs, 1)
    &&& c.tuesday == calendar_value(fs, 2)
    &&& c.wednesday == calendar_value(fs, 3)
    &&& c.thursday == calendar_value(fs, 4)
    &&& c.friday == calendar_value(fs, 5)
    &&& c.saturday == calendar_value(fs, 6)
    &&& c.sunday == calendar_value(fs, 7)
    &&& c.start_date == calendar_value(fs, 8)
    &&& c.end_date == calendar_value(fs, 9)
}

proof fn lemma_fields_nonempty(s: Seq<char>)
    ensures
        fields(s).len() >= 1,
{
}

/// The integer in field `pos` of `fs`.
fn int_field(fs: &Vec<&str>, pos: usize) -> (r: Result<i32, GtfsStaticError>)
    ensures
        pos >= fs@.len() ==> r matches Err(GtfsStaticError::ParseNoneError),
        pos < fs@.len() && i32_of(fs@[pos as int]@) is Some ==> r == Ok::<i32, GtfsStaticError>(
            i32_of(fs@[pos as int]@)->Some_0,
        ),
        pos < fs@.len() && i32_of(fs@[pos as int]@) is None ==> r matches Err(
            GtfsStaticError::ParseIntError(_),
        ),
{
    if pos >= fs.len() {
        return Err(GtfsStaticError::ParseNoneError);
    }
    match parse_i32(fs[pos]) {
        Ok(v) => Ok(v),
        Err(e) => Err(GtfsStaticError::ParseIntError(e)),
    }
}

/// Reads one record of the dataset's calendar file: a service id and nine integers (the
/// seven weekday flags, then the start and end dates), from the comma-separated fields of
/// `line` that `calendar_column` names. A missing field gives `ParseNoneError`, a field that
/// is not an `i32` gives `ParseIntError`, whichever comes first in reading order.
pub fn parse_calendar_line(line: &str) -> (r: Result<Calendar, GtfsStaticError>)
    ensures
        calendar_read(fields(line@), 0) is Complete ==> r is Ok && calendar_from(
            r->Ok_0,
            fields(line@),
        ),
        calendar_read(fields(line@), 0) is MissingField ==> r matches Err(
            GtfsStaticError::ParseNoneError,
        ),
        calendar_read(fields(line@), 0) is NotAnInteger ==> r matches Err(
            GtfsStaticError::ParseIntError(_),
        ),
{
    let fs = split_fields(line);
    proof {
        lemma_fields_nonempty(line@);
        reveal_with_fuel(calendar_read, 11);
    }
    let service_id = fs[0].to_owned();
    let monday = int_field(&fs, 2)?;
    let tuesday = int_field(&fs, 5)?;
    let wednesday = int_field(&fs, 9)?;
    let thursday = int_field(&fs, 14)?;
    let friday = int_field(&fs, 20)?;
    let saturday = int_field(&fs, 27)?;
    let sunday = int_field(&fs, 35)?;
    let start_date = int_field(&fs, 44)?;
    let end_date = int_field(&fs, 54)?;
    Ok(
        Calendar {
            service_id,
            monday,
            tuesday,
            wednesday,
            thursday,
            friday,
            saturday,
            sunday,
            start_date,
            end_date,
        },
    )
}

/// Validates the static dataset in place. Nothing is checked yet: expiry and reachability
/// of the store are left to the store's own tooling, so this always succeeds.
pub fn validate_static_database(static_file_path: &str, static_database_path: &str) -> (r: Result<
    (),
    GtfsStaticError,
>)
    ensures
        r is Ok,
{
    Ok(())
}

/// The weekly pattern and date range of one service.
#[derive(Debug, Clone)]
pub struct Calendar {
    pub service_id: String,
    pub monday: i32,
    pub tuesday: i32,
    pub wednesday: i32,
    pub thursday: i32,
    pub friday: i32,
    pub saturday: i32,
    pub sunday: i32,
    pub start_date: i32,
    pub end_date: i32,
}

/// An exception to a service's weekly pattern on one date.
#[derive(Debug, Clone)]
pub struct CalendarDate {
    pub service_id: String,
    pub date: i32,
    pub exception_type: i32,
}

/// A route: a group of trips shown to riders as one service.
#[derive(Debug, Clone)]
pub struct Route {
    pub route_id: String,
    pub route_short_name: i32,
    pub route_long_name: String,
    pub route_desc: Option<String>,
    pub route_type: i32,
    pub route_url: String,
    pub route_color: String,
    pub route_text_color: String,
}

/// The time at which a trip arrives at and leaves one stop.
#[derive(Debug, Clone)]
pub struct StopTime {
    pub trip_id: String,
    pub arrival_time: String,
    pub departure_time: String,
    pub stop_id: i32,
    pub stop_sequence: i32,
    pub pickup_type: i32,
    pub drop_off_type: i32,
}

/// One journey of a vehicle along a route.
#[derive(Debug, Clone)]
pub struct Trip {
    pub route_id: String,
    pub service_id: String,
    pub trip_id: String,
    pub trip_headsign: String,
    pub direction_id: i32,
    pub block_id: Option<String>,
    pub shape_id: Option<String>,
}

} // verus!
