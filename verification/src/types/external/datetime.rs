//! A date and time with a fixed offset from UTC as a value type. It is read
//! from and written as RFC 3339 text.

use crate::error::{parse_outcome, ParseError, ParseErrorView, ParseResult};
use crate::json::{JsonValue, JsonView};
use crate::registry::{
    lemma_register_nothing, MetaSchema, MetaSchemaRef, MetaSchemaRefView, MetaSchemaView, Registry,
};
use crate::types::{
    primitive_name, ParseFromJSON, ParseFromMultipartField, ParseFromParameter, ToJSON, Type,
};
use std::borrow::Cow;
use vstd::prelude::*;
use vstd::string::*;

verus! {

/// The RFC 3339 text of the instant that lies `secs` seconds and `nanos`
/// nanoseconds after the start of 1970 in UTC, as a clock reads it that is
/// `offset` seconds ahead of UTC. Nothing where there is no such instant or
/// no such clock.
pub uninterp spec fn rfc3339_text(secs: i64, nanos: u32, offset: i32) -> Option<Seq<char>>;

/// The first second that can be held: the start of the year -262143 in UTC.
pub const MIN_SECS: i64 = -8_334_601_228_800;

/// The last second that can be held: the end of the year 262142 in UTC.
pub const MAX_SECS: i64 = 8_210_266_876_799;

/// Whether there is such an instant and such a clock. The clock is less than
/// a day off UTC, the second lies in the years from -262143 to 262142, and
/// the nanoseconds stay below a second, or below two in the last second of a
/// minute, which is how a leap second is held.
pub open spec fn representable(secs: i64, nanos: u32, offset: i32) -> bool {
    &&& -86_400 < offset < 86_400
    &&& MIN_SECS <= secs <= MAX_SECS
    &&& nanos < 2_000_000_000
    &&& nanos >= 1_000_000_000 ==> secs as int % 60 == 59
}

/// The instant that a text gives: its seconds and nanoseconds after the start
/// of 1970 in UTC, and the seconds that its clock is ahead of UTC. Where the
/// text gives none, the message that says why.
pub uninterp spec fn rfc3339_instant(text: Seq<char>) -> Result<(i64, u32, i32), Seq<char>>;

/// Builds the instant with `chrono`'s `FixedOffset::east_opt` and
/// `TimeZone::timestamp_opt` and writes it with `DateTime::to_rfc3339`. The
/// text depends on the three numbers alone; the contract gives it the name
/// [`rfc3339_text`]. It also says when there is a text: `east_opt` takes an
/// offset of less than a day, `timestamp_opt` a second whose day lies in the
/// years that `NaiveDate` holds and nanoseconds as `NaiveTime` holds them,
/// and `to_rfc3339` writes every instant that was built.
#[verifier::external_body]
fn format_instant(secs: i64, nanos: u32, offset: i32) -> (r: Option<String>)
    ensures
        r.deep_view() == rfc3339_text(secs, nanos, offset),
        r is Some <==> representable(secs, nanos, offset),
{
    let zone = chrono::FixedOffset::east_opt(offset)?;
    let instant = chrono::TimeZone::timestamp_opt(&zone, secs, nanos).single()?;
    Some(instant.to_rfc3339())
}

/// Reads the text with `chrono`'s `FromStr` for `DateTime<FixedOffset>` and
/// takes the instant apart with `timestamp`, `timestamp_subsec_nanos` and
/// `FixedOffset::local_minus_utc`; an error is given by its message. The
/// result depends on the text alone; the contract gives it the name
/// [`rfc3339_instant`]. It also says that the instant of a text is one that
/// there is: `chrono` documents that `DateTime::from_timestamp` takes the
/// seconds and nanoseconds of every `DateTime`, and a `FixedOffset` is less
/// than a day.
#[verifier::external_body]
fn parse_instant(text: &str) -> (r: Result<(i64, u32, i32), String>)
    ensures
        match r {
            Ok(instant) => rfc3339_instant(text@) == Ok::<(i64, u32, i32), Seq<char>>(instant),
            Err(message) => rfc3339_instant(text@) == Err::<(i64, u32, i32), Seq<char>>(message@),
        },
        r matches Ok(instant) ==> representable(instant.0, instant.1, instant.2),
{
    match text.parse::<chrono::DateTime<chrono::FixedOffset>>() {
        Ok(instant) => Ok(
            (
                instant.timestamp(),
                instant.timestamp_subsec_nanos(),
                instant.offset().local_minus_utc(),
            ),
        ),
        Err(error) => Err(error.to_string()),
    }
}

/// A date and time with a fixed offset from UTC.
#[derive(Clone, Copy, Debug, PartialEq, Eq)]
pub struct DateTime {
    secs: i64,
    nanos: u32,
    offset: i32,
}

/// The mathematical content of a [`DateTime`].
pub struct Instant {
    /// The whole seconds after the start of 1970 in UTC.
    pub secs: i64,
    /// The nanoseconds after the last whole second.
    pub nanos: u32,
    /// The seconds that the clock is ahead of UTC.
    pub offset: i32,
}

impl Instant {
    /// Whether there is such an instant and such a clock.
    pub open spec fn representable(self) -> bool {
        representable(self.secs, self.nanos, self.offset)
    }

    /// The RFC 3339 text of the instant.
    pub open spec fn text(self) -> Seq<char> {
        rfc3339_text(self.secs, self.nanos, self.offset)->0
    }
}

impl DeepView for DateTime {
    type V = Instant;

    closed spec fn deep_view(&self) -> Instant {
        Instant { secs: self.secs, nanos: self.nanos, offset: self.offset }
    }
}

/// The message of the error for a text whose instant cannot be held.
pub open spec fn out_of_range_message() -> Seq<char> {
    "input is out of range"@
}

/// What reading a date and time from a text comes to, given what the text
/// was parsed as.
pub open spec fn datetime_from_parsed(parsed: Result<(i64, u32, i32), Seq<char>>) -> Result<
    Instant,
    ParseErrorView,
> {
    match parsed {
        Ok(instant) => {
            let instant = Instant { secs: instant.0, nanos: instant.1, offset: instant.2 };
            if instant.representable() {
                Ok(instant)
            } else {
                Err(ParseErrorView::Custom(out_of_range_message()))
            }
        },
        Err(message) => Err(ParseErrorView::Custom(message)),
    }
}

/// What reading a date and time from a text comes to: the instant that the
/// text gives, or the message that says why it gives none.
pub open spec fn datetime_from_text(text: Seq<char>) -> Result<Instant, ParseErrorView> {
    match rfc3339_instant(text) {
        Ok(instant) => Ok(Instant { secs: instant.0, nanos: instant.1, offset: instant.2 }),
        Err(message) => Err(ParseErrorView::Custom(message)),
    }
}

/// The content of a parsed text.
pub open spec fn parsed_view(parsed: Result<(i64, u32, i32), String>) -> Result<
    (i64, u32, i32),
    Seq<char>,
> {
    match parsed {
        Ok(instant) => Ok(instant),
        Err(message) => Err(message@),
    }
}

impl DateTime {
    #[verifier::type_invariant]
    spec fn well_formed(self) -> bool {
        representable(self.secs, self.nanos, self.offset)
    }

    /// The date and time of the instant, where there is such an instant.
    pub fn from_timestamp(secs: i64, nanos: u32, offset: i32) -> (r: Option<DateTime>)
        ensures
            r is Some <==> (Instant { secs, nanos, offset }).representable(),
            r matches Some(value) ==> value.deep_view() == (Instant { secs, nanos, offset }),
    {
        match format_instant(secs, nanos, offset) {
            Some(_) => Some(DateTime { secs, nanos, offset }),
            None => None,
        }
    }

    /// The whole seconds after the start of 1970 in UTC.
    pub fn timestamp(&self) -> (r: i64)
        ensures
            r == self.deep_view().secs,
    {
        self.secs
    }

    /// The nanoseconds after the last whole second.
    pub fn timestamp_subsec_nanos(&self) -> (r: u32)
        ensures
            r == self.deep_view().nanos,
    {
        self.nanos
    }

    /// The seconds that the clock is ahead of UTC.
    pub fn offset_seconds(&self) -> (r: i32)
        ensures
            r == self.deep_view().offset,
    {
        self.offset
    }

    /// The RFC 3339 text of the date and time.
    pub fn to_rfc3339(&self) -> (r: String)
        ensures
            self.deep_view().representable(),
            rfc3339_text(self.deep_view().secs, self.deep_view().nanos, self.deep_view().offset)
                == Some(r@),
    {
        proof {
            use_type_invariant(self);
        }
        match format_instant(self.secs, self.nanos, self.offset) {
            Some(text) => text,
            None => vstd::pervasive::unreached(),
        }
    }

    /// The date and time that a text was parsed as. An instant that cannot be
    /// held is an error, as a text is that gave none.
    pub fn from_parsed(parsed: Result<(i64, u32, i32), String>) -> (r: ParseResult<DateTime>)
        ensures
            parse_outcome(r) == datetime_from_parsed(parsed_view(parsed)),
    {
        match parsed {
            Ok((secs, nanos, offset)) => match DateTime::from_timestamp(secs, nanos, offset) {
                Some(value) => Ok(value),
                None => Err(ParseError::Custom(String::from_str("input is out of range"))),
            },
            Err(message) => Err(ParseError::Custom(message)),
        }
    }

    /// Reads a date and time from RFC 3339 text.
    pub fn parse(text: &str) -> (r: ParseResult<DateTime>)
        ensures
            parse_outcome(r) == datetime_from_text(text@),
            r matches Ok(value) ==> value.deep_view().representable(),
    {
        DateTime::from_parsed(parse_instant(text))
    }
}

impl Type for DateTime {
    open spec fn spec_name() -> Seq<char> {
        primitive_name("string"@, "date-time"@)
    }

    open spec fn spec_schema_ref() -> MetaSchemaRefView {
        MetaSchemaRefView::Inline(MetaSchemaView { ty: "string"@, format: Some("date-time"@) })
    }

    open spec fn named_schemas() -> Map<Seq<char>, MetaSchemaView> {
        Map::empty()
    }

    fn name() -> (r: Cow<'static, str>) {
        proof {
            reveal_strlit("string(date-time)");
            reveal_strlit("string");
            reveal_strlit("(");
            reveal_strlit("date-time");
            reveal_strlit(")");
        }
        assert("string(date-time)"@ =~= primitive_name("string"@, "date-time"@));
        Cow::Borrowed("string(date-time)")
    }

    fn schema_ref() -> (r: MetaSchemaRef) {
        MetaSchemaRef::Inline(Box::new(MetaSchema::new_with_format("string", "date-time")))
    }

    fn register(registry: &mut Registry) {
        proof {
            lemma_register_nothing(registry.schemas());
        }
    }
}

impl ParseFromJSON for DateTime {
    open spec fn spec_parse_from_json(value: JsonView) -> Result<Instant, ParseErrorView> {
        match value {
            JsonView::String(text) => datetime_from_text(text),
            _ => Err(ParseErrorView::ExpectedType { actual: value }),
        }
    }

    fn parse_from_json(value: JsonValue) -> (r: ParseResult<DateTime>) {
        match value {
            JsonValue::String(text) => DateTime::parse(text.as_str()),
            other => Err(ParseError::ExpectedType { actual: other }),
        }
    }
}

impl ParseFromParameter for DateTime {
    open spec fn spec_parse_from_parameter(text: Seq<char>) -> Result<Instant, ParseErrorView> {
        datetime_from_text(text)
    }

    fn parse_from_parameter(value: Option<&str>) -> (r: ParseResult<DateTime>) {
        match value {
            Some(text) => DateTime::parse(text),
            None => Err(ParseError::ExpectedInput),
        }
    }
}

impl ParseFromMultipartField for DateTime {
    open spec fn spec_parse_from_multipart(text: Seq<char>) -> Result<Instant, ParseErrorView> {
        datetime_from_text(text)
    }

    fn parse_from_multipart(field: Option<Result<String, String>>) -> (r: ParseResult<DateTime>) {
        match field {
            Some(Ok(text)) => DateTime::parse(text.as_str()),
            Some(Err(reason)) => Err(ParseError::Custom(reason)),
            None => Err(ParseError::ExpectedInput),
        }
    }
}

impl ToJSON for DateTime {
    open spec fn spec_to_json(&self) -> JsonView {
        JsonView::String(self.deep_view().text())
    }

    fn to_json(&self) -> (r: JsonValue) {
        JsonValue::String(self.to_rfc3339())
    }
}

} // verus!
