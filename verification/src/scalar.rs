//! The scalar kinds that a filter can compare with, and how each is read
//! from and written to a generic value.

use vstd::prelude::*;
use crate::value::{ErrorKind, Value, ValueView};

verus! {

/// A scalar kind of the schema.
pub trait ScalarType: View + Sized {
    /// The name of the kind in the schema.
    spec fn name_spec() -> Seq<char>;

    /// What `parse` makes of a value.
    spec fn read_spec(v: ValueView) -> Result<Self::V, ErrorKind>;

    /// The value that stands for a scalar.
    spec fn value_spec(x: Self::V) -> ValueView;

    fn schema_name() -> (r: String)
        ensures
            r@ == Self::name_spec(),
    ;

    /// Reads a scalar from a value.
    fn parse(v: &Value) -> (r: Result<Self, ErrorKind>)
        ensures
            match r {
                Ok(x) => Self::read_spec(v@) == Ok::<Self::V, ErrorKind>(x@),
                Err(kind) => Self::read_spec(v@) == Err::<Self::V, ErrorKind>(kind),
            },
    ;

    /// Writes the scalar as a value, which is never null and reads back as
    /// the same scalar.
    fn to_value(&self) -> (r: Value)
        ensures
            r@ == Self::value_spec(self@),
            !(r@ is Null),
            Self::read_spec(r@) == Ok::<Self::V, ErrorKind>(self@),
    ;
}

impl ScalarType for String {
    open spec fn name_spec() -> Seq<char> {
        "String"@
    }

    open spec fn read_spec(v: ValueView) -> Result<Seq<char>, ErrorKind> {
        match v {
            ValueView::String(s) => Ok(s),
            _ => Err(ErrorKind::TypeMismatch),
        }
    }

    open spec fn value_spec(x: Seq<char>) -> ValueView {
        ValueView::String(x)
    }

    fn schema_name() -> (r: String) {
        "String".to_owned()
    }

    fn parse(v: &Value) -> (r: Result<Self, ErrorKind>) {
        match v {
            Value::String(s) => Ok(s.clone()),
            _ => Err(ErrorKind::TypeMismatch),
        }
    }

    fn to_value(&self) -> (r: Value) {
        Value::String(self.clone())
    }
}

impl ScalarType for bool {
    open spec fn name_spec() -> Seq<char> {
        "Boolean"@
    }

    open spec fn read_spec(v: ValueView) -> Result<bool, ErrorKind> {
        match v {
            ValueView::Boolean(b) => Ok(b),
            _ => Err(ErrorKind::TypeMismatch),
        }
    }

    open spec fn value_spec(x: bool) -> ValueView {
        ValueView::Boolean(x)
    }

    fn schema_name() -> (r: String) {
        "Boolean".to_owned()
    }

    fn parse(v: &Value) -> (r: Result<Self, ErrorKind>) {
        match v {
            Value::Boolean(b) => Ok(*b),
            _ => Err(ErrorKind::TypeMismatch),
        }
    }

    fn to_value(&self) -> (r: Value) {
        Value::Boolean(*self)
    }
}

/// The identifier that a text stands for in the schema's `UUID` scalar, if
/// it stands for one.
pub uninterp spec fn uuid_from_text(text: Seq<char>) -> Option<u128>;

/// The text that the `uuid` crate displays an identifier as.
pub uninterp spec fn uuid_to_text(bits: u128) -> Seq<char>;

/// The calendar date (year, month, day) that a text stands for in the
/// schema's `NaiveDate` scalar, if it stands for one.
pub uninterp spec fn date_from_text(text: Seq<char>) -> Option<(i32, u32, u32)>;

/// The text `%Y-%m-%d` of a year, month and day, if they make a calendar date
/// that `chrono` can hold.
pub uninterp spec fn date_to_text(year: i32, month: u32, day: u32) -> Option<Seq<char>>;

/// Calls `ScalarType::parse` of `async_graphql` for `uuid::Uuid` on a string
/// value (which is `Uuid::parse_str` on the text) and gives the identifier
/// as its 128 bits, big end first.
#[verifier::external_body]
fn parse_uuid_text(text: &str) -> (r: Option<u128>)
    ensures
        r == uuid_from_text(text@),
{
    let parsed: Result<uuid::Uuid, _> = async_graphql::ScalarType::parse(
        async_graphql::Value::String(text.to_owned()),
    );
    match parsed {
        Ok(id) => Some(id.as_u128()),
        Err(_) => None,
    }
}

/// Calls `to_string` on the `uuid::Uuid` made by `Uuid::from_u128`: the
/// hyphenated lower-case form, which `Uuid::parse_str` is documented to
/// read, so the text stands for the same identifier.
#[verifier::external_body]
fn uuid_text(bits: u128) -> (r: String)
    ensures
        r@ == uuid_to_text(bits),
        uuid_from_text(r@) == Some(bits),
{
    uuid::Uuid::from_u128(bits).to_string()
}

/// Calls `ScalarType::parse` of `async_graphql` for `chrono::NaiveDate` on a
/// string value (which is `NaiveDate::parse_from_str` with `%Y-%m-%d`) and
/// gives the date's year, month and day.
#[verifier::external_body]
fn parse_date_text(text: &str) -> (r: Option<(i32, u32, u32)>)
    ensures
        r == date_from_text(text@),
{
    let parsed: Result<chrono::NaiveDate, _> = async_graphql::ScalarType::parse(
        async_graphql::Value::String(text.to_owned()),
    );
    match parsed {
        Ok(d) => Some((chrono::Datelike::year(&d), chrono::Datelike::month(&d), chrono::Datelike::day(&d))),
        Err(_) => None,
    }
}

/// Calls `NaiveDate::from_ymd_opt` of `chrono`, which gives no date where
/// the three numbers make none, and formats the date with `%Y-%m-%d`, the
/// format that the schema's `NaiveDate` scalar reads, so the text stands for
/// the same date.
#[verifier::external_body]
fn date_text(year: i32, month: u32, day: u32) -> (r: Option<String>)
    ensures
        match r {
            Some(s) => date_to_text(year, month, day) == Some(s@) && date_from_text(s@) == Some(
                (year, month, day),
            ),
            None => date_to_text(year, month, day) is None,
        },
{
    match chrono::NaiveDate::from_ymd_opt(year, month, day) {
        Some(d) => Some(d.format("%Y-%m-%d").to_string()),
        None => None,
    }
}

/// A unique identifier of 128 bits.
#[derive(Clone, Copy, Debug, PartialEq, Eq, Structural)]
pub struct Uuid {
    /// The identifier as a number, its first byte at the big end.
    pub bits: u128,
}

impl View for Uuid {
    type V = u128;

    open spec fn view(&self) -> u128 {
        self.bits
    }
}

impl ScalarType for Uuid {
    open spec fn name_spec() -> Seq<char> {
        "UUID"@
    }

    open spec fn read_spec(v: ValueView) -> Result<u128, ErrorKind> {
        match v {
            ValueView::String(s) => match uuid_from_text(s) {
                Some(bits) => Ok(bits),
                None => Err(ErrorKind::Malformed),
            },
            _ => Err(ErrorKind::TypeMismatch),
        }
    }

    open spec fn value_spec(x: u128) -> ValueView {
        ValueView::String(uuid_to_text(x))
    }

    fn schema_name() -> (r: String) {
        "UUID".to_owned()
    }

    fn parse(v: &Value) -> (r: Result<Self, ErrorKind>) {
        match v {
            Value::String(s) => Uuid::from_text(s.as_str()),
            _ => Err(ErrorKind::TypeMismatch),
        }
    }

    fn to_value(&self) -> (r: Value) {
        Value::String(uuid_text(self.bits))
    }
}

impl Uuid {
    /// What `from_text` makes of a text.
    pub open spec fn from_text_spec(text: Seq<char>) -> Result<u128, ErrorKind> {
        match uuid_from_text(text) {
            Some(bits) => Ok(bits),
            None => Err(ErrorKind::Malformed),
        }
    }

    /// Reads an identifier from its text.
    pub fn from_text(text: &str) -> (r: Result<Uuid, ErrorKind>)
        ensures
            match r {
                Ok(id) => Self::from_text_spec(text@) == Ok::<u128, ErrorKind>(id@),
                Err(kind) => Self::from_text_spec(text@) == Err::<u128, ErrorKind>(kind),
            },
    {
        Self::from_parsed(parse_uuid_text(text))
    }

    /// The identifier that a reading of a text gave, or the error that
    /// stands for none.
    pub fn from_parsed(parsed: Option<u128>) -> (r: Result<Uuid, ErrorKind>)
        ensures
            r == match parsed {
                Some(bits) => Ok::<Uuid, ErrorKind>(Uuid { bits }),
                None => Err::<Uuid, ErrorKind>(ErrorKind::Malformed),
            },
    {
        match parsed {
            Some(bits) => Ok(Uuid { bits }),
            None => Err(ErrorKind::Malformed),
        }
    }

    /// The text of the identifier.
    pub fn text(&self) -> (r: String)
        ensures
            r@ == uuid_to_text(self.bits),
            uuid_from_text(r@) == Some(self.bits),
    {
        uuid_text(self.bits)
    }
}

/// A calendar date.
#[derive(Clone, Copy, Debug, PartialEq, Eq)]
pub struct Date {
    year: i32,
    month: u32,
    day: u32,
}

impl View for Date {
    type V = (i32, u32, u32);

    closed spec fn view(&self) -> (i32, u32, u32) {
        (self.year, self.month, self.day)
    }
}

impl Date {
    /// Year, month and day make a date of the calendar.
    #[verifier::type_invariant]
    closed spec fn on_calendar(&self) -> bool {
        date_to_text(self.year, self.month, self.day) is Some
    }

    /// What `parse` and `from_text` make of a text.
    pub open spec fn from_text_spec(text: Seq<char>) -> Result<(i32, u32, u32), ErrorKind> {
        match date_from_text(text) {
            Some(ymd) => if date_to_text(ymd.0, ymd.1, ymd.2) is Some {
                Ok(ymd)
            } else {
                Err(ErrorKind::Malformed)
            },
            None => Err(ErrorKind::Malformed),
        }
    }

    /// The date of a year, month and day, where they make one.
    pub fn from_ymd(year: i32, month: u32, day: u32) -> (r: Option<Date>)
        ensures
            match r {
                Some(date) => date@ == (year, month, day) && date_to_text(year, month, day)
                    is Some,
                None => date_to_text(year, month, day) is None,
            },
    {
        match date_text(year, month, day) {
            Some(_) => Some(Date { year, month, day }),
            None => None,
        }
    }

    /// Reads a date from its text `%Y-%m-%d`.
    pub fn from_text(text: &str) -> (r: Result<Date, ErrorKind>)
        ensures
            match r {
                Ok(date) => Self::from_text_spec(text@) == Ok::<(i32, u32, u32), ErrorKind>(
                    date@,
                ),
                Err(kind) => Self::from_text_spec(text@) == Err::<(i32, u32, u32), ErrorKind>(
                    kind,
                ),
            },
    {
        match parse_date_text(text) {
            Some((year, month, day)) => match Date::from_ymd(year, month, day) {
                Some(date) => Ok(date),
                None => Err(ErrorKind::Malformed),
            },
            None => Err(ErrorKind::Malformed),
        }
    }

    /// The text `%Y-%m-%d` of the date.
    pub fn text(&self) -> (r: String)
        ensures
            date_to_text(self@.0, self@.1, self@.2) == Some(r@),
            date_from_text(r@) == Some(self@),
    {
        proof {
            use_type_invariant(self);
        }
        match date_text(self.year, self.month, self.day) {
            Some(s) => s,
            // Never taken: a date on the calendar has a text.
            None => String::new(),
        }
    }

    pub fn year(&self) -> (r: i32)
        ensures
            r == self@.0,
    {
        self.year
    }

    pub fn month(&self) -> (r: u32)
        ensures
            r == self@.1,
    {
        self.month
    }

    pub fn day(&self) -> (r: u32)
        ensures
            r == self@.2,
    {
        self.day
    }
}

impl ScalarType for Date {
    open spec fn name_spec() -> Seq<char> {
        "NaiveDate"@
    }

    open spec fn read_spec(v: ValueView) -> Result<(i32, u32, u32), ErrorKind> {
        match v {
            ValueView::String(s) => Date::from_text_spec(s),
            _ => Err(ErrorKind::TypeMismatch),
        }
    }

    open spec fn value_spec(x: (i32, u32, u32)) -> ValueView {
        match date_to_text(x.0, x.1, x.2) {
            Some(text) => ValueView::String(text),
            None => ValueView::Null,
        }
    }

    fn schema_name() -> (r: String) {
        "NaiveDate".to_owned()
    }

    fn parse(v: &Value) -> (r: Result<Self, ErrorKind>) {
        match v {
            Value::String(s) => Date::from_text(s.as_str()),
            _ => Err(ErrorKind::TypeMismatch),
        }
    }

    fn to_value(&self) -> (r: Value) {
        Value::String(self.text())
    }
}

} // verus!
