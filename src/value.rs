//! Typed values: how the text of a field maps to a value of its declared
//! data type, and back.

use vstd::prelude::*;
use crate::composite::{IotaRefNo, Location, SponsoredAward, SponsoredAwardView};
use crate::enumeration::{Enumeration, EnumerationType};
use crate::enumerations::Award;
use crate::error::{agrees, AdifError, ErrorKind};
use crate::text::{
    all_digits, append_chars, chars_of, count_of, decimal, digit_char, digit_count, digits_value,
    free_of, is_digit, is_digit_char, join, lemma_bounded_digits, lemma_decimal, lemma_digit_char,
    lemma_split_join, lemma_zero_padded, parse_decimal, push_decimal, push_zero_padded, split,
    split_chars, string_of, views, zero_padded,
};
use crate::vocabulary::Vocabulary;

verus! {

/// How the text of a field is read.
#[derive(Clone, Copy, Debug, PartialEq, Eq, Structural)]
pub enum DataType {
    AwardList,
    SponsoredAwardList,
    Boolean,
    Digit,
    Integer,
    Number,
    PositiveInteger,
    Character,
    IntlCharacter,
    Date,
    Time,
    IotaRefNo,
    String,
    IntlString,
    MultilineString,
    IntlMultilineString,
    Enumeration(EnumerationType),
    GridSquare,
    GridSquareExt,
    GridSquareList,
    Location,
    PotaRef,
    PotaRefList,
    SecondarySubdivisionList,
    SecondaryAdministrativeSubdivisionListAlt,
    SotaRef,
    WwffRef,
    /// The type of the terminators, which carry no value.
    Null,
}

/// Types whose value is the text itself.
pub open spec fn is_text_type(t: DataType) -> bool {
    t is String || t is IntlString || t is MultilineString || t is IntlMultilineString
        || t is GridSquare || t is GridSquareExt || t is PotaRef || t is SotaRef || t is WwffRef
}

/// Types whose value is a comma-separated list of texts.
pub open spec fn is_text_list_type(t: DataType) -> bool {
    t is GridSquareList || t is PotaRefList || t is SecondarySubdivisionList
        || t is SecondaryAdministrativeSubdivisionListAlt
}

pub open spec fn is_char_type(t: DataType) -> bool {
    t is Character || t is IntlCharacter
}

/// A calendar date, written `YYYYMMDD`.
#[derive(Clone, Copy, Debug, PartialEq, Eq, Hash, Structural)]
pub struct Date {
    pub year: u16,
    pub month: u8,
    pub day: u8,
}

pub open spec fn is_leap_year(y: nat) -> bool {
    (y % 4 == 0 && y % 100 != 0) || y % 400 == 0
}

pub open spec fn days_in_month(y: nat, m: nat) -> nat {
    if m == 2 {
        if is_leap_year(y) {
            29
        } else {
            28
        }
    } else if m == 4 || m == 6 || m == 9 || m == 11 {
        30
    } else {
        31
    }
}

/// Relies on `chrono::NaiveDate::from_ymd_opt`: for a year in its range, which
/// holds 0 to 9999, it gives a date exactly when the month is 1 to 12 and the
/// day exists in that month of the proleptic Gregorian calendar.
#[verifier::external_body]
fn is_calendar_date(year: u16, month: u8, day: u8) -> (r: bool)
    requires
        year <= 9999,
    ensures
        r == (1 <= month <= 12 && 1 <= day <= days_in_month(year as nat, month as nat)),
{
    chrono::NaiveDate::from_ymd_opt(year as i32, month as u32, day as u32).is_some()
}

/// Relies on `chrono::NaiveTime::from_hms_opt`, which gives a time exactly
/// when the hour is below 24, the minute below 60 and the second below 60.
#[verifier::external_body]
fn is_clock_time(hour: u8, minute: u8, second: u8) -> (r: bool)
    ensures
        r == (hour < 24 && minute < 60 && second < 60),
{
    chrono::NaiveTime::from_hms_opt(hour as u32, minute as u32, second as u32).is_some()
}

impl Date {
    pub open spec fn wf(self) -> bool {
        self.year <= 9999 && 1 <= self.month <= 12 && 1 <= self.day <= days_in_month(
            self.year as nat,
            self.month as nat,
        )
    }

    pub open spec fn spec_encode(self) -> Seq<char> {
        zero_padded(self.year as nat, 4) + zero_padded(self.month as nat, 2) + zero_padded(
            self.day as nat,
            2,
        )
    }

    pub open spec fn spec_decode(s: Seq<char>) -> Option<Date> {
        if s.len() == 8 && all_digits(s) {
            let d = Date {
                year: digits_value(s.subrange(0, 4)) as u16,
                month: digits_value(s.subrange(4, 6)) as u8,
                day: digits_value(s.subrange(6, 8)) as u8,
            };
            if d.wf() {
                Some(d)
            } else {
                None
            }
        } else {
            None
        }
    }

    /// A date, if `year`, `month` and `day` name one.
    pub fn new(year: u16, month: u8, day: u8) -> (r: Option<Date>)
        ensures
            r == (if (Date { year, month, day }).wf() {
                Some(Date { year, month, day })
            } else {
                None::<Date>
            }),
    {
        let d = Date { year, month, day };
        if d.is_valid() {
            Some(d)
        } else {
            None
        }
    }

    fn is_valid(&self) -> (r: bool)
        ensures
            r == self.wf(),
    {
        self.year <= 9999 && is_calendar_date(self.year, self.month, self.day)
    }

    pub fn push_encoding(&self, out: &mut Vec<char>)
        ensures
            final(out)@ == old(out)@ + self.spec_encode(),
    {
        push_zero_padded(out, self.year as u64, 4);
        push_zero_padded(out, self.month as u64, 2);
        push_zero_padded(out, self.day as u64, 2);
        assert(final(out)@ =~= old(out)@ + self.spec_encode());
    }

    pub fn decode(s: &[char]) -> (r: Option<Date>)
        ensures
            r == Date::spec_decode(s@),
    {
        if s.len() != 8 {
            return None;
        }
        let y = parse_decimal(s, 0, 4, 9999);
        let m = parse_decimal(s, 4, 6, 99);
        let d = parse_decimal(s, 6, 8, 99);
        proof {
            lemma_bounded_digits(s@.subrange(0, 4));
            lemma_bounded_digits(s@.subrange(4, 6));
            lemma_bounded_digits(s@.subrange(6, 8));
            lemma_all_digits_parts(s@);
        }
        match (y, m, d) {
            (Some(y), Some(m), Some(d)) => Date::new(y as u16, m as u8, d as u8),
            _ => None,
        }
    }

    pub proof fn lemma_round_trip(self)
        requires
            self.wf(),
        ensures
            Date::spec_decode(self.spec_encode()) == Some(self),
            all_digits(self.spec_encode()),
    {
        lemma_decimal(self.year as nat);
        lemma_decimal(self.month as nat);
        lemma_decimal(self.day as nat);
        lemma_zero_padded(self.year as nat, 4);
        lemma_zero_padded(self.month as nat, 2);
        lemma_zero_padded(self.day as nat, 2);
        let e = self.spec_encode();
        assert(e.subrange(0, 4) =~= zero_padded(self.year as nat, 4));
        assert(e.subrange(4, 6) =~= zero_padded(self.month as nat, 2));
        assert(e.subrange(6, 8) =~= zero_padded(self.day as nat, 2));
        lemma_all_digits_parts(e);
    }
}

/// Eight characters are all digits exactly when their three date parts are.
proof fn lemma_all_digits_parts(s: Seq<char>)
    requires
        s.len() == 8,
    ensures
        all_digits(s) <==> (all_digits(s.subrange(0, 4)) && all_digits(s.subrange(4, 6))
            && all_digits(s.subrange(6, 8))),
{
    if all_digits(s.subrange(0, 4)) && all_digits(s.subrange(4, 6)) && all_digits(
        s.subrange(6, 8),
    ) {
        assert forall|i: int| 0 <= i < s.len() implies is_digit(#[trigger] s[i]) by {
            if i < 4 {
                assert(s[i] == s.subrange(0, 4)[i]);
            } else if i < 6 {
                assert(s[i] == s.subrange(4, 6)[i - 4]);
            } else {
                assert(s[i] == s.subrange(6, 8)[i - 6]);
            }
        }
    }
}

/// A time of day, written `HHMMSS`.
#[derive(Clone, Copy, Debug, PartialEq, Eq, Hash, Structural)]
pub struct Time {
    pub hour: u8,
    pub minute: u8,
    pub second: u8,
}

impl Time {
    pub open spec fn wf(self) -> bool {
        self.hour < 24 && self.minute < 60 && self.second < 60
    }

    pub open spec fn spec_encode(self) -> Seq<char> {
        zero_padded(self.hour as nat, 2) + zero_padded(self.minute as nat, 2) + zero_padded(
            self.second as nat,
            2,
        )
    }

    pub open spec fn spec_decode(s: Seq<char>) -> Option<Time> {
        if s.len() == 6 && all_digits(s.subrange(0, 2)) && all_digits(s.subrange(2, 4))
            && all_digits(s.subrange(4, 6)) {
            let t = Time {
                hour: digits_value(s.subrange(0, 2)) as u8,
                minute: digits_value(s.subrange(2, 4)) as u8,
                second: digits_value(s.subrange(4, 6)) as u8,
            };
            if t.wf() {
                Some(t)
            } else {
                None
            }
        } else {
            None
        }
    }

    /// A time, if the three parts are in range.
    pub fn new(hour: u8, minute: u8, second: u8) -> (r: Option<Time>)
        ensures
            r == (if (Time { hour, minute, second }).wf() {
                Some(Time { hour, minute, second })
            } else {
                None::<Time>
            }),
    {
        if is_clock_time(hour, minute, second) {
            Some(Time { hour, minute, second })
        } else {
            None
        }
    }

    pub fn push_encoding(&self, out: &mut Vec<char>)
        ensures
            final(out)@ == old(out)@ + self.spec_encode(),
    {
        push_zero_padded(out, self.hour as u64, 2);
        push_zero_padded(out, self.minute as u64, 2);
        push_zero_padded(out, self.second as u64, 2);
        assert(final(out)@ =~= old(out)@ + self.spec_encode());
    }

    pub fn decode(s: &[char]) -> (r: Option<Time>)
        ensures
            r == Time::spec_decode(s@),
    {
        if s.len() != 6 {
            return None;
        }
        let h = parse_decimal(s, 0, 2, 99);
        let m = parse_decimal(s, 2, 4, 99);
        let c = parse_decimal(s, 4, 6, 99);
        proof {
            lemma_bounded_digits(s@.subrange(0, 2));
            lemma_bounded_digits(s@.subrange(2, 4));
            lemma_bounded_digits(s@.subrange(4, 6));
        }
        match (h, m, c) {
            (Some(h), Some(m), Some(c)) => Time::new(h as u8, m as u8, c as u8),
            _ => None,
        }
    }

    pub proof fn lemma_round_trip(self)
        requires
            self.wf(),
        ensures
            Time::spec_decode(self.spec_encode()) == Some(self),
            all_digits(self.spec_encode()),
    {
        lemma_decimal(self.hour as nat);
        lemma_decimal(self.minute as nat);
        lemma_decimal(self.second as nat);
        lemma_zero_padded(self.hour as nat, 2);
        lemma_zero_padded(self.minute as nat, 2);
        lemma_zero_padded(self.second as nat, 2);
        let e = self.spec_encode();
        assert(e.subrange(0, 2) =~= zero_padded(self.hour as nat, 2));
        assert(e.subrange(2, 4) =~= zero_padded(self.minute as nat, 2));
        assert(e.subrange(4, 6) =~= zero_padded(self.second as nat, 2));
        assert forall|i: int| 0 <= i < e.len() implies is_digit(#[trigger] e[i]) by {
            if i < 2 {
                assert(e[i] == e.subrange(0, 2)[i]);
            } else if i < 4 {
                assert(e[i] == e.subrange(2, 4)[i - 2]);
            } else {
                assert(e[i] == e.subrange(4, 6)[i - 4]);
            }
        }
    }
}

/// The text of a decimal number: an optional `-`, then digits with at most
/// one `.` among them, and at least one digit.
pub open spec fn number_text(s: Seq<char>) -> bool {
    let body = number_body(s);
    &&& number_chars(body)
    &&& count_of(body, '.') <= 1
    &&& digit_count(body) >= 1
}

/// The number text without its sign.
pub open spec fn number_body(s: Seq<char>) -> Seq<char> {
    if s.len() > 0 && s[0] == '-' {
        s.subrange(1, s.len() as int)
    } else {
        s
    }
}

pub open spec fn number_chars(b: Seq<char>) -> bool {
    forall|i: int| 0 <= i < b.len() ==> is_digit(#[trigger] b[i]) || b[i] == '.'
}

/// The integer written `s`: optional `-` and decimal digits, within `i64`.
pub open spec fn integer_of(s: Seq<char>) -> Option<i64> {
    if s.len() > 0 && s[0] == '-' {
        let b = s.subrange(1, s.len() as int);
        if b.len() > 0 && all_digits(b) && digits_value(b) <= 9223372036854775808 {
            Some((-(digits_value(b) as int)) as i64)
        } else {
            None
        }
    } else if s.len() > 0 && all_digits(s) && digits_value(s) <= 9223372036854775807 {
        Some(digits_value(s) as i64)
    } else {
        None
    }
}

pub open spec fn integer_text(i: i64) -> Seq<char> {
    if i < 0 {
        seq!['-'] + decimal((-i) as nat)
    } else {
        decimal(i as nat)
    }
}

/// A decoded value, as the contracts see it.
pub enum ValueView {
    Awards(Seq<Award>),
    SponsoredAwards(Seq<SponsoredAwardView>),
    Boolean(bool),
    Digit(u8),
    Integer(i64),
    Number(Seq<char>),
    PositiveInteger(u64),
    Char(DataType, char),
    Date(Date),
    Time(Time),
    IotaRefNo(IotaRefNo),
    Text(DataType, Seq<char>),
    Enumeration(Enumeration),
    TextList(DataType, Seq<Seq<char>>),
    Location(Location),
    Null,
}

/// A decoded value; its variant always matches the data type it was decoded with.
#[derive(Clone, Debug, PartialEq, Eq)]
pub enum DataValue {
    AwardList(Vec<Award>),
    SponsoredAwardList(Vec<SponsoredAward>),
    Boolean(bool),
    Digit(u8),
    Integer(i64),
    /// A decimal number, kept as its validated text.
    Number(String),
    PositiveInteger(u64),
    Character(char),
    IntlCharacter(char),
    Date(Date),
    Time(Time),
    IotaRefNo(IotaRefNo),
    String(String),
    IntlString(String),
    MultilineString(String),
    IntlMultilineString(String),
    Enumeration(Enumeration),
    GridSquare(String),
    GridSquareExt(String),
    GridSquareList(Vec<String>),
    Location(Location),
    PotaRef(String),
    PotaRefList(Vec<String>),
    SecondarySubdivisionList(Vec<String>),
    SecondaryAdministrativeSubdivisionListAlt(Vec<String>),
    SotaRef(String),
    WwffRef(String),
    Null,
}

pub open spec fn string_views(v: Seq<String>) -> Seq<Seq<char>> {
    v.map_values(|x: String| x@)
}

pub open spec fn award_views(v: Seq<SponsoredAward>) -> Seq<SponsoredAwardView> {
    v.map_values(|x: SponsoredAward| x@)
}

impl View for DataValue {
    type V = ValueView;

    open spec fn view(&self) -> ValueView {
        match self {
            DataValue::AwardList(v) => ValueView::Awards(v@),
            DataValue::SponsoredAwardList(v) => ValueView::SponsoredAwards(award_views(v@)),
            DataValue::Boolean(b) => ValueView::Boolean(*b),
            DataValue::Digit(d) => ValueView::Digit(*d),
            DataValue::Integer(i) => ValueView::Integer(*i),
            DataValue::Number(s) => ValueView::Number(s@),
            DataValue::PositiveInteger(n) => ValueView::PositiveInteger(*n),
            DataValue::Character(c) => ValueView::Char(DataType::Character, *c),
            DataValue::IntlCharacter(c) => ValueView::Char(DataType::IntlCharacter, *c),
            DataValue::Date(d) => ValueView::Date(*d),
            DataValue::Time(t) => ValueView::Time(*t),
            DataValue::IotaRefNo(r) => ValueView::IotaRefNo(*r),
            DataValue::String(s) => ValueView::Text(DataType::String, s@),
            DataValue::IntlString(s) => ValueView::Text(DataType::IntlString, s@),
            DataValue::MultilineString(s) => ValueView::Text(DataType::MultilineString, s@),
            DataValue::IntlMultilineString(s) => ValueView::Text(
                DataType::IntlMultilineString,
                s@,
            ),
            DataValue::Enumeration(e) => ValueView::Enumeration(*e),
            DataValue::GridSquare(s) => ValueView::Text(DataType::GridSquare, s@),
            DataValue::GridSquareExt(s) => ValueView::Text(DataType::GridSquareExt, s@),
            DataValue::GridSquareList(v) => ValueView::TextList(
                DataType::GridSquareList,
                string_views(v@),
            ),
            DataValue::Location(l) => ValueView::Location(*l),
            DataValue::PotaRef(s) => ValueView::Text(DataType::PotaRef, s@),
            DataValue::PotaRefList(v) => ValueView::TextList(
                DataType::PotaRefList,
                string_views(v@),
            ),
            DataValue::SecondarySubdivisionList(v) => ValueView::TextList(
                DataType::SecondarySubdivisionList,
                string_views(v@),
            ),
            DataValue::SecondaryAdministrativeSubdivisionListAlt(v) => ValueView::TextList(
                DataType::SecondaryAdministrativeSubdivisionListAlt,
                string_views(v@),
            ),
            DataValue::SotaRef(s) => ValueView::Text(DataType::SotaRef, s@),
            DataValue::WwffRef(s) => ValueView::Text(DataType::WwffRef, s@),
            DataValue::Null => ValueView::Null,
        }
    }
}

/// Decodes each piece as an award; the first failure is the result.
pub open spec fn decode_awards(parts: Seq<Seq<char>>) -> Result<Seq<Award>, ErrorKind>
    decreases parts.len(),
{
    if parts.len() == 0 {
        Ok(Seq::empty())
    } else {
        match decode_awards(parts.drop_last()) {
            Err(e) => Err(e),
            Ok(xs) => match Award::spec_from_token(parts.last()) {
                None => Err(ErrorKind::UnknownEnumerationToken),
                Some(a) => Ok(xs.push(a)),
            },
        }
    }
}

/// Decodes each piece as a sponsored award; the first failure is the result.
pub open spec fn decode_sponsored_awards(parts: Seq<Seq<char>>) -> Result<
    Seq<SponsoredAwardView>,
    ErrorKind,
>
    decreases parts.len(),
{
    if parts.len() == 0 {
        Ok(Seq::empty())
    } else {
        match decode_sponsored_awards(parts.drop_last()) {
            Err(e) => Err(e),
            Ok(xs) => match SponsoredAward::spec_decode(parts.last()) {
                Err(e) => Err(e),
                Ok(a) => Ok(xs.push(a)),
            },
        }
    }
}

pub open spec fn award_tokens(v: Seq<Award>) -> Seq<Seq<char>> {
    v.map_values(|a: Award| a.spec_token())
}

pub open spec fn sponsored_award_texts(v: Seq<SponsoredAwardView>) -> Seq<Seq<char>> {
    v.map_values(|a: SponsoredAwardView| a.spec_encode())
}

impl ValueView {
    /// The data type that the value was decoded with.
    pub open spec fn data_type(self) -> DataType {
        match self {
            ValueView::Awards(_) => DataType::AwardList,
            ValueView::SponsoredAwards(_) => DataType::SponsoredAwardList,
            ValueView::Boolean(_) => DataType::Boolean,
            ValueView::Digit(_) => DataType::Digit,
            ValueView::Integer(_) => DataType::Integer,
            ValueView::Number(_) => DataType::Number,
            ValueView::PositiveInteger(_) => DataType::PositiveInteger,
            ValueView::Char(t, _) => t,
            ValueView::Date(_) => DataType::Date,
            ValueView::Time(_) => DataType::Time,
            ValueView::IotaRefNo(_) => DataType::IotaRefNo,
            ValueView::Text(t, _) => t,
            ValueView::Enumeration(e) => DataType::Enumeration(e.spec_type()),
            ValueView::TextList(t, _) => t,
            ValueView::Location(_) => DataType::Location,
            ValueView::Null => DataType::Null,
        }
    }

    /// The values that can be written and read back: single digits, valid
    /// dates, times and coordinates, number texts, lists of at least one item
    /// whose items hold no `,`, and sponsored awards whose parts hold no `_`.
    pub open spec fn wf(self) -> bool {
        match self {
            ValueView::Awards(v) => v.len() >= 1,
            ValueView::SponsoredAwards(v) => v.len() >= 1 && forall|i: int|
                0 <= i < v.len() ==> (#[trigger] v[i]).wf() && free_of(v[i].program, ',')
                    && free_of(v[i].award, ','),
            ValueView::Digit(d) => d < 10,
            ValueView::Number(s) => number_text(s),
            ValueView::Char(t, _) => is_char_type(t),
            ValueView::Date(d) => d.wf(),
            ValueView::Time(t) => t.wf(),
            ValueView::IotaRefNo(r) => r.wf(),
            ValueView::Text(t, _) => is_text_type(t),
            ValueView::TextList(t, v) => is_text_list_type(t) && v.len() >= 1 && forall|i: int|
                0 <= i < v.len() ==> free_of(#[trigger] v[i], ','),
            ValueView::Location(l) => l.wf(),
            _ => true,
        }
    }

    /// The wire text of the value.
    pub open spec fn spec_encode(self) -> Seq<char> {
        match self {
            ValueView::Awards(v) => join(award_tokens(v), ','),
            ValueView::SponsoredAwards(v) => join(sponsored_award_texts(v), ','),
            ValueView::Boolean(b) => if b {
                seq!['Y']
            } else {
                seq!['N']
            },
            ValueView::Digit(d) => decimal(d as nat),
            ValueView::Integer(i) => integer_text(i),
            ValueView::Number(s) => s,
            ValueView::PositiveInteger(n) => decimal(n as nat),
            ValueView::Char(_, c) => seq![c],
            ValueView::Date(d) => d.spec_encode(),
            ValueView::Time(t) => t.spec_encode(),
            ValueView::IotaRefNo(r) => r.spec_encode(),
            ValueView::Text(_, s) => s,
            ValueView::Enumeration(e) => e.spec_token(),
            ValueView::TextList(_, v) => join(v, ','),
            ValueView::Location(l) => l.spec_encode(),
            ValueView::Null => Seq::empty(),
        }
    }
}

impl DataValue {
    /// Reads the text `s` as a value of type `t`.
    pub open spec fn spec_decode(t: DataType, s: Seq<char>) -> Result<ValueView, ErrorKind> {
        match t {
            DataType::AwardList => match decode_awards(split(s, ',')) {
                Ok(v) => Ok(ValueView::Awards(v)),
                Err(e) => Err(e),
            },
            DataType::SponsoredAwardList => match decode_sponsored_awards(split(s, ',')) {
                Ok(v) => Ok(ValueView::SponsoredAwards(v)),
                Err(e) => Err(e),
            },
            DataType::Boolean => if s == seq!['Y'] {
                Ok(ValueView::Boolean(true))
            } else if s == seq!['N'] {
                Ok(ValueView::Boolean(false))
            } else {
                Err(ErrorKind::InvalidScalar)
            },
            DataType::Digit => if s.len() == 1 && is_digit(s[0]) {
                Ok(ValueView::Digit(digits_value(s) as u8))
            } else {
                Err(ErrorKind::InvalidScalar)
            },
            DataType::Integer => match integer_of(s) {
                Some(i) => Ok(ValueView::Integer(i)),
                None => Err(ErrorKind::InvalidScalar),
            },
            DataType::Number => if number_text(s) {
                Ok(ValueView::Number(s))
            } else {
                Err(ErrorKind::InvalidScalar)
            },
            DataType::PositiveInteger => if s.len() > 0 && all_digits(s) && digits_value(s)
                <= 18446744073709551615 {
                Ok(ValueView::PositiveInteger(digits_value(s) as u64))
            } else {
                Err(ErrorKind::InvalidScalar)
            },
            DataType::Character | DataType::IntlCharacter => if s.len() > 0 {
                Ok(ValueView::Char(t, s[0]))
            } else {
                Err(ErrorKind::InvalidScalar)
            },
            DataType::Date => match Date::spec_decode(s) {
                Some(d) => Ok(ValueView::Date(d)),
                None => Err(ErrorKind::InvalidScalar),
            },
            DataType::Time => match Time::spec_decode(s) {
                Some(d) => Ok(ValueView::Time(d)),
                None => Err(ErrorKind::InvalidScalar),
            },
            DataType::IotaRefNo => match IotaRefNo::spec_decode(s) {
                Ok(r) => Ok(ValueView::IotaRefNo(r)),
                Err(e) => Err(e),
            },
            DataType::Enumeration(et) => match Enumeration::spec_decode(et, s) {
                Some(e) => Ok(ValueView::Enumeration(e)),
                None => Err(ErrorKind::UnknownEnumerationToken),
            },
            DataType::Location => match Location::spec_decode(s) {
                Ok(l) => Ok(ValueView::Location(l)),
                Err(e) => Err(e),
            },
            DataType::Null => if s.len() == 0 {
                Ok(ValueView::Null)
            } else {
                Err(ErrorKind::MalformedField)
            },
            DataType::GridSquareList | DataType::PotaRefList | DataType::SecondarySubdivisionList
            | DataType::SecondaryAdministrativeSubdivisionListAlt => Ok(
                ValueView::TextList(t, split(s, ',')),
            ),
            _ => Ok(ValueView::Text(t, s)),
        }
    }
}

/// A failure on a prefix of the pieces is the failure of the whole list.
proof fn lemma_decode_awards_prefix(p: Seq<Seq<char>>, k: int)
    requires
        0 <= k <= p.len(),
        decode_awards(p.subrange(0, k)) is Err,
    ensures
        decode_awards(p) == decode_awards(p.subrange(0, k)),
    decreases p.len() - k,
{
    if k < p.len() {
        let q = p.subrange(0, k + 1);
        assert(q.drop_last() =~= p.subrange(0, k));
        lemma_decode_awards_prefix(p, k + 1);
    } else {
        assert(p.subrange(0, k) =~= p);
    }
}

proof fn lemma_decode_sponsored_awards_prefix(p: Seq<Seq<char>>, k: int)
    requires
        0 <= k <= p.len(),
        decode_sponsored_awards(p.subrange(0, k)) is Err,
    ensures
        decode_sponsored_awards(p) == decode_sponsored_awards(p.subrange(0, k)),
    decreases p.len() - k,
{
    if k < p.len() {
        let q = p.subrange(0, k + 1);
        assert(q.drop_last() =~= p.subrange(0, k));
        lemma_decode_sponsored_awards_prefix(p, k + 1);
    } else {
        assert(p.subrange(0, k) =~= p);
    }
}

proof fn lemma_awards_round_trip(v: Seq<Award>)
    ensures
        decode_awards(award_tokens(v)) == Ok::<Seq<Award>, ErrorKind>(v),
    decreases v.len(),
{
    if v.len() > 0 {
        assert(award_tokens(v).drop_last() =~= award_tokens(v.drop_last()));
        lemma_awards_round_trip(v.drop_last());
        v.last().lemma_token();
        assert(v.drop_last().push(v.last()) =~= v);
    } else {
        assert(award_tokens(v) =~= Seq::<Seq<char>>::empty());
        assert(v =~= Seq::<Award>::empty());
    }
}

proof fn lemma_sponsored_awards_round_trip(v: Seq<SponsoredAwardView>)
    requires
        forall|i: int| 0 <= i < v.len() ==> (#[trigger] v[i]).wf(),
    ensures
        decode_sponsored_awards(sponsored_award_texts(v)) == Ok::<
            Seq<SponsoredAwardView>,
            ErrorKind,
        >(v),
    decreases v.len(),
{
    if v.len() > 0 {
        assert(sponsored_award_texts(v).drop_last() =~= sponsored_award_texts(v.drop_last()));
        assert forall|i: int| 0 <= i < v.drop_last().len() implies (
        #[trigger] v.drop_last()[i]).wf() by {
            assert(v.drop_last()[i] == v[i]);
        }
        lemma_sponsored_awards_round_trip(v.drop_last());
        assert(v[v.len() - 1].wf());
        SponsoredAward::lemma_round_trip(v.last());
        assert(v.drop_last().push(v.last()) =~= v);
    } else {
        assert(sponsored_award_texts(v) =~= Seq::<Seq<char>>::empty());
        assert(v =~= Seq::<SponsoredAwardView>::empty());
    }
}

/// Every value that can be constructed is read back from its own text, with
/// its own data type.
pub proof fn lemma_value_round_trip(v: ValueView)
    requires
        v.wf(),
    ensures
        DataValue::spec_decode(v.data_type(), v.spec_encode()) == Ok::<ValueView, ErrorKind>(v),
{
    match v {
        ValueView::Awards(a) => {
            let t = award_tokens(a);
            assert forall|i: int| 0 <= i < t.len() implies free_of(#[trigger] t[i], ',') by {
                a[i].lemma_token();
            }
            lemma_split_join(t, ',');
            lemma_awards_round_trip(a);
        },
        ValueView::SponsoredAwards(a) => {
            let t = sponsored_award_texts(a);
            assert forall|i: int| 0 <= i < t.len() implies free_of(#[trigger] t[i], ',') by {
                assert(a[i].wf());
                SponsoredAward::lemma_round_trip(a[i]);
            }
            lemma_split_join(t, ',');
            lemma_sponsored_awards_round_trip(a);
        },
        ValueView::Digit(d) => {
            lemma_decimal(d as nat);
            lemma_digit_char(d as nat);
            assert(decimal(d as nat) =~= seq![digit_char(d as nat)]);
        },
        ValueView::Integer(i) => {
            let s = integer_text(i);
            if i < 0 {
                lemma_decimal((-i) as nat);
                assert(s.subrange(1, s.len() as int) =~= decimal((-i) as nat));
            } else {
                lemma_decimal(i as nat);
                assert(is_digit(s[0]));
            }
        },
        ValueView::PositiveInteger(n) => {
            lemma_decimal(n as nat);
        },
        ValueView::Date(d) => {
            d.lemma_round_trip();
        },
        ValueView::Time(t) => {
            t.lemma_round_trip();
        },
        ValueView::IotaRefNo(r) => {
            r.lemma_round_trip();
        },
        ValueView::Enumeration(e) => {
            e.lemma_round_trip();
        },
        ValueView::TextList(t, l) => {
            lemma_split_join(l, ',');
        },
        ValueView::Location(l) => {
            l.lemma_round_trip();
        },
        _ => {},
    }
}

proof fn lemma_decode_awards_len(p: Seq<Seq<char>>)
    ensures
        decode_awards(p) matches Ok(v) ==> v.len() == p.len(),
    decreases p.len(),
{
    if p.len() > 0 {
        lemma_decode_awards_len(p.drop_last());
    }
}

proof fn lemma_decode_sponsored_awards_wf(p: Seq<Seq<char>>)
    requires
        forall|i: int| 0 <= i < p.len() ==> free_of(#[trigger] p[i], ','),
    ensures
        decode_sponsored_awards(p) matches Ok(v) ==> v.len() == p.len() && forall|i: int|
            0 <= i < v.len() ==> (#[trigger] v[i]).wf() && free_of(v[i].program, ',')
                && free_of(v[i].award, ','),
    decreases p.len(),
{
    if p.len() > 0 {
        let init = p.drop_last();
        assert forall|i: int| 0 <= i < init.len() implies free_of(#[trigger] init[i], ',') by {
            assert(init[i] == p[i]);
        }
        lemma_decode_sponsored_awards_wf(init);
        let x = p.last();
        assert(x == p[p.len() - 1]);
        crate::text::lemma_split_pieces(x, '_', ',');
        crate::text::lemma_split_len(x, '_');
        if let Ok(v) = decode_sponsored_awards(p) {
            let xs = decode_sponsored_awards(init)->Ok_0;
            let a = SponsoredAward::spec_decode(x)->Ok_0;
            assert(v == xs.push(a));
            let parts = split(x, '_');
            assert(a.program == parts[1] && a.award == parts[2]);
            assert forall|i: int| 0 <= i < v.len() implies (#[trigger] v[i]).wf() && free_of(
                v[i].program,
                ',',
            ) && free_of(v[i].award, ',') by {
                if i < xs.len() {
                    assert(v[i] == xs[i]);
                }
            }
        }
    }
}

/// Whatever decoding returns is well formed and of the type it was decoded
/// with, so the value round trip holds for every decoded value.
pub proof fn lemma_decoded_value_wf(t: DataType, s: Seq<char>)
    ensures
        DataValue::spec_decode(t, s) matches Ok(v) ==> v.wf() && v.data_type() == t,
{
    crate::text::lemma_split_len(s, ',');
    crate::text::lemma_split_pieces(s, ',', ',');
    match t {
        DataType::AwardList => {
            lemma_decode_awards_len(split(s, ','));
        },
        DataType::SponsoredAwardList => {
            lemma_decode_sponsored_awards_wf(split(s, ','));
        },
        DataType::Digit => {
            if s.len() == 1 && is_digit(s[0]) {
                assert(all_digits(s));
                crate::text::lemma_digits_value_bound(s);
            }
        },
        DataType::IotaRefNo => {
            let parts = split(s, '-');
            crate::text::lemma_split_len(s, '-');
            if parts.len() == 2 && parts[1].len() == 3 && all_digits(parts[1]) {
                crate::text::lemma_digits_value_bound(parts[1]);
            }
        },
        DataType::Enumeration(et) => {
            Enumeration::lemma_decode(et, s);
        },
        DataType::Location => {
            if s.len() == 11 && all_digits(s.subrange(1, 4)) && all_digits(s.subrange(5, 7))
                && all_digits(s.subrange(8, 11)) {
                crate::text::lemma_digits_value_bound(s.subrange(1, 4));
                crate::text::lemma_digits_value_bound(s.subrange(5, 7));
                crate::text::lemma_digits_value_bound(s.subrange(8, 11));
            }
        },
        _ => {},
    }
}

/// Whether `s` is the text of a decimal number.
pub fn is_number_text(s: &[char]) -> (r: bool)
    ensures
        r == number_text(s@),
{
    let start: usize = if s.len() > 0 && s[0] == '-' {
        1
    } else {
        0
    };
    let ghost body = s@.subrange(start as int, s@.len() as int);
    assert(body =~= (if s@.len() > 0 && s@[0] == '-' {
        s@.subrange(1, s@.len() as int)
    } else {
        s@
    }));
    let mut dots: usize = 0;
    let mut digits: usize = 0;
    let mut i: usize = start;
    while i < s.len()
        invariant
            start <= i <= s@.len(),
            body == s@.subrange(start as int, s@.len() as int),
            body == number_body(s@),
            dots == count_of(s@.subrange(start as int, i as int), '.'),
            digits == digit_count(s@.subrange(start as int, i as int)),
            digits <= i,
            dots <= 1,
            forall|k: int| start <= k < i ==> is_digit(#[trigger] s@[k]) || s@[k] == '.',
        decreases s@.len() - i,
    {
        let c = s[i];
        let ghost pre = s@.subrange(start as int, i as int);
        let ghost next = s@.subrange(start as int, i + 1);
        assert(next.drop_last() =~= pre);
        if c == '.' {
            if dots == 1 {
                proof {
                    assert(count_of(next, '.') == 2);
                    assert(body.subrange(0, next.len() as int) =~= next);
                    lemma_count_prefix(body, '.', next.len() as int);
                    assert(count_of(body, '.') >= 2);
                    assert(!number_text(s@));
                }
                return false;
            }
            dots = dots + 1;
        } else if is_digit_char(c) {
            digits = digits + 1;
        } else {
            proof {
                let k = i - start;
                assert(body[k] == c);
                assert(!(is_digit(body[k]) || body[k] == '.'));
                assert(number_body(s@) == body);
                assert(!number_chars(body));
                assert(!number_text(s@));
            }
            return false;
        }
        i = i + 1;
    }
    assert(s@.subrange(start as int, i as int) =~= body);
    digits >= 1
}

/// Occurrences in a prefix never outnumber those in the whole.
proof fn lemma_count_prefix(s: Seq<char>, c: char, k: int)
    requires
        0 <= k <= s.len(),
    ensures
        count_of(s.subrange(0, k), c) <= count_of(s, c),
    decreases s.len() - k,
{
    if k < s.len() {
        assert(s.subrange(0, k + 1).drop_last() =~= s.subrange(0, k));
        lemma_count_prefix(s, c, k + 1);
    } else {
        assert(s.subrange(0, k) =~= s);
    }
}

/// Appends the pieces, with `sep` between each two.
pub fn push_joined(out: &mut Vec<char>, parts: &Vec<Vec<char>>, sep: char)
    ensures
        final(out)@ == old(out)@ + join(views(parts@), sep),
{
    let mut i: usize = 0;
    while i < parts.len()
        invariant
            i <= parts@.len(),
            out@ == old(out)@ + join(views(parts@).subrange(0, i as int), sep),
        decreases parts@.len() - i,
    {
        let ghost pre = views(parts@).subrange(0, i as int);
        let ghost next = views(parts@).subrange(0, i + 1);
        assert(next.drop_last() =~= pre);
        assert(next.last() == parts@[i as int]@);
        if i > 0 {
            out.push(sep);
        }
        append_chars(out, parts[i].as_slice());
        proof {
            if i == 0 {
                assert(pre =~= Seq::<Seq<char>>::empty());
            }
        }
        assert(out@ =~= old(out)@ + join(next, sep));
        i = i + 1;
    }
    assert(views(parts@).subrange(0, i as int) =~= views(parts@));
}

/// The texts of `vec`, with `s` between each two.
pub fn join_vec(vec: &Vec<String>, s: char) -> (r: String)
    ensures
        r@ == join(string_views(vec@), s),
{
    let mut parts: Vec<Vec<char>> = Vec::new();
    let mut i: usize = 0;
    while i < vec.len()
        invariant
            i <= vec@.len(),
            views(parts@) == string_views(vec@).subrange(0, i as int),
        decreases vec@.len() - i,
    {
        let ghost before = views(parts@);
        parts.push(chars_of(vec[i].as_str()));
        assert(views(parts@) =~= before.push(vec@[i as int]@));
        assert(string_views(vec@).subrange(0, i + 1) =~= before.push(vec@[i as int]@));
        i = i + 1;
    }
    assert(string_views(vec@).subrange(0, i as int) =~= string_views(vec@));
    let mut out: Vec<char> = Vec::new();
    push_joined(&mut out, &parts, s);
    assert(out@ =~= join(views(parts@), s));
    string_of(&out)
}

/// The comma-separated pieces of `value`.
pub fn split_to_vec(value: &str) -> (r: Vec<String>)
    ensures
        string_views(r@) == split(value@, ','),
{
    let chars = chars_of(value);
    decode_string_list(chars.as_slice())
}

fn push_string_list(out: &mut Vec<char>, v: &Vec<String>)
    ensures
        final(out)@ == old(out)@ + join(string_views(v@), ','),
{
    let mut parts: Vec<Vec<char>> = Vec::new();
    let mut i: usize = 0;
    while i < v.len()
        invariant
            i <= v@.len(),
            views(parts@) == string_views(v@).subrange(0, i as int),
        decreases v@.len() - i,
    {
        let ghost before = views(parts@);
        parts.push(chars_of(v[i].as_str()));
        assert(views(parts@) =~= before.push(v@[i as int]@));
        assert(string_views(v@).subrange(0, i + 1) =~= before.push(v@[i as int]@));
        i = i + 1;
    }
    assert(string_views(v@).subrange(0, i as int) =~= string_views(v@));
    push_joined(out, &parts, ',');
}

fn push_award_list(out: &mut Vec<char>, v: &Vec<Award>)
    ensures
        final(out)@ == old(out)@ + join(award_tokens(v@), ','),
{
    let mut parts: Vec<Vec<char>> = Vec::new();
    let mut i: usize = 0;
    while i < v.len()
        invariant
            i <= v@.len(),
            views(parts@) == award_tokens(v@).subrange(0, i as int),
        decreases v@.len() - i,
    {
        let ghost before = views(parts@);
        let mut t: Vec<char> = Vec::new();
        v[i].push_token(&mut t);
        parts.push(t);
        assert(t@ =~= v@[i as int].spec_token());
        assert(views(parts@) =~= before.push(v@[i as int].spec_token()));
        assert(award_tokens(v@).subrange(0, i + 1) =~= before.push(v@[i as int].spec_token()));
        i = i + 1;
    }
    assert(award_tokens(v@).subrange(0, i as int) =~= award_tokens(v@));
    push_joined(out, &parts, ',');
}

fn push_sponsored_award_list(out: &mut Vec<char>, v: &Vec<SponsoredAward>)
    ensures
        final(out)@ == old(out)@ + join(sponsored_award_texts(award_views(v@)), ','),
{
    let ghost texts = sponsored_award_texts(award_views(v@));
    let mut parts: Vec<Vec<char>> = Vec::new();
    let mut i: usize = 0;
    while i < v.len()
        invariant
            i <= v@.len(),
            texts == sponsored_award_texts(award_views(v@)),
            views(parts@) == texts.subrange(0, i as int),
        decreases v@.len() - i,
    {
        let ghost before = views(parts@);
        let mut t: Vec<char> = Vec::new();
        v[i].push_encoding(&mut t);
        parts.push(t);
        assert(t@ =~= v@[i as int]@.spec_encode());
        assert(views(parts@) =~= before.push(v@[i as int]@.spec_encode()));
        assert(texts.subrange(0, i + 1) =~= before.push(v@[i as int]@.spec_encode()));
        i = i + 1;
    }
    assert(texts.subrange(0, i as int) =~= texts);
    push_joined(out, &parts, ',');
}

fn push_integer(out: &mut Vec<char>, i: i64)
    ensures
        final(out)@ == old(out)@ + integer_text(i),
{
    if i < 0 {
        out.push('-');
        let m: u64 = if i == i64::MIN {
            9223372036854775808u64
        } else {
            (-i) as u64
        };
        push_decimal(out, m);
        assert(final(out)@ =~= old(out)@ + integer_text(i));
    } else {
        push_decimal(out, i as u64);
    }
}

fn decode_integer(s: &[char]) -> (r: Option<i64>)
    ensures
        r == integer_of(s@),
{
    if s.len() > 0 && s[0] == '-' {
        match parse_decimal(s, 1, s.len(), 9223372036854775808u64) {
            Some(m) => {
                if m == 9223372036854775808u64 {
                    Some(i64::MIN)
                } else {
                    Some(-(m as i64))
                }
            },
            None => None,
        }
    } else {
        let r = parse_decimal(s, 0, s.len(), 9223372036854775807u64);
        assert(s@.subrange(0, s@.len() as int) =~= s@);
        match r {
            Some(m) => Some(m as i64),
            None => None,
        }
    }
}

fn decode_award_list(s: &[char]) -> (r: Result<Vec<Award>, AdifError>)
    ensures
        match r {
            Ok(v) => decode_awards(split(s@, ',')) == Ok::<Seq<Award>, ErrorKind>(v@),
            Err(e) => decode_awards(split(s@, ',')) == Err::<Seq<Award>, ErrorKind>(e.kind),
        },
{
    let parts = split_chars(s, ',');
    let ghost p = views(parts@);
    let mut out: Vec<Award> = Vec::new();
    let mut i: usize = 0;
    while i < parts.len()
        invariant
            i <= parts@.len(),
            p == views(parts@),
            p == split(s@, ','),
            p.len() == parts@.len(),
            decode_awards(p.subrange(0, i as int)) == Ok::<Seq<Award>, ErrorKind>(out@),
        decreases parts@.len() - i,
    {
        let ghost pre = p.subrange(0, i as int);
        let ghost next = p.subrange(0, i + 1);
        assert(next.drop_last() =~= pre);
        assert(next.last() == parts@[i as int]@);
        match Award::from_token(parts[i].as_slice()) {
            Some(a) => {
                out.push(a);
            },
            None => {
                proof {
                    assert(decode_awards(next) == Err::<Seq<Award>, ErrorKind>(
                        ErrorKind::UnknownEnumerationToken,
                    ));
                    lemma_decode_awards_prefix(p, i + 1);
                }
                return Err(AdifError::new(ErrorKind::UnknownEnumerationToken, parts[i].as_slice()));
            },
        }
        i = i + 1;
    }
    assert(p.subrange(0, i as int) =~= p);
    Ok(out)
}

fn decode_sponsored_award_list(s: &[char]) -> (r: Result<Vec<SponsoredAward>, AdifError>)
    ensures
        match r {
            Ok(v) => decode_sponsored_awards(split(s@, ',')) == Ok::<
                Seq<SponsoredAwardView>,
                ErrorKind,
            >(award_views(v@)),
            Err(e) => decode_sponsored_awards(split(s@, ',')) == Err::<
                Seq<SponsoredAwardView>,
                ErrorKind,
            >(e.kind),
        },
{
    let parts = split_chars(s, ',');
    let ghost p = views(parts@);
    let mut out: Vec<SponsoredAward> = Vec::new();
    let mut i: usize = 0;
    assert(award_views(out@) =~= Seq::<SponsoredAwardView>::empty());
    assert(p.subrange(0, 0) =~= Seq::<Seq<char>>::empty());
    while i < parts.len()
        invariant
            i <= parts@.len(),
            p == views(parts@),
            p == split(s@, ','),
            p.len() == parts@.len(),
            decode_sponsored_awards(p.subrange(0, i as int)) == Ok::<
                Seq<SponsoredAwardView>,
                ErrorKind,
            >(award_views(out@)),
        decreases parts@.len() - i,
    {
        let ghost pre = p.subrange(0, i as int);
        let ghost next = p.subrange(0, i + 1);
        assert(next.drop_last() =~= pre);
        assert(next.last() == parts@[i as int]@);
        match SponsoredAward::decode(parts[i].as_slice()) {
            Ok(a) => {
                let ghost before = award_views(out@);
                out.push(a);
                assert(award_views(out@) =~= before.push(a@));
            },
            Err(e) => {
                proof {
                    assert(decode_sponsored_awards(next) == Err::<
                        Seq<SponsoredAwardView>,
                        ErrorKind,
                    >(e.kind));
                    lemma_decode_sponsored_awards_prefix(p, i + 1);
                }
                return Err(e);
            },
        }
        i = i + 1;
    }
    assert(p.subrange(0, i as int) =~= p);
    Ok(out)
}

fn decode_string_list(s: &[char]) -> (r: Vec<String>)
    ensures
        string_views(r@) == split(s@, ','),
{
    let parts = split_chars(s, ',');
    let mut out: Vec<String> = Vec::new();
    let mut i: usize = 0;
    while i < parts.len()
        invariant
            i <= parts@.len(),
            string_views(out@) == views(parts@).subrange(0, i as int),
        decreases parts@.len() - i,
    {
        let ghost before = string_views(out@);
        let t = string_of(parts[i].as_slice());
        assert(t@ == views(parts@)[i as int]);
        out.push(t);
        assert(string_views(out@) =~= before.push(t@));
        assert(string_views(out@) =~= views(parts@).subrange(0, i + 1));
        i = i + 1;
    }
    assert(views(parts@).subrange(0, i as int) =~= views(parts@));
    out
}

impl DataValue {
    /// The data type that the value belongs to.
    pub fn data_type(&self) -> (r: DataType)
        ensures
            r == self@.data_type(),
    {
        match self {
            DataValue::AwardList(_) => DataType::AwardList,
            DataValue::SponsoredAwardList(_) => DataType::SponsoredAwardList,
            DataValue::Boolean(_) => DataType::Boolean,
            DataValue::Digit(_) => DataType::Digit,
            DataValue::Integer(_) => DataType::Integer,
            DataValue::Number(_) => DataType::Number,
            DataValue::PositiveInteger(_) => DataType::PositiveInteger,
            DataValue::Character(_) => DataType::Character,
            DataValue::IntlCharacter(_) => DataType::IntlCharacter,
            DataValue::Date(_) => DataType::Date,
            DataValue::Time(_) => DataType::Time,
            DataValue::IotaRefNo(_) => DataType::IotaRefNo,
            DataValue::String(_) => DataType::String,
            DataValue::IntlString(_) => DataType::IntlString,
            DataValue::MultilineString(_) => DataType::MultilineString,
            DataValue::IntlMultilineString(_) => DataType::IntlMultilineString,
            DataValue::Enumeration(e) => DataType::Enumeration(e.enumeration_type()),
            DataValue::GridSquare(_) => DataType::GridSquare,
            DataValue::GridSquareExt(_) => DataType::GridSquareExt,
            DataValue::GridSquareList(_) => DataType::GridSquareList,
            DataValue::Location(_) => DataType::Location,
            DataValue::PotaRef(_) => DataType::PotaRef,
            DataValue::PotaRefList(_) => DataType::PotaRefList,
            DataValue::SecondarySubdivisionList(_) => DataType::SecondarySubdivisionList,
            DataValue::SecondaryAdministrativeSubdivisionListAlt(_) => {
                DataType::SecondaryAdministrativeSubdivisionListAlt
            },
            DataValue::SotaRef(_) => DataType::SotaRef,
            DataValue::WwffRef(_) => DataType::WwffRef,
            DataValue::Null => DataType::Null,
        }
    }

    /// The ADIF type indicator of the value, for the types that have one.
    pub fn to_char(&self) -> (r: Option<char>)
        ensures
            r == (match self@.data_type() {
                DataType::Boolean => Some('B'),
                DataType::Number => Some('N'),
                DataType::Date => Some('D'),
                DataType::Time => Some('T'),
                DataType::String => Some('S'),
                DataType::IntlString => Some('I'),
                DataType::MultilineString => Some('M'),
                DataType::IntlMultilineString => Some('G'),
                DataType::Enumeration(_) => Some('E'),
                DataType::Location => Some('L'),
                _ => None,
            }),
    {
        match self {
            DataValue::Boolean(_) => Some('B'),
            DataValue::Number(_) => Some('N'),
            DataValue::Date(_) => Some('D'),
            DataValue::Time(_) => Some('T'),
            DataValue::String(_) => Some('S'),
            DataValue::IntlString(_) => Some('I'),
            DataValue::MultilineString(_) => Some('M'),
            DataValue::IntlMultilineString(_) => Some('G'),
            DataValue::Enumeration(_) => Some('E'),
            DataValue::Location(_) => Some('L'),
            _ => None,
        }
    }

    pub fn push_encoding(&self, out: &mut Vec<char>)
        ensures
            final(out)@ == old(out)@ + self@.spec_encode(),
    {
        match self {
            DataValue::AwardList(v) => push_award_list(out, v),
            DataValue::SponsoredAwardList(v) => push_sponsored_award_list(out, v),
            DataValue::Boolean(b) => {
                out.push(if *b {
                    'Y'
                } else {
                    'N'
                });
                assert(final(out)@ =~= old(out)@ + self@.spec_encode());
            },
            DataValue::Digit(d) => push_decimal(out, *d as u64),
            DataValue::Integer(i) => push_integer(out, *i),
            DataValue::Number(s) => append_chars(out, chars_of(s.as_str()).as_slice()),
            DataValue::PositiveInteger(n) => push_decimal(out, *n),
            DataValue::Character(c) | DataValue::IntlCharacter(c) => {
                out.push(*c);
                assert(final(out)@ =~= old(out)@ + self@.spec_encode());
            },
            DataValue::Date(d) => d.push_encoding(out),
            DataValue::Time(t) => t.push_encoding(out),
            DataValue::IotaRefNo(r) => r.push_encoding(out),
            DataValue::String(s) | DataValue::IntlString(s) | DataValue::MultilineString(s)
            | DataValue::IntlMultilineString(s) | DataValue::GridSquare(s)
            | DataValue::GridSquareExt(s) | DataValue::PotaRef(s) | DataValue::SotaRef(s)
            | DataValue::WwffRef(s) => append_chars(out, chars_of(s.as_str()).as_slice()),
            DataValue::Enumeration(e) => e.push_token(out),
            DataValue::GridSquareList(v) | DataValue::PotaRefList(v)
            | DataValue::SecondarySubdivisionList(v)
            | DataValue::SecondaryAdministrativeSubdivisionListAlt(v) => push_string_list(out, v),
            DataValue::Location(l) => l.push_encoding(out),
            DataValue::Null => {
                assert(final(out)@ =~= old(out)@ + self@.spec_encode());
            },
        }
    }

    /// The wire text of the value.
    pub fn serialize(&self) -> (r: String)
        ensures
            r@ == self@.spec_encode(),
    {
        let mut out: Vec<char> = Vec::new();
        self.push_encoding(&mut out);
        assert(out@ =~= self@.spec_encode());
        string_of(&out)
    }

    /// Reads `s` as a value of type `t`.
    pub fn decode(t: DataType, s: &[char]) -> (r: Result<DataValue, AdifError>)
        ensures
            agrees(r, DataValue::spec_decode(t, s@)),
    {
        match t {
            DataType::AwardList => match decode_award_list(s) {
                Ok(v) => Ok(DataValue::AwardList(v)),
                Err(e) => Err(e),
            },
            DataType::SponsoredAwardList => match decode_sponsored_award_list(s) {
                Ok(v) => Ok(DataValue::SponsoredAwardList(v)),
                Err(e) => Err(e),
            },
            DataType::Boolean => {
                if s.len() == 1 && s[0] == 'Y' {
                    assert(s@ =~= seq!['Y']);
                    Ok(DataValue::Boolean(true))
                } else if s.len() == 1 && s[0] == 'N' {
                    assert(s@ =~= seq!['N']);
                    Ok(DataValue::Boolean(false))
                } else {
                    Err(AdifError::new(ErrorKind::InvalidScalar, s))
                }
            },
            DataType::Digit => {
                if s.len() == 1 && is_digit_char(s[0]) {
                    let d = (s[0] as u32 - '0' as u32) as u8;
                    proof {
                        assert(s@.drop_last() =~= Seq::<char>::empty());
                        assert(digits_value(Seq::<char>::empty()) == 0);
                        assert(digits_value(s@) == digits_value(s@.drop_last()) * 10
                            + crate::text::digit_value(s@.last()));
                    }
                    Ok(DataValue::Digit(d))
                } else {
                    Err(AdifError::new(ErrorKind::InvalidScalar, s))
                }
            },
            DataType::Integer => match decode_integer(s) {
                Some(i) => Ok(DataValue::Integer(i)),
                None => Err(AdifError::new(ErrorKind::InvalidScalar, s)),
            },
            DataType::Number => {
                if is_number_text(s) {
                    Ok(DataValue::Number(string_of(s)))
                } else {
                    Err(AdifError::new(ErrorKind::InvalidScalar, s))
                }
            },
            DataType::PositiveInteger => {
                let r = parse_decimal(s, 0, s.len(), 18446744073709551615u64);
                assert(s@.subrange(0, s@.len() as int) =~= s@);
                match r {
                    Some(n) => Ok(DataValue::PositiveInteger(n)),
                    None => Err(AdifError::new(ErrorKind::InvalidScalar, s)),
                }
            },
            DataType::Character => {
                if s.len() > 0 {
                    Ok(DataValue::Character(s[0]))
                } else {
                    Err(AdifError::new(ErrorKind::InvalidScalar, s))
                }
            },
            DataType::IntlCharacter => {
                if s.len() > 0 {
                    Ok(DataValue::IntlCharacter(s[0]))
                } else {
                    Err(AdifError::new(ErrorKind::InvalidScalar, s))
                }
            },
            DataType::Date => match Date::decode(s) {
                Some(d) => Ok(DataValue::Date(d)),
                None => Err(AdifError::new(ErrorKind::InvalidScalar, s)),
            },
            DataType::Time => match Time::decode(s) {
                Some(d) => Ok(DataValue::Time(d)),
                None => Err(AdifError::new(ErrorKind::InvalidScalar, s)),
            },
            DataType::IotaRefNo => match IotaRefNo::decode(s) {
                Ok(r) => Ok(DataValue::IotaRefNo(r)),
                Err(e) => Err(e),
            },
            DataType::Enumeration(et) => match Enumeration::decode(et, s) {
                Some(e) => Ok(DataValue::Enumeration(e)),
                None => Err(AdifError::new(ErrorKind::UnknownEnumerationToken, s)),
            },
            DataType::Location => match Location::decode(s) {
                Ok(l) => Ok(DataValue::Location(l)),
                Err(e) => Err(e),
            },
            DataType::Null => {
                if s.len() == 0 {
                    Ok(DataValue::Null)
                } else {
                    Err(AdifError::new(ErrorKind::MalformedField, s))
                }
            },
            DataType::String => Ok(DataValue::String(string_of(s))),
            DataType::IntlString => Ok(DataValue::IntlString(string_of(s))),
            DataType::MultilineString => Ok(DataValue::MultilineString(string_of(s))),
            DataType::IntlMultilineString => Ok(DataValue::IntlMultilineString(string_of(s))),
            DataType::GridSquare => Ok(DataValue::GridSquare(string_of(s))),
            DataType::GridSquareExt => Ok(DataValue::GridSquareExt(string_of(s))),
            DataType::PotaRef => Ok(DataValue::PotaRef(string_of(s))),
            DataType::SotaRef => Ok(DataValue::SotaRef(string_of(s))),
            DataType::WwffRef => Ok(DataValue::WwffRef(string_of(s))),
            DataType::GridSquareList => Ok(DataValue::GridSquareList(decode_string_list(s))),
            DataType::PotaRefList => Ok(DataValue::PotaRefList(decode_string_list(s))),
            DataType::SecondarySubdivisionList => Ok(
                DataValue::SecondarySubdivisionList(decode_string_list(s)),
            ),
            DataType::SecondaryAdministrativeSubdivisionListAlt => Ok(
                DataValue::SecondaryAdministrativeSubdivisionListAlt(decode_string_list(s)),
            ),
        }
    }

    /// Reads `value` as a value of type `data_type`.
    pub fn str_to_enum(data_type: DataType, value: &str) -> (r: Result<DataValue, AdifError>)
        ensures
            agrees(r, DataValue::spec_decode(data_type, value@)),
    {
        let chars = chars_of(value);
        DataValue::decode(data_type, &chars)
    }
}

} // verus!
