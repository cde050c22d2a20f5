//! Predicates on the three time attributes, and the grammar of their
//! parameter: an offset from now, or a local date, time of day or both.

use crate::clock::{
    civil_from_str, civil_reading, civil_seconds, civil_timestamp, local_instant, near, unix_now,
};
use crate::filter::{Attribute, CompOp, Entry, Filter, FilterError};
use crate::text::{
    all_digits, decimal, decimal_value, digit_of, digit_value, digits_start, scan_digits, to_chars,
};
use vstd::prelude::*;
use vstd::string::StringExecFns;

verus! {

/// The unit of an offset from now. A month is 30 days and a year 365.
#[derive(Clone, Copy, Debug, PartialEq, Eq, Structural)]
pub enum RelativeTimeUnit {
    Second,
    Minute,
    Hour,
    Day,
    Week,
    Month,
    Year,
}

/// What reading a parameter as an offset from now gives.
#[derive(Clone, Copy, Debug, PartialEq, Eq, Structural)]
pub enum RelativeTime {
    /// The parameter is not of the form `<signed-int><unit>`.
    Absent,
    /// It is, but the offset does not fit in 63 bits of seconds.
    TooLarge,
    /// The offset in seconds, with the sign that was written.
    Seconds(i64),
}

pub open spec fn unit_of(c: char) -> Option<RelativeTimeUnit> {
    if c == 's' {
        Some(RelativeTimeUnit::Second)
    } else if c == 'm' {
        Some(RelativeTimeUnit::Minute)
    } else if c == 'h' {
        Some(RelativeTimeUnit::Hour)
    } else if c == 'D' {
        Some(RelativeTimeUnit::Day)
    } else if c == 'W' {
        Some(RelativeTimeUnit::Week)
    } else if c == 'M' {
        Some(RelativeTimeUnit::Month)
    } else if c == 'Y' {
        Some(RelativeTimeUnit::Year)
    } else {
        None
    }
}

pub open spec fn unit_seconds(unit: RelativeTimeUnit) -> int {
    match unit {
        RelativeTimeUnit::Second => 1,
        RelativeTimeUnit::Minute => 60,
        RelativeTimeUnit::Hour => 3600,
        RelativeTimeUnit::Day => 86400,
        RelativeTimeUnit::Week => 604800,
        RelativeTimeUnit::Month => 2592000,
        RelativeTimeUnit::Year => 31536000,
    }
}

/// `<signed-int><unit>`: an optional minus sign, one digit or more, and one
/// of the unit letters `s m h D W M Y`, with nothing before or after.
pub open spec fn is_relative_literal(s: Seq<char>) -> bool {
    &&& s.len() >= digits_start(s) + 2
    &&& all_digits(s, digits_start(s), s.len() - 1)
    &&& unit_of(s.last()) is Some
}

/// The seconds that a relative literal stands for, negative when it is
/// written with a minus sign.
pub open spec fn relative_seconds(s: Seq<char>) -> int {
    let magnitude = decimal_value(s.subrange(digits_start(s), s.len() - 1)) * unit_seconds(
        unit_of(s.last())->0,
    );
    if digits_start(s) == 1 {
        -magnitude
    } else {
        magnitude
    }
}

pub open spec fn two_digits(s: Seq<char>, at: int) -> int {
    (digit_value(s[at]) * 10 + digit_value(s[at + 1])) as int
}

pub open spec fn four_digits(s: Seq<char>, at: int) -> int {
    two_digits(s, at) * 100 + two_digits(s, at + 2)
}

/// `YYYY-MM-DD`, and the year, month and day it spells.
pub open spec fn date_literal(s: Seq<char>) -> Option<(int, int, int)> {
    if s.len() == 10 && all_digits(s, 0, 4) && s[4] == '-' && all_digits(s, 5, 7) && s[7] == '-'
        && all_digits(s, 8, 10) {
        Some((four_digits(s, 0), two_digits(s, 5), two_digits(s, 8)))
    } else {
        None
    }
}

/// `HH:MM`, and the hour and minute it spells.
pub open spec fn clock_literal(s: Seq<char>) -> Option<(int, int)> {
    if s.len() == 5 && all_digits(s, 0, 2) && s[2] == ':' && all_digits(s, 3, 5) {
        Some((two_digits(s, 0), two_digits(s, 3)))
    } else {
        None
    }
}

/// Whether an instant may be the local midnight that starts the day of a
/// `YYYY-MM-DD` parameter: the parameter is a date of the calendar, and
/// the instant lies less than a day from the start of that day in
/// universal time.
pub open spec fn date_instant(param: Seq<char>, instant: int) -> bool {
    match date_literal(param) {
        Some((year, month, day)) => 1 <= month <= 12 && 1 <= day <= 31 && match civil_seconds(
            year,
            month,
            day,
            0,
            0,
            0,
        ) {
            Some(midnight) => near(instant, midnight),
            None => false,
        },
        None => false,
    }
}

/// Whether an instant may be the local time of a parameter that holds a
/// date and a time of day: the pattern `%Y-%m-%d %H:%M` reads the
/// parameter, and the instant lies less than a day from what it reads, taken
/// as universal time.
pub open spec fn datetime_instant(param: Seq<char>, instant: int) -> bool {
    match civil_reading(param, "%Y-%m-%d %H:%M"@) {
        Some(civil) => near(instant, civil),
        None => false,
    }
}

/// The start of the day of universal time that holds an instant.
pub open spec fn day_start(now: int) -> int {
    now - now % 86400
}

/// Whether an instant may be the local time `hour:minute`, at its full
/// minute, on the local day that holds `now`: the hour and the minute are
/// ones that a day has, and the instant lies less than a day from that
/// time of day on the day of universal time that holds `now`, on the day
/// before it or on the day after it. The local day is one of these three.
pub open spec fn today_instant(now: int, hour: int, minute: int, instant: int) -> bool {
    &&& 0 <= hour <= 23 && 0 <= minute <= 59
    &&& {
        ||| near(instant, day_start(now) - 86400 + hour * 3600 + minute * 60)
        ||| near(instant, day_start(now) + hour * 3600 + minute * 60)
        ||| near(instant, day_start(now) + 86400 + hour * 3600 + minute * 60)
    }
}

/// Whether an instant may be the local time of an `HH:MM` parameter on
/// the day of some moment at or after the epoch.
pub open spec fn clock_instant(param: Seq<char>, instant: int) -> bool {
    match clock_literal(param) {
        Some((hour, minute)) => exists|now: int|
            now >= 0 && #[trigger] today_instant(now, hour, minute, instant),
        None => false,
    }
}

/// Whether a filter with this reference and this window may come of an
/// absolute parameter. A parameter of the form `YYYY-MM-DD` is a date
/// alone and has a window of a day. Any other parameter has a window of a
/// minute, and is a date with a time of day or a time of day alone.
pub open spec fn absolute_reference(param: Seq<char>, reference: int, epsilon: int) -> bool {
    if date_literal(param) is Some {
        epsilon == 86400 && date_instant(param, reference)
    } else {
        epsilon == 60 && (datetime_instant(param, reference) || clock_instant(param, reference))
    }
}

pub open spec fn abs(v: int) -> int {
    if v < 0 {
        -v
    } else {
        v
    }
}

fn unit_from(c: char) -> (r: Option<(RelativeTimeUnit, u64)>)
    ensures
        match r {
            Some((unit, seconds)) => unit_of(c) == Some(unit) && seconds == unit_seconds(unit),
            None => unit_of(c) is None,
        },
{
    match c {
        's' => Some((RelativeTimeUnit::Second, 1)),
        'm' => Some((RelativeTimeUnit::Minute, 60)),
        'h' => Some((RelativeTimeUnit::Hour, 3600)),
        'D' => Some((RelativeTimeUnit::Day, 86400)),
        'W' => Some((RelativeTimeUnit::Week, 604800)),
        'M' => Some((RelativeTimeUnit::Month, 2592000)),
        'Y' => Some((RelativeTimeUnit::Year, 31536000)),
        _ => None,
    }
}

/// Reads a parameter as an offset from now.
pub fn parse_relative(param: &str) -> (r: RelativeTime)
    ensures
        match r {
            RelativeTime::Absent => !is_relative_literal(param@),
            RelativeTime::TooLarge => is_relative_literal(param@) && abs(relative_seconds(param@))
                > i64::MAX,
            RelativeTime::Seconds(v) => is_relative_literal(param@) && v == relative_seconds(
                param@,
            ) && abs(v as int) <= i64::MAX,
        },
{
    let chars = to_chars(param);
    let n = chars.len();
    let start: usize = if n > 0 && chars[0] == '-' {
        1
    } else {
        0
    };
    let end = scan_digits(&chars, start);
    if end == start || end == n || end + 1 != n {
        return RelativeTime::Absent;
    }
    let (unit, unit_secs) = match unit_from(chars[end]) {
        Some(found) => found,
        None => {
            return RelativeTime::Absent;
        },
    };
    let ghost digits = decimal_value(param@.subrange(start as int, end as int));
    match decimal(&chars, start, end) {
        None => {
            assert(digits * unit_secs >= digits) by (nonlinear_arith)
                requires
                    unit_secs >= 1,
                    digits >= 0,
            ;
            RelativeTime::TooLarge
        },
        Some(value) => {
            assert(value * unit_secs <= u64::MAX * 31536000) by (nonlinear_arith)
                requires
                    0 <= value <= u64::MAX,
                    0 <= unit_secs <= 31536000,
            ;
            let magnitude: u128 = value as u128 * unit_secs as u128;
            if magnitude > i64::MAX as u128 {
                RelativeTime::TooLarge
            } else if start == 1 {
                RelativeTime::Seconds(-(magnitude as i64))
            } else {
                RelativeTime::Seconds(magnitude as i64)
            }
        },
    }
}

fn pair(chars: &Vec<char>, at: usize) -> (r: u32)
    requires
        at + 2 <= chars.len(),
        all_digits(chars@, at as int, at + 2),
    ensures
        r == two_digits(chars@, at as int),
        r <= 99,
{
    digit_of(chars[at]) as u32 * 10 + digit_of(chars[at + 1]) as u32
}

fn digits_at(chars: &Vec<char>, from: usize, to: usize) -> (r: bool)
    requires
        from <= to <= chars.len(),
    ensures
        r == all_digits(chars@, from as int, to as int),
{
    scan_digits(chars, from) >= to
}

/// Reads a parameter as a calendar date.
pub fn parse_date(param: &str) -> (r: Option<(i32, u32, u32)>)
    ensures
        match r {
            Some((year, month, day)) => date_literal(param@) == Some(
                (year as int, month as int, day as int),
            ),
            None => date_literal(param@) is None,
        },
{
    let chars = to_chars(param);
    if chars.len() == 10 && digits_at(&chars, 0, 4) && chars[4] == '-' && digits_at(&chars, 5, 7)
        && chars[7] == '-' && digits_at(&chars, 8, 10) {
        let year = pair(&chars, 0) * 100 + pair(&chars, 2);
        Some((year as i32, pair(&chars, 5), pair(&chars, 8)))
    } else {
        None
    }
}

/// Reads a parameter as a time of day.
pub fn parse_time(param: &str) -> (r: Option<(u32, u32)>)
    ensures
        match r {
            Some((hour, minute)) => clock_literal(param@) == Some((hour as int, minute as int)),
            None => clock_literal(param@) is None,
        },
{
    let chars = to_chars(param);
    if chars.len() == 5 && digits_at(&chars, 0, 2) && chars[2] == ':' && digits_at(&chars, 3, 5) {
        Some((pair(&chars, 0), pair(&chars, 3)))
    } else {
        None
    }
}

/// The time of an entry that a time attribute names, if the entry has it.
pub open spec fn entry_time(attribute: Attribute, entry: &Entry) -> Option<u64> {
    match entry.metadata {
        Some(metadata) => match attribute {
            Attribute::Mtime => metadata.modified,
            Attribute::Ctime => metadata.created,
            Attribute::Atime => metadata.accessed,
            _ => None,
        },
        None => None,
    }
}

/// How a time compares with a reference. `==` holds over the whole window
/// from the reference to `epsilon` seconds after it, both ends included.
pub open spec fn compare_time(operator: CompOp, time: int, reference: int, epsilon: int) -> bool {
    match operator {
        CompOp::Lower => time < reference,
        CompOp::LowerEqual => time <= reference,
        CompOp::Equal => reference <= time <= reference + epsilon,
        CompOp::GreaterEqual => time >= reference,
        CompOp::Greater => time > reference,
        _ => false,
    }
}

/// Compares one of an entry's times with a reference fixed when the filter
/// was built.
pub struct TimeFilter {
    comp_op: CompOp,
    attribute: Attribute,
    epsilon: u64,
    timestamp: i64,
    operator_flip: bool,
}

impl TimeFilter {
    #[verifier::type_invariant]
    spec fn well_formed(self) -> bool {
        self.attribute.is_time() && self.comp_op.is_ordering()
    }

    pub closed spec fn attribute(&self) -> Attribute {
        self.attribute
    }

    pub closed spec fn comp_op(&self) -> CompOp {
        self.comp_op
    }

    /// The reference, in seconds since the epoch.
    pub closed spec fn reference(&self) -> int {
        self.timestamp as int
    }

    /// The width in seconds of the window that `==` accepts.
    pub closed spec fn epsilon(&self) -> int {
        self.epsilon as int
    }

    /// Whether the outcome of the comparison is inverted.
    pub closed spec fn flipped(&self) -> bool {
        self.operator_flip
    }

    /// The reference, in seconds since the epoch.
    pub fn timestamp(&self) -> (r: i64)
        ensures
            r == self.reference(),
    {
        self.timestamp
    }

    /// The width in seconds of the window that `==` accepts.
    pub fn window(&self) -> (r: u64)
        ensures
            r == self.epsilon(),
    {
        self.epsilon
    }

    /// Whether the outcome of the comparison is inverted.
    pub fn inverted(&self) -> (r: bool)
        ensures
            r == self.flipped(),
    {
        self.operator_flip
    }

    /// A filter made of exactly these parts.
    pub open spec fn is(
        &self,
        attribute: Attribute,
        comp_op: CompOp,
        reference: int,
        epsilon: int,
        flipped: bool,
    ) -> bool {
        &&& self.attribute() == attribute
        &&& self.comp_op() == comp_op
        &&& self.reference() == reference
        &&& self.epsilon() == epsilon
        &&& self.flipped() == flipped
    }

    /// The filter of an offset of `seconds` from `now`: the reference lies
    /// that far before `now` whatever the sign, and a negative offset
    /// inverts the four ordering operators.
    pub open spec fn built_relative(
        &self,
        attribute: Attribute,
        comp_op: CompOp,
        seconds: int,
        now: int,
    ) -> bool {
        self.is(attribute, comp_op, now - abs(seconds), 0, seconds < 0 && comp_op != CompOp::Equal)
    }

    /// The error, if any, that keeps a time filter from being built of this
    /// attribute and operator.
    pub open spec fn rejection(attribute: Attribute, comp_op: CompOp) -> Option<FilterError> {
        if !attribute.is_time() {
            Some(FilterError::UnimplementedAttributeError { attribute })
        } else if !comp_op.is_ordering() {
            Some(FilterError::UnsupportedOperatorError { attribute, operator: comp_op })
        } else {
            None
        }
    }

    fn check(attribute: Attribute, comp_op: CompOp) -> (r: Option<FilterError>)
        ensures
            r == Self::rejection(attribute, comp_op),
    {
        if !attribute.time() {
            Some(FilterError::UnimplementedAttributeError { attribute })
        } else if !comp_op.ordering() {
            Some(FilterError::UnsupportedOperatorError { attribute, operator: comp_op })
        } else {
            None
        }
    }

    /// Builds the filter of an offset of `seconds` from `now`. A reference
    /// too far before the epoch to hold, which takes a clock that shows a
    /// time far before it, is the error of the clock.
    pub fn relative(attribute: Attribute, comp_op: CompOp, seconds: i64, now: i64) -> (r: Result<
        TimeFilter,
        FilterError,
    >)
        ensures
            match r {
                Ok(filter) => Self::rejection(attribute, comp_op) is None && now - abs(
                    seconds as int,
                ) >= i64::MIN && filter.built_relative(
                    attribute,
                    comp_op,
                    seconds as int,
                    now as int,
                ),
                Err(e) => match Self::rejection(attribute, comp_op) {
                    Some(rejection) => e == rejection,
                    None => e == FilterError::ClockError && now - abs(seconds as int) < i64::MIN,
                },
            },
    {
        if let Some(rejection) = Self::check(attribute, comp_op) {
            return Err(rejection);
        }
        let distance: i128 = if seconds < 0 {
            -(seconds as i128)
        } else {
            seconds as i128
        };
        let reference: i128 = now as i128 - distance;
        if reference < i64::MIN as i128 {
            return Err(FilterError::ClockError);
        }
        let operator_flip = match comp_op {
            CompOp::Equal => false,
            _ => seconds < 0,
        };
        Ok(
            TimeFilter {
                comp_op,
                attribute,
                epsilon: 0,
                timestamp: reference as i64,
                operator_flip,
            },
        )
    }

    /// The reference and the window of an absolute literal, from what the
    /// local calendar made of its three readings: a date with a time first,
    /// then a date alone, then a time of day alone.
    pub open spec fn absolute_reading(
        datetime: Option<i64>,
        date: Option<i64>,
        time: Option<i64>,
    ) -> Option<(int, int)> {
        match datetime {
            Some(instant) => Some((instant as int, 60)),
            None => match date {
                Some(instant) => Some((instant as int, 86400)),
                None => match time {
                    Some(instant) => Some((instant as int, 60)),
                    None => None,
                },
            },
        }
    }

    /// Builds the filter of an absolute literal from its three readings.
    /// A literal without a reading is invalid; `param` is its text.
    pub fn absolute(
        attribute: Attribute,
        comp_op: CompOp,
        param: &str,
        datetime: Option<i64>,
        date: Option<i64>,
        time: Option<i64>,
    ) -> (r: Result<TimeFilter, FilterError>)
        ensures
            match r {
                Ok(filter) => Self::rejection(attribute, comp_op) is None && match Self::absolute_reading(
                    datetime,
                    date,
                    time,
                ) {
                    Some((reference, epsilon)) => filter.is(
                        attribute,
                        comp_op,
                        reference,
                        epsilon,
                        false,
                    ),
                    None => false,
                },
                Err(e) => match Self::rejection(attribute, comp_op) {
                    Some(rejection) => e == rejection,
                    None => e.is_invalid_time(param@) && Self::absolute_reading(
                        datetime,
                        date,
                        time,
                    ) is None,
                },
            },
    {
        if let Some(rejection) = Self::check(attribute, comp_op) {
            return Err(rejection);
        }
        let (timestamp, epsilon): (i64, u64) = match datetime {
            Some(instant) => (instant, 60),
            None => match date {
                Some(instant) => (instant, 86400),
                None => match time {
                    Some(instant) => (instant, 60),
                    None => {
                        return Err(
                            FilterError::InvalidTimeLiteralError {
                                parameter: String::from_str(param),
                            },
                        );
                    },
                },
            },
        };
        Ok(TimeFilter { comp_op, attribute, epsilon, timestamp, operator_flip: false })
    }

    /// What building a filter from a parameter may give.
    ///
    /// An illegal attribute or operator is rejected. A parameter that is
    /// an offset from now is an invalid literal where the offset is too
    /// large to hold; else it gives the filter of that offset from some
    /// moment at or after the epoch, or the error of a clock that cannot
    /// be read. Any
    /// other parameter gives either an error or a filter without inversion
    /// whose reference and window fit the parameter as `absolute_reference`
    /// says; a parameter that fits in no way gives the error.
    pub open spec fn outcome(
        attribute: Attribute,
        comp_op: CompOp,
        param: Seq<char>,
        r: Result<TimeFilter, FilterError>,
    ) -> bool {
        match Self::rejection(attribute, comp_op) {
            Some(rejection) => r == Err::<TimeFilter, FilterError>(rejection),
            None => if is_relative_literal(param) {
                match r {
                    Ok(filter) => abs(relative_seconds(param)) <= i64::MAX && exists|now: int|
                        now >= 0 && #[trigger] filter.built_relative(
                            attribute,
                            comp_op,
                            relative_seconds(param),
                            now,
                        ),
                    Err(e) => if abs(relative_seconds(param)) > i64::MAX {
                        e.is_invalid_time(param)
                    } else {
                        e == FilterError::ClockError
                    },
                }
            } else {
                match r {
                    Ok(filter) => exists|reference: int, epsilon: int|
                        absolute_reference(param, reference, epsilon) && #[trigger] filter.is(
                            attribute,
                            comp_op,
                            reference,
                            epsilon,
                            false,
                        ),
                    Err(e) => e.is_invalid_time(param),
                }
            },
        }
    }

    /// Builds a time filter from a parameter, reading the clock and the
    /// local calendar where the parameter calls for them.
    ///
    /// An offset from now is read first. A parameter of the form
    /// `YYYY-MM-DD` is then read as a date alone; any other is read as a
    /// date with a time of day and as a time of day. `absolute` decides on
    /// what the local calendar made of the readings.
    pub fn new(attribute: Attribute, comp_op: CompOp, param: &str) -> (r: Result<
        TimeFilter,
        FilterError,
    >)
        ensures
            Self::outcome(attribute, comp_op, param@, r),
    {
        if let Some(rejection) = Self::check(attribute, comp_op) {
            return Err(rejection);
        }
        match parse_relative(param) {
            RelativeTime::Seconds(seconds) => {
                let now = match unix_now() {
                    Some(now) => now,
                    None => {
                        return Err(FilterError::ClockError);
                    },
                };
                let built = Self::relative(attribute, comp_op, seconds, now);
                proof {
                    if let Ok(filter) = &built {
                        assert(filter.built_relative(
                            attribute,
                            comp_op,
                            relative_seconds(param@),
                            now as int,
                        ));
                    }
                }
                built
            },
            RelativeTime::TooLarge => Err(
                FilterError::InvalidTimeLiteralError { parameter: String::from_str(param) },
            ),
            RelativeTime::Absent => {
                let date = parse_abs_date(param);
                let (datetime, time) = if parse_date(param).is_some() {
                    (None, None)
                } else {
                    (parse_abs_datetime(param), parse_abs_time(param))
                };
                let built = Self::absolute(attribute, comp_op, param, datetime, date, time);
                proof {
                    if let Ok(filter) = &built {
                        let (reference, epsilon) = Self::absolute_reading(datetime, date, time)->0;
                        assert(filter.is(attribute, comp_op, reference, epsilon, false));
                    }
                }
                built
            },
        }
    }
}

/// The instant of a `YYYY-MM-DD` parameter at midnight, local time: the
/// instant at which the local clocks show the start of that day, which
/// lies less than a day from the start of the day in universal time. There
/// is none for a parameter of another form, for a date that the calendar
/// does not have, and where a clock change leaves the local midnight out
/// or shows it twice.
pub fn parse_abs_date(param: &str) -> (instant: Option<i64>)
    ensures
        instant matches Some(found) ==> date_instant(param@, found as int),
{
    match parse_date(param) {
        Some((year, month, day)) => match civil_timestamp(year, month, day, 0, 0, 0) {
            Some(midnight) => local_instant(midnight),
            None => None,
        },
        None => None,
    }
}

/// The civil start of the local day that holds `now`, from the start of
/// the day of universal time that holds it and from the instants of two
/// local midnights: `same`, the one that starts that same civil day, and
/// `next`, the one that starts the day after.
///
/// The local day is the day before, that day or the day after. Where the
/// local midnight of that day is known, it decides between the day before
/// and the other two, and the next midnight between those. Where it is not
/// known, only a next midnight that has passed tells the day. The next
/// midnight is not looked at where the first one has not come yet.
pub open spec fn local_day_of(now: int, start: int, same: Option<i64>, next: Option<i64>) -> Option<
    int,
> {
    match same {
        Some(midnight) => if midnight > now {
            Some(start - 86400)
        } else {
            match next {
                Some(following) => if following <= now {
                    Some(start + 86400)
                } else {
                    Some(start)
                },
                None => None,
            }
        },
        None => match next {
            Some(following) => if following <= now {
                Some(start + 86400)
            } else {
                None
            },
            None => None,
        },
    }
}

/// Picks the civil start of the local day that holds `now`.
pub fn pick_local_day(now: i64, start: i64, same: Option<i64>, next: Option<i64>) -> (day: Option<
    i64,
>)
    requires
        i64::MIN + 86400 <= start <= i64::MAX - 86400,
    ensures
        match day {
            Some(found) => local_day_of(now as int, start as int, same, next) == Some(found as int),
            None => local_day_of(now as int, start as int, same, next) is None,
        },
{
    match same {
        Some(midnight) => if midnight > now {
            Some(start - 86400)
        } else {
            match next {
                Some(following) => if following <= now {
                    Some(start + 86400)
                } else {
                    Some(start)
                },
                None => None,
            }
        },
        None => match next {
            Some(following) => if following <= now {
                Some(start + 86400)
            } else {
                None
            },
            None => None,
        },
    }
}

/// The instant at which the local clocks show `hour:minute`, at its full
/// minute, on the local day that holds `now`.
///
/// The calendar's own way from an instant to a local date can stop the
/// program on zone data it cannot use, so the day is told by the way back,
/// from local time to an instant, which cannot. The local calendar is
/// asked for the midnight that starts the civil day
/// of `now`, and for the next one unless the first has not come yet;
/// `pick_local_day` tells the day from the two, and the calendar is asked
/// for the time of day on it. There is no instant for an hour or a minute
/// that a day does not have, for a `now` before the epoch, where the day
/// cannot be told, and where a clock change leaves the time of day out or
/// shows it twice.
pub fn today_at(now: i64, hour: u32, minute: u32) -> (instant: Option<i64>)
    ensures
        instant matches Some(found) ==> today_instant(
            now as int,
            hour as int,
            minute as int,
            found as int,
        ),
{
    if now < 0 || now > i64::MAX - 2 * 86400 || hour > 23 || minute > 59 {
        return None;
    }
    let start = now - now % 86400;
    let same = local_instant(start);
    let awaited = match same {
        Some(midnight) => midnight > now,
        None => false,
    };
    let next = if awaited {
        None
    } else {
        local_instant(start + 86400)
    };
    match pick_local_day(now, start, same, next) {
        Some(day) => local_instant(day + hour as i64 * 3600 + minute as i64 * 60),
        None => None,
    }
}

/// The instant of an `HH:MM` parameter on the day of the call, local time.
/// There is none for a parameter of another form, for an hour or a minute
/// that a day does not have, where the clock cannot be read, and where a
/// clock change leaves a local time that is needed out or shows it twice.
pub fn parse_abs_time(param: &str) -> (instant: Option<i64>)
    ensures
        instant matches Some(found) ==> clock_instant(param@, found as int),
{
    match parse_time(param) {
        Some((hour, minute)) => match unix_now() {
            Some(now) => {
                let instant = today_at(now, hour, minute);
                proof {
                    if let Some(found) = instant {
                        let read = clock_literal(param@)->0;
                        assert(read.0 == hour && read.1 == minute);
                        assert(now >= 0 && today_instant(now as int, read.0, read.1, found as int));
                    }
                }
                instant
            },
            None => None,
        },
        None => None,
    }
}

/// The instant of a parameter that holds a date and a time of day, as the
/// calendar reads the pattern `%Y-%m-%d %H:%M`, local time: the instant at
/// which the local clocks show what was read, which lies less than a day
/// from that date and time in universal time. There is none for a
/// parameter that the pattern does not read, and where a clock change
/// leaves the local time out or shows it twice.
pub fn parse_abs_datetime(param: &str) -> (instant: Option<i64>)
    ensures
        instant matches Some(found) ==> datetime_instant(param@, found as int),
{
    match civil_from_str(param, "%Y-%m-%d %H:%M") {
        Some(civil) => local_instant(civil),
        None => None,
    }
}

impl Filter for TimeFilter {
    open spec fn matches(&self, entry: &Entry) -> bool {
        match entry_time(self.attribute(), entry) {
            Some(time) => compare_time(
                self.comp_op(),
                time as int,
                self.reference(),
                self.epsilon(),
            ) != self.flipped(),
            None => false,
        }
    }

    fn test(&self, entry: &Entry) -> (r: bool) {
        let found = match &entry.metadata {
            Some(metadata) => match self.attribute {
                Attribute::Mtime => metadata.modified,
                Attribute::Ctime => metadata.created,
                Attribute::Atime => metadata.accessed,
                _ => None,
            },
            None => None,
        };
        match found {
            Some(seconds) => {
                let time = seconds as i128;
                let reference = self.timestamp as i128;
                let holds = match self.comp_op {
                    CompOp::Lower => time < reference,
                    CompOp::LowerEqual => time <= reference,
                    CompOp::Equal => reference <= time && time <= reference + self.epsilon as i128,
                    CompOp::GreaterEqual => time >= reference,
                    CompOp::Greater => time > reference,
                    _ => false,
                };
                holds != self.operator_flip
            },
            None => false,
        }
    }
}

/// A minus sign in front of an offset inverts the four ordering operators.
/// Two filters built at the same moment from the same offset, one written
/// with the sign and one without, share their reference, and of every
/// entry that has the time exactly one of the two accepts it.
pub proof fn law_sign_inversion(
    plain: TimeFilter,
    signed: TimeFilter,
    attribute: Attribute,
    comp_op: CompOp,
    seconds: int,
    now: int,
    entry: Entry,
)
    requires
        seconds > 0,
        comp_op.is_ordering() && comp_op != CompOp::Equal,
        plain.built_relative(attribute, comp_op, seconds, now),
        signed.built_relative(attribute, comp_op, -seconds, now),
        entry_time(attribute, &entry) is Some,
    ensures
        plain.reference() == signed.reference(),
        plain.matches(&entry) != signed.matches(&entry),
{
}

/// `==` on a calendar date accepts the times of that day and no others: a
/// filter whose reference is the local midnight that starts the day, with a
/// window of 86400 seconds, accepts an entry exactly when its time lies at
/// or after that midnight and before the next. The one time left out is the
/// next midnight itself, which the window still includes.
pub proof fn law_date_equality(
    filter: TimeFilter,
    attribute: Attribute,
    midnight: int,
    entry: Entry,
)
    requires
        filter.is(attribute, CompOp::Equal, midnight, 86400, false),
        entry_time(attribute, &entry) matches Some(time) ==> time != midnight + 86400,
    ensures
        filter.matches(&entry) <==> (entry_time(attribute, &entry) matches Some(time) && midnight
            <= time < midnight + 86400),
{
}

} // verus!
