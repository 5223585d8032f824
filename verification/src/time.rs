//! The seven-octet time tag CP56Time2a.
//!
//! Octets 0 and 1 hold the milliseconds of the minute (low octet first),
//! octet 2 the minute (six bits) with the substituted and invalid flags
//! above it, octet 3 the hour (five bits) with the summer-time flag on top,
//! octet 4 the day of the month (five bits) below the day of the week,
//! octet 5 the month (four bits), octet 6 the year within the century
//! (seven bits): 0 to 99 for 2000 to 2099.

use vstd::prelude::*;

verus! {

/// Milliseconds in a day.
pub const MS_PER_DAY: u64 = 86_400_000;

/// The first millisecond of the year 2000, counted from the Unix epoch.
pub const MS_AT_2000: u64 = 946_684_800_000;

/// The first millisecond of the year 2100, counted from the Unix epoch.
pub const MS_AT_2100: u64 = 4_102_444_800_000;

/// Whether `y` is a leap year of the Gregorian calendar.
pub open spec fn is_leap_year(y: int) -> bool {
    y % 4 == 0 && (y % 100 != 0 || y % 400 == 0)
}

/// The number of days of month `m` in year `y`. Numbers above 12 count as
/// months of 31 days.
pub open spec fn days_in_month(y: int, m: int) -> int {
    if m == 2 {
        if is_leap_year(y) {
            29
        } else {
            28
        }
    } else if m == 4 || m == 6 || m == 9 || m == 11 {
        30
    } else {
        31
    }
}

/// The number of days of year `y` that lie before its month `m`.
pub open spec fn days_before_month(y: int, m: int) -> int
    decreases m,
{
    if m <= 1 {
        0
    } else {
        days_before_month(y, m - 1) + days_in_month(y, m - 1)
    }
}

/// The number of leap years among the years 1 to `y - 1`.
pub open spec fn leap_years_before(y: int) -> int {
    (y - 1) / 4 - (y - 1) / 100 + (y - 1) / 400
}

/// The number of days from 1 January 1970 to 1 January of year `y`.
pub open spec fn days_before_year(y: int) -> int {
    365 * (y - 1970) + leap_years_before(y) - leap_years_before(1970)
}

/// Whether day `d` of month `m` of year `y` exists.
pub open spec fn is_date(y: int, m: int, d: int) -> bool {
    1 <= m <= 12 && 1 <= d <= days_in_month(y, m)
}

/// The number of days from 1 January 1970 to day `d` of month `m` of year
/// `y`.
pub open spec fn days_from_civil(y: int, m: int, d: int) -> int {
    days_before_year(y) + days_before_month(y, m) + (d - 1)
}

/// A time tag.
///
/// Any seven octets are a time tag: the accessors read their fields and
/// ignore the reserved bits.
#[derive(Clone, Copy, Debug, PartialEq, Eq)]
pub struct Timestamp {
    encoded: [u8; 7],
}

impl View for Timestamp {
    type V = Seq<u8>;

    /// The seven octets.
    closed spec fn view(&self) -> Seq<u8> {
        self.encoded@
    }
}

impl Timestamp {
    /// The milliseconds of the minute, seconds included.
    pub open spec fn ms_of_minute(self) -> int {
        self@[0] + 256 * self@[1]
    }

    /// The milliseconds of the second.
    pub open spec fn millisecond_of(self) -> int {
        self.ms_of_minute() % 1000
    }

    /// The second of the minute.
    pub open spec fn second_of(self) -> int {
        self.ms_of_minute() / 1000
    }

    /// The minute of the hour.
    pub open spec fn minute_of(self) -> int {
        (self@[2] % 64) as int
    }

    /// The hour of the day.
    pub open spec fn hour_of(self) -> int {
        (self@[3] % 32) as int
    }

    /// The day of the month.
    pub open spec fn day_of(self) -> int {
        (self@[4] % 32) as int
    }

    /// The day of the week, 0 where it is not given.
    pub open spec fn day_of_week_of(self) -> int {
        (self@[4] / 32) as int
    }

    /// The month of the year.
    pub open spec fn month_of(self) -> int {
        (self@[5] % 16) as int
    }

    /// The year: 2000 plus the seven-bit year field.
    pub open spec fn year_of(self) -> int {
        2000 + self@[6] % 128
    }

    /// The invalid flag (IV).
    pub open spec fn invalid_flag(self) -> bool {
        self@[2] >= 128
    }

    /// The substituted flag, the bit between the minute and IV.
    pub open spec fn substituted_flag(self) -> bool {
        (self@[2] / 64) % 2 == 1
    }

    /// The summer-time flag (SU).
    pub open spec fn summer_time_flag(self) -> bool {
        self@[3] >= 128
    }

    /// A tag with no flag set, no reserved bit set and no day of the week.
    pub open spec fn is_plain(self) -> bool {
        self@[2] < 64 && self@[3] < 32 && self@[4] < 32 && self@[5] < 16 && self@[6] < 128
    }

    /// The time of the tag in milliseconds since the Unix epoch, its fields
    /// taken at face value and its year between 2000 and 2127.
    pub open spec fn unix_ms_of(self) -> int {
        days_from_civil(self.year_of(), self.month_of(), self.day_of()) * 86_400_000
            + self.hour_of() * 3_600_000 + self.minute_of() * 60_000 + self.ms_of_minute()
    }

    /// The tag is plain and holds the date and time of day that lie `ms`
    /// milliseconds after the Unix epoch, where the date falls in year `y`.
    /// Of the year the tag holds the last two digits.
    pub open spec fn holds_time_in_year(self, ms: int, y: int) -> bool {
        &&& self.is_plain()
        &&& 1970 <= y
        &&& self.year_of() == 2000 + y % 100
        &&& is_date(y, self.month_of(), self.day_of())
        &&& self.hour_of() < 24
        &&& self.minute_of() < 60
        &&& self.ms_of_minute() < 60_000
        &&& ms == days_from_civil(y, self.month_of(), self.day_of()) * 86_400_000
            + self.hour_of() * 3_600_000 + self.minute_of() * 60_000 + self.ms_of_minute()
    }

    /// The tag is plain and holds the date and time of day that lie `ms`
    /// milliseconds after the Unix epoch.
    pub open spec fn holds_time(self, ms: int) -> bool {
        exists|y: int| #[trigger] self.holds_time_in_year(ms, y)
    }

    /// A time tag always has seven octets.
    pub proof fn has_seven_octets(self)
        ensures
            self@.len() == 7,
    {
    }

    /// The tag made of the first seven of the octets given.
    pub closed spec fn of_octets(octets: Seq<u8>) -> Timestamp {
        Timestamp {
            encoded: [
                octets[0],
                octets[1],
                octets[2],
                octets[3],
                octets[4],
                octets[5],
                octets[6],
            ],
        }
    }

    /// A tag is the tag of its octets, and seven octets are the octets of
    /// their tag.
    pub proof fn octets_are_the_tag(self, octets: Seq<u8>)
        ensures
            Self::of_octets(self@) == self,
            octets.len() == 7 ==> Self::of_octets(octets)@ == octets,
    {
        assert(Self::of_octets(self@).encoded@ =~= self.encoded@);
        assert(Self::of_octets(self@).encoded == self.encoded);
        if octets.len() == 7 {
            assert(Self::of_octets(octets).encoded@ =~= octets);
        }
    }

    /// The tag of a sequence of octets depends on the first seven only.
    pub proof fn same_start(a: Seq<u8>, b: Seq<u8>)
        requires
            a.len() >= 7,
            b.len() >= 7,
            a.subrange(0, 7) == b.subrange(0, 7),
        ensures
            Self::of_octets(a) == Self::of_octets(b),
    {
        assert forall|i: int| 0 <= i < 7 implies a[i] == b[i] by {
            assert(a.subrange(0, 7)[i] == a[i]);
            assert(b.subrange(0, 7)[i] == b[i]);
        }
    }

    /// The tag made of seven octets.
    pub fn from_bytes(encoded: [u8; 7]) -> (t: Self)
        ensures
            t@ == encoded@,
            t == Self::of_octets(encoded@),
    {
        let t = Timestamp { encoded };
        proof {
            t.octets_are_the_tag(encoded@);
        }
        t
    }

    /// The seven octets of the tag.
    pub fn to_bytes(&self) -> (encoded: [u8; 7])
        ensures
            encoded@ == self@,
    {
        self.encoded
    }

    /// The seven octets of the tag.
    pub fn as_raw(&self) -> (encoded: &[u8; 7])
        ensures
            encoded@ == self@,
    {
        &self.encoded
    }

    /// The seven octets of the tag, to be changed in place.
    pub fn as_raw_mut(&mut self) -> (encoded: &mut [u8; 7])
        ensures
            encoded@ == old(self)@,
            final(self)@ == final(encoded)@,
    {
        &mut self.encoded
    }

    /// Create a time tag from a Unix timestamp in milliseconds (UTC).
    ///
    /// The tag holds the date and the time of day of the timestamp, of the
    /// year its last two digits; it has no flag set and no day of the week.
    pub fn from_ms(timestamp_ms: u64) -> (t: Self)
        ensures
            t.holds_time(timestamp_ms as int),
            t.hour_of() == (timestamp_ms / 3_600_000) % 24,
            t.minute_of() == (timestamp_ms / 60_000) % 60,
            t.ms_of_minute() == timestamp_ms % 60_000,
            MS_AT_2000 <= timestamp_ms < MS_AT_2100 ==> t.unix_ms_of() == timestamp_ms,
    {
        let days: u64 = timestamp_ms / MS_PER_DAY;
        let ms_of_day: u64 = timestamp_ms % MS_PER_DAY;
        let hour: u64 = ms_of_day / 3_600_000;
        let ms_of_hour: u64 = ms_of_day % 3_600_000;
        let minute: u64 = ms_of_hour / 60_000;
        let ms_of_minute: u64 = ms_of_hour % 60_000;
        let (year, month, day) = civil_from_days(days);
        proof {
            split_of_time(timestamp_ms as int);
        }
        let t = Timestamp::of_fields(
            (year % 100) as u8,
            month,
            day,
            hour as u8,
            minute as u8,
            ms_of_minute as u16,
        );
        proof {
            assert(t.holds_time_in_year(timestamp_ms as int, year as int));
            if MS_AT_2000 <= timestamp_ms < MS_AT_2100 {
                year_of_day_in_century(year as int, month as int, day as int);
            }
        }
        t
    }

    /// The plain tag with the given fields.
    fn of_fields(year: u8, month: u8, day: u8, hour: u8, minute: u8, ms_of_minute: u16) -> (t:
        Self)
        requires
            year < 100,
            1 <= month <= 12,
            1 <= day <= 31,
            hour < 24,
            minute < 60,
            ms_of_minute < 60_000,
        ensures
            t.is_plain(),
            t.year_of() == 2000 + year,
            t.month_of() == month,
            t.day_of() == day,
            t.hour_of() == hour,
            t.minute_of() == minute,
            t.ms_of_minute() == ms_of_minute,
    {
        Timestamp {
            encoded: [
                (ms_of_minute % 256) as u8,
                (ms_of_minute / 256) as u8,
                minute,
                hour,
                day,
                month,
                year,
            ],
        }
    }

    /// Create a time tag for the current time.
    pub fn now() -> (t: Self)
        ensures
            exists|ms: u64| #[trigger] t.holds_time(ms as int),
    {
        let ms: u64 = unix_time_ms();
        let t = Timestamp::from_ms(ms);
        assert(t.holds_time(ms as int));
        t
    }

    /// Convert to a Unix timestamp in milliseconds.
    pub fn as_ms(&self) -> (ms: u64)
        ensures
            ms == self.unix_ms_of(),
    {
        let year: u64 = self.year() as u64;
        let month: u64 = self.month() as u64;
        let before_year: u64 = 365 * (year - 1970) + (year - 1) / 4 - (year - 1) / 100 + (year
            - 1) / 400 - 477;
        let leap: bool = year % 4 == 0 && (year % 100 != 0 || year % 400 == 0);
        let mut before_month: u64 = 0;
        let mut m: u64 = 1;
        while m < month
            invariant
                1 <= m,
                month <= 15,
                m <= month || (month == 0 && m == 1),
                2000 <= year <= 2127,
                leap == is_leap_year(year as int),
                before_month == days_before_month(year as int, m as int),
                before_month <= 31 * (m - 1),
            decreases 16 - m,
        {
            let length: u64 = if m == 2 {
                if leap {
                    29
                } else {
                    28
                }
            } else if m == 4 || m == 6 || m == 9 || m == 11 {
                30
            } else {
                31
            };
            before_month = before_month + length;
            m = m + 1;
        }
        assert(before_month == days_before_month(year as int, month as int));
        // the day field may be 0
        let days_plus_one: u64 = before_year + before_month + self.day() as u64;
        let whole_days: u64 = days_plus_one - 1;
        whole_days * MS_PER_DAY + (self.hour() as u64) * 3_600_000 + (self.minute() as u64)
            * 60_000 + (self.encoded[0] as u64 + 256 * (self.encoded[1] as u64))
    }

    /// Get the milliseconds part (0-999).
    pub fn millisecond(&self) -> (r: u16)
        ensures
            r == self.millisecond_of(),
    {
        let ms: u16 = self.encoded[0] as u16 + 256 * (self.encoded[1] as u16);
        ms % 1000
    }

    /// Get the seconds part (0-59).
    pub fn second(&self) -> (r: u8)
        ensures
            r == self.second_of(),
    {
        let ms: u16 = self.encoded[0] as u16 + 256 * (self.encoded[1] as u16);
        (ms / 1000) as u8
    }

    /// Get the minutes part (0-59).
    pub fn minute(&self) -> (r: u8)
        ensures
            r == self.minute_of(),
    {
        self.encoded[2] % 64
    }

    /// Get the hour (0-23).
    pub fn hour(&self) -> (r: u8)
        ensures
            r == self.hour_of(),
    {
        self.encoded[3] % 32
    }

    /// Get the day of month (1-31).
    pub fn day(&self) -> (r: u8)
        ensures
            r == self.day_of(),
    {
        self.encoded[4] % 32
    }

    /// Get the month (1-12).
    pub fn month(&self) -> (r: u8)
        ensures
            r == self.month_of(),
    {
        self.encoded[5] % 16
    }

    /// Get the year (2000 plus the year field).
    pub fn year(&self) -> (r: u16)
        ensures
            r == self.year_of(),
    {
        2000 + (self.encoded[6] % 128) as u16
    }

    /// Check if the invalid flag is set.
    pub fn is_invalid(&self) -> (r: bool)
        ensures
            r == self.invalid_flag(),
    {
        self.encoded[2] >= 128
    }

    /// Check if the substituted flag is set.
    pub fn is_substituted(&self) -> (r: bool)
        ensures
            r == self.substituted_flag(),
    {
        (self.encoded[2] / 64) % 2 == 1
    }

    /// Check if summer time is active.
    pub fn is_summer_time(&self) -> (r: bool)
        ensures
            r == self.summer_time_flag(),
    {
        self.encoded[3] >= 128
    }
}

impl Default for Timestamp {
    /// The tag of seven zero octets.
    fn default() -> (t: Self)
        ensures
            t@ == seq![0u8, 0u8, 0u8, 0u8, 0u8, 0u8, 0u8],
    {
        let t = Timestamp { encoded: [0, 0, 0, 0, 0, 0, 0] };
        assert(t@ == seq![0u8, 0u8, 0u8, 0u8, 0u8, 0u8, 0u8]);
        t
    }
}

/// The tag of a time: the one tag that holds it.
pub open spec fn tag_of(ms: u64) -> Timestamp {
    choose|t: Timestamp| t.holds_time(ms as int)
}

impl From<u64> for Timestamp {
    /// The tag of a Unix timestamp in milliseconds.
    fn from(ms: u64) -> (t: Self)
        ensures
            t == tag_of(ms),
    {
        let t = Timestamp::from_ms(ms);
        proof {
            let c = tag_of(ms);
            holds_time_unique(t, c, ms as int);
            assert(t.encoded@ == c.encoded@);
            assert(t.encoded == c.encoded);
        }
        t
    }
}

impl vstd::std_specs::convert::FromSpecImpl<u64> for Timestamp {
    open spec fn obeys_from_spec() -> bool {
        true
    }

    open spec fn from_spec(ms: u64) -> Timestamp {
        tag_of(ms)
    }
}

impl From<Timestamp> for u64 {
    /// The Unix timestamp in milliseconds of a tag.
    fn from(ts: Timestamp) -> (ms: u64)
        ensures
            ms == ts.unix_ms_of(),
    {
        ts.as_ms()
    }
}

impl vstd::std_specs::convert::FromSpecImpl<Timestamp> for u64 {
    open spec fn obeys_from_spec() -> bool {
        true
    }

    open spec fn from_spec(ts: Timestamp) -> u64 {
        ts.unix_ms_of() as u64
    }
}

/// A point in time of the system clock, `std::time::SystemTime`: to the
/// library a value that it hands from one call to the next.
#[verifier::external_type_specification]
#[verifier::external_body]
pub struct ExSystemTime(std::time::SystemTime);

/// Reads the system clock: `std::time::SystemTime::now`. Nothing is claimed
/// of the value.
#[verifier::external_body]
fn system_now() -> (now: std::time::SystemTime) {
    std::time::SystemTime::now()
}

/// The time from the Unix epoch to `time`:
/// `std::time::SystemTime::duration_since` with `std::time::UNIX_EPOCH`.
/// `None` stands for the error that the call gives for a time before the
/// epoch. Nothing is claimed of the value.
#[verifier::external_body]
fn since_unix_epoch(time: &std::time::SystemTime) -> (since: Option<std::time::Duration>) {
    match time.duration_since(std::time::UNIX_EPOCH) {
        Ok(since) => Some(since),
        Err(_) => None,
    }
}

/// The whole milliseconds of a duration: `std::time::Duration::as_millis`.
/// Nothing is claimed of the value.
#[verifier::external_body]
fn whole_millis(duration: &std::time::Duration) -> (ms: u128) {
    duration.as_millis()
}

/// The time of the system clock in milliseconds since the Unix epoch. What
/// the clock reads is not known beforehand, so nothing is stated of the
/// result; `unix_ms_of_elapsed` says what it is for each reading.
fn unix_time_ms() -> (ms: u64) {
    let now = system_now();
    let elapsed: Option<u128> = match since_unix_epoch(&now) {
        Some(since) => Some(whole_millis(&since)),
        None => None,
    };
    unix_ms_of_elapsed(elapsed)
}

/// The Unix time in milliseconds that a reading of the clock stands for,
/// where `elapsed` is the time from the epoch to the reading, or `None` for
/// a reading before the epoch: 0 before the epoch, and the largest number
/// beyond what 64 bits hold.
pub open spec fn ms_of_elapsed(elapsed: Option<u128>) -> u64 {
    match elapsed {
        Some(ms) => if ms > u64::MAX {
            u64::MAX
        } else {
            ms as u64
        },
        None => 0,
    }
}

/// The Unix time in milliseconds that a reading of the clock stands for
/// (see `ms_of_elapsed`).
pub fn unix_ms_of_elapsed(elapsed: Option<u128>) -> (ms: u64)
    ensures
        ms == ms_of_elapsed(elapsed),
{
    match elapsed {
        Some(ms) => {
            if ms > u64::MAX as u128 {
                u64::MAX
            } else {
                ms as u64
            }
        },
        None => 0,
    }
}

/// Whether year `year` is a leap year.
fn leap_year(year: u64) -> (r: bool)
    ensures
        r == is_leap_year(year as int),
{
    year % 4 == 0 && (year % 100 != 0 || year % 400 == 0)
}

/// The number of days of month `month` in year `year`.
fn month_length(year: u64, month: u8) -> (r: u64)
    ensures
        r == days_in_month(year as int, month as int),
{
    if month == 2 {
        if leap_year(year) {
            29
        } else {
            28
        }
    } else if month == 4 || month == 6 || month == 9 || month == 11 {
        30
    } else {
        31
    }
}

/// The calendar date that lies `days` days after 1 January 1970.
fn civil_from_days(days: u64) -> (r: (u64, u8, u8))
    requires
        days <= u64::MAX / 86_400_000,
    ensures
        1970 <= r.0,
        is_date(r.0 as int, r.1 as int, r.2 as int),
        days_from_civil(r.0 as int, r.1 as int, r.2 as int) == days,
{
    // count from 1 January 1601, the first day of a cycle of 400 years
    let since_1601: u64 = days + 134_774;
    let cycles: u64 = since_1601 / 146_097;
    let in_cycle: u64 = since_1601 % 146_097;
    let centuries: u64 = if in_cycle / 36_524 > 3 {
        3
    } else {
        in_cycle / 36_524
    };
    let in_century: u64 = in_cycle - centuries * 36_524;
    let quads: u64 = in_century / 1_461;
    let in_quad: u64 = in_century % 1_461;
    let years: u64 = if in_quad / 365 > 3 {
        3
    } else {
        in_quad / 365
    };
    let day_of_year: u64 = in_quad - years * 365;
    let elapsed: u64 = 400 * cycles + 100 * centuries + 4 * quads + years;
    let year: u64 = 1601 + elapsed;
    proof {
        civil_year_of_elapsed(
            cycles as int,
            centuries as int,
            quads as int,
            years as int,
            day_of_year as int,
        );
    }
    let mut month: u8 = 1;
    let mut rest: u64 = day_of_year;
    while rest >= month_length(year, month)
        invariant
            1 <= month <= 12,
            rest + days_before_month(year as int, month as int) == day_of_year,
            day_of_year < days_before_month(year as int, 13),
        decreases 13 - month,
    {
        proof {
            reveal_with_fuel(days_before_month, 2);
            if month == 12 {
                assert(days_before_month(year as int, 13) == days_before_month(year as int, 12)
                    + days_in_month(year as int, 12));
            }
        }
        rest = rest - month_length(year, month);
        month = month + 1;
    }
    (year, month, (rest + 1) as u8)
}

/// A year has 365 days, a leap year 366.
pub proof fn year_length(y: int)
    ensures
        days_before_month(y, 13) == if is_leap_year(y) {
            366int
        } else {
            365int
        },
{
    reveal_with_fuel(days_before_month, 14);
}

/// The count of days before a year starts at 0 in 1970 and grows by the
/// length of each year.
pub proof fn days_before_year_step(y: int)
    ensures
        days_before_year(1970) == 0,
        days_before_year(y + 1) == days_before_year(y) + days_before_month(y, 13),
{
    year_length(y);
}

/// The year that a count of whole cycles of 400 years, centuries, groups of
/// four years and years after 1 January 1601 leads to, and the day of that
/// year.
proof fn civil_year_of_elapsed(cycles: int, centuries: int, quads: int, years: int, day: int)
    requires
        0 <= cycles,
        0 <= centuries <= 3,
        0 <= quads <= 24,
        0 <= years <= 3,
        0 <= day,
        // a century but the fourth ends a day short of 25 groups of four years
        centuries < 3 ==> 1_461 * quads + 365 * years + day < 36_524,
        // a group of four years has 1461 days, the last year of it 366
        365 * years + day < 1_461,
        years < 3 ==> day < 365,
    ensures
        day < days_before_month(1601 + 400 * cycles + 100 * centuries + 4 * quads + years, 13),
        days_before_year(1601 + 400 * cycles + 100 * centuries + 4 * quads + years) + day
            == 146_097 * cycles + 36_524 * centuries + 1_461 * quads + 365 * years + day
            - 134_774,
{
    let elapsed = 400 * cycles + 100 * centuries + 4 * quads + years;
    let y = 1601 + elapsed;
    year_length(y);
    assert((y - 1) / 4 == 400 + 100 * cycles + 25 * centuries + quads);
    assert((y - 1) / 100 == 16 + 4 * cycles + centuries);
    assert((y - 1) / 400 == 4 + cycles);
    assert(y % 4 == 0 <==> years == 3);
    assert(y % 100 == 0 <==> (years == 3 && quads == 24));
    assert(y % 400 == 0 <==> (years == 3 && quads == 24 && centuries == 3));
}

/// Between 2000 and 2099 the year field of a tag gives the year back.
proof fn year_of_day_in_century(y: int, m: int, d: int)
    requires
        1970 <= y,
        is_date(y, m, d),
        10_957 <= days_from_civil(y, m, d) < 47_482,
    ensures
        2000 <= y <= 2099,
{
    days_before_year_grows(2000, y);
    days_before_year_grows(y, 2000);
    days_before_year_grows(2100, y);
    days_before_year_grows(y + 1, 2100);
    year_length(y);
    days_before_year_step(y);
    month_start_grows(y, 1, m);
    month_start_grows(y, m + 1, 13);
    reveal_with_fuel(days_before_month, 2);
}

/// Round trip: a tag that holds a time between the start of 2000 and the end
/// of 2099 gives that time back, to the millisecond.
pub proof fn time_round_trip(t: Timestamp, ms: int)
    requires
        MS_AT_2000 <= ms < MS_AT_2100,
        t.holds_time(ms),
    ensures
        t.unix_ms_of() == ms,
{
    let y = choose|y: int| #[trigger] t.holds_time_in_year(ms, y);
    year_of_day_in_century(y, t.month_of(), t.day_of());
}

/// A date lies within its year.
proof fn date_within_year(y: int, m: int, d: int)
    requires
        is_date(y, m, d),
    ensures
        days_before_year(y) <= days_from_civil(y, m, d) < days_before_year(y + 1),
{
    month_start_grows(y, 1, m);
    month_start_grows(y, m + 1, 13);
    days_before_year_step(y);
    reveal_with_fuel(days_before_month, 2);
}

/// How a count of milliseconds splits into days, hours, minutes and
/// milliseconds of the minute.
proof fn split_of_time(ms: int)
    requires
        0 <= ms,
    ensures
        ({
            let day = ms / 86_400_000;
            let hour = (ms % 86_400_000) / 3_600_000;
            let minute = ((ms % 86_400_000) % 3_600_000) / 60_000;
            let rest = ((ms % 86_400_000) % 3_600_000) % 60_000;
            &&& 0 <= hour < 24
            &&& 0 <= minute < 60
            &&& 0 <= rest < 60_000
            &&& hour == (ms / 3_600_000) % 24
            &&& minute == (ms / 60_000) % 60
            &&& rest == ms % 60_000
            &&& ms == day * 86_400_000 + hour * 3_600_000 + minute * 60_000 + rest
        }),
{
}

/// A count of milliseconds splits in one way into days, hours, minutes and
/// milliseconds of the minute.
proof fn split_of_time_is_unique(
    day_a: int,
    hour_a: int,
    minute_a: int,
    ms_a: int,
    day_b: int,
    hour_b: int,
    minute_b: int,
    ms_b: int,
)
    requires
        0 <= hour_a < 24 && 0 <= minute_a < 60 && 0 <= ms_a < 60_000,
        0 <= hour_b < 24 && 0 <= minute_b < 60 && 0 <= ms_b < 60_000,
        day_a * 86_400_000 + hour_a * 3_600_000 + minute_a * 60_000 + ms_a == day_b * 86_400_000
            + hour_b * 3_600_000 + minute_b * 60_000 + ms_b,
    ensures
        day_a == day_b,
        hour_a == hour_b,
        minute_a == minute_b,
        ms_a == ms_b,
{
    let time_a = hour_a * 3_600_000 + minute_a * 60_000 + ms_a;
    let time_b = hour_b * 3_600_000 + minute_b * 60_000 + ms_b;
    assert(0 <= time_a < 86_400_000 && 0 <= time_b < 86_400_000);
    assert(day_a == day_b);
    let rest_a = minute_a * 60_000 + ms_a;
    let rest_b = minute_b * 60_000 + ms_b;
    assert(0 <= rest_a < 3_600_000 && 0 <= rest_b < 3_600_000);
    assert(hour_a == hour_b);
}

/// A day is one date: two dates with the same count of days are the same.
pub proof fn date_of_day_is_unique(ya: int, ma: int, da: int, yb: int, mb: int, db: int)
    requires
        is_date(ya, ma, da),
        is_date(yb, mb, db),
        days_from_civil(ya, ma, da) == days_from_civil(yb, mb, db),
    ensures
        ya == yb,
        ma == mb,
        da == db,
{
    date_within_year(ya, ma, da);
    date_within_year(yb, mb, db);
    if ya < yb {
        days_before_year_grows(ya + 1, yb);
    }
    if yb < ya {
        days_before_year_grows(yb + 1, ya);
    }
    assert(ya == yb);
    reveal_with_fuel(days_before_month, 2);
    if ma < mb {
        month_start_grows(ya, ma + 1, mb);
    }
    if mb < ma {
        month_start_grows(ya, mb + 1, ma);
    }
}

/// One time, one tag: two tags that hold the same time have the same octets.
pub proof fn holds_time_unique(a: Timestamp, b: Timestamp, ms: int)
    requires
        a.holds_time(ms),
        b.holds_time(ms),
    ensures
        a@ == b@,
{
    let ya = choose|y: int| #[trigger] a.holds_time_in_year(ms, y);
    let yb = choose|y: int| #[trigger] b.holds_time_in_year(ms, y);
    split_of_time_is_unique(
        days_from_civil(ya, a.month_of(), a.day_of()),
        a.hour_of(),
        a.minute_of(),
        a.ms_of_minute(),
        days_from_civil(yb, b.month_of(), b.day_of()),
        b.hour_of(),
        b.minute_of(),
        b.ms_of_minute(),
    );
    date_of_day_is_unique(ya, a.month_of(), a.day_of(), yb, b.month_of(), b.day_of());
    a.has_seven_octets();
    b.has_seven_octets();
    assert(a@[0] == b@[0] && a@[1] == b@[1]);
    assert(a@[2] == b@[2] && a@[3] == b@[3] && a@[4] == b@[4] && a@[5] == b@[5]);
    assert(a@[6] == b@[6]);
    assert(a@ =~= b@);
}

/// Later years start later: at least 365 days for each year between.
pub proof fn days_before_year_grows(a: int, b: int)
    ensures
        a <= b ==> days_before_year(a) + 365 * (b - a) <= days_before_year(b),
    decreases b - a,
{
    if a < b {
        days_before_year_grows(a, b - 1);
        days_before_year_step(b - 1);
        year_length(b - 1);
    }
}

/// Later months start later: at least 28 days for each month between.
pub proof fn month_start_grows(y: int, a: int, b: int)
    ensures
        1 <= a <= b ==> days_before_month(y, a) + 28 * (b - a) <= days_before_month(y, b),
    decreases b - a,
{
    if 1 <= a < b {
        month_start_grows(y, a, b - 1);
    }
}

} // verus!
