//! One lesson of a schedule, with its weekday and times of day.
use crate::text::{
    all_digits, chars_of, decimal, decimal_text, digit_char, digit_value, digits_value,
    lemma_decimal_reads_back, parse_u32, parse_u32_spec,
};
use crate::Error;
use vstd::prelude::*;

verus! {

/// A school day; its number is one-based, Monday being 1.
#[derive(Clone, Copy, Debug, PartialEq, Eq, Structural)]
pub enum Weekday {
    Monday,
    Tuesday,
    Wednesday,
    Thursday,
    Friday,
}

/// The day whose one-based number is `n`, if it is a school day.
pub open spec fn weekday_of(n: u32) -> Option<Weekday> {
    if n == 1 {
        Some(Weekday::Monday)
    } else if n == 2 {
        Some(Weekday::Tuesday)
    } else if n == 3 {
        Some(Weekday::Wednesday)
    } else if n == 4 {
        Some(Weekday::Thursday)
    } else if n == 5 {
        Some(Weekday::Friday)
    } else {
        None
    }
}

/// The one-based number of `d`.
pub open spec fn weekday_number(d: Weekday) -> u32 {
    match d {
        Weekday::Monday => 1,
        Weekday::Tuesday => 2,
        Weekday::Wednesday => 3,
        Weekday::Thursday => 4,
        Weekday::Friday => 5,
    }
}

/// The English name of `d`.
pub open spec fn english_name(d: Weekday) -> Seq<char> {
    match d {
        Weekday::Monday => "Monday"@,
        Weekday::Tuesday => "Tuesday"@,
        Weekday::Wednesday => "Wednesday"@,
        Weekday::Thursday => "Thursday"@,
        Weekday::Friday => "Friday"@,
    }
}

/// The Finnish name of `d`.
pub open spec fn finnish_name(d: Weekday) -> Seq<char> {
    match d {
        Weekday::Monday => "Maanantai"@,
        Weekday::Tuesday => "Tiistai"@,
        Weekday::Wednesday => "Keskiviikko"@,
        Weekday::Thursday => "Torstai"@,
        Weekday::Friday => "Perjantai"@,
    }
}

impl Weekday {
    /// The day numbered `n`, Monday being 1; any number outside 1 to 5 is an error.
    pub fn from_number(n: u32) -> (r: Result<Weekday, Error>)
        ensures
            match weekday_of(n) {
                Some(d) => r == Ok::<Weekday, Error>(d),
                None => r == Err::<Weekday, Error>(Error::InvalidWeekday),
            },
    {
        match n {
            1 => Ok(Weekday::Monday),
            2 => Ok(Weekday::Tuesday),
            3 => Ok(Weekday::Wednesday),
            4 => Ok(Weekday::Thursday),
            5 => Ok(Weekday::Friday),
            _ => Err(Error::InvalidWeekday),
        }
    }

    /// The day's one-based number.
    pub fn number(&self) -> (r: u32)
        ensures
            r == weekday_number(*self),
    {
        match self {
            Weekday::Monday => 1,
            Weekday::Tuesday => 2,
            Weekday::Wednesday => 3,
            Weekday::Thursday => 4,
            Weekday::Friday => 5,
        }
    }

    /// The day's English name.
    pub fn fmt(&self) -> (r: String)
        ensures
            r@ == english_name(*self),
    {
        let name = match self {
            Weekday::Monday => "Monday",
            Weekday::Tuesday => "Tuesday",
            Weekday::Wednesday => "Wednesday",
            Weekday::Thursday => "Thursday",
            Weekday::Friday => "Friday",
        };
        String::from_str(name)
    }

    /// The day's Finnish name.
    pub fn fmt_finnish(&self) -> (r: String)
        ensures
            r@ == finnish_name(*self),
    {
        let name = match self {
            Weekday::Monday => "Maanantai",
            Weekday::Tuesday => "Tiistai",
            Weekday::Wednesday => "Keskiviikko",
            Weekday::Thursday => "Torstai",
            Weekday::Friday => "Perjantai",
        };
        String::from_str(name)
    }
}

/// Every school day number names exactly one day, each day is named by its own number,
/// and no other number names a day.
pub proof fn lemma_weekday_numbering(n: u32, d: Weekday)
    ensures
        1 <= n <= 5 <==> weekday_of(n) is Some,
        weekday_of(weekday_number(d)) == Some(d),
        1 <= weekday_number(d) <= 5,
        weekday_of(n) == Some(d) <==> n == weekday_number(d),
{
}

/// Two school day numbers name the same day only when they are equal.
pub proof fn lemma_weekday_numbers_distinct(a: u32, b: u32)
    requires
        1 <= a <= 5,
        1 <= b <= 5,
    ensures
        weekday_of(a) == weekday_of(b) <==> a == b,
{
}

/// A time of day. A time of the school day has hours 0 to 23 and minutes 0 to 59, but
/// the fields are not checked against that range: the portal's values are taken as they
/// come, so a minute count of 1440 or more gives 24 hours or more, and a text such as
/// `25:99` gives 25 hours and 99 minutes.
#[derive(Clone, Copy, Debug, PartialEq, Eq, Structural)]
pub struct Time {
    /// The hour the time is at (for example, the time 13:50 is at hour 13).
    pub hours: u32,
    /// The minute the time is at (for example, the time 13:50 is at minute 50).
    pub minutes: u32,
}

/// The time `m` minutes after midnight.
pub open spec fn time_of_minutes(m: u32) -> Time {
    Time { hours: m / 60, minutes: m % 60 }
}

/// The index of the first `':'` in `s`, if there is one.
pub open spec fn first_colon(s: Seq<char>) -> Option<int>
    decreases s.len(),
{
    if s.len() == 0 {
        None
    } else if s.last() == ':' && first_colon(s.drop_last()) is None {
        Some(s.len() - 1)
    } else {
        first_colon(s.drop_last())
    }
}

/// The time that the text `H:MM` spells: the text is cut at its first `':'` and both
/// sides are read as unsigned integers.
pub open spec fn time_of_text(s: Seq<char>) -> Option<Time> {
    match first_colon(s) {
        None => None,
        Some(i) => match (
            parse_u32_spec(s.subrange(0, i)),
            parse_u32_spec(s.subrange(i + 1, s.len() as int)),
        ) {
            (Some(h), Some(m)) => Some(Time { hours: h, minutes: m }),
            _ => None,
        },
    }
}

/// The minutes of a time as `fmt` writes them: two digits below ten, else as they are.
pub open spec fn padded_minutes(m: u32) -> Seq<char> {
    if m < 10 {
        seq!['0', digit_char(m as nat)]
    } else {
        decimal(m as nat)
    }
}

/// The text `H:MM` of `t`.
pub open spec fn time_text(t: Time) -> Seq<char> {
    decimal(t.hours as nat) + seq![':'] + padded_minutes(t.minutes)
}

proof fn lemma_first_colon(s: Seq<char>)
    ensures
        match first_colon(s) {
            Some(i) => 0 <= i < s.len() && s[i] == ':' && !s.subrange(0, i).contains(':'),
            None => !s.contains(':'),
        },
    decreases s.len(),
{
    if s.len() > 0 {
        let t = s.drop_last();
        lemma_first_colon(t);
        match first_colon(t) {
            Some(i) => {
                assert(s.subrange(0, i) =~= t.subrange(0, i));
            },
            None => {
                if s.last() == ':' {
                    assert(s.subrange(0, s.len() - 1) =~= t);
                } else {
                    assert forall|k: int| 0 <= k < s.len() implies s[k] != ':' by {
                        if k < s.len() - 1 {
                            assert(s[k] == t[k]);
                        }
                    }
                }
            },
        }
    }
}

proof fn lemma_first_colon_at(s: Seq<char>, i: int)
    requires
        0 <= i < s.len(),
        s[i] == ':',
        !s.subrange(0, i).contains(':'),
    ensures
        first_colon(s) == Some(i),
{
    lemma_first_colon(s);
    match first_colon(s) {
        Some(j) => {
            if j < i {
                assert(s.subrange(0, i)[j] == ':');
            } else if j > i {
                assert(s.subrange(0, j)[i] == ':');
            }
        },
        None => {
            assert(s[i] == ':');
        },
    }
}

proof fn lemma_parse_decimal(n: u32)
    ensures
        parse_u32_spec(decimal(n as nat)) == Some(n),
{
    lemma_decimal_reads_back(n as nat);
}

proof fn lemma_parse_padded(m: u32)
    ensures
        parse_u32_spec(padded_minutes(m)) == Some(m),
{
    if m < 10 {
        let p = padded_minutes(m);
        let c = digit_char(m as nat);
        assert(p.drop_last() =~= seq!['0']);
        assert(seq!['0'].drop_last() =~= Seq::<char>::empty());
        assert(digits_value(Seq::<char>::empty()) == 0);
        assert(digits_value(seq!['0']) == 0);
        assert(digit_value(c) == m);
        assert(digits_value(p) == m);
        assert(all_digits(p));
    } else {
        lemma_parse_decimal(m);
    }
}

/// Writing a time with `fmt` and reading the text back with `parse` gives the same time.
pub proof fn lemma_time_text_round_trip(t: Time)
    ensures
        time_of_text(time_text(t)) == Some(t),
{
    let h = decimal(t.hours as nat);
    let s = time_text(t);
    let i = h.len() as int;
    lemma_decimal_reads_back(t.hours as nat);
    assert(s.subrange(0, i) =~= h);
    assert(s.subrange(i + 1, s.len() as int) =~= padded_minutes(t.minutes));
    assert(s[i] == ':');
    lemma_first_colon_at(s, i);
    lemma_parse_decimal(t.hours);
    lemma_parse_padded(t.minutes);
}

/// A valid time of day `H:MM` and its count of minutes since midnight decode to the
/// same time: so does the text that `fmt` writes, and so does every other text that
/// reads as that time (`07:05` as well as `7:05`).
pub proof fn lemma_text_and_minutes_agree(hours: u32, minutes: u32)
    requires
        hours < 24,
        minutes < 60,
    ensures
        time_of_text(time_text(Time { hours, minutes })) == Some(
            time_of_minutes((hours * 60 + minutes) as u32),
        ),
        forall|s: Seq<char>|
            #[trigger] time_of_text(s) == Some(Time { hours, minutes }) ==> time_of_text(s)
                == Some(time_of_minutes((hours * 60 + minutes) as u32)),
{
    lemma_time_text_round_trip(Time { hours, minutes });
    let n = hours * 60 + minutes;
    assert(n / 60 == hours && n % 60 == minutes) by (nonlinear_arith)
        requires
            n == hours * 60 + minutes,
            minutes < 60,
    ;
}

/// The wire form of a time of day: a count of minutes since midnight, a text `H:MM`,
/// or a value of another kind.
#[derive(Clone, Debug)]
pub enum RawTime {
    Minutes(u32),
    Text(String),
    Other,
}

/// What `decode_time` makes of `raw`.
pub open spec fn decode_time_spec(raw: RawTime) -> Result<Time, Error> {
    match raw {
        RawTime::Minutes(m) => Ok(time_of_minutes(m)),
        RawTime::Text(s) => match time_of_text(s@) {
            Some(t) => Ok(t),
            None => Err(Error::InvalidTime),
        },
        RawTime::Other => Err(Error::InvalidTime),
    }
}

impl Time {
    /// The time `m` minutes after midnight.
    pub fn from_minutes(m: u32) -> (r: Time)
        ensures
            r == time_of_minutes(m),
    {
        Time { hours: m / 60, minutes: m % 60 }
    }

    /// The time that the text `H:MM` spells; a text without `':'`, or with a side that
    /// is not an unsigned integer, is an error.
    pub fn parse(s: &str) -> (r: Result<Time, Error>)
        ensures
            match time_of_text(s@) {
                Some(t) => r == Ok::<Time, Error>(t),
                None => r == Err::<Time, Error>(Error::InvalidTime),
            },
    {
        let cs = chars_of(s);
        let mut i: usize = 0;
        while i < cs.len() && cs[i] != ':'
            invariant
                cs@ == s@,
                i <= cs.len(),
                !s@.subrange(0, i as int).contains(':'),
            decreases cs.len() - i,
        {
            proof {
                assert forall|k: int| 0 <= k < i + 1 implies #[trigger] s@.subrange(0, i + 1)[k] != ':' by {
                    if k < i {
                        assert(s@.subrange(0, i + 1)[k] == s@.subrange(0, i as int)[k]);
                    }
                }
            }
            i = i + 1;
        }
        if i == cs.len() {
            proof {
                assert(s@.subrange(0, i as int) =~= s@);
                lemma_first_colon(s@);
            }
            return Err(Error::InvalidTime);
        }
        proof {
            lemma_first_colon_at(s@, i as int);
        }
        let hours = parse_u32(s.substring_char(0, i));
        let minutes = parse_u32(s.substring_char(i + 1, cs.len()));
        match (hours, minutes) {
            (Some(h), Some(m)) => Ok(Time { hours: h, minutes: m }),
            _ => Err(Error::InvalidTime),
        }
    }

    /// The text `H:MM` of the time, with the minutes in two digits when below ten.
    pub fn fmt(&self) -> (r: String)
        ensures
            r@ == time_text(*self),
    {
        let mut r = decimal_text(self.hours);
        r.append(":");
        if self.minutes < 10 {
            r.append("0");
        }
        let m = decimal_text(self.minutes);
        r.append(m.as_str());
        proof {
            reveal_strlit(":");
            reveal_strlit("0");
            if self.minutes < 10 {
                assert(decimal(self.minutes as nat) =~= seq![digit_char(self.minutes as nat)]);
            }
        }
        assert(r@ =~= time_text(*self));
        r
    }
}

/// Reads a time of day from its wire form: a minute count or a text `H:MM`; any other
/// kind of value is an error.
/// Values past the end of the day are kept as they are, not refused (see `Time`).
pub fn decode_time(raw: &RawTime) -> (r: Result<Time, Error>)
    ensures
        r == decode_time_spec(*raw),
{
    match raw {
        RawTime::Minutes(m) => Ok(Time::from_minutes(*m)),
        RawTime::Text(s) => Time::parse(s.as_str()),
        RawTime::Other => Err(Error::InvalidTime),
    }
}

/// A group that takes part in a lesson.
#[derive(Clone, Debug)]
pub struct Group {
    /// The caption of the group.
    pub caption: String,
    pub class: String,
    pub course_id: u32,
    pub full_caption: String,
    pub id: u32,
    /// The rooms of the group; empty where the answer lists none.
    pub rooms: Vec<Room>,
    pub short_caption: String,
    pub teachers: Vec<Teacher>,
}

/// What a `Room` holds.
pub struct RoomView {
    pub caption: Seq<char>,
    pub id: u32,
    pub long_caption: Seq<char>,
    pub schedule_visible: bool,
}

/// A room of a lesson.
#[derive(Clone, Debug)]
pub struct Room {
    caption: String,
    id: u32,
    long_caption: String,
    schedule_visible: bool,
}

impl View for Room {
    type V = RoomView;

    closed spec fn view(&self) -> RoomView {
        RoomView {
            caption: self.caption@,
            id: self.id,
            long_caption: self.long_caption@,
            schedule_visible: self.schedule_visible,
        }
    }
}

impl Room {
    /// A room with the given fields.
    pub fn new(caption: String, id: u32, long_caption: String, schedule_visible: bool) -> (r: Room)
        ensures
            r@ == (RoomView {
                caption: caption@,
                id,
                long_caption: long_caption@,
                schedule_visible,
            }),
    {
        Room { caption, id, long_caption, schedule_visible }
    }

    /// The short caption of the room.
    pub fn caption(&self) -> (r: &String)
        ensures
            r@ == self@.caption,
    {
        &self.caption
    }

    pub fn id(&self) -> (r: u32)
        ensures
            r == self@.id,
    {
        self.id
    }

    /// A more descriptive caption of the room.
    pub fn long_caption(&self) -> (r: &String)
        ensures
            r@ == self@.long_caption,
    {
        &self.long_caption
    }

    /// Whether the room is shown on the schedule.
    pub fn schedule_visible(&self) -> (r: bool)
        ensures
            r == self@.schedule_visible,
    {
        self.schedule_visible
    }
}

/// A teacher of a lesson.
#[derive(Clone, Debug)]
pub struct Teacher {
    pub caption: String,
    pub id: u32,
    pub long_caption: String,
    pub schedule_visible: bool,
}

/// A lesson of the schedule.
#[derive(Clone, Debug)]
pub struct Reservation {
    /// The weekday of the lesson.
    pub weekday: Weekday,
    /// The classes whose students take part.
    pub class: String,
    /// The colour of the lesson in the portal's pages.
    pub color: Option<String>,
    /// When the lesson ends.
    pub end: Time,
    /// The groups that take part.
    pub groups: Vec<Group>,
    /// The id of the schedule the lesson is in.
    pub id: u32,
    /// The id of the lesson.
    pub reservation_id: u32,
    /// When the lesson starts.
    pub start: Time,
}

/// What `Reservation::decode` makes of a lesson whose day, start and end come in wire
/// form.
pub open spec fn reservation_times_spec(day: u32, start: RawTime, end: RawTime) -> Result<
    (Weekday, Time, Time),
    Error,
> {
    match weekday_of(day) {
        None => Err(Error::InvalidWeekday),
        Some(d) => match decode_time_spec(start) {
            Err(e) => Err(e),
            Ok(s) => match decode_time_spec(end) {
                Err(e) => Err(e),
                Ok(t) => Ok((d, s, t)),
            },
        },
    }
}

impl Reservation {
    /// A lesson from its wire fields: the day number is decoded as a weekday and the
    /// start and end as times of day; the first of these that fails gives the error.
    pub fn decode(
        day: u32,
        class: String,
        color: Option<String>,
        start: &RawTime,
        end: &RawTime,
        groups: Vec<Group>,
        id: u32,
        reservation_id: u32,
    ) -> (r: Result<Reservation, Error>)
        ensures
            match reservation_times_spec(day, *start, *end) {
                Ok((d, s, t)) => r is Ok && r->Ok_0.weekday == d && r->Ok_0.start == s
                    && r->Ok_0.end == t && r->Ok_0.class == class && r->Ok_0.color == color
                    && r->Ok_0.groups == groups && r->Ok_0.id == id && r->Ok_0.reservation_id
                    == reservation_id,
                Err(e) => r is Err && r->Err_0 == e,
            },
    {
        let weekday = match Weekday::from_number(day) {
            Ok(d) => d,
            Err(e) => return Err(e),
        };
        let start = match decode_time(start) {
            Ok(t) => t,
            Err(e) => return Err(e),
        };
        let end = match decode_time(end) {
            Ok(t) => t,
            Err(e) => return Err(e),
        };
        Ok(Reservation { weekday, class, color, end, groups, id, reservation_id, start })
    }
}

} // verus!
