//! The calendar of the date prompt: a header with month and year, a row
//! with the days of the week, and six weeks of days.

use crate::backend::{lemma_performed_concat, Backend, CommonBackend};
use crate::backend_model::{lines, prompt_line_ops};
use crate::config::RenderConfig;
use crate::render_ops::{lemma_apply_none, new_line, space, styled, RenderOp};
use crate::style::StyleSheet;
use crate::text::{
    center, decimal, lowercase, pad_left, signed_decimal, spec_center, spec_decimal,
    spec_lowercase, spec_pad_left, spec_signed_decimal,
};
use chrono::Datelike;
use vstd::prelude::*;

verus! {

/// A month of the year.
#[derive(Clone, Copy, Debug, PartialEq, Eq, Structural)]
pub enum Month {
    January,
    February,
    March,
    April,
    May,
    June,
    July,
    August,
    September,
    October,
    November,
    December,
}

impl Month {
    /// The number of the month, from 1 for January to 12 for December.
    pub open spec fn spec_number_from_month(self) -> u8 {
        match self {
            Month::January => 1,
            Month::February => 2,
            Month::March => 3,
            Month::April => 4,
            Month::May => 5,
            Month::June => 6,
            Month::July => 7,
            Month::August => 8,
            Month::September => 9,
            Month::October => 10,
            Month::November => 11,
            Month::December => 12,
        }
    }

    /// The number of the month, from 1 for January to 12 for December.
    #[verifier::when_used_as_spec(spec_number_from_month)]
    pub fn number_from_month(self) -> (number: u8)
        ensures
            number == self.spec_number_from_month(),
            1 <= number <= 12,
    {
        match self {
            Month::January => 1,
            Month::February => 2,
            Month::March => 3,
            Month::April => 4,
            Month::May => 5,
            Month::June => 6,
            Month::July => 7,
            Month::August => 8,
            Month::September => 9,
            Month::October => 10,
            Month::November => 11,
            Month::December => 12,
        }
    }
}

/// A day of the week.
#[derive(Clone, Copy, Debug, PartialEq, Eq, Structural)]
pub enum Weekday {
    Mon,
    Tue,
    Wed,
    Thu,
    Fri,
    Sat,
    Sun,
}

impl Weekday {
    /// Number of days since Monday, from 0 for Monday to 6 for Sunday.
    pub open spec fn spec_num_days_from_monday(self) -> u8 {
        match self {
            Weekday::Mon => 0,
            Weekday::Tue => 1,
            Weekday::Wed => 2,
            Weekday::Thu => 3,
            Weekday::Fri => 4,
            Weekday::Sat => 5,
            Weekday::Sun => 6,
        }
    }

    /// Number of days since Monday, from 0 for Monday to 6 for Sunday.
    #[verifier::when_used_as_spec(spec_num_days_from_monday)]
    pub fn num_days_from_monday(self) -> (number: u8)
        ensures
            number == self.spec_num_days_from_monday(),
            number < 7,
    {
        match self {
            Weekday::Mon => 0,
            Weekday::Tue => 1,
            Weekday::Wed => 2,
            Weekday::Thu => 3,
            Weekday::Fri => 4,
            Weekday::Sat => 5,
            Weekday::Sun => 6,
        }
    }

    /// The day after, and Monday after Sunday.
    pub open spec fn spec_succ(self) -> Weekday {
        match self {
            Weekday::Mon => Weekday::Tue,
            Weekday::Tue => Weekday::Wed,
            Weekday::Wed => Weekday::Thu,
            Weekday::Thu => Weekday::Fri,
            Weekday::Fri => Weekday::Sat,
            Weekday::Sat => Weekday::Sun,
            Weekday::Sun => Weekday::Mon,
        }
    }

    /// The day after, and Monday after Sunday.
    #[verifier::when_used_as_spec(spec_succ)]
    pub fn succ(self) -> (next: Weekday)
        ensures
            next == self.spec_succ(),
    {
        match self {
            Weekday::Mon => Weekday::Tue,
            Weekday::Tue => Weekday::Wed,
            Weekday::Wed => Weekday::Thu,
            Weekday::Thu => Weekday::Fri,
            Weekday::Fri => Weekday::Sat,
            Weekday::Sat => Weekday::Sun,
            Weekday::Sun => Weekday::Mon,
        }
    }
}

/// A day of the calendar: year, month from 1 to 12, day of the month from
/// 1 on. Whether there is such a day is for the calendar to say.
#[derive(Clone, Copy, Debug, PartialEq, Eq, Structural)]
pub struct CalendarDate {
    pub year: i32,
    pub month: u32,
    pub day: u32,
}

impl CalendarDate {
    /// Whether `self` lies before `other`.
    pub open spec fn spec_is_before(self, other: CalendarDate) -> bool {
        self.year < other.year || (self.year == other.year && (self.month < other.month || (
        self.month == other.month && self.day < other.day)))
    }

    /// Whether `self` lies before `other`.
    #[verifier::when_used_as_spec(spec_is_before)]
    pub fn is_before(self, other: CalendarDate) -> (before: bool)
        ensures
            before == self.spec_is_before(other),
    {
        self.year < other.year || (self.year == other.year && (self.month < other.month || (
        self.month == other.month && self.day < other.day)))
    }
}

/// The English name of the month with the given number.
pub open spec fn spec_month_name(number: u8) -> Seq<char> {
    if number == 1 {
        "January"@
    } else if number == 2 {
        "February"@
    } else if number == 3 {
        "March"@
    } else if number == 4 {
        "April"@
    } else if number == 5 {
        "May"@
    } else if number == 6 {
        "June"@
    } else if number == 7 {
        "July"@
    } else if number == 8 {
        "August"@
    } else if number == 9 {
        "September"@
    } else if number == 10 {
        "October"@
    } else if number == 11 {
        "November"@
    } else {
        "December"@
    }
}

/// The short English name of the day that lies `number` days after Monday.
pub open spec fn spec_weekday_name(number: u8) -> Seq<char> {
    if number == 0 {
        "Mon"@
    } else if number == 1 {
        "Tue"@
    } else if number == 2 {
        "Wed"@
    } else if number == 3 {
        "Thu"@
    } else if number == 4 {
        "Fri"@
    } else if number == 5 {
        "Sat"@
    } else {
        "Sun"@
    }
}

/// The day of the week of a date, in days since Monday, as
/// `chrono::NaiveDate` has it; `None` where `chrono` has no such date.
pub uninterp spec fn chrono_weekday(year: i32, month: u32, day: u32) -> Option<u8>;

/// The date of the day before, as `chrono::NaiveDate::pred_opt` has it;
/// `None` where `chrono` has no such date or none before it.
pub uninterp spec fn chrono_day_before(year: i32, month: u32, day: u32) -> Option<(i32, u32, u32)>;

/// The date of the day after, as `chrono::NaiveDate::succ_opt` has it;
/// `None` where `chrono` has no such date or none after it.
pub uninterp spec fn chrono_day_after(year: i32, month: u32, day: u32) -> Option<(i32, u32, u32)>;

/// Calls `chrono::Month::try_from` and `chrono::Month::name`.
///
/// Trusted: the numbers 1 to 12 give the English names of the months, from
/// January to December, and every other number gives nothing.
#[verifier::external_body]
pub(crate) fn month_name(number: u8) -> (name: Option<String>)
    ensures
        1 <= number <= 12 ==> name is Some && name->0@ == spec_month_name(number),
        !(1 <= number <= 12) ==> name is None,
{
    chrono::Month::try_from(number).ok().map(|month| month.name().to_owned())
}

/// Calls `chrono::Weekday::try_from` and formats the day with
/// `chrono::Weekday`'s `Display`.
///
/// Trusted: the numbers 0 to 6 give `Mon`, `Tue`, `Wed`, `Thu`, `Fri`,
/// `Sat`, `Sun`, and every other number gives nothing.
#[verifier::external_body]
pub(crate) fn weekday_name(number: u8) -> (name: Option<String>)
    ensures
        number < 7 ==> name is Some && name->0@ == spec_weekday_name(number),
        number >= 7 ==> name is None,
{
    chrono::Weekday::try_from(number).ok().map(|weekday| format!("{}", weekday))
}

/// Calls `chrono::NaiveDate::from_ymd_opt`, `Datelike::weekday` and
/// `chrono::Weekday::num_days_from_monday`.
///
/// Trusted: the result depends on the date alone, and a day of the week
/// lies fewer than seven days after Monday.
#[verifier::external_body]
pub(crate) fn weekday_number(year: i32, month: u32, day: u32) -> (number: Option<u8>)
    ensures
        number == chrono_weekday(year, month, day),
        number matches Some(n) ==> n < 7,
{
    chrono::NaiveDate::from_ymd_opt(year, month, day).map(
        |date| date.weekday().num_days_from_monday() as u8,
    )
}

/// Calls `chrono::NaiveDate::from_ymd_opt` and
/// `chrono::NaiveDate::pred_opt`.
///
/// Trusted: the result depends on the date alone.
#[verifier::external_body]
pub(crate) fn day_before(year: i32, month: u32, day: u32) -> (date: Option<(i32, u32, u32)>)
    ensures
        date == chrono_day_before(year, month, day),
{
    chrono::NaiveDate::from_ymd_opt(year, month, day).and_then(|date| date.pred_opt()).map(
        |date| (date.year(), date.month(), date.day()),
    )
}

/// Calls `chrono::NaiveDate::from_ymd_opt` and
/// `chrono::NaiveDate::succ_opt`.
///
/// Trusted: the result depends on the date alone.
#[verifier::external_body]
pub(crate) fn day_after(year: i32, month: u32, day: u32) -> (date: Option<(i32, u32, u32)>)
    ensures
        date == chrono_day_after(year, month, day),
{
    chrono::NaiveDate::from_ymd_opt(year, month, day).and_then(|date| date.succ_opt()).map(
        |date| (date.year(), date.month(), date.day()),
    )
}

impl CalendarDate {
    /// The day of the week of the date, if the calendar has the date.
    pub open spec fn spec_weekday(self) -> Option<u8> {
        chrono_weekday(self.year, self.month, self.day)
    }

    /// The day before, and the date itself where the calendar has no day
    /// before it.
    pub open spec fn spec_pred(self) -> CalendarDate {
        match chrono_day_before(self.year, self.month, self.day) {
            Some((year, month, day)) => CalendarDate { year, month, day },
            None => self,
        }
    }

    /// Whether the calendar has a day before the date.
    pub open spec fn spec_has_pred(self) -> bool {
        chrono_day_before(self.year, self.month, self.day) is Some
    }

    /// The day after, and the date itself where the calendar has no day
    /// after it.
    pub open spec fn spec_succ(self) -> CalendarDate {
        match chrono_day_after(self.year, self.month, self.day) {
            Some((year, month, day)) => CalendarDate { year, month, day },
            None => self,
        }
    }

    /// The day of the week of the date, in days since Monday, if the
    /// calendar has the date.
    pub fn weekday(self) -> (number: Option<u8>)
        ensures
            number == self.spec_weekday(),
            number matches Some(n) ==> n < 7,
    {
        weekday_number(self.year, self.month, self.day)
    }

    /// The day before, if the calendar has one.
    pub fn pred_opt(self) -> (date: Option<CalendarDate>)
        ensures
            date is Some == self.spec_has_pred(),
            date matches Some(d) ==> d == self.spec_pred(),
    {
        match day_before(self.year, self.month, self.day) {
            Some((year, month, day)) => Some(CalendarDate { year, month, day }),
            None => None,
        }
    }

    /// The day after, and the date itself where the calendar has no day
    /// after it.
    pub fn succ_or_same(self) -> (date: CalendarDate)
        ensures
            date == self.spec_succ(),
    {
        match day_after(self.year, self.month, self.day) {
            Some((year, month, day)) => CalendarDate { year, month, day },
            None => self,
        }
    }
}

/// The date `steps` days before `date`, or the first day of the calendar
/// met on the way.
pub open spec fn days_back(date: CalendarDate, steps: nat) -> CalendarDate
    decreases steps,
{
    if steps == 0 || !date.spec_has_pred() {
        date
    } else {
        days_back(date.spec_pred(), (steps - 1) as nat)
    }
}

/// The nearest day, going back from `date` by `steps` days at most, that
/// falls on the given day of the week; the walk ends early at the first
/// day of the calendar.
pub open spec fn back_to_weekday(date: CalendarDate, week_start: u8, steps: nat) -> CalendarDate
    decreases steps,
{
    if steps == 0 || date.spec_weekday() == Some(week_start) || !date.spec_has_pred() {
        date
    } else {
        back_to_weekday(date.spec_pred(), week_start, (steps - 1) as nat)
    }
}

/// The date `steps` days after `date`; the walk stays on the last day of
/// the calendar.
pub open spec fn days_on(date: CalendarDate, steps: nat) -> CalendarDate
    decreases steps,
{
    if steps == 0 {
        date
    } else {
        days_on(date, (steps - 1) as nat).spec_succ()
    }
}

/// The first day that the calendar of a month shows: the first of the
/// month falls on the day that weeks start with: the day a week before;
/// else the nearest day before it that weeks start with.
pub open spec fn first_shown(month: Month, year: i32, week_start: Weekday) -> CalendarDate {
    let first = CalendarDate { year, month: month.spec_number_from_month() as u32, day: 1 };
    if first.spec_weekday() == Some(week_start.spec_num_days_from_monday()) {
        days_back(first, 7)
    } else {
        back_to_weekday(first, week_start.spec_num_days_from_monday(), 7)
    }
}

/// The first day that the calendar of a month shows.
pub fn first_shown_date(month: Month, year: i32, week_start: Weekday) -> (date: CalendarDate)
    ensures
        date == first_shown(month, year, week_start),
{
    let first = CalendarDate { year, month: month.number_from_month() as u32, day: 1 };
    let start = week_start.num_days_from_monday();
    let on_week_start = match first.weekday() {
        Some(number) => number == start,
        None => false,
    };
    let mut date = first;
    let mut steps: usize = 7;
    if on_week_start {
        while steps > 0
            invariant
                days_back(date, steps as nat) == days_back(first, 7),
            decreases steps,
        {
            match date.pred_opt() {
                Some(before) => {
                    date = before;
                    steps = steps - 1;
                },
                None => {
                    steps = 0;
                },
            }
        }
    } else {
        while steps > 0
            invariant
                back_to_weekday(date, start, steps as nat) == back_to_weekday(first, start, 7),
            decreases steps,
        {
            let arrived = match date.weekday() {
                Some(number) => number == start,
                None => false,
            };
            if arrived {
                steps = 0;
            } else {
                match date.pred_opt() {
                    Some(before) => {
                        date = before;
                        steps = steps - 1;
                    },
                    None => {
                        steps = 0;
                    },
                }
            }
        }
    }
    date
}

/// The header of the calendar: the name of the month in lower case, a
/// space and the year, in the middle of twenty columns.
pub open spec fn header_text(month: Month, year: i32) -> Seq<char> {
    spec_center(
        spec_lowercase(spec_month_name(month.spec_number_from_month())) + seq![' ']
            + spec_signed_decimal(year as int),
        20,
    )
}

/// The header of the calendar.
pub fn header(month: Month, year: i32) -> (text: String)
    ensures
        text@ == header_text(month, year),
{
    let name = match month_name(month.number_from_month()) {
        Some(name) => name,
        None => String::new(),
    };
    let mut line = lowercase(name.as_str());
    line.push(' ');
    let digits = signed_decimal(year);
    let mut i: usize = 0;
    let ghost head = line@;
    while i < digits.len()
        invariant
            i <= digits.len(),
            line@ == head + digits@.take(i as int),
        decreases digits.len() - i,
    {
        line.push(crate::chars::char_at(&digits, i));
        i = i + 1;
    }
    center(&line, 20)
}

/// The name of a day of the week as the calendar shows it: the short
/// English name in lower case, without its last letter.
pub open spec fn short_weekday(weekday: Weekday) -> Seq<char> {
    spec_lowercase(spec_weekday_name(weekday.spec_num_days_from_monday())).drop_last()
}

/// The first `n` days of the week, counted from `week_start`, as the
/// calendar shows them, with a space between one and the next.
pub open spec fn week_days_text(week_start: Weekday, n: nat) -> Seq<char>
    decreases n,
{
    if n == 0 {
        Seq::empty()
    } else if n == 1 {
        short_weekday(week_start)
    } else {
        week_days_text(week_start, (n - 1) as nat) + seq![' '] + short_weekday(
            nth_weekday(week_start, (n - 1) as nat),
        )
    }
}

/// The day of the week `n` days after `weekday`.
pub open spec fn nth_weekday(weekday: Weekday, n: nat) -> Weekday
    decreases n,
{
    if n == 0 {
        weekday
    } else {
        nth_weekday(weekday, (n - 1) as nat).spec_succ()
    }
}

/// The row of the days of the week, from the day that weeks start with.
pub fn week_days(week_start: Weekday) -> (text: String)
    ensures
        text@ == week_days_text(week_start, 7),
{
    let mut text = String::new();
    let mut current_weekday = week_start;
    let mut n: usize = 0;
    while n < 7
        invariant
            n <= 7,
            text@ == week_days_text(week_start, n as nat),
            current_weekday == nth_weekday(week_start, n as nat),
        decreases 7 - n,
    {
        let name = match weekday_name(current_weekday.num_days_from_monday()) {
            Some(name) => name,
            None => String::new(),
        };
        let mut short = lowercase(name.as_str());
        short.pop();
        if n > 0 {
            text.push(' ');
        }
        let ghost head = text@;
        let mut i: usize = 0;
        while i < short.len()
            invariant
                i <= short.len(),
                text@ == head + short@.take(i as int),
            decreases short.len() - i,
        {
            text.push(crate::chars::char_at(&short, i));
            i = i + 1;
        }
        proof {
            reveal_strlit("Mon");
            reveal_strlit("Tue");
            reveal_strlit("Wed");
            reveal_strlit("Thu");
            reveal_strlit("Fri");
            reveal_strlit("Sat");
            reveal_strlit("Sun");
        }
        current_weekday = current_weekday.succ();
        n = n + 1;
    }
    text
}

/// The number of a day of the month as the calendar shows it: in two
/// columns, behind a space where it has one digit.
pub open spec fn day_text(day: u32) -> Seq<char> {
    spec_pad_left(spec_decimal(day as nat), 2, ' ')
}

/// How many columns behind the start of its cell the digit of a day
/// stands that the cursor is shown on: one for a day of one digit.
pub open spec fn day_cursor_offset(day: u32) -> isize {
    if day < 10 {
        1
    } else {
        0
    }
}

/// What a calendar is drawn for: the month, today, the selected day, and
/// the first and the last day that can be selected.
pub struct CalendarQuery {
    pub month: Month,
    pub today: CalendarDate,
    pub selected_date: CalendarDate,
    pub min_date: Option<CalendarDate>,
    pub max_date: Option<CalendarDate>,
}

/// Whether the day cannot be selected: it lies before the first or after
/// the last day that can be.
pub open spec fn unavailable(query: CalendarQuery, date: CalendarDate) -> bool {
    (query.min_date matches Some(min) && date.spec_is_before(min)) || (query.max_date matches Some(
        max,
    ) && max.spec_is_before(date))
}

/// The style of a day: of days that cannot be selected; else of the
/// selected day, if it is that and there is such a style; else of today;
/// else of days of another month; else none.
pub open spec fn day_style(
    config: RenderConfig,
    query: CalendarQuery,
    date: CalendarDate,
) -> StyleSheet {
    if unavailable(query, date) {
        config.calendar.unavailable_date
    } else if date == query.selected_date {
        match config.calendar.selected_date {
            Some(style) => style,
            None => StyleSheet::spec_empty(),
        }
    } else if date == query.today {
        config.calendar.today_date
    } else if date.month != query.month.spec_number_from_month() {
        config.calendar.different_month_date
    } else {
        StyleSheet::spec_empty()
    }
}

/// The cell of a day: the mark of the cursor if the day is the selected
/// one, and the number of the day in its style.
pub open spec fn day_ops(
    config: RenderConfig,
    query: CalendarQuery,
    date: CalendarDate,
) -> Seq<RenderOp> {
    (if date == query.selected_date {
        seq![RenderOp::MarkCursor(day_cursor_offset(date.day))]
    } else {
        Seq::empty()
    }) + seq![styled(day_text(date.day), day_style(config, query, date))]
}

/// What leads a row of the calendar in: the prefix and a space.
pub open spec fn row_lead_ops(config: RenderConfig) -> Seq<RenderOp> {
    seq![RenderOp::Write(config.calendar.prefix@), space()]
}

/// The `k`-th cell of the six weeks of the calendar, with what stands
/// before it: the lead of the row before the first day of a week, a space
/// before any other; and behind it the end of the line after the last day
/// of a week.
pub open spec fn cell_ops(
    config: RenderConfig,
    query: CalendarQuery,
    first: CalendarDate,
    k: int,
) -> Seq<RenderOp> {
    (if k % 7 == 0 {
        row_lead_ops(config)
    } else {
        seq![space()]
    }) + day_ops(config, query, days_on(first, k as nat)) + (if k % 7 == 6 {
        seq![new_line()]
    } else {
        Seq::empty()
    })
}

/// The six weeks of the calendar, from the given first day on.
pub open spec fn weeks_ops(
    config: RenderConfig,
    query: CalendarQuery,
    first: CalendarDate,
) -> Seq<RenderOp> {
    lines(42, |k: int| cell_ops(config, query, first, k))
}

/// The rows above the weeks: month and year, and the days of the week.
pub open spec fn calendar_head_ops(
    config: RenderConfig,
    month: Month,
    year: i32,
    week_start: Weekday,
) -> Seq<RenderOp> {
    row_lead_ops(config) + seq![
        styled(header_text(month, year), config.calendar.header),
        new_line(),
    ] + row_lead_ops(config) + seq![
        styled(week_days_text(week_start, 7), config.calendar.week_header),
        new_line(),
    ]
}

/// The calendar of a month.
pub open spec fn calendar_ops(
    config: RenderConfig,
    query: CalendarQuery,
    year: i32,
    week_start: Weekday,
) -> Seq<RenderOp> {
    calendar_head_ops(config, query.month, year, week_start) + weeks_ops(
        config,
        query,
        first_shown(query.month, year, week_start),
    )
}

/// What a date prompt needs.
pub trait DateSelectBackend: CommonBackend {
    /// Shows the prompt on a line of its own.
    fn render_calendar_prompt(&mut self, prompt: &str)
        requires
            old(self).frame_open(),
        ensures
            final(self).frame_open(),
    ;

    /// Shows the calendar of a month of a year, in weeks that start with
    /// `week_start`.
    fn render_calendar(
        &mut self,
        month: Month,
        year: i32,
        week_start: Weekday,
        today: CalendarDate,
        selected_date: CalendarDate,
        min_date: Option<CalendarDate>,
        max_date: Option<CalendarDate>,
    )
        requires
            old(self).frame_open(),
        ensures
            final(self).frame_open(),
    ;
}

impl Backend {
    /// Writes what leads a row of the calendar in.
    fn print_row_lead(&mut self)
        ensures
            final(self)@ == old(self)@.performed(row_lead_ops(old(self)@.config)),
    {
        let ghost start = self@.render_box;
        let ghost a = seq![RenderOp::Write(self@.config.calendar.prefix@)];
        let prefix = self.render_config().calendar.prefix.duplicate();
        self.emit(&prefix);
        self.emit_space();
        proof {
            lemma_performed_concat(start, a, seq![space()]);
            assert(a + seq![space()] =~= row_lead_ops(old(self)@.config));
        }
    }

    /// Writes a row of the calendar that holds one text.
    fn print_calendar_row(&mut self, text: &str, style: StyleSheet)
        ensures
            final(self)@ == old(self)@.performed(
                row_lead_ops(old(self)@.config) + seq![styled(text@, style), new_line()],
            ),
    {
        let ghost start = self@.render_box;
        let ghost a = row_lead_ops(self@.config);
        let ghost b = seq![styled(text@, style)];
        self.print_row_lead();
        self.emit_styled(text, style);
        self.new_line();
        proof {
            lemma_performed_concat(start, a, b);
            lemma_performed_concat(start, a + b, seq![new_line()]);
            assert(a + b + seq![new_line()] =~= a + seq![styled(text@, style), new_line()]);
        }
    }

    /// Writes the rows above the weeks: month and year, and the days of
    /// the week.
    fn print_calendar_head(&mut self, month: Month, year: i32, week_start: Weekday)
        ensures
            final(self)@ == old(self)@.performed(
                calendar_head_ops(old(self)@.config, month, year, week_start),
            ),
    {
        let ghost start = self@.render_box;
        let ghost config = self@.config;
        let title = header(month, year);
        let days = week_days(week_start);
        let header_style = self.render_config().calendar.header;
        let week_header_style = self.render_config().calendar.week_header;
        self.print_calendar_row(title.as_str(), header_style);
        self.print_calendar_row(days.as_str(), week_header_style);
        proof {
            lemma_performed_concat(
                start,
                row_lead_ops(config) + seq![
                    styled(header_text(month, year), config.calendar.header),
                    new_line(),
                ],
                row_lead_ops(config) + seq![
                    styled(week_days_text(week_start, 7), config.calendar.week_header),
                    new_line(),
                ],
            );
            assert((row_lead_ops(config) + seq![
                styled(header_text(month, year), config.calendar.header),
                new_line(),
            ]) + (row_lead_ops(config) + seq![
                styled(week_days_text(week_start, 7), config.calendar.week_header),
                new_line(),
            ]) =~= calendar_head_ops(config, month, year, week_start));
        }
    }

    /// The style of a day of the calendar.
    fn day_style(&self, query: &CalendarQuery, date: CalendarDate) -> (style: StyleSheet)
        ensures
            style == day_style(self@.config, *query, date),
    {
        let too_early = match query.min_date {
            Some(min_date) => date.is_before(min_date),
            None => false,
        };
        let too_late = match query.max_date {
            Some(max_date) => max_date.is_before(date),
            None => false,
        };
        if too_early || too_late {
            self.render_config().calendar.unavailable_date
        } else if date == query.selected_date {
            match self.render_config().calendar.selected_date {
                Some(custom_style_sheet) => custom_style_sheet,
                None => StyleSheet::empty(),
            }
        } else if date == query.today {
            self.render_config().calendar.today_date
        } else if date.month != query.month.number_from_month() as u32 {
            self.render_config().calendar.different_month_date
        } else {
            StyleSheet::empty()
        }
    }

    /// Writes the cell of a day.
    fn print_day(&mut self, query: &CalendarQuery, date: CalendarDate)
        ensures
            final(self)@ == old(self)@.performed(day_ops(old(self)@.config, *query, date)),
    {
        let ghost start = self@.render_box;
        let ghost config = self@.config;
        let style_sheet = self.day_style(query, date);
        let number = pad_left(&decimal(date.day as usize), 2, ' ');
        let ghost b = seq![styled(day_text(date.day), day_style(config, *query, date))];
        if date == query.selected_date {
            let cursor_offset: isize = if date.day < 10 {
                1
            } else {
                0
            };
            self.emit_mark(cursor_offset);
            self.emit_styled(number.as_str(), style_sheet);
            proof {
                lemma_performed_concat(
                    start,
                    seq![RenderOp::MarkCursor(day_cursor_offset(date.day))],
                    b,
                );
            }
        } else {
            self.emit_styled(number.as_str(), style_sheet);
        }
    }

    /// Writes the `k`-th cell of the six weeks, with what stands before
    /// and behind it.
    fn print_cell(&mut self, query: &CalendarQuery, date: CalendarDate, k: usize)
        requires
            k < 42,
        ensures
            final(self)@ == old(self)@.performed(
                (if k % 7 == 0 {
                    row_lead_ops(old(self)@.config)
                } else {
                    seq![space()]
                }) + day_ops(old(self)@.config, *query, date) + (if k % 7 == 6 {
                    seq![new_line()]
                } else {
                    Seq::empty()
                }),
            ),
    {
        let ghost start = self@.render_box;
        let ghost config = self@.config;
        let ghost a = if k % 7 == 0 {
            row_lead_ops(config)
        } else {
            seq![space()]
        };
        let ghost b = day_ops(config, *query, date);
        if k % 7 == 0 {
            self.print_row_lead();
        } else {
            self.emit_space();
        }
        self.print_day(query, date);
        proof {
            lemma_performed_concat(start, a, b);
        }
        if k % 7 == 6 {
            self.new_line();
            proof {
                lemma_performed_concat(start, a + b, seq![new_line()]);
            }
        }
    }
}

impl DateSelectBackend for Backend {
    fn render_calendar_prompt(&mut self, prompt: &str)
        ensures
            final(self)@ == old(self)@.performed(prompt_line_ops(old(self)@.config, prompt@)),
    {
        self.print_prompt_line(prompt);
    }

    /// Writes the calendar: the header, the days of the week, and six
    /// weeks of days from the first shown day on; the selected day carries
    /// the mark of the cursor.
    fn render_calendar(
        &mut self,
        month: Month,
        year: i32,
        week_start: Weekday,
        today: CalendarDate,
        selected_date: CalendarDate,
        min_date: Option<CalendarDate>,
        max_date: Option<CalendarDate>,
    )
        ensures
            final(self)@ == old(self)@.performed(
                calendar_ops(
                    old(self)@.config,
                    CalendarQuery { month, today, selected_date, min_date, max_date },
                    year,
                    week_start,
                ),
            ),
    {
        let query = CalendarQuery { month, today, selected_date, min_date, max_date };
        let ghost start = self@.render_box;
        let ghost config = self@.config;
        self.print_calendar_head(month, year, week_start);
        let ghost headed = self@;
        let first = first_shown_date(month, year, week_start);
        let ghost line = |k: int| cell_ops(config, query, first, k);
        let mut date_it = first;
        let mut k: usize = 0;
        proof {
            lemma_apply_none(headed.render_box.current);
        }
        while k < 42
            invariant
                k <= 42,
                self@ == headed.performed(lines(k as nat, line)),
                headed.config == config,
                date_it == days_on(first, k as nat),
                line == |k: int| cell_ops(config, query, first, k),
            decreases 42 - k,
        {
            self.print_cell(&query, date_it, k);
            proof {
                lemma_performed_concat(headed.render_box, lines(k as nat, line), line(k as int));
            }
            date_it = date_it.succ_or_same();
            k = k + 1;
        }
        proof {
            lemma_performed_concat(
                start,
                calendar_head_ops(config, month, year, week_start),
                weeks_ops(config, query, first),
            );
        }
    }
}

} // verus!
