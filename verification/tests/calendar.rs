use inquire::backend::{Backend, CommonBackend};
use inquire::config::RenderConfig;
use inquire::date::{
    first_shown_date, header, week_days, CalendarDate, DateSelectBackend, Month, Weekday,
};
use inquire::geometry::{Position, TerminalSize};
use inquire::style::{Color, StyleSheet, Styled};

fn date(year: i32, month: u32, day: u32) -> CalendarDate {
    CalendarDate { year, month, day }
}

fn rows(backend: &Backend) -> Vec<String> {
    backend
        .render_box()
        .last_rendered_frame()
        .finished_rows()
        .iter()
        .map(|row| row.get_content().iter().map(|t| t.content.as_str()).collect::<String>())
        .collect()
}

#[test]
fn months_and_weekdays_have_numbers() {
    assert_eq!(Month::January.number_from_month(), 1);
    assert_eq!(Month::December.number_from_month(), 12);
    assert_eq!(Weekday::Mon.num_days_from_monday(), 0);
    assert_eq!(Weekday::Sun.num_days_from_monday(), 6);
    assert_eq!(Weekday::Sat.succ(), Weekday::Sun);
    assert_eq!(Weekday::Sun.succ(), Weekday::Mon);
}

#[test]
fn dates_are_ordered() {
    assert!(date(2023, 12, 31).is_before(date(2024, 1, 1)));
    assert!(date(2024, 1, 31).is_before(date(2024, 2, 1)));
    assert!(date(2024, 2, 1).is_before(date(2024, 2, 2)));
    assert!(!date(2024, 2, 2).is_before(date(2024, 2, 2)));
    assert!(!date(2024, 2, 3).is_before(date(2024, 2, 2)));
}

#[test]
fn dates_know_their_weekday_and_neighbours() {
    assert_eq!(date(2024, 3, 1).weekday(), Some(4));
    assert_eq!(date(2024, 2, 30).weekday(), None);
    assert_eq!(date(2024, 3, 1).pred_opt(), Some(date(2024, 2, 29)));
    assert_eq!(date(2023, 3, 1).pred_opt(), Some(date(2023, 2, 28)));
    assert_eq!(date(2024, 1, 1).pred_opt(), Some(date(2023, 12, 31)));
    assert_eq!(date(2024, 2, 30).pred_opt(), None);
    assert_eq!(date(2024, 12, 31).succ_or_same(), date(2025, 1, 1));
    assert_eq!(date(2024, 2, 30).succ_or_same(), date(2024, 2, 30));
}

#[test]
fn calendar_header_is_centered() {
    assert_eq!(header(Month::March, 2024), "     march 2024     ");
    assert_eq!(header(Month::September, 2024), "   september 2024   ");
    assert_eq!(header(Month::May, -44), "      may -44       ");
}

#[test]
fn week_days_start_where_the_week_starts() {
    assert_eq!(week_days(Weekday::Mon), "mo tu we th fr sa su");
    assert_eq!(week_days(Weekday::Sun), "su mo tu we th fr sa");
    assert_eq!(week_days(Weekday::Thu), "th fr sa su mo tu we");
}

#[test]
fn first_shown_day_is_a_start_of_a_week_before_the_month() {
    // the first of March 2024 is a Friday
    assert_eq!(first_shown_date(Month::March, 2024, Weekday::Mon), date(2024, 2, 26));
    assert_eq!(first_shown_date(Month::March, 2024, Weekday::Sun), date(2024, 2, 25));
    assert_eq!(first_shown_date(Month::March, 2024, Weekday::Sat), date(2024, 2, 24));
    // a month that starts with the week shows the week before it first
    assert_eq!(first_shown_date(Month::March, 2024, Weekday::Fri), date(2024, 2, 23));
    assert_eq!(first_shown_date(Month::April, 2024, Weekday::Mon), date(2024, 3, 25));
}

#[test]
fn calendar_prompt() {
    let (mut backend, _) = Backend::new(TerminalSize::new(80, 24), RenderConfig::empty());
    backend.frame_setup();
    backend.render_calendar_prompt("When?");
    backend.frame_finish(TerminalSize::new(80, 24));
    backend.frame_committed(TerminalSize::new(80, 24));
    assert_eq!(rows(&backend), vec!["? When?"]);
}

#[test]
fn calendar_of_a_month() {
    let size = TerminalSize::new(80, 24);
    let mut config = RenderConfig::empty();
    let today = StyleSheet::new().with_fg(Color::LightGreen);
    let other = StyleSheet::new().with_fg(Color::DarkGrey);
    let off = StyleSheet::new().with_fg(Color::DarkRed);
    let selected = StyleSheet::new().with_fg(Color::LightCyan);
    config.calendar.today_date = today;
    config.calendar.different_month_date = other;
    config.calendar.unavailable_date = off;
    config.calendar.selected_date = Some(selected);
    let (mut backend, _) = Backend::new(size, config);
    backend.frame_setup();
    backend.render_calendar(
        Month::March,
        2024,
        Weekday::Mon,
        date(2024, 3, 13),
        date(2024, 3, 5),
        Some(date(2024, 3, 2)),
        Some(date(2024, 3, 29)),
    );
    backend.frame_finish(size);
    backend.frame_committed(size);
    assert_eq!(
        rows(&backend),
        vec![
            ">      march 2024     ",
            "> mo tu we th fr sa su",
            "> 26 27 28 29  1  2  3",
            ">  4  5  6  7  8  9 10",
            "> 11 12 13 14 15 16 17",
            "> 18 19 20 21 22 23 24",
            "> 25 26 27 28 29 30 31",
            ">  1  2  3  4  5  6  7",
        ]
    );
    let frame = backend.render_box().last_rendered_frame();
    let style_of = |row: usize, day: usize| frame.finished_rows()[row].get_content()[2 + 2 * day].style;
    let text_of = |row: usize, day: usize| {
        frame.finished_rows()[row].get_content()[2 + 2 * day].content.clone()
    };
    assert_eq!(text_of(2, 4), " 1");
    assert_eq!(style_of(2, 0), off); // the 26th of February: before the first day
    assert_eq!(style_of(2, 4), off); // the 1st of March: before the first day
    assert_eq!(style_of(2, 5), StyleSheet::new()); // the 2nd: the first day
    assert_eq!(style_of(3, 1), selected); // the 5th
    assert_eq!(style_of(4, 2), today); // the 13th
    assert_eq!(style_of(6, 4), StyleSheet::new()); // the 29th: the last day
    assert_eq!(style_of(6, 5), off); // the 30th: after the last day
    assert_eq!(style_of(7, 0), off); // the 1st of April: after the last day
    // the cursor is shown on the digit of the selected day
    assert_eq!(frame.cursor_position(), Position { row: 3, col: 6 });
    assert_eq!(frame.finished_rows()[3].get_content()[0], Styled::new(">"));
}

#[test]
fn calendar_without_limits_marks_the_other_months() {
    let size = TerminalSize::new(80, 24);
    let mut config = RenderConfig::empty();
    let other = StyleSheet::new().with_fg(Color::DarkGrey);
    config.calendar.different_month_date = other;
    let (mut backend, _) = Backend::new(size, config);
    backend.frame_setup();
    backend.render_calendar(
        Month::September,
        2024,
        Weekday::Sun,
        date(2000, 1, 1),
        date(2024, 9, 30),
        None,
        None,
    );
    backend.frame_finish(size);
    backend.frame_committed(size);
    let all = rows(&backend);
    assert_eq!(all[0], ">    september 2024   ");
    assert_eq!(all[1], "> su mo tu we th fr sa");
    // a month that starts on the first day of the week shows the week before it
    assert_eq!(all[2], "> 25 26 27 28 29 30 31");
    assert_eq!(all[3], ">  1  2  3  4  5  6  7");
    assert_eq!(all[7], "> 29 30  1  2  3  4  5");
    let frame = backend.render_box().last_rendered_frame();
    assert_eq!(frame.finished_rows()[2].get_content()[2].style, other);
    assert_eq!(frame.finished_rows()[3].get_content()[2].style, StyleSheet::new());
    // the selected day has no style of its own, and carries the cursor
    assert_eq!(frame.finished_rows()[7].get_content()[4].style, StyleSheet::new());
    assert_eq!(frame.cursor_position(), Position { row: 7, col: 5 });
    assert_eq!(frame.finished_rows()[7].get_content()[6].style, other);
}
