use chrono::NaiveDateTime;
use neos::app::App;
use neos::channel::Channel;
use neos::entry::LogEntry;
use neos::outside::Captured;
use neos::rate::rates;
use neos::rate::read_clock_field;
use neos::rate::read_entry;
use neos::rate::read_time;
use neos::rate::read_timed;
use neos::rate::window_sum;
use neos::rate::within_window;
use neos::rate::Reading;
use neos::rate::TimeOfDay;

fn utc(text: &str) -> i64 {
    NaiveDateTime::parse_from_str(text, "%Y/%m/%d %H:%M:%S").unwrap().and_utc().timestamp()
}

fn gain(app: &mut App, timestamp: &str) {
    app.buffers.append(
        Channel::System,
        LogEntry::new("経験値が 30000 上がりました。", "#000000", timestamp),
    );
}

fn clock_groups(hour: &str, minute: &str, second: &str) -> Captured {
    Captured::Groups(vec![
        Some(format!("[{}時 {}分 {}秒]", hour, minute, second)),
        Some(hour.to_string()),
        Some(minute.to_string()),
        Some(second.to_string()),
    ])
}

#[test]
fn calc_exp() {
    let mut app = App::new(0);
    gain(&mut app, "[ 0時  0分  0秒]");
    gain(&mut app, "[ 0時  0分  1秒]");
    gain(&mut app, "[ 0時  0分  2秒]");
    gain(&mut app, "[ 0時  0分  3秒]");
    let now = utc("2000/01/01 15:00:3");
    let exp = app.calc_exp(now);
    assert_eq!(exp, Some((40000, 40000 * 60, 40000 * 60 * 60)));

    let mut app = App::new(0);
    gain(&mut app, "[ 0時  0分  0秒]");
    gain(&mut app, "[ 0時  0分  0秒]");
    gain(&mut app, "[ 0時  0分  1秒]");
    gain(&mut app, "[ 0時  0分  1秒]");
    gain(&mut app, "[ 0時  0分  2秒]");
    gain(&mut app, "[ 0時  0分  2秒]");
    gain(&mut app, "[ 0時  0分  3秒]");
    gain(&mut app, "[ 0時  0分  3秒]");
    let now = utc("2000/01/01 15:00:3");
    let exp = app.calc_exp(now);
    assert_eq!(exp, Some((240000 / 3, 240000 / 3 * 60, 240000 / 3 * 60 * 60)));

    let mut app = App::new(0);
    gain(&mut app, "[ 0時  0分  0秒]");
    gain(&mut app, "[ 0時  0分  3秒]");
    let now = utc("2000/01/01 15:00:3");
    let exp = app.calc_exp(now);
    assert_eq!(exp, Some((20000, 20000 * 60, 20000 * 60 * 60)));

    let mut app = App::new(0);
    gain(&mut app, "[ 0時  0分  0秒]");
    gain(&mut app, "[ 0時  0分  1秒]");
    gain(&mut app, "[ 0時  0分  2秒]");
    gain(&mut app, "[ 0時  0分  3秒]");
    gain(&mut app, "[ 0時  0分  4秒]");
    let now = utc("2000/01/01 15:00:4");
    let exp = app.calc_exp(now);
    assert_eq!(exp, Some((40000, 40000 * 60, 40000 * 60 * 60)));

    let mut app = App::new(0);
    gain(&mut app, "[23時 59分 57秒]");
    gain(&mut app, "[23時 59分 58秒]");
    gain(&mut app, "[23時 59分 59秒]");
    gain(&mut app, "[ 0時  0分  0秒]");
    gain(&mut app, "[ 0時  0分  1秒]");
    let now = utc("2000/01/01 15:00:1");
    let exp = app.calc_exp(now);
    assert_eq!(exp, Some((40000, 40000 * 60, 40000 * 60 * 60)));
}

#[test]
fn rate_of_two_gains_in_window() {
    let mut app = App::new(0);
    gain(&mut app, "[ 0時  0分  0秒]");
    gain(&mut app, "[ 0時  0分  3秒]");
    assert_eq!(window_sum(&app.buffers, 3), Some(60000));
    assert_eq!(app.calc_exp(utc("2000/01/01 15:00:03")), Some((20000, 1_200_000, 72_000_000)));
}

#[test]
fn rate_across_midnight() {
    let mut app = App::new(0);
    gain(&mut app, "[23時 59分 57秒]");
    gain(&mut app, "[23時 59分 58秒]");
    gain(&mut app, "[23時 59分 59秒]");
    gain(&mut app, "[ 0時  0分  0秒]");
    gain(&mut app, "[ 0時  0分  1秒]");
    assert_eq!(window_sum(&app.buffers, 1), Some(120000));
    assert_eq!(window_sum(&app.buffers, 2), Some(90000));
    assert_eq!(window_sum(&app.buffers, 3), Some(150000));
    assert_eq!(window_sum(&app.buffers, 4), Some(30000));
}

#[test]
fn rate_with_nothing_stored() {
    let app = App::new(0);
    assert_eq!(app.calc_exp(utc("2024/04/20 03:00:00")), Some((0, 0, 0)));
}

#[test]
fn rate_outside_the_calendar() {
    let mut app = App::new(0);
    gain(&mut app, "[ 0時  0分  0秒]");
    assert_eq!(app.calc_exp(i64::MAX), None);
    assert_eq!(app.calc_exp(i64::MIN), None);
}

#[test]
fn rate_passes_over_other_entries() {
    let mut app = App::new(0);
    gain(&mut app, "[12時  0分  0秒]");
    app.buffers.append(Channel::System, LogEntry::new("プラバ防衛戦が始まりました。", "#ff64ff", "[12時  0分  1秒]"));
    app.buffers.append(Channel::System, LogEntry::new("経験値が 30000 上がりました。", "#ff64ff", "no time"));
    app.buffers.append(Channel::Public, LogEntry::new("経験値が 99 上がりました。", "#ffffff", "[12時  0分  1秒]"));
    assert_eq!(window_sum(&app.buffers, 12 * 3600 + 1), Some(30000));
}

#[test]
fn rate_stops_at_first_entry_before_window() {
    let mut app = App::new(0);
    gain(&mut app, "[12時  0分  5秒]");
    gain(&mut app, "[12時  0分  0秒]");
    gain(&mut app, "[12時  0分  5秒]");
    assert_eq!(window_sum(&app.buffers, 12 * 3600 + 5), Some(30000));
}

#[test]
fn rate_fails_on_entry_that_cannot_be_read() {
    let mut app = App::new(0);
    gain(&mut app, "[24時  0分  0秒]");
    assert_eq!(window_sum(&app.buffers, 0), None);
    assert_eq!(app.calc_exp(utc("2000/01/01 15:00:00")), None);

    let mut app = App::new(0);
    app.buffers.append(
        Channel::System,
        LogEntry::new("経験値が 9223372036854775808 上がりました。", "#ff64ff", "[ 1時  0分  0秒]"),
    );
    assert_eq!(window_sum(&app.buffers, 3600), None);

    let mut app = App::new(0);
    gain(&mut app, "[24時  0分  0秒]");
    gain(&mut app, "[ 1時  0分  0秒]");
    gain(&mut app, "[ 2時  0分  0秒]");
    assert_eq!(window_sum(&app.buffers, 2 * 3600), Some(30000));
}

#[test]
fn rate_fails_where_sum_overflows() {
    let mut app = App::new(0);
    for _ in 0..2 {
        app.buffers.append(
            Channel::System,
            LogEntry::new("経験値が 9223372036854775807 上がりました。", "#ff64ff", "[ 1時  0分  0秒]"),
        );
    }
    assert_eq!(window_sum(&app.buffers, 3600), None);
}

#[test]
fn rates_scale_by_sixty() {
    assert_eq!(rates(0), Some((0, 0, 0)));
    assert_eq!(rates(2), Some((0, 0, 0)));
    assert_eq!(rates(3), Some((1, 60, 3600)));
    assert_eq!(rates(120000), Some((40000, 2_400_000, 144_000_000)));
    assert_eq!(rates(100), Some((33, 1980, 118800)));
    assert_eq!(rates(-1), None);
    let most: i64 = i64::MAX / 3600;
    assert_eq!(rates(most * 3 + 2), Some((most, most * 60, most * 3600)));
    assert_eq!(rates(most * 3 + 3), None);
    assert_eq!(rates(i64::MAX), None);
}

#[test]
fn window_bounds() {
    let at = |hour: u32, minute: u32, second: u32| TimeOfDay { hour, minute, second };
    assert!(within_window(10, at(0, 0, 7)));
    assert!(!within_window(10, at(0, 0, 6)));
    assert!(within_window(10, at(0, 0, 10)));
    assert!(within_window(10, at(5, 0, 0)));
    assert!(within_window(2, at(23, 59, 59)));
    assert!(!within_window(2, at(23, 59, 58)));
    assert!(within_window(3, at(23, 59, 59)));
    assert!(within_window(0, at(22, 0, 0)));
    assert!(within_window(62, at(0, 0, 60)));
    assert!(!within_window(63, at(0, 0, 60)));
}

#[test]
fn clock_fields() {
    assert_eq!(read_clock_field("0", 23), Some(0));
    assert_eq!(read_clock_field("7", 23), Some(7));
    assert_eq!(read_clock_field("07", 23), Some(7));
    assert_eq!(read_clock_field("23", 23), Some(23));
    assert_eq!(read_clock_field("24", 23), None);
    assert_eq!(read_clock_field("007", 23), None);
    assert_eq!(read_clock_field("", 23), None);
    assert_eq!(read_clock_field("１", 23), None);
    assert_eq!(read_time("23", "59", "60"), Some(TimeOfDay { hour: 23, minute: 59, second: 60 }));
    assert_eq!(read_time("23", "60", "0"), None);
    assert_eq!(read_time("1", "2", "61"), None);
    assert_eq!(read_time("1", "2", "3"), Some(TimeOfDay { hour: 1, minute: 2, second: 3 }));
}

#[test]
fn readings_from_given_captures() {
    assert_eq!(read_timed("30000", &clock_groups("0", "0", "3"), 3), Reading::Gain(30000));
    assert_eq!(read_timed("30000", &clock_groups("0", "0", "3"), 7), Reading::Stop);
    assert_eq!(read_timed("30000", &clock_groups("0", "0", "3"), 6), Reading::Gain(30000));
    assert_eq!(read_timed("x", &clock_groups("0", "0", "3"), 3), Reading::Broken);
    assert_eq!(read_timed("x", &clock_groups("0", "0", "3"), 7), Reading::Stop);
    assert_eq!(read_timed("1", &clock_groups("0", "0", "99"), 3), Reading::Broken);
    assert_eq!(read_timed("1", &Captured::NoMatch, 3), Reading::Skip);
    assert_eq!(read_timed("1", &Captured::Rejected, 3), Reading::Skip);
    assert_eq!(read_timed("1", &Captured::Groups(vec![Some("a".to_string())]), 3), Reading::Skip);
    assert_eq!(
        read_timed(
            "1",
            &Captured::Groups(vec![Some("a".to_string()), Some("1".to_string()), None, Some("1".to_string())]),
            3
        ),
        Reading::Skip
    );
}

#[test]
fn readings_of_entries() {
    let entry = LogEntry::new("経験値が 30000 上がりました。", "#ff64ff", "[ 0時  0分  3秒]");
    assert_eq!(read_entry(&entry, 3), Reading::Gain(30000));
    assert_eq!(read_entry(&entry, 7), Reading::Stop);
    let entry = LogEntry::new("ルーン経験値が 12 上がりました。(+3)", "#ff64ff", "x [12時 34分 56秒] y");
    assert_eq!(read_entry(&entry, 12 * 3600 + 34 * 60 + 56), Reading::Gain(12));
    let entry = LogEntry::new("経験値が上がりました。", "#ff64ff", "[ 0時  0分  3秒]");
    assert_eq!(read_entry(&entry, 3), Reading::Skip);
    let entry = LogEntry::new("経験値が 30000 上がりました。", "#ff64ff", "[0時0分3秒]");
    assert_eq!(read_entry(&entry, 3), Reading::Skip);
    let entry = LogEntry::new("経験値が ３ 上がりました。", "#ff64ff", "[ 0時  0分  3秒]");
    assert_eq!(read_entry(&entry, 3), Reading::Broken);
}
