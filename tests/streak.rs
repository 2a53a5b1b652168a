use areuok::models::SigninData;
use areuok::streak::{calculate_signin_data, should_continue_streak};

fn record(last: &str, streak: i32, history: &[&str]) -> SigninData {
    SigninData {
        name: "amy".to_string(),
        last_signin_date: last.to_string(),
        streak,
        signin_history: history.iter().map(|s| s.to_string()).collect(),
    }
}

#[test]
fn first_checkin_starts_streak() {
    let r = calculate_signin_data(&None, "amy", "2024-01-01").unwrap();
    assert_eq!(r.name, "amy");
    assert_eq!(r.last_signin_date, "2024-01-01");
    assert_eq!(r.streak, 1);
    assert_eq!(r.signin_history, vec!["2024-01-01".to_string()]);
}

#[test]
fn three_consecutive_days_count_up() {
    let d1 = calculate_signin_data(&None, "amy", "2024-01-01").unwrap();
    assert_eq!(d1.streak, 1);
    let d2 = calculate_signin_data(&Some(d1), "amy", "2024-01-02").unwrap();
    assert_eq!(d2.streak, 2);
    let d3 = calculate_signin_data(&Some(d2), "amy", "2024-01-03").unwrap();
    assert_eq!(d3.streak, 3);
    assert_eq!(d3.last_signin_date, "2024-01-03");
    assert_eq!(d3.signin_history, vec!["2024-01-01", "2024-01-02", "2024-01-03"]);
}

#[test]
fn gap_resets_streak_and_history() {
    let d1 = calculate_signin_data(&None, "amy", "2024-01-01").unwrap();
    let d2 = calculate_signin_data(&Some(d1), "amy", "2024-01-05").unwrap();
    assert_eq!(d2.streak, 1);
    assert_eq!(d2.signin_history, vec!["2024-01-05".to_string()]);
}

#[test]
fn same_day_checkin_is_unchanged() {
    let saved = record("2024-03-10", 4, &["2024-03-07", "2024-03-08", "2024-03-09", "2024-03-10"]);
    let r = calculate_signin_data(&Some(saved.clone()), "bob", "2024-03-10").unwrap();
    assert_eq!(r.name, "amy");
    assert_eq!(r.streak, 4);
    assert_eq!(r.last_signin_date, saved.last_signin_date);
    assert_eq!(r.signin_history, saved.signin_history);
}

#[test]
fn continuation_across_month_and_leap_day() {
    let saved = record("2024-02-29", 7, &["2024-02-29"]);
    let r = calculate_signin_data(&Some(saved), "amy", "2024-03-01").unwrap();
    assert_eq!(r.streak, 8);
    assert_eq!(r.signin_history, vec!["2024-02-29", "2024-03-01"]);
}

#[test]
fn continuation_across_year_end() {
    let saved = record("2023-12-31", 2, &["2023-12-30", "2023-12-31"]);
    let r = calculate_signin_data(&Some(saved), "amy", "2024-01-01").unwrap();
    assert_eq!(r.streak, 3);
}

#[test]
fn clock_going_back_resets() {
    let saved = record("2024-05-10", 5, &["2024-05-10"]);
    let r = calculate_signin_data(&Some(saved), "amy", "2024-05-09").unwrap();
    assert_eq!(r.streak, 1);
    assert_eq!(r.signin_history, vec!["2024-05-09".to_string()]);
}

#[test]
fn unreadable_last_date_resets() {
    let saved = record("yesterday", 9, &["yesterday"]);
    let r = calculate_signin_data(&Some(saved), "amy", "2024-05-09").unwrap();
    assert_eq!(r.streak, 1);
    assert_eq!(r.signin_history, vec!["2024-05-09".to_string()]);
}

#[test]
fn continuation_keeps_day_already_in_history_once() {
    let saved = record("2024-06-01", 3, &["2024-06-02", "2024-06-01"]);
    let r = calculate_signin_data(&Some(saved), "amy", "2024-06-02").unwrap();
    assert_eq!(r.streak, 4);
    assert_eq!(r.signin_history, vec!["2024-06-02", "2024-06-01"]);
}

#[test]
fn streak_at_integer_limit_is_an_error() {
    let saved = record("2024-06-01", i32::MAX, &["2024-06-01"]);
    let r = calculate_signin_data(&Some(saved), "amy", "2024-06-02");
    assert_eq!(r.unwrap_err(), "Streak cannot grow any longer");
}

#[test]
fn streak_at_integer_limit_same_day_is_fine() {
    let saved = record("2024-06-01", i32::MAX, &["2024-06-01"]);
    let r = calculate_signin_data(&Some(saved), "amy", "2024-06-01").unwrap();
    assert_eq!(r.streak, i32::MAX);
}

#[test]
fn continue_streak_needs_previous_day() {
    let saved = Some(record("2024-01-01", 1, &["2024-01-01"]));
    assert!(should_continue_streak(&saved, "2024-01-02"));
    assert!(!should_continue_streak(&saved, "2024-01-03"));
    assert!(!should_continue_streak(&saved, "2024-01-01"));
    assert!(!should_continue_streak(&saved, "not a date"));
    assert!(!should_continue_streak(&None, "2024-01-02"));
}
