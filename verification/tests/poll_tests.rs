use bacnet_device::accessors::callback_get_real;
use bacnet_device::adapters::get_extension;
use bacnet_device::database::setup_database;
use bacnet_device::poll::{check_end_loop, database_loop};
use bacnet_device::text::str_equals;
use bacnet_device::Real;

fn present_value_thousandths(database: &bacnet_device::store::ObjectStore) -> i64 {
    let mut value = Real { thousandths: 0 };
    let ok = callback_get_real(389001, 0, 0, 85, &mut value, false, 0, database);
    assert!(ok);
    value.thousandths
}

#[test]
fn mutator_fires_after_interval_and_increments() {
    let mut database = setup_database();
    let mut timer: u64 = 100;
    assert_eq!(present_value_thousandths(&database), 1001);
    let fired = database_loop(&mut database, &mut timer, 105);
    assert!(fired);
    assert_eq!(timer, 105);
    assert_eq!(present_value_thousandths(&database), 2002);
}

#[test]
fn mutator_within_window_changes_value_once() {
    let mut database = setup_database();
    let mut timer: u64 = 0;
    assert!(database_loop(&mut database, &mut timer, 5));
    assert_eq!(present_value_thousandths(&database), 2002);
    // A second call within the five-second window must not fire again.
    assert!(!database_loop(&mut database, &mut timer, 9));
    assert_eq!(timer, 5);
    assert_eq!(present_value_thousandths(&database), 2002);
}

#[test]
fn mutator_two_firings_reach_three_thousandths() {
    let mut database = setup_database();
    let mut timer: u64 = 0;
    assert!(database_loop(&mut database, &mut timer, 5));
    assert_eq!(present_value_thousandths(&database), 2002);
    assert!(database_loop(&mut database, &mut timer, 10));
    assert_eq!(present_value_thousandths(&database), 3003);
}

#[test]
fn mutator_does_not_fire_early_or_on_clock_regression() {
    let mut database = setup_database();
    let mut timer: u64 = 100;
    assert!(!database_loop(&mut database, &mut timer, 104));
    assert!(!database_loop(&mut database, &mut timer, 50));
    assert_eq!(timer, 100);
    assert_eq!(present_value_thousandths(&database), 1001);
}

#[test]
fn cancellation_token_is_q_either_case() {
    assert!(check_end_loop("q\r\n"));
    assert!(check_end_loop("Q\r\n"));
    assert!(check_end_loop("q\n"));
    assert!(check_end_loop("Q\n"));
    assert!(check_end_loop("q"));
    assert!(check_end_loop("Q"));
    assert!(!check_end_loop("quit\r\n"));
    assert!(!check_end_loop("x\r\n"));
    assert!(!check_end_loop("x\n"));
    assert!(!check_end_loop("qq\n"));
    assert!(!check_end_loop("\n"));
    assert!(!check_end_loop(""));
}

#[test]
fn engine_extension_follows_operating_system() {
    assert_eq!(get_extension("windows"), ".dll");
    assert_eq!(get_extension("linux"), ".so");
    assert_eq!(get_extension("macos"), ".so");
}

#[test]
fn str_equals_compares_characters() {
    assert!(str_equals("", ""));
    assert!(str_equals("abc", "abc"));
    assert!(!str_equals("abc", "abd"));
    assert!(!str_equals("abc", "abcd"));
}

#[test]
fn real_saturating_add_clamps_at_extremes() {
    let max = Real { thousandths: i64::MAX };
    assert_eq!(max.saturating_add_thousandths(1001).thousandths, i64::MAX);
    let min = Real { thousandths: i64::MIN };
    assert_eq!(min.saturating_add_thousandths(-1).thousandths, i64::MIN);
    let plain = Real { thousandths: 1001 };
    assert_eq!(plain.saturating_add_thousandths(1001).thousandths, 2002);
    assert_eq!(Real::from_thousandths(-7).thousandths, -7);
}
