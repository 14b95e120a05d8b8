//! The poll loop's decisions: the periodic mutator that drives the
//! simulated sensor, and the console cancellation check.
//!
//! The loop itself runs outside the crate; each iteration it reads the
//! wall clock and hands the seconds in here, so every decision is a
//! function of plain values.

use vstd::prelude::*;
use crate::database::{ExampleDatabaseAnalogInput, ExampleDatabaseObject, ObjectType};
use crate::fixedpoint::{spec_saturating_add, Real};
use crate::store::ObjectStore;

verus! {

/// Seconds between firings of the periodic mutator.
pub const UPDATE_INTERVAL_SECONDS: u64 = 5;

/// Whether the mutator fires: the interval has elapsed since its clock
/// was last reset. A clock reading earlier than the reset does not fire.
pub open spec fn mutator_due(last_update_seconds: u64, now_seconds: u64) -> bool {
    &&& now_seconds >= last_update_seconds
    &&& now_seconds - last_update_seconds >= UPDATE_INTERVAL_SECONDS
}

/// The store after one firing: the analog input at instance 0 has its
/// present value raised by 1.001 (the sum clamped at the representable
/// extremes); any other store is left as it is.
pub open spec fn spec_increment_analog_input(
    m: Map<(ObjectType, u32), ExampleDatabaseObject>,
) -> Map<(ObjectType, u32), ExampleDatabaseObject> {
    if m.contains_key((ObjectType::AnalogInput, 0u32)) {
        match m[(ObjectType::AnalogInput, 0u32)] {
            ExampleDatabaseObject::AnalogInput(o) => m.insert(
                (ObjectType::AnalogInput, 0u32),
                ExampleDatabaseObject::AnalogInput(
                    ExampleDatabaseAnalogInput {
                        present_value: (
                        Real {
                            thousandths: spec_saturating_add(
                                o.present_value.thousandths as int,
                                1001,
                            ) as i64,
                        }
                        ),
                        ..o
                    },
                ),
            ),
            _ => m,
        }
    } else {
        m
    }
}

/// The store one mutator call leaves behind.
pub open spec fn spec_database_loop_map(
    m: Map<(ObjectType, u32), ExampleDatabaseObject>,
    last_update_seconds: u64,
    now_seconds: u64,
) -> Map<(ObjectType, u32), ExampleDatabaseObject> {
    if mutator_due(last_update_seconds, now_seconds) {
        spec_increment_analog_input(m)
    } else {
        m
    }
}

/// The mutator clock one mutator call leaves behind.
pub open spec fn spec_database_loop_timer(last_update_seconds: u64, now_seconds: u64) -> u64 {
    if mutator_due(last_update_seconds, now_seconds) {
        now_seconds
    } else {
        last_update_seconds
    }
}

/// The periodic mutator: once the interval has elapsed, resets its clock
/// and raises the simulated sensor's present value by 1.001; otherwise
/// changes nothing. Returns whether it fired.
pub fn database_loop(
    database: &mut ObjectStore,
    update_once_a_second_timer: &mut u64,
    now_seconds: u64,
) -> (fired: bool)
    ensures
        fired == mutator_due(*old(update_once_a_second_timer), now_seconds),
        final(database)@ == spec_database_loop_map(
            old(database)@,
            *old(update_once_a_second_timer),
            now_seconds,
        ),
        *final(update_once_a_second_timer) == spec_database_loop_timer(
            *old(update_once_a_second_timer),
            now_seconds,
        ),
{
    if now_seconds >= *update_once_a_second_timer && now_seconds - *update_once_a_second_timer
        >= UPDATE_INTERVAL_SECONDS {
        *update_once_a_second_timer = now_seconds;
        match database.remove(ObjectType::AnalogInput, 0) {
            Some(ExampleDatabaseObject::AnalogInput(analog_input)) => {
                let mut analog_input = analog_input;
                analog_input.present_value = analog_input.present_value
                    .saturating_add_thousandths(1001);
                database.insert(
                    ObjectType::AnalogInput,
                    0,
                    ExampleDatabaseObject::AnalogInput(analog_input),
                );
                proof {
                    assert(database@ =~= spec_increment_analog_input(old(database)@));
                }
            },
            Some(other) => {
                database.insert(ObjectType::AnalogInput, 0, other);
                proof {
                    assert(database@ =~= spec_increment_analog_input(old(database)@));
                }
            },
            None => {
                proof {
                    assert(database@ =~= spec_increment_analog_input(old(database)@));
                }
            },
        }
        true
    } else {
        false
    }
}

/// Within one interval the mutator fires at most once: after a firing
/// resets its clock, a second call before the interval has elapsed again
/// changes neither the store nor the clock, so the sensor value moves
/// exactly once.
pub proof fn lemma_mutator_fires_once_per_window(
    m: Map<(ObjectType, u32), ExampleDatabaseObject>,
    last_update_seconds: u64,
    now1: u64,
    now2: u64,
)
    requires
        mutator_due(last_update_seconds, now1),
        now1 <= now2,
        now2 - now1 < UPDATE_INTERVAL_SECONDS,
    ensures
        spec_database_loop_map(m, last_update_seconds, now1) == spec_increment_analog_input(m),
        spec_database_loop_timer(last_update_seconds, now1) == now1,
        spec_database_loop_map(
            spec_database_loop_map(m, last_update_seconds, now1),
            spec_database_loop_timer(last_update_seconds, now1),
            now2,
        ) == spec_database_loop_map(m, last_update_seconds, now1),
        spec_database_loop_timer(spec_database_loop_timer(last_update_seconds, now1), now2)
            == now1,
{
    assert(!mutator_due(now1, now2));
}

/// A console line without its trailing line ending: one final `"\r\n"`
/// or `"\n"` is removed, whichever the console reader delivered.
pub open spec fn spec_strip_line_ending(line: Seq<char>) -> Seq<char> {
    if line.len() >= 2 && line[line.len() - 2] == '\r' && line[line.len() - 1] == '\n' {
        line.subrange(0, line.len() - 2)
    } else if line.len() >= 1 && line[line.len() - 1] == '\n' {
        line.subrange(0, line.len() - 1)
    } else {
        line
    }
}

/// Whether a console line requests shutdown: the cancellation token is
/// the letter q, either case, once the line's trailing ending is
/// stripped. Any other line is ignored.
pub fn check_end_loop(key: &str) -> (quit: bool)
    ensures
        quit == (spec_strip_line_ending(key@) == "q"@ || spec_strip_line_ending(key@) == "Q"@),
{
    let n = key.unicode_len();
    let stripped_len: usize = if n >= 2 && key.get_char(n - 2) == '\r' && key.get_char(n - 1)
        == '\n' {
        n - 2
    } else if n >= 1 && key.get_char(n - 1) == '\n' {
        n - 1
    } else {
        n
    };
    proof {
        reveal_strlit("q");
        reveal_strlit("Q");
        assert(spec_strip_line_ending(key@) =~= key@.subrange(0, stripped_len as int));
    }
    if stripped_len == 1 {
        let first = key.get_char(0);
        if first == 'q' {
            proof {
                assert(key@.subrange(0, 1) =~= "q"@);
            }
            true
        } else if first == 'Q' {
            proof {
                assert(key@.subrange(0, 1) =~= "Q"@);
            }
            true
        } else {
            proof {
                assert(key@.subrange(0, 1)[0] == first);
            }
            false
        }
    } else {
        false
    }
}

} // verus!
