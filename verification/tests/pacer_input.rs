//! Tests for the frame pacer, the input aggregator and the error taxonomy.

use session_core::clock::Clock;
use session_core::error::{Error, PostError};
use session_core::key_state::{DirVec, Direction, KeyState};

#[test]
fn pacer_starts_with_zero_delta() {
    let c = Clock::new(1000);
    assert_eq!(c.get_last_delta(), 0);
}

#[test]
fn pacer_records_real_elapsed_time() {
    let mut c = Clock::new(1000);
    c.record_tick(1016);
    assert_eq!(c.get_last_delta(), 16);
    c.record_tick(1050);
    assert_eq!(c.get_last_delta(), 34);
}

#[test]
fn pacer_wait_is_remainder_of_target() {
    let mut c = Clock::new(0);
    c.record_tick(100);
    // 6 ns into a 16 ns tick: 10 ns left to wait.
    assert_eq!(c.wait_needed(16, 106), 10);
    // already past the boundary: no wait.
    assert_eq!(c.wait_needed(16, 130), 0);
}

#[test]
fn pacer_blocks_until_target_elapsed() {
    // Artificially controlled execution times: however quickly each tick
    // runs, waiting out `wait_needed` makes the observed delta reach the
    // target.
    let mut c = Clock::new(0);
    let target = 16u64;
    let mut now = 0u64;
    for work in [1u64, 3, 20, 0, 16] {
        now += work; // the tick's own execution time
        now += c.wait_needed(target, now); // the host honours the wait
        c.record_tick(now);
        assert!(c.get_last_delta() >= target);
    }
}

#[test]
fn dir_vec_components_stay_in_unit_grid() {
    // All 16 combinations of held keys give a vector in {-1,0,1}^2.
    for bits in 0u8..16 {
        let mut ks = KeyState::new();
        ks.set(Direction::Forward, bits & 1 != 0);
        ks.set(Direction::Back, bits & 2 != 0);
        ks.set(Direction::Left, bits & 4 != 0);
        ks.set(Direction::Right, bits & 8 != 0);
        let v = ks.dir_vec();
        assert!((-1..=1).contains(&v.x));
        assert!((-1..=1).contains(&v.y));
    }
}

#[test]
fn dir_vec_sums_right_minus_left_and_forward_minus_back() {
    let mut ks = KeyState::new();
    ks.set(Direction::Right, true);
    ks.set(Direction::Forward, true);
    assert_eq!(ks.dir_vec(), DirVec { x: 1, y: 1 });
    ks.set(Direction::Forward, false);
    ks.set(Direction::Back, true);
    assert_eq!(ks.dir_vec(), DirVec { x: 1, y: -1 });
}

#[test]
fn opposing_held_keys_cancel() {
    let mut ks = KeyState::new();
    ks.set(Direction::Left, true);
    ks.set(Direction::Right, true);
    ks.set(Direction::Forward, true);
    ks.set(Direction::Back, true);
    assert_eq!(ks.dir_vec(), DirVec { x: 0, y: 0 });
}

#[test]
fn press_release_returns_vector_to_prior_value() {
    let mut ks = KeyState::new();
    ks.set(Direction::Forward, true);
    let before = ks.dir_vec();
    ks.set(Direction::Left, true);
    ks.set(Direction::Left, false);
    assert_eq!(ks.dir_vec(), before);
}

#[test]
fn repeated_set_has_no_further_effect() {
    let mut a = KeyState::new();
    a.set(Direction::Back, true);
    let mut b = a;
    b.set(Direction::Back, true);
    assert_eq!(a, b);
}

#[test]
fn transport_fault_wraps_into_network_error() {
    let e = Error::from(PostError::Disconnected);
    assert_eq!(e, Error::Network(PostError::Disconnected));
}

#[test]
fn user_messages_distinguish_failure_kinds() {
    assert_eq!(Error::ServerShutdown.user_message(), "you were disconnected");
    assert_eq!(Error::ServerTimeout.user_message(), "the connection is gone");
    assert_eq!(
        Error::Other(String::from("odd state")).user_message(),
        "odd state"
    );
    assert_ne!(
        Error::ServerShutdown.user_message(),
        Error::ServerTimeout.user_message()
    );
}
