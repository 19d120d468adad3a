use fleeting::eventually::{attempt_failed, eventually, Eventually, EventuallyResult, Waiter, MINUTE, SECOND};

fn finished<T, E>(next: Eventually<T, E>) -> Result<T, E> {
    match next {
        Eventually::Finished(result) => result,
        Eventually::Retry { .. } => panic!("expected the wait to end"),
    }
}

#[test]
fn durations_are_in_milliseconds() {
    assert_eq!(SECOND, 1000);
    assert_eq!(MINUTE, 60 * SECOND);
}

#[test]
fn first_attempt_has_number_one() {
    let waiter = Waiter::new(SECOND, MINUTE, 5000);
    assert_eq!(waiter, Waiter { sleep_between: 1000, total_timeout: 60000, started: 5000, attempt_no: 1 });
}

#[test]
fn success_ends_the_wait_with_its_value() {
    let mut waiter = Waiter::new(SECOND, MINUTE, 0);
    let next = eventually::<u32, &str>(&mut waiter, 10, EventuallyResult::Success(42));
    assert_eq!(finished(next), Ok(42));
    assert_eq!(waiter.attempt_no, 1);
}

#[test]
fn success_ends_the_wait_even_after_the_deadline() {
    let mut waiter = Waiter::new(SECOND, MINUTE, 0);
    let next = eventually::<u32, &str>(&mut waiter, 10 * MINUTE, EventuallyResult::Success(1));
    assert_eq!(finished(next), Ok(1));
}

#[test]
fn permanent_failure_ends_the_wait_at_once() {
    let mut waiter = Waiter::new(SECOND, MINUTE, 0);
    let next = eventually::<u32, &str>(&mut waiter, 10, EventuallyResult::PermErr("fatal"));
    assert_eq!(finished(next), Err("fatal"));
    assert_eq!(waiter.attempt_no, 1);
}

#[test]
fn temporary_failure_is_retried_after_the_pause() {
    let mut waiter = Waiter::new(SECOND, MINUTE, 5000);
    match eventually::<u32, &str>(&mut waiter, 5200, EventuallyResult::TempErr("refused")) {
        Eventually::Retry { sleep, attempt_no } => {
            assert_eq!(sleep, 1000);
            assert_eq!(attempt_no, 2);
        }
        Eventually::Finished(_) => panic!("expected a retry"),
    }
    assert_eq!(waiter.attempt_no, 2);
    match eventually::<u32, &str>(&mut waiter, 6400, EventuallyResult::TempErr("refused")) {
        Eventually::Retry { sleep, attempt_no } => {
            assert_eq!(sleep, 1000);
            assert_eq!(attempt_no, 3);
        }
        Eventually::Finished(_) => panic!("expected a retry"),
    }
}

#[test]
fn retry_is_allowed_while_the_next_attempt_begins_by_the_deadline() {
    // started at 5000, deadline at 65000: a pause that ends exactly then still fits
    let mut waiter = Waiter::new(SECOND, MINUTE, 5000);
    assert!(waiter.fits(64000));
    assert!(matches!(
        eventually::<u32, &str>(&mut waiter, 64000, EventuallyResult::TempErr("late")),
        Eventually::Retry { sleep: 1000, attempt_no: 2 }
    ));
}

#[test]
fn last_error_is_returned_once_no_attempt_fits() {
    let mut waiter = Waiter::new(SECOND, MINUTE, 5000);
    assert!(!waiter.fits(64001));
    let next = eventually::<u32, &str>(&mut waiter, 64001, EventuallyResult::TempErr("too late"));
    assert_eq!(finished(next), Err("too late"));
    assert_eq!(waiter.attempt_no, 1);
}

#[test]
fn pause_longer_than_the_timeout_never_fits() {
    let mut waiter = Waiter::new(2000, 1000, 0);
    let next = eventually::<u32, &str>(&mut waiter, 0, EventuallyResult::TempErr("no time"));
    assert_eq!(finished(next), Err("no time"));
}

#[test]
fn clock_that_went_back_counts_as_no_time_passed() {
    let mut waiter = Waiter::new(SECOND, MINUTE, 5000);
    assert!(waiter.fits(100));
    assert!(matches!(
        eventually::<u32, &str>(&mut waiter, 100, EventuallyResult::TempErr("early")),
        Eventually::Retry { sleep: 1000, attempt_no: 2 }
    ));
}

#[test]
fn times_near_the_largest_number_do_not_overflow() {
    let mut waiter = Waiter::new(u64::MAX, u64::MAX, 0);
    assert!(waiter.fits(0));
    assert!(!waiter.fits(1));
    waiter.attempt_no = u64::MAX;
    assert!(matches!(
        eventually::<u32, &str>(&mut waiter, 0, EventuallyResult::TempErr("x")),
        Eventually::Retry { sleep: u64::MAX, attempt_no: u64::MAX }
    ));
}

#[test]
fn a_wait_of_one_minute_with_failures_every_second_gives_up_after_sixty_retries() {
    let mut waiter = Waiter::new(SECOND, MINUTE, 0);
    let mut now = 0u64;
    let mut retries = 0u32;
    loop {
        match eventually::<(), &str>(&mut waiter, now, EventuallyResult::TempErr("refused")) {
            Eventually::Retry { sleep, attempt_no } => {
                retries += 1;
                assert_eq!(attempt_no, retries as u64 + 1);
                now += sleep;
                assert!(now <= MINUTE);
            }
            Eventually::Finished(result) => {
                assert_eq!(result, Err("refused"));
                break;
            }
        }
    }
    assert_eq!(retries, 60);
    assert_eq!(now, MINUTE);
}

#[test]
fn failed_attempt_line() {
    assert_eq!(attempt_failed(3, "connection refused"), "Attempt 3 failed: connection refused");
}
