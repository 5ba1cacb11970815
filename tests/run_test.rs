use missile_sim::run::run_until_done;

fn countdown(left: u32, expected_steps: u64) -> (u32, u64, bool) {
    run_until_done(left, |s: &u32| *s == 0, |s: u32| s.saturating_sub(1), expected_steps)
}

#[test]
fn stops_when_finished() {
    assert_eq!(countdown(5, 1000), (0, 5, true));
}

#[test]
fn already_finished_takes_no_step() {
    assert_eq!(countdown(0, 10), (0, 0, true));
}

#[test]
fn stops_at_the_first_finished_state() {
    // Finished on every multiple of 4, starting from 1: the first is 4.
    let r = run_until_done(1u64, |s: &u64| *s % 4 == 0, |s: u64| s + 1, 100);
    assert_eq!(r, (4, 3, true));
}

#[test]
fn a_run_that_never_ends_is_cut_after_one_extra_step() {
    let r = run_until_done(0u64, |_: &u64| false, |s: u64| s + 1, 2000);
    assert_eq!(r, (2001, 2001, false));
}

#[test]
fn finishing_on_the_last_allowed_step_counts_as_finished() {
    assert_eq!(countdown(11, 10), (0, 11, true));
    assert_eq!(countdown(12, 10), (1, 11, false));
}

#[test]
fn zero_expected_steps_allows_one() {
    let r = run_until_done(0u64, |_: &u64| false, |s: u64| s + 1, 0);
    assert_eq!(r, (1, 1, false));
}
