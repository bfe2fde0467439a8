use button_menu::buttons::{Button, PinState, DEBOUNCE_THRESHOLD};

fn poll_many<P>(button: &mut Button<P>, sample: bool, times: usize) -> Vec<PinState> {
    let mut reports = Vec::new();
    for _ in 0..times {
        reports.push(button.polling(sample));
    }
    reports
}

fn edges(reports: &[PinState]) -> usize {
    reports.iter().filter(|report| **report != PinState::Nothing).count()
}

#[test]
fn threshold_is_thirty() {
    assert_eq!(DEBOUNCE_THRESHOLD, 30);
}

#[test]
fn new_button_is_settled_high() {
    let mut button = Button::new(());
    assert_eq!(button.polling(true), PinState::Nothing);
    let reports = poll_many(&mut button, true, 100);
    assert_eq!(edges(&reports), 0);
}

#[test]
fn new_button_keeps_its_line() {
    let button = Button::new(17u8);
    assert_eq!(*button.pin(), 17u8);
}

#[test]
fn press_is_reported_at_the_thirtieth_low_sample() {
    let mut button = Button::new(());
    let reports = poll_many(&mut button, false, 29);
    assert_eq!(edges(&reports), 0);
    assert_eq!(button.polling(false), PinState::PinUp);
}

#[test]
fn press_is_reported_once() {
    let mut button = Button::new(());
    let reports = poll_many(&mut button, false, 300);
    assert_eq!(edges(&reports), 1);
    assert_eq!(reports[29], PinState::PinUp);
}

#[test]
fn release_is_reported_at_the_thirtieth_high_sample() {
    let mut button = Button::new(());
    poll_many(&mut button, false, 30);
    let reports = poll_many(&mut button, true, 29);
    assert_eq!(edges(&reports), 0);
    assert_eq!(button.polling(true), PinState::PinDown);
    let reports = poll_many(&mut button, true, 100);
    assert_eq!(edges(&reports), 0);
}

#[test]
fn settled_low_stays_quiet_on_low_samples() {
    let mut button = Button::new(());
    poll_many(&mut button, false, 30);
    let reports = poll_many(&mut button, false, 1000);
    assert_eq!(edges(&reports), 0);
}

#[test]
fn bounce_shorter_than_threshold_is_rejected() {
    let mut button = Button::new(());
    let mut reports = poll_many(&mut button, false, 29);
    reports.push(button.polling(true));
    reports.extend(poll_many(&mut button, false, 29));
    reports.push(button.polling(true));
    assert_eq!(reports.len(), 60);
    assert_eq!(edges(&reports), 0);
}

#[test]
fn one_agreeing_sample_restarts_the_count() {
    let mut button = Button::new(());
    poll_many(&mut button, false, 29);
    assert_eq!(button.polling(true), PinState::Nothing);
    let reports = poll_many(&mut button, false, 29);
    assert_eq!(edges(&reports), 0);
    assert_eq!(button.polling(false), PinState::PinUp);
}

#[test]
fn alternating_samples_never_settle() {
    let mut button = Button::new(());
    for round in 0..500 {
        assert_eq!(button.polling(round % 2 == 0), PinState::Nothing);
    }
}

#[test]
fn edges_match_the_runs_that_reach_the_threshold() {
    // high 5, low 30 (settle), low 10, high 12 (bounce), low 3, high 45 (settle),
    // low 29 (bounce), high 1, low 31 (settle)
    let runs: [(bool, usize); 9] = [
        (true, 5),
        (false, 30),
        (false, 10),
        (true, 12),
        (false, 3),
        (true, 45),
        (false, 29),
        (true, 1),
        (false, 31),
    ];
    let mut button = Button::new(());
    let mut reports = Vec::new();
    for (sample, times) in runs {
        reports.extend(poll_many(&mut button, sample, times));
    }
    assert_eq!(edges(&reports), 3);
    let mut expected = vec![PinState::Nothing; reports.len()];
    expected[5 + 29] = PinState::PinUp;
    expected[5 + 30 + 10 + 12 + 3 + 29] = PinState::PinDown;
    expected[5 + 30 + 10 + 12 + 3 + 45 + 29 + 1 + 29] = PinState::PinUp;
    assert_eq!(reports, expected);
}

#[test]
fn buttons_do_not_share_state() {
    let mut first = Button::new(1u8);
    let mut second = Button::new(2u8);
    poll_many(&mut first, false, 29);
    assert_eq!(second.polling(false), PinState::Nothing);
    assert_eq!(first.polling(false), PinState::PinUp);
}

#[test]
fn level_follows_the_settles() {
    let mut button = Button::new(());
    assert!(button.level());
    poll_many(&mut button, false, 29);
    assert!(button.level());
    button.polling(false);
    assert!(!button.level());
    poll_many(&mut button, true, 29);
    assert!(!button.level());
    button.polling(true);
    assert!(button.level());
}

#[test]
fn counter_counts_opposite_samples_and_clears() {
    let mut button = Button::new(());
    assert_eq!(button.counter(), 0);
    for seen in 1..30u8 {
        button.polling(false);
        assert_eq!(button.counter(), seen);
    }
    button.polling(true);
    assert_eq!(button.counter(), 0);
    poll_many(&mut button, false, 30);
    assert_eq!(button.counter(), 0);
    button.polling(true);
    assert_eq!(button.counter(), 1);
    button.polling(false);
    assert_eq!(button.counter(), 0);
}

#[test]
fn counter_stays_below_the_threshold() {
    let mut button = Button::new(());
    let mut seed: u32 = 12345;
    for _ in 0..20000 {
        seed = seed.wrapping_mul(1664525).wrapping_add(1013904223);
        let sample = (seed >> 16) % 40 != 0 && (seed >> 8) % 2000 < 1000 + (seed >> 31) * 900;
        button.polling(sample);
        assert!(button.counter() < DEBOUNCE_THRESHOLD);
    }
}
