use trident::rules::{EVAL_MIN_COUNT, MIN_THRESHOLD_BREACH};
use trident::threshold_examiner::{
    pump_duration, Action, Examiner, INITIAL_HUMD, MOISTURE_THRESHOLD,
};

fn run_test<T>(test: T)
where
    T: FnOnce(&mut Examiner) -> (),
{
    let test_threshold: i32 = 10;
    let mut examiner = Examiner::new(test_threshold);
    test(&mut examiner);
}

#[test]
fn test_process_humd_input() {
    let threshold: i32 = 10;
    let water_factor: f32 = 1.5;
    run_test(move |examiner: &mut Examiner| {
        examiner.set_threshold(threshold);

        assert_eq!(
            *examiner.get_threshold(),
            threshold,
            "Did not return the correct threshold"
        );

        let over_saturated_input: i32 = 12;
        let under_saturated_input: i32 = 7;

        let result = examiner.handle_humd_input(over_saturated_input);
        assert_eq!(result, Ok(0));

        let mut result = Ok(0);

        // clean up before next test
        examiner.post_water();

        // Simulate 1000 readings
        for _ in 0..EVAL_MIN_COUNT {
            result = examiner.handle_humd_input(under_saturated_input);
        }
        let water_amount =
            (*examiner.get_threshold() - *examiner.get_latest_humd()) as f32 * water_factor;
        let water_amount = water_amount as i32;
        assert_eq!(result, Ok(water_amount), "Water amount is incorrect");

        // Simulate 1 reading, which should not trigger a watering event
        examiner.post_water();
        let result = examiner.handle_humd_input(under_saturated_input);
        assert_eq!(
            result,
            Ok(0),
            "1 threshold breach should not trigger a watering event"
        );

        // Simulate 1000 oversaturated readings
        examiner.post_water();
        let mut result = Ok(0);
        for _ in 0..EVAL_MIN_COUNT {
            result = examiner.handle_humd_input(over_saturated_input);
        }
        assert_eq!(
            result,
            Ok(0),
            "Over saturated results should not have produced watering event"
        );
    })
}

#[test]
fn new_examiner_holds_its_threshold_and_the_initial_reading() {
    let examiner = Examiner::new(30);
    assert_eq!(*examiner.get_threshold(), 30);
    assert_eq!(*examiner.get_latest_humd(), 12);
    assert_eq!(INITIAL_HUMD, 12);
    assert_eq!(examiner.get_water_count(), 0);
    assert_eq!(EVAL_MIN_COUNT, 1000);
    assert_eq!(MIN_THRESHOLD_BREACH, 900);
    assert_eq!(MOISTURE_THRESHOLD, 30);
}

#[test]
fn pump_runs_only_for_a_positive_amount() {
    assert_eq!(pump_duration(4), 4);
    assert_eq!(pump_duration(1), 1);
    assert_eq!(pump_duration(i32::MAX), i32::MAX);
    assert_eq!(pump_duration(0), 0);
    assert_eq!(pump_duration(-3), 0);
    assert_eq!(pump_duration(i32::MIN), 0);
}

#[test]
fn pump_does_not_run_on_a_wet_reading_that_completes_a_dry_window() {
    let mut examiner = Examiner::with_window(10, 3, 2);
    assert_eq!(examiner.handle_humd_input(7), Ok(0));
    assert_eq!(examiner.handle_humd_input(7), Ok(0));
    let amount = examiner.handle_humd_input(11).unwrap();
    assert_eq!(amount, -1);
    assert_eq!(pump_duration(amount), 0);
    assert_eq!(examiner.get_water_count(), 0);
}

#[test]
fn threshold_reads_back_as_set() {
    let mut examiner = Examiner::new(10);
    for value in [0, 1, -1, 55, i32::MAX, i32::MIN] {
        examiner.set_threshold(value);
        assert_eq!(*examiner.get_threshold(), value);
        assert_eq!(*examiner.get_latest_humd(), 12);
        assert_eq!(examiner.get_water_count(), 0);
    }
}

#[test]
fn update_humd_overwrites_the_latest_reading() {
    let mut examiner = Examiner::new(10);
    examiner.update_humd(41);
    assert_eq!(*examiner.get_latest_humd(), 41);
    examiner.update_humd(-3);
    assert_eq!(*examiner.get_latest_humd(), -3);
    assert_eq!(*examiner.get_threshold(), 10);
}

#[test]
fn handle_humd_input_keeps_the_reading() {
    let mut examiner = Examiner::new(10);
    assert_eq!(examiner.handle_humd_input(3), Ok(0));
    assert_eq!(*examiner.get_latest_humd(), 3);
    assert_eq!(examiner.handle_humd_input(77), Ok(0));
    assert_eq!(*examiner.get_latest_humd(), 77);
}

#[test]
fn wet_readings_never_water() {
    let mut examiner = Examiner::new(10);
    for i in 0..2500 {
        let reading: i32 = 10 + (i % 7);
        assert_eq!(examiner.handle_humd_input(reading), Ok(0));
        assert_eq!(examiner.get_water_count(), 0);
    }
}

#[test]
fn full_dry_window_waters_on_its_last_reading() {
    let mut examiner = Examiner::new(10);
    for _ in 0..999 {
        assert_eq!(examiner.handle_humd_input(7), Ok(0));
        assert_eq!(examiner.get_water_count(), 0);
    }
    assert_eq!(examiner.handle_humd_input(7), Ok(4));
    assert_eq!(examiner.get_water_count(), 1);
}

#[test]
fn one_reading_short_of_a_window_never_waters() {
    let mut examiner = Examiner::new(50);
    for _ in 0..999 {
        assert_eq!(examiner.handle_humd_input(1), Ok(0));
    }
    assert_eq!(examiner.get_water_count(), 0);
}

#[test]
fn reading_after_a_watering_does_not_water_again() {
    let mut examiner = Examiner::new(10);
    let mut last = Ok(0);
    for _ in 0..1000 {
        last = examiner.handle_humd_input(7);
    }
    assert_eq!(last, Ok(4));
    assert_eq!(examiner.handle_humd_input(7), Ok(0));
    assert_eq!(examiner.get_water_count(), 1);
}

#[test]
fn second_dry_window_waters_again() {
    let mut examiner = Examiner::new(20);
    let mut answers: Vec<i32> = Vec::new();
    for _ in 0..2000 {
        answers.push(examiner.handle_humd_input(10).unwrap());
    }
    for (i, answer) in answers.iter().enumerate() {
        if i == 999 || i == 1999 {
            assert_eq!(*answer, 15);
        } else {
            assert_eq!(*answer, 0);
        }
    }
    assert_eq!(examiner.get_water_count(), 2);
}

#[test]
fn quota_of_breaches_is_enough() {
    let mut examiner = Examiner::new(10);
    for _ in 0..100 {
        assert_eq!(examiner.handle_humd_input(12), Ok(0));
    }
    for _ in 0..899 {
        assert_eq!(examiner.handle_humd_input(7), Ok(0));
    }
    assert_eq!(examiner.handle_humd_input(8), Ok(3));
    assert_eq!(examiner.get_water_count(), 1);
}

#[test]
fn one_breach_under_the_quota_is_not_enough() {
    let mut examiner = Examiner::new(10);
    for _ in 0..101 {
        assert_eq!(examiner.handle_humd_input(12), Ok(0));
    }
    for _ in 0..899 {
        assert_eq!(examiner.handle_humd_input(7), Ok(0));
    }
    assert_eq!(examiner.get_water_count(), 0);
    // The failed window has given way to a fresh one.
    for _ in 0..999 {
        assert_eq!(examiner.handle_humd_input(7), Ok(0));
    }
    assert_eq!(examiner.handle_humd_input(7), Ok(4));
}

#[test]
fn scenario_with_threshold_ten() {
    let mut examiner = Examiner::new(10);
    assert_eq!(examiner.handle_humd_input(12), Ok(0));

    // The first reading belongs to the window, so the window is complete
    // with the 999th dry reading.
    for i in 0..1000 {
        let answer = examiner.handle_humd_input(7);
        if i == 998 {
            assert_eq!(answer, Ok(4));
        } else {
            assert_eq!(answer, Ok(0));
        }
    }
    assert_eq!(examiner.get_water_count(), 1);
    assert_eq!(examiner.handle_humd_input(7), Ok(0));

    for _ in 0..1000 {
        assert_eq!(examiner.handle_humd_input(12), Ok(0));
        assert_eq!(examiner.get_water_count(), 1);
    }
}

#[test]
fn scenario_from_the_start_of_a_window() {
    let mut examiner = Examiner::new(10);
    let mut last = Ok(0);
    for _ in 0..1000 {
        last = examiner.handle_humd_input(7);
    }
    assert_eq!(last, Ok(4));
    assert_eq!(examiner.handle_humd_input(7), Ok(0));

    let mut wet = Examiner::new(10);
    for _ in 0..1000 {
        assert_eq!(wet.handle_humd_input(12), Ok(0));
    }
    assert_eq!(wet.get_water_count(), 0);
}

#[test]
fn determine_water_amount_rounds_toward_zero() {
    let mut examiner = Examiner::new(10);
    let cases: [(i32, i32, i32); 9] = [
        (10, 7, 4),
        (10, 9, 1),
        (10, 8, 3),
        (10, 10, 0),
        (10, 11, -1),
        (10, 12, -3),
        (10, 13, -4),
        (100, 0, 150),
        (0, 100, -150),
    ];
    for (threshold, reading, amount) in cases {
        examiner.set_threshold(threshold);
        examiner.update_humd(reading);
        assert_eq!(examiner.determine_water_amount(), amount);
    }
}

#[test]
fn determine_water_amount_stops_at_the_ends_of_i32() {
    let mut examiner = Examiner::new(i32::MAX);
    examiner.update_humd(i32::MIN);
    assert_eq!(examiner.determine_water_amount(), i32::MAX);
    examiner.set_threshold(i32::MIN);
    examiner.update_humd(i32::MAX);
    assert_eq!(examiner.determine_water_amount(), i32::MIN);
    examiner.set_threshold(1_431_655_765);
    examiner.update_humd(0);
    assert_eq!(examiner.determine_water_amount(), 2_147_483_647);
    examiner.set_threshold(1_431_655_764);
    assert_eq!(examiner.determine_water_amount(), 2_147_483_646);
}

#[test]
fn determine_action_is_noop_until_the_window_is_complete() {
    let mut examiner = Examiner::with_window(10, 3, 2);
    examiner.update_humd(7);
    assert_eq!(examiner.determine_action(), Action::Noop);
    assert_eq!(examiner.determine_action(), Action::Noop);
    assert_eq!(examiner.determine_action(), Action::Pump(4));
    // Deciding alone neither counts a watering nor changes the reading.
    assert_eq!(examiner.get_water_count(), 0);
    assert_eq!(*examiner.get_latest_humd(), 7);
    assert_eq!(examiner.determine_action(), Action::Noop);
}

#[test]
fn with_window_uses_the_given_window_and_quota() {
    let mut examiner = Examiner::with_window(10, 4, 3);
    assert_eq!(examiner.handle_humd_input(7), Ok(0));
    assert_eq!(examiner.handle_humd_input(12), Ok(0));
    assert_eq!(examiner.handle_humd_input(7), Ok(0));
    assert_eq!(examiner.handle_humd_input(6), Ok(6));
    assert_eq!(examiner.get_water_count(), 1);

    assert_eq!(examiner.handle_humd_input(7), Ok(0));
    assert_eq!(examiner.handle_humd_input(12), Ok(0));
    assert_eq!(examiner.handle_humd_input(12), Ok(0));
    assert_eq!(examiner.handle_humd_input(7), Ok(0));
    assert_eq!(examiner.get_water_count(), 1);
}

#[test]
fn window_of_one_waters_on_every_dry_reading() {
    let mut examiner = Examiner::with_window(10, 1, 1);
    assert_eq!(examiner.handle_humd_input(7), Ok(4));
    assert_eq!(examiner.handle_humd_input(7), Ok(4));
    assert_eq!(examiner.handle_humd_input(10), Ok(0));
    assert_eq!(examiner.handle_humd_input(12), Ok(0));
    assert_eq!(examiner.get_water_count(), 2);
}

#[test]
fn wet_reading_that_completes_a_dry_window_asks_no_water() {
    let mut examiner = Examiner::with_window(10, 4, 3);
    assert_eq!(examiner.handle_humd_input(7), Ok(0));
    assert_eq!(examiner.handle_humd_input(7), Ok(0));
    assert_eq!(examiner.handle_humd_input(7), Ok(0));
    // The quota is met, so the rules pass, but the deficit is negative:
    // no water is given and no watering is counted.
    assert_eq!(examiner.handle_humd_input(12), Ok(-3));
    assert_eq!(examiner.get_water_count(), 0);
    assert_eq!(pump_duration(-3), 0);
}

#[test]
fn wet_reading_after_a_dry_window_of_the_usual_size_is_not_counted() {
    let mut examiner = Examiner::new(10);
    for _ in 0..999 {
        assert_eq!(examiner.handle_humd_input(7), Ok(0));
    }
    assert_eq!(examiner.handle_humd_input(12), Ok(-3));
    assert_eq!(examiner.get_water_count(), 0);
    // The window is complete all the same, and the next one starts empty.
    for _ in 0..999 {
        assert_eq!(examiner.handle_humd_input(7), Ok(0));
    }
    assert_eq!(examiner.handle_humd_input(7), Ok(4));
    assert_eq!(examiner.get_water_count(), 1);
}

#[test]
fn repeated_wet_reading_never_changes_the_count() {
    let mut examiner = Examiner::new(10);
    for _ in 0..998 {
        assert_eq!(examiner.handle_humd_input(7), Ok(0));
    }
    assert_eq!(examiner.handle_humd_input(12), Ok(0));
    assert_eq!(examiner.get_water_count(), 0);
    assert_eq!(examiner.handle_humd_input(12), Ok(-3));
    assert_eq!(examiner.get_water_count(), 0);
    for _ in 0..3000 {
        let amount = examiner.handle_humd_input(12).unwrap();
        assert_eq!(pump_duration(amount), 0);
        assert_eq!(examiner.get_water_count(), 0);
    }
}

#[test]
fn reading_at_the_threshold_that_completes_a_dry_window_is_not_counted() {
    let mut examiner = Examiner::with_window(10, 3, 2);
    assert_eq!(examiner.handle_humd_input(7), Ok(0));
    assert_eq!(examiner.handle_humd_input(7), Ok(0));
    assert_eq!(examiner.handle_humd_input(10), Ok(0));
    assert_eq!(examiner.get_water_count(), 0);
}

#[test]
fn post_water_restarts_the_window() {
    let mut examiner = Examiner::with_window(10, 3, 3);
    assert_eq!(examiner.handle_humd_input(7), Ok(0));
    assert_eq!(examiner.handle_humd_input(7), Ok(0));
    examiner.post_water();
    assert_eq!(examiner.handle_humd_input(7), Ok(0));
    assert_eq!(examiner.handle_humd_input(7), Ok(0));
    assert_eq!(examiner.handle_humd_input(7), Ok(4));
    assert_eq!(*examiner.get_threshold(), 10);
}

#[test]
fn threshold_change_applies_to_the_next_reading() {
    let mut examiner = Examiner::with_window(10, 2, 2);
    assert_eq!(examiner.handle_humd_input(15), Ok(0));
    examiner.set_threshold(20);
    assert_eq!(examiner.handle_humd_input(15), Ok(0));
    assert_eq!(examiner.handle_humd_input(15), Ok(0));
    assert_eq!(examiner.handle_humd_input(16), Ok(6));
}
