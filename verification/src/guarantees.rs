//! What holds of an examiner over whole runs of readings, proved from the
//! state functions that the examiner's own contracts are written in.

use vstd::prelude::*;
use crate::rules::{MoistureState, RuleState};
use crate::threshold_examiner::{
    all_pass_before, evaluated_rules, pump_duration_for, water_amount, ExaminerState,
};

verus! {

/// The water amount is positive exactly when the reading is below the
/// threshold: wet soil is never given a positive pump duration.
pub proof fn lemma_water_amount_positive_iff_dry(threshold: i32, reading: i32)
    ensures
        water_amount(threshold as int, reading as int) > 0 <==> threshold > reading,
        threshold == reading ==> water_amount(threshold as int, reading as int) == 0,
{
}

/// A pass over the rules stops at the first rule that fails: every rule
/// up to and including that one is evaluated, and every rule behind it is
/// left as it was.
pub proof fn lemma_pass_stops_at_first_failure(
    rules: Seq<RuleState>,
    first: int,
    threshold: i32,
    reading: i32,
)
    requires
        0 <= first < rules.len(),
        all_pass_before(rules, first, threshold as int, reading as int),
        !rules[first].passes(threshold as int, reading as int),
    ensures
        evaluated_rules(rules, threshold as int, reading as int).len() == rules.len(),
        forall|k: int|
            0 <= k <= first ==> #[trigger] evaluated_rules(
                rules,
                threshold as int,
                reading as int,
            )[k] == rules[k].evaluated(threshold as int, reading as int),
        forall|k: int|
            first < k < rules.len() ==> #[trigger] evaluated_rules(
                rules,
                threshold as int,
                reading as int,
            )[k] == rules[k],
{
}

/// A new examiner is well formed and stands at the start of a window with no
/// breach tallied, so what is proved below of such a state holds of it.
pub proof fn lemma_initial_state_starts_a_window(threshold: i32, window: i32, quota: i32)
    requires
        MoistureState::valid_config(window as int, quota as int),
    ensures
        ExaminerState::initial(threshold as int, window as int, quota as int).wf(),
        ExaminerState::initial(threshold as int, window as int, quota as int).moisture()
            == MoistureState::fresh(window as int, quota as int),
{
}

/// Handling a reading keeps the examiner well formed, keeps its threshold
/// and the configuration of its moisture rule, and never lowers the count:
/// the count goes up by one, short of its largest value, on a reading that
/// waters, and on no other.
pub proof fn lemma_handled_keeps_invariant(s: ExaminerState, reading: i32)
    requires
        s.wf(),
    ensures
        s.handled(reading as int).wf(),
        s.handled(reading as int).threshold == s.threshold,
        s.handled(reading as int).latest_humd == reading,
        s.handled(reading as int).moisture().window == s.moisture().window,
        s.handled(reading as int).moisture().quota == s.moisture().quota,
        s.handled(reading as int).water_count >= s.water_count,
        s.handled(reading as int).water_count == if s.waters(reading as int) {
            s.next_count()
        } else {
            s.water_count
        },
{
}

/// The examiner meets each reading of a sequence in the state in which
/// handling the reading before it has left it.
pub proof fn lemma_before_reading_steps(s: ExaminerState, readings: Seq<i32>, k: int)
    requires
        0 <= k < readings.len(),
    ensures
        s.before_reading(readings, 0) == s,
        s.before_reading(readings, k + 1) == s.before_reading(readings, k).handled(
            readings[k] as int,
        ),
        s.before_reading(readings, readings.len() as int) == s.handled_all(readings),
{
    assert(readings.take(k + 1).drop_last() =~= readings.take(k));
    assert(readings.take(readings.len() as int) =~= readings);
}

/// Changing the threshold changes nothing else, and the threshold read back
/// is the one that was set.
pub proof fn lemma_threshold_reads_back(s: ExaminerState, threshold: i32)
    ensures
        s.with_threshold(threshold as int).threshold == threshold,
        s.with_threshold(threshold as int).latest_humd == s.latest_humd,
        s.with_threshold(threshold as int).water_count == s.water_count,
        s.with_threshold(threshold as int).rules == s.rules,
{
}

/// A reading at or above the threshold never waters, whatever the examiner
/// has seen before: it is answered with an amount that is not positive, the
/// pump runs for no time, and the count of waterings stays as it was.
pub proof fn lemma_wet_reading_runs_no_pump(s: ExaminerState, reading: i32)
    requires
        s.wf(),
        reading >= s.threshold,
    ensures
        !s.waters(reading as int),
        s.requested(reading as int) <= 0,
        pump_duration_for(s.requested(reading as int)) == 0,
        s.handled(reading as int).water_count == s.water_count,
{
}

/// A run of readings none of which is below the threshold leaves the
/// examiner well formed, with the threshold and the count of waterings it
/// had, whatever it had seen before.
pub proof fn lemma_wet_run_keeps_count(s: ExaminerState, readings: Seq<i32>)
    requires
        s.wf(),
        forall|i: int| 0 <= i < readings.len() ==> readings[i] >= s.threshold,
    ensures
        s.handled_all(readings).wf(),
        s.handled_all(readings).threshold == s.threshold,
        s.handled_all(readings).water_count == s.water_count,
    decreases readings.len(),
{
    if readings.len() > 0 {
        lemma_wet_run_keeps_count(s, readings.drop_last());
        lemma_handled_keeps_invariant(s.handled_all(readings.drop_last()), readings.last());
    }
}

/// While every reading is at or above the threshold, the count of waterings
/// never changes and the pump never runs, from whatever state the examiner
/// starts: no reading of the run waters, each is answered with an amount
/// that is not positive, and the count is the same before each of them and
/// after the last.
pub proof fn lemma_wet_readings_keep_count(s: ExaminerState, readings: Seq<i32>)
    requires
        s.wf(),
        forall|i: int| 0 <= i < readings.len() ==> readings[i] >= s.threshold,
    ensures
        forall|k: int|
            0 <= k < readings.len() ==> {
                &&& !(#[trigger] s.before_reading(readings, k)).waters(readings[k] as int)
                &&& pump_duration_for(s.before_reading(readings, k).requested(readings[k] as int))
                    == 0
                &&& s.before_reading(readings, k).water_count == s.water_count
                &&& s.before_reading(readings, k).handled(readings[k] as int).water_count
                    == s.water_count
            },
        s.handled_all(readings).water_count == s.water_count,
{
    assert forall|k: int| 0 <= k < readings.len() implies {
        &&& !(#[trigger] s.before_reading(readings, k)).waters(readings[k] as int)
        &&& pump_duration_for(s.before_reading(readings, k).requested(readings[k] as int)) == 0
        &&& s.before_reading(readings, k).water_count == s.water_count
        &&& s.before_reading(readings, k).handled(readings[k] as int).water_count
            == s.water_count
    } by {
        lemma_wet_run_keeps_count(s, readings.take(k));
        lemma_wet_reading_runs_no_pump(s.before_reading(readings, k), readings[k]);
    }
    lemma_wet_run_keeps_count(s, readings);
}

/// After a run of readings none of which is below the threshold, an examiner
/// whose window had not reached the quota still has not reached it.
pub proof fn lemma_wet_run_state(s: ExaminerState, readings: Seq<i32>)
    requires
        s.wf(),
        s.moisture().breach_count < s.moisture().quota,
        forall|i: int| 0 <= i < readings.len() ==> readings[i] >= s.threshold,
    ensures
        s.handled_all(readings).wf(),
        s.handled_all(readings).threshold == s.threshold,
        s.handled_all(readings).moisture().quota == s.moisture().quota,
        s.handled_all(readings).moisture().breach_count < s.moisture().quota,
    decreases readings.len(),
{
    if readings.len() > 0 {
        lemma_wet_run_state(s, readings.drop_last());
        lemma_handled_keeps_invariant(s.handled_all(readings.drop_last()), readings.last());
    }
}

/// While every reading is at or above the threshold, each reading is
/// answered with zero: the moisture rule never passes. This holds from any
/// state in which the breaches of the current window are below the quota,
/// so of a new examiner and of one that has just watered. From a window
/// that already holds the quota, the reading that completes it is answered
/// with the water amount, which is then not positive.
pub proof fn lemma_wet_readings_never_water(s: ExaminerState, readings: Seq<i32>)
    requires
        s.wf(),
        s.moisture().breach_count < s.moisture().quota,
        forall|i: int| 0 <= i < readings.len() ==> readings[i] >= s.threshold,
    ensures
        forall|k: int|
            0 <= k < readings.len() ==> {
                &&& !(#[trigger] s.before_reading(readings, k)).permitted(readings[k] as int)
                &&& !s.before_reading(readings, k).waters(readings[k] as int)
                &&& s.before_reading(readings, k).requested(readings[k] as int) == 0
                &&& s.before_reading(readings, k).water_count == s.water_count
            },
        s.handled_all(readings).water_count == s.water_count,
{
    assert forall|k: int| 0 <= k < readings.len() implies {
        &&& !(#[trigger] s.before_reading(readings, k)).permitted(readings[k] as int)
        &&& !s.before_reading(readings, k).waters(readings[k] as int)
        &&& s.before_reading(readings, k).requested(readings[k] as int) == 0
        &&& s.before_reading(readings, k).water_count == s.water_count
    } by {
        lemma_wet_run_state(s, readings.take(k));
        lemma_wet_run_keeps_count(s, readings.take(k));
    }
    lemma_wet_run_keeps_count(s, readings);
}

/// After a run of readings below the threshold that starts with a window
/// and is shorter than it, every reading of the run is counted as a breach
/// and the examiner has not watered.
pub proof fn lemma_dry_run_state(s: ExaminerState, readings: Seq<i32>)
    requires
        s.wf(),
        s.moisture().eval_count == 0,
        readings.len() < s.moisture().window,
        forall|i: int| 0 <= i < readings.len() ==> readings[i] < s.threshold,
    ensures
        s.handled_all(readings).wf(),
        s.handled_all(readings).threshold == s.threshold,
        s.handled_all(readings).moisture().window == s.moisture().window,
        s.handled_all(readings).moisture().quota == s.moisture().quota,
        s.handled_all(readings).moisture().eval_count == readings.len(),
        s.handled_all(readings).moisture().breach_count == readings.len(),
        s.handled_all(readings).water_count == s.water_count,
    decreases readings.len(),
{
    if readings.len() > 0 {
        lemma_dry_run_state(s, readings.drop_last());
        lemma_handled_keeps_invariant(s.handled_all(readings.drop_last()), readings.last());
    }
}

/// A full window of readings below the threshold, met at the start of a
/// window, makes the examiner water on its last reading and on none before:
/// the readings before the last are answered with zero, and the last with
/// the water amount for it, which is positive.
pub proof fn lemma_dry_window_waters_at_its_end(s: ExaminerState, readings: Seq<i32>)
    requires
        s.wf(),
        s.moisture().eval_count == 0,
        readings.len() == s.moisture().window,
        forall|i: int| 0 <= i < readings.len() ==> readings[i] < s.threshold,
    ensures
        forall|k: int|
            0 <= k < readings.len() ==> {
                &&& (#[trigger] s.before_reading(readings, k)).waters(readings[k] as int) <==> k
                    == readings.len() - 1
                &&& s.before_reading(readings, k).requested(readings[k] as int) == if k
                    == readings.len() - 1 {
                    water_amount(s.threshold, readings[k] as int)
                } else {
                    0
                }
                &&& s.before_reading(readings, k).water_count == s.water_count
            },
        water_amount(s.threshold, readings.last() as int) > 0,
        s.handled_all(readings).water_count == s.next_count(),
{
    let last = readings.len() - 1;
    assert forall|k: int| 0 <= k < readings.len() implies {
        &&& (#[trigger] s.before_reading(readings, k)).waters(readings[k] as int) <==> k == last
        &&& s.before_reading(readings, k).requested(readings[k] as int) == if k == last {
            water_amount(s.threshold, readings[k] as int)
        } else {
            0
        }
        &&& s.before_reading(readings, k).water_count == s.water_count
    } by {
        lemma_dry_run_state(s, readings.take(k));
    }
    lemma_dry_run_state(s, readings.drop_last());
    lemma_handled_keeps_invariant(s.handled_all(readings.drop_last()), readings.last());
    lemma_water_amount_positive_iff_dry(s.threshold as i32, readings.last());
}

/// The reading that follows a watering does not itself bring another, where
/// a window holds more than one reading: the window has started afresh, and
/// one reading does not complete it. The same holds after any reading on
/// which every rule passed, counted as a watering or not.
pub proof fn lemma_no_watering_right_after_one(s: ExaminerState, reading: i32, next: i32)
    requires
        s.wf(),
        s.permitted(reading as int),
        s.moisture().window > 1,
    ensures
        !s.handled(reading as int).permitted(next as int),
        !s.handled(reading as int).waters(next as int),
        s.handled(reading as int).requested(next as int) == 0,
        s.handled(reading as int).handled(next as int).water_count == s.handled(
            reading as int,
        ).water_count,
        s.waters(reading as int) ==> s.handled(reading as int).handled(next as int).water_count
            == s.next_count(),
{
    lemma_handled_keeps_invariant(s, reading);
}

} // verus!
