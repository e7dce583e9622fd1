//! The examiner: the one owner of the threshold, the latest reading, the
//! count of waterings and the rules.

use vstd::prelude::*;
use crate::rules::{
    generate_rules_from_examiner, rule_states, default_rules, MoistureState, Rule, RuleKind,
    RuleState, EVAL_MIN_COUNT, MIN_THRESHOLD_BREACH,
};

verus! {

/// The threshold with which a controller starts its examiner.
pub const MOISTURE_THRESHOLD: i32 = 30;

/// The reading an examiner holds before it has been given one.
pub const INITIAL_HUMD: i32 = 12;

/// Numerator of the water factor, which turns a moisture deficit into a pump
/// duration. The factor is one and a half, held as a fraction.
pub const WATER_FACTOR_NUMERATOR: i64 = 3;

/// Denominator of the water factor.
pub const WATER_FACTOR_DENOMINATOR: i64 = 2;

/// What an examiner decides on a reading.
#[derive(Debug, Clone, Copy, PartialEq, Eq, Structural)]
pub enum Action {
    /// Leave the pump off.
    Noop,
    /// Every rule passed, and this is the water amount for the reading. An
    /// amount that is not positive asks for no water: the pump stays off
    /// and no watering is counted.
    Pump(i32),
}

/// The deficit times the water factor, rounded toward zero.
pub open spec fn scaled_deficit(threshold: int, reading: int) -> int {
    let deficit = threshold - reading;
    if deficit >= 0 {
        (deficit * WATER_FACTOR_NUMERATOR) / (WATER_FACTOR_DENOMINATOR as int)
    } else {
        -((-deficit * WATER_FACTOR_NUMERATOR) / (WATER_FACTOR_DENOMINATOR as int))
    }
}

/// The pump duration for a threshold and a reading: the scaled deficit, held
/// to what an `i32` can carry.
pub open spec fn water_amount(threshold: int, reading: int) -> int {
    let scaled = scaled_deficit(threshold, reading);
    if scaled > i32::MAX {
        i32::MAX as int
    } else if scaled < i32::MIN {
        i32::MIN as int
    } else {
        scaled
    }
}

/// The duration for which the pump runs on an amount that an examiner asked
/// for: the amount itself where it is positive, and otherwise zero, which
/// runs nothing.
pub open spec fn pump_duration_for(amount: int) -> int {
    if amount > 0 {
        amount
    } else {
        0
    }
}

/// The duration to hand to the pump for an amount that an examiner asked
/// for. Soil that is wet enough gives an amount that is not positive, and
/// the pump is then to run for no time at all.
pub fn pump_duration(amount: i32) -> (duration: i32)
    ensures
        duration == pump_duration_for(amount as int),
{
    if amount > 0 {
        amount
    } else {
        0
    }
}

/// Whether the first `n` rules all pass on this reading.
pub open spec fn all_pass_before(
    rules: Seq<RuleState>,
    n: int,
    threshold: int,
    reading: int,
) -> bool {
    forall|j: int|
        0 <= j < n && j < rules.len() ==> (#[trigger] rules[j]).passes(threshold, reading)
}

/// Whether every rule passes on this reading.
pub open spec fn rules_pass(rules: Seq<RuleState>, threshold: int, reading: int) -> bool {
    all_pass_before(rules, rules.len() as int, threshold, reading)
}

/// The rules after one pass over them. They are consulted in order, and a
/// rule is evaluated only if every rule before it passed: the rules behind
/// the first that fails stay as they were.
pub open spec fn evaluated_rules(
    rules: Seq<RuleState>,
    threshold: int,
    reading: int,
) -> Seq<RuleState> {
    Seq::new(
        rules.len(),
        |i: int|
            if all_pass_before(rules, i, threshold, reading) {
                rules[i].evaluated(threshold, reading)
            } else {
                rules[i]
            },
    )
}

/// The rules after a watering: each of them restarted.
pub open spec fn watered_rules(rules: Seq<RuleState>) -> Seq<RuleState> {
    Seq::new(rules.len(), |i: int| rules[i].watered())
}

/// The state of an examiner.
pub struct ExaminerState {
    /// Waterings so far: the readings on which every rule passed and the
    /// water amount was positive. A reading answered with zero or less is
    /// not counted.
    pub water_count: int,
    /// The most recent reading.
    pub latest_humd: int,
    /// The moisture level below which the soil counts as dry.
    pub threshold: int,
    /// The rules, in the order in which they are consulted.
    pub rules: Seq<RuleState>,
}

impl ExaminerState {
    /// The rules are the moisture rule and then the time rule, each within
    /// its own invariant; the numbers are such as an examiner can hold.
    pub open spec fn wf(self) -> bool {
        &&& 0 <= self.water_count <= i32::MAX
        &&& i32::MIN <= self.latest_humd <= i32::MAX
        &&& i32::MIN <= self.threshold <= i32::MAX
        &&& self.rules.len() == 2
        &&& self.rules[0] is Moisture
        &&& self.rules[1] is Time
        &&& forall|i: int| 0 <= i < self.rules.len() ==> (#[trigger] self.rules[i]).wf()
    }

    /// The state of a new examiner: no watering counted, the initial
    /// reading, and each rule at its start.
    pub open spec fn initial(threshold: int, window: int, quota: int) -> ExaminerState {
        ExaminerState {
            water_count: 0,
            latest_humd: INITIAL_HUMD as int,
            threshold,
            rules: default_rules(window, quota),
        }
    }

    /// The state of the moisture rule.
    pub open spec fn moisture(self) -> MoistureState {
        self.rules[0]->Moisture_0
    }

    /// The examiner with another threshold.
    pub open spec fn with_threshold(self, threshold: int) -> ExaminerState {
        ExaminerState { threshold, ..self }
    }

    /// The examiner with another latest reading.
    pub open spec fn with_reading(self, reading: int) -> ExaminerState {
        ExaminerState { latest_humd: reading, ..self }
    }

    /// Whether every rule passes on the latest reading.
    pub open spec fn permits(self) -> bool {
        rules_pass(self.rules, self.threshold, self.latest_humd)
    }

    /// The action that one pass over the rules gives.
    pub open spec fn action(self) -> Action {
        if self.permits() {
            Action::Pump(water_amount(self.threshold, self.latest_humd) as i32)
        } else {
            Action::Noop
        }
    }

    /// The examiner after one pass over the rules.
    pub open spec fn evaluated(self) -> ExaminerState {
        ExaminerState {
            rules: evaluated_rules(self.rules, self.threshold, self.latest_humd),
            ..self
        }
    }

    /// The examiner after every rule has been restarted.
    pub open spec fn watered(self) -> ExaminerState {
        ExaminerState { rules: watered_rules(self.rules), ..self }
    }

    /// The count after one more watering. It stops at the largest `i32`.
    pub open spec fn next_count(self) -> int {
        if self.water_count < i32::MAX {
            self.water_count + 1
        } else {
            self.water_count
        }
    }

    /// Whether every rule passes on this reading.
    pub open spec fn permitted(self, reading: int) -> bool {
        self.with_reading(reading).permits()
    }

    /// Whether this reading makes the examiner water: every rule passes on
    /// it and the water amount for it is positive. Only such a reading is
    /// counted as a watering and restarts the rules.
    pub open spec fn waters(self, reading: int) -> bool {
        self.permitted(reading) && water_amount(self.threshold, reading) > 0
    }

    /// The amount with which the examiner answers this reading: the water
    /// amount where every rule passes, which is not positive where the
    /// reading is not below the threshold, and zero where a rule fails.
    pub open spec fn requested(self, reading: int) -> int {
        if self.permitted(reading) {
            water_amount(self.threshold, reading)
        } else {
            0
        }
    }

    /// The examiner after it has handled this reading. The reading is kept
    /// and the rules are passed over once. Where the reading waters, the
    /// count goes up and every rule is restarted; where it does not, nothing
    /// more changes.
    pub open spec fn handled(self, reading: int) -> ExaminerState {
        let evaluated = self.with_reading(reading).evaluated();
        if self.waters(reading) {
            ExaminerState { water_count: self.next_count(), ..evaluated.watered() }
        } else {
            evaluated
        }
    }

    /// The examiner after it has handled these readings, one after another.
    pub open spec fn handled_all(self, readings: Seq<i32>) -> ExaminerState
        decreases readings.len(),
    {
        if readings.len() == 0 {
            self
        } else {
            self.handled_all(readings.drop_last()).handled(readings.last() as int)
        }
    }

    /// The examiner as it meets reading `k` of a sequence, the readings
    /// before that one handled.
    pub open spec fn before_reading(self, readings: Seq<i32>, k: int) -> ExaminerState {
        self.handled_all(readings.take(k))
    }
}

/// Decides on each moisture reading whether to water, and for how long.
pub struct Examiner {
    water_count: i32,
    latest_humd: i32,
    threshold: i32,
    rules: Vec<RuleKind>,
}

impl View for Examiner {
    type V = ExaminerState;

    closed spec fn view(&self) -> ExaminerState {
        ExaminerState {
            water_count: self.water_count as int,
            latest_humd: self.latest_humd as int,
            threshold: self.threshold as int,
            rules: rule_states(self.rules@),
        }
    }
}

impl Examiner {
    /// The invariant that the constructors establish and every method keeps.
    pub open spec fn wf(&self) -> bool {
        self@.wf()
    }

    pub fn get_water_count(&self) -> (count: i32)
        ensures
            count == self@.water_count,
    {
        self.water_count
    }

    pub fn get_latest_humd(&self) -> (humd: &i32)
        ensures
            *humd == self@.latest_humd,
    {
        &self.latest_humd
    }

    pub fn update_humd(&mut self, humd_reading: i32)
        ensures
            final(self)@ == old(self)@.with_reading(humd_reading as int),
            old(self).wf() ==> final(self).wf(),
    {
        self.latest_humd = humd_reading;
    }

    pub fn set_threshold(&mut self, threshold: i32)
        ensures
            final(self)@ == old(self)@.with_threshold(threshold as int),
            old(self).wf() ==> final(self).wf(),
    {
        self.threshold = threshold;
    }

    pub fn get_threshold(&self) -> (threshold: &i32)
        ensures
            *threshold == self@.threshold,
    {
        &self.threshold
    }

    /// Restarts every rule, in order.
    pub fn post_water(&mut self)
        requires
            old(self).wf(),
        ensures
            final(self).wf(),
            final(self)@ == old(self)@.watered(),
    {
        let ghost before: Seq<RuleState> = self@.rules;
        let mut i: usize = 0;
        while i < self.rules.len()
            invariant
                i <= self.rules.len(),
                self.rules.len() == before.len(),
                before == old(self)@.rules,
                self.water_count == old(self).water_count,
                self.latest_humd == old(self).latest_humd,
                self.threshold == old(self).threshold,
                forall|k: int| 0 <= k < self.rules.len() ==> (#[trigger] self.rules@[k]).wf(),
                forall|k: int|
                    0 <= k < i ==> (#[trigger] self.rules@[k])@ == before[k].watered(),
                forall|k: int|
                    i <= k < self.rules.len() ==> (#[trigger] self.rules@[k])@ == before[k],
            decreases self.rules.len() - i,
        {
            self.rules[i].post_water();
            i += 1;
        }
        assert(self@.rules =~= old(self)@.watered().rules);
    }

    /// An examiner with the given threshold, the usual window of readings
    /// and the usual quota of breaches.
    pub fn new(threshold: i32) -> (examiner: Examiner)
        ensures
            examiner.wf(),
            examiner@ == ExaminerState::initial(
                threshold as int,
                EVAL_MIN_COUNT as int,
                MIN_THRESHOLD_BREACH as int,
            ),
    {
        Examiner::with_window(threshold, EVAL_MIN_COUNT, MIN_THRESHOLD_BREACH)
    }

    /// An examiner whose moisture rule watches windows of `window` readings
    /// and passes on `quota` breaches in one of them.
    pub fn with_window(threshold: i32, window: i32, quota: i32) -> (examiner: Examiner)
        requires
            MoistureState::valid_config(window as int, quota as int),
        ensures
            examiner.wf(),
            examiner@ == ExaminerState::initial(threshold as int, window as int, quota as int),
    {
        Examiner {
            water_count: 0,
            latest_humd: INITIAL_HUMD,
            threshold,
            rules: generate_rules_from_examiner(window, quota),
        }
    }

    /// Consults the rules in order and stops at the first that fails. If all
    /// pass, the action is `Pump` with the water amount, which is positive
    /// only where the latest reading is below the threshold; otherwise the
    /// action is `Noop`. Deciding alone counts no watering.
    pub fn determine_action(&mut self) -> (action: Action)
        requires
            old(self).wf(),
        ensures
            final(self).wf(),
            final(self)@ == old(self)@.evaluated(),
            action == old(self)@.action(),
    {
        let threshold: i32 = self.threshold;
        let latest_humd: i32 = self.latest_humd;
        let ghost before: Seq<RuleState> = self@.rules;
        let ghost t: int = threshold as int;
        let ghost r: int = latest_humd as int;
        let mut all_passed = true;
        let mut i: usize = 0;
        while all_passed && i < self.rules.len()
            invariant
                i <= self.rules.len(),
                self.rules.len() == before.len(),
                before == old(self)@.rules,
                self.water_count == old(self).water_count,
                self.latest_humd == old(self).latest_humd,
                self.threshold == old(self).threshold,
                t == threshold == self.threshold,
                r == latest_humd == self.latest_humd,
                forall|k: int| 0 <= k < self.rules.len() ==> (#[trigger] self.rules@[k]).wf(),
                all_passed ==> all_pass_before(before, i as int, t, r),
                !all_passed ==> i >= 1 && all_pass_before(before, i - 1, t, r) && !before[i
                    - 1].passes(t, r),
                forall|k: int|
                    0 <= k < i ==> (#[trigger] self.rules@[k])@ == before[k].evaluated(t, r),
                forall|k: int|
                    i <= k < self.rules.len() ==> (#[trigger] self.rules@[k])@ == before[k],
            decreases self.rules.len() - i,
        {
            all_passed = self.rules[i].evaluate(threshold, latest_humd);
            i += 1;
        }
        assert(self@.rules =~= old(self)@.evaluated().rules);
        if all_passed {
            Action::Pump(self.determine_water_amount())
        } else {
            Action::Noop
        }
    }

    /// The pump duration for the present deficit: the threshold less the
    /// latest reading, times the water factor, rounded toward zero, and held
    /// to what an `i32` can carry. It is positive exactly when the latest
    /// reading is below the threshold.
    pub fn determine_water_amount(&self) -> (amount: i32)
        ensures
            amount == water_amount(self@.threshold, self@.latest_humd),
    {
        let deficit: i64 = self.threshold as i64 - self.latest_humd as i64;
        let scaled: i64 = if deficit >= 0 {
            deficit * WATER_FACTOR_NUMERATOR / WATER_FACTOR_DENOMINATOR
        } else {
            -((-deficit) * WATER_FACTOR_NUMERATOR / WATER_FACTOR_DENOMINATOR)
        };
        if scaled > i32::MAX as i64 {
            i32::MAX
        } else if scaled < i32::MIN as i64 {
            i32::MIN
        } else {
            scaled as i32
        }
    }

    /// Takes in a reading and decides on it. Returns the water amount where
    /// every rule passes, and zero where one fails; it is for the caller to
    /// run the pump, for the `pump_duration` of what is returned. Where the
    /// amount is positive, the reading is a watering: the count goes up by
    /// one, unless it is at its largest, and every rule is restarted. An
    /// amount that is not positive is returned as it is, and neither counted
    /// nor followed by a restart.
    pub fn handle_humd_input(&mut self, humd_input: i32) -> (res: Result<i32, &'static str>)
        requires
            old(self).wf(),
        ensures
            final(self).wf(),
            final(self)@ == old(self)@.handled(humd_input as int),
            res == Ok::<i32, &'static str>(old(self)@.requested(humd_input as int) as i32),
    {
        self.update_humd(humd_input);
        match self.determine_action() {
            Action::Pump(amount) => {
                if amount > 0 {
                    if self.water_count < i32::MAX {
                        self.water_count += 1;
                    }
                    self.post_water();
                }
                Ok(amount)
            },
            Action::Noop => Ok(0),
        }
    }
}

} // verus!
