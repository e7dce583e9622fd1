//! The rules an examiner consults before it waters.
//!
//! A rule owns nothing of the examiner. At each evaluation it is handed the
//! examiner's current threshold and latest reading, so it can never see a
//! stale value.

use vstd::prelude::*;

verus! {

/// Dry readings a window must hold before the moisture rule permits watering.
pub const MIN_THRESHOLD_BREACH: i32 = 900;

/// Number of readings that make up one observation window.
pub const EVAL_MIN_COUNT: i32 = 1000;

/// Hour at which the default watering window opens.
pub const WINDOW_START_HOUR: i32 = 9;

/// Hour at which the default watering window closes.
pub const WINDOW_END_HOUR: i32 = 21;

/// What every rule offers an examiner.
///
/// `evaluate` is handed the threshold and the latest reading and says whether
/// the rule permits watering now; it may advance counters of the rule.
/// `post_water` is called once a watering has been decided and restarts
/// whatever the rule was counting. A rule touches nothing but itself.
pub trait Rule: Sized {
    /// The invariant of the rule's own counters.
    spec fn wf(&self) -> bool;

    /// Whether the rule permits watering when it is evaluated on this
    /// threshold and reading.
    spec fn passes(&self, threshold: int, reading: int) -> bool;

    /// Whether `after` is this rule once it has been evaluated on this
    /// threshold and reading.
    spec fn evaluates_to(&self, after: Self, threshold: int, reading: int) -> bool;

    fn evaluate(&mut self, threshold: i32, latest_humd: i32) -> (passed: bool)
        requires
            old(self).wf(),
        ensures
            final(self).wf(),
            passed == old(self).passes(threshold as int, latest_humd as int),
            old(self).evaluates_to(*final(self), threshold as int, latest_humd as int),
    ;

    /// A rule that counts nothing keeps this default, which leaves it as it is.
    fn post_water(&mut self)
        requires
            old(self).wf(),
        ensures
            final(self).wf(),
        default_ensures
            *final(self) == *old(self),
    {
    }
}

/// A reading is a breach when the soil is drier than the threshold asks.
pub open spec fn is_breach(threshold: int, reading: int) -> bool {
    threshold > reading
}

/// The state of a moisture rule: its configuration and its two counters.
pub struct MoistureState {
    /// Readings per observation window.
    pub window: int,
    /// Breaches a full window must hold for the rule to pass.
    pub quota: int,
    /// Readings seen in the current window.
    pub eval_count: int,
    /// Breaches seen in the current window.
    pub breach_count: int,
}

impl MoistureState {
    /// A window holds at least one reading, and the quota is one that a
    /// window can reach and that a window without breaches does not.
    pub open spec fn valid_config(window: int, quota: int) -> bool {
        1 <= quota <= window <= i32::MAX
    }

    pub open spec fn wf(self) -> bool {
        &&& Self::valid_config(self.window, self.quota)
        &&& 0 <= self.breach_count <= self.eval_count < self.window
    }

    /// A rule at the start of a window, with nothing counted.
    pub open spec fn fresh(window: int, quota: int) -> MoistureState {
        MoistureState { window, quota, eval_count: 0, breach_count: 0 }
    }

    /// The breaches tallied once this reading is counted in.
    pub open spec fn tally(self, threshold: int, reading: int) -> int {
        if is_breach(threshold, reading) {
            self.breach_count + 1
        } else {
            self.breach_count
        }
    }

    /// Whether this reading completes the window.
    pub open spec fn completes_window(self) -> bool {
        self.eval_count + 1 >= self.window
    }

    /// The rule passes only on the reading that completes a window, and then
    /// only if the window's breaches reach the quota.
    pub open spec fn passes(self, threshold: int, reading: int) -> bool {
        self.completes_window() && self.tally(threshold, reading) >= self.quota
    }

    /// The rule after one evaluation: the reading is counted, and a window
    /// that is complete gives way to a fresh one.
    pub open spec fn evaluated(self, threshold: int, reading: int) -> MoistureState {
        if self.completes_window() {
            MoistureState { eval_count: 0, breach_count: 0, ..self }
        } else {
            MoistureState {
                eval_count: self.eval_count + 1,
                breach_count: self.tally(threshold, reading),
                ..self
            }
        }
    }

    /// The rule after a watering: a fresh window.
    pub open spec fn watered(self) -> MoistureState {
        MoistureState { eval_count: 0, breach_count: 0, ..self }
    }
}

/// Rule that permits watering once the soil has been dry for long enough:
/// it passes when a window of readings completes with enough breaches in it.
pub struct MoistureRule {
    threshold_breach_count: i32,
    eval_count: i32,
    window: i32,
    quota: i32,
}

impl View for MoistureRule {
    type V = MoistureState;

    closed spec fn view(&self) -> MoistureState {
        MoistureState {
            window: self.window as int,
            quota: self.quota as int,
            eval_count: self.eval_count as int,
            breach_count: self.threshold_breach_count as int,
        }
    }
}

impl MoistureRule {
    /// A rule at the start of its first window, which watches windows of
    /// `window` readings and passes on `quota` breaches in one of them.
    pub fn new(window: i32, quota: i32) -> (rule: MoistureRule)
        requires
            MoistureState::valid_config(window as int, quota as int),
        ensures
            rule.wf(),
            rule@ == MoistureState::fresh(window as int, quota as int),
    {
        MoistureRule { threshold_breach_count: 0, eval_count: 0, window, quota }
    }
}

impl Rule for MoistureRule {
    open spec fn wf(&self) -> bool {
        self@.wf()
    }

    open spec fn passes(&self, threshold: int, reading: int) -> bool {
        self@.passes(threshold, reading)
    }

    open spec fn evaluates_to(&self, after: MoistureRule, threshold: int, reading: int) -> bool {
        after@ == self@.evaluated(threshold, reading)
    }

    /// Counts the reading into the current window. Passes if and only if
    /// the reading completes the window and the window's breaches reach the
    /// quota; a completed window gives way to a fresh one either way.
    fn evaluate(&mut self, threshold: i32, latest_humd: i32) -> (passed: bool)
        ensures
            passed == old(self)@.passes(threshold as int, latest_humd as int),
            final(self)@ == old(self)@.evaluated(threshold as int, latest_humd as int),
    {
        let mut res = false;

        self.eval_count += 1;

        if threshold > latest_humd {
            self.threshold_breach_count += 1;
        }

        if self.eval_count >= self.window {
            self.eval_count = 0;
            if self.threshold_breach_count >= self.quota {
                res = true;
            }
            self.threshold_breach_count = 0;
        }
        res
    }

    fn post_water(&mut self)
        ensures
            final(self)@ == old(self)@.watered(),
    {
        self.threshold_breach_count = 0;
        self.eval_count = 0;
    }
}

/// The state of a time rule: the hours between which watering is permitted,
/// the first included and the last not.
pub struct TimeState {
    pub window_start: int,
    pub window_end: int,
}

/// Rule that is to permit watering only within a window of the day. No clock
/// is wired to it yet, so it permits watering at every evaluation and counts
/// nothing.
pub struct TimeRule {
    window_start: i32,
    window_end: i32,
}

impl View for TimeRule {
    type V = TimeState;

    closed spec fn view(&self) -> TimeState {
        TimeState { window_start: self.window_start as int, window_end: self.window_end as int }
    }
}

impl TimeRule {
    /// A rule for the hours from `window_start` up to `window_end`.
    pub fn new(window_start: i32, window_end: i32) -> (rule: TimeRule)
        ensures
            rule@.window_start == window_start,
            rule@.window_end == window_end,
    {
        TimeRule { window_start, window_end }
    }
}

impl Rule for TimeRule {
    open spec fn wf(&self) -> bool {
        true
    }

    open spec fn passes(&self, threshold: int, reading: int) -> bool {
        true
    }

    open spec fn evaluates_to(&self, after: TimeRule, threshold: int, reading: int) -> bool {
        after@ == self@
    }

    /// Always passes, and leaves the rule as it is.
    fn evaluate(&mut self, threshold: i32, latest_humd: i32) -> (passed: bool)
        ensures
            passed,
            final(self)@ == old(self)@,
    {
        true
    }
}

/// The state of any one rule of an examiner.
pub enum RuleState {
    Moisture(MoistureState),
    Time(TimeState),
}

impl RuleState {
    pub open spec fn wf(self) -> bool {
        match self {
            RuleState::Moisture(m) => m.wf(),
            RuleState::Time(_) => true,
        }
    }

    /// Whether the rule permits watering when evaluated on this reading.
    pub open spec fn passes(self, threshold: int, reading: int) -> bool {
        match self {
            RuleState::Moisture(m) => m.passes(threshold, reading),
            RuleState::Time(_) => true,
        }
    }

    /// The rule after it has been evaluated on this reading.
    pub open spec fn evaluated(self, threshold: int, reading: int) -> RuleState {
        match self {
            RuleState::Moisture(m) => RuleState::Moisture(m.evaluated(threshold, reading)),
            RuleState::Time(t) => RuleState::Time(t),
        }
    }

    /// The rule after a watering.
    pub open spec fn watered(self) -> RuleState {
        match self {
            RuleState::Moisture(m) => RuleState::Moisture(m.watered()),
            RuleState::Time(t) => RuleState::Time(t),
        }
    }
}

/// One rule of an examiner: the rule kinds are few and known, so a rule is
/// held by value and told apart by its variant.
pub enum RuleKind {
    Moisture(MoistureRule),
    Time(TimeRule),
}

impl View for RuleKind {
    type V = RuleState;

    open spec fn view(&self) -> RuleState {
        match self {
            RuleKind::Moisture(m) => RuleState::Moisture(m@),
            RuleKind::Time(t) => RuleState::Time(t@),
        }
    }
}

impl Rule for RuleKind {
    open spec fn wf(&self) -> bool {
        self@.wf()
    }

    open spec fn passes(&self, threshold: int, reading: int) -> bool {
        self@.passes(threshold, reading)
    }

    open spec fn evaluates_to(&self, after: RuleKind, threshold: int, reading: int) -> bool {
        after@ == self@.evaluated(threshold, reading)
    }

    fn evaluate(&mut self, threshold: i32, latest_humd: i32) -> (passed: bool)
        ensures
            passed == old(self)@.passes(threshold as int, latest_humd as int),
            final(self)@ == old(self)@.evaluated(threshold as int, latest_humd as int),
    {
        match self {
            RuleKind::Moisture(m) => m.evaluate(threshold, latest_humd),
            RuleKind::Time(t) => t.evaluate(threshold, latest_humd),
        }
    }

    fn post_water(&mut self)
        ensures
            final(self)@ == old(self)@.watered(),
    {
        match self {
            RuleKind::Moisture(m) => m.post_water(),
            RuleKind::Time(t) => t.post_water(),
        }
    }
}

/// The states of a sequence of rules, in the same order.
pub open spec fn rule_states(rules: Seq<RuleKind>) -> Seq<RuleState> {
    Seq::new(rules.len(), |i: int| rules[i]@)
}

/// The rules of an examiner, in the order in which it consults them: the
/// moisture rule first, the time rule second. The rules hold no reference to
/// the examiner; it hands them its threshold and reading at each evaluation.
pub fn generate_rules_from_examiner(window: i32, quota: i32) -> (rules: Vec<RuleKind>)
    requires
        MoistureState::valid_config(window as int, quota as int),
    ensures
        rule_states(rules@) == default_rules(window as int, quota as int),
{
    vec![
        RuleKind::Moisture(MoistureRule::new(window, quota)),
        RuleKind::Time(TimeRule::new(WINDOW_START_HOUR, WINDOW_END_HOUR)),
    ]
}

/// The rule sequence of a new examiner.
pub open spec fn default_rules(window: int, quota: int) -> Seq<RuleState> {
    seq![
        RuleState::Moisture(MoistureState::fresh(window, quota)),
        RuleState::Time(
            TimeState {
                window_start: WINDOW_START_HOUR as int,
                window_end: WINDOW_END_HOUR as int,
            },
        ),
    ]
}

} // verus!
