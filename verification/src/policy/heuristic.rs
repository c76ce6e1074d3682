use vstd::prelude::*;

use crate::abi::CoreId;
use crate::policy::confidence::Confidence;
use crate::policy::decision::{DecisionReason, PolicyDecision, PolicyEngine, PolicyError};
use crate::policy::schedule::{
    FIXED_POINT_SCALE, ScheduleAdvice, ScheduleFeatures, features_in_range,
};

verus! {

/// Scores below this threshold fall back to the deterministic core.
pub const DEFAULT_HEURISTIC_THRESHOLD: u32 = 5_000;

pub const IDLE_RATIO_WEIGHT: u32 = 20;

pub const RUN_QUEUE_RELIEF_WEIGHT: u32 = 15;

pub const IPC_RELIEF_WEIGHT: u32 = 15;

pub const OBJECT_LOCALITY_WEIGHT: u32 = 15;

pub const CACHE_RELIEF_WEIGHT: u32 = 20;

pub const PRIORITY_WEIGHT: u32 = 10;

pub const MIGRATION_RELIEF_WEIGHT: u32 = 5;

/// Sum of all weights; the weighted score is divided by it.
pub const HEURISTIC_WEIGHT_TOTAL: u32 = IDLE_RATIO_WEIGHT + RUN_QUEUE_RELIEF_WEIGHT
    + IPC_RELIEF_WEIGHT + OBJECT_LOCALITY_WEIGHT + CACHE_RELIEF_WEIGHT + PRIORITY_WEIGHT
    + MIGRATION_RELIEF_WEIGHT;

/// A heuristic score in `0..=FIXED_POINT_SCALE`.
#[derive(Clone, Copy, Debug, PartialEq, Eq, Structural)]
pub struct HeuristicScheduleScore(u16);

impl HeuristicScheduleScore {
    #[verifier::type_invariant]
    spec fn bounded(self) -> bool {
        self.0 <= FIXED_POINT_SCALE
    }

    pub closed spec fn spec_get(self) -> u16 {
        self.0
    }

    #[allow(non_snake_case)]
    pub fn ZERO() -> (r: Self)
        ensures
            r.spec_get() == 0,
    {
        HeuristicScheduleScore(0)
    }

    /// Accepts `value` when it does not exceed `FIXED_POINT_SCALE`.
    pub fn new(value: u32) -> (r: Result<Self, PolicyError>)
        ensures
            value <= FIXED_POINT_SCALE ==> (r matches Ok(s) && s.spec_get() == value),
            value > FIXED_POINT_SCALE ==> r == Err::<HeuristicScheduleScore, PolicyError>(
                PolicyError::FeatureOutOfRange,
            ),
    {
        if value > FIXED_POINT_SCALE {
            return Err(PolicyError::FeatureOutOfRange);
        }
        Ok(HeuristicScheduleScore(value as u16))
    }

    #[verifier::when_used_as_spec(spec_get)]
    pub fn get(self) -> (r: u16)
        ensures
            r == self.spec_get(),
            r <= FIXED_POINT_SCALE,
    {
        proof {
            use_type_invariant(&self);
        }
        self.0
    }

    /// The score read as a confidence of the same value.
    pub fn confidence(self) -> (r: Confidence)
        ensures
            r.spec_get() == self.spec_get(),
    {
        proof {
            use_type_invariant(&self);
        }
        match Confidence::new(self.0) {
            Ok(confidence) => confidence,
            Err(_error) => Confidence::ZERO(),
        }
    }
}

/// Scheduler policy configuration.
#[derive(Clone, Copy, Debug, PartialEq, Eq, Structural)]
pub struct SchedulerPolicyConfig {
    heuristic_enabled: bool,
    fallback_core: CoreId,
    heuristic_core: CoreId,
    minimum_score: HeuristicScheduleScore,
}

impl SchedulerPolicyConfig {
    pub closed spec fn spec_heuristic_enabled(self) -> bool {
        self.heuristic_enabled
    }

    pub closed spec fn spec_fallback_core(self) -> CoreId {
        self.fallback_core
    }

    pub closed spec fn spec_heuristic_core(self) -> CoreId {
        self.heuristic_core
    }

    pub closed spec fn spec_minimum_score(self) -> HeuristicScheduleScore {
        self.minimum_score
    }

    pub fn new(
        heuristic_enabled: bool,
        fallback_core: CoreId,
        heuristic_core: CoreId,
        minimum_score: HeuristicScheduleScore,
    ) -> (r: Self)
        ensures
            r.spec_heuristic_enabled() == heuristic_enabled,
            r.spec_fallback_core() == fallback_core,
            r.spec_heuristic_core() == heuristic_core,
            r.spec_minimum_score() == minimum_score,
    {
        SchedulerPolicyConfig { heuristic_enabled, fallback_core, heuristic_core, minimum_score }
    }

    /// Heuristic disabled; every decision stays on `core`.
    pub fn local_round_robin(core: CoreId) -> (r: Self)
        ensures
            !r.spec_heuristic_enabled(),
            r.spec_fallback_core() == core,
            r.spec_heuristic_core() == core,
            r.spec_minimum_score().spec_get() == 0,
    {
        SchedulerPolicyConfig {
            heuristic_enabled: false,
            fallback_core: core,
            heuristic_core: core,
            minimum_score: HeuristicScheduleScore::ZERO(),
        }
    }

    /// Heuristic enabled with the default threshold.
    pub fn heuristic(fallback_core: CoreId, heuristic_core: CoreId) -> (r: Self)
        ensures
            r.spec_heuristic_enabled(),
            r.spec_fallback_core() == fallback_core,
            r.spec_heuristic_core() == heuristic_core,
            r.spec_minimum_score().spec_get() == DEFAULT_HEURISTIC_THRESHOLD,
    {
        SchedulerPolicyConfig {
            heuristic_enabled: true,
            fallback_core,
            heuristic_core,
            minimum_score: match HeuristicScheduleScore::new(DEFAULT_HEURISTIC_THRESHOLD) {
                Ok(score) => score,
                Err(_error) => HeuristicScheduleScore::ZERO(),
            },
        }
    }

    #[verifier::when_used_as_spec(spec_heuristic_enabled)]
    pub fn heuristic_enabled(self) -> (r: bool)
        ensures
            r == self.spec_heuristic_enabled(),
    {
        self.heuristic_enabled
    }

    #[verifier::when_used_as_spec(spec_fallback_core)]
    pub fn fallback_core(self) -> (r: CoreId)
        ensures
            r == self.spec_fallback_core(),
    {
        self.fallback_core
    }

    #[verifier::when_used_as_spec(spec_heuristic_core)]
    pub fn heuristic_core(self) -> (r: CoreId)
        ensures
            r == self.spec_heuristic_core(),
    {
        self.heuristic_core
    }

    #[verifier::when_used_as_spec(spec_minimum_score)]
    pub fn minimum_score(self) -> (r: HeuristicScheduleScore)
        ensures
            r == self.spec_minimum_score(),
    {
        self.minimum_score
    }
}

/// Audit record of one scheduler decision.
#[derive(Clone, Copy, Debug, PartialEq, Eq, Structural)]
pub struct SchedulerPolicyDecisionRecord {
    heuristic_enabled: bool,
    score: Option<HeuristicScheduleScore>,
    selected_core: CoreId,
    fallback_core: CoreId,
    fallback_used: bool,
    reason: DecisionReason,
}

impl SchedulerPolicyDecisionRecord {
    pub closed spec fn spec_heuristic_enabled(self) -> bool {
        self.heuristic_enabled
    }

    pub closed spec fn spec_score(self) -> Option<HeuristicScheduleScore> {
        self.score
    }

    pub closed spec fn spec_selected_core(self) -> CoreId {
        self.selected_core
    }

    pub closed spec fn spec_fallback_core(self) -> CoreId {
        self.fallback_core
    }

    pub closed spec fn spec_fallback_used(self) -> bool {
        self.fallback_used
    }

    pub closed spec fn spec_reason(self) -> DecisionReason {
        self.reason
    }

    #[verifier::when_used_as_spec(spec_heuristic_enabled)]
    pub fn heuristic_enabled(self) -> (r: bool)
        ensures
            r == self.spec_heuristic_enabled(),
    {
        self.heuristic_enabled
    }

    #[verifier::when_used_as_spec(spec_score)]
    pub fn score(self) -> (r: Option<HeuristicScheduleScore>)
        ensures
            r == self.spec_score(),
    {
        self.score
    }

    #[verifier::when_used_as_spec(spec_selected_core)]
    pub fn selected_core(self) -> (r: CoreId)
        ensures
            r == self.spec_selected_core(),
    {
        self.selected_core
    }

    #[verifier::when_used_as_spec(spec_fallback_core)]
    pub fn fallback_core(self) -> (r: CoreId)
        ensures
            r == self.spec_fallback_core(),
    {
        self.fallback_core
    }

    #[verifier::when_used_as_spec(spec_fallback_used)]
    pub fn fallback_used(self) -> (r: bool)
        ensures
            r == self.spec_fallback_used(),
    {
        self.fallback_used
    }

    #[verifier::when_used_as_spec(spec_reason)]
    pub fn reason(self) -> (r: DecisionReason)
        ensures
            r == self.spec_reason(),
    {
        self.reason
    }
}

/// The larger of two values.
pub fn max_u32(left: u32, right: u32) -> (r: u32)
    ensures
        r == (if left >= right { left } else { right }),
{
    if left >= right {
        left
    } else {
        right
    }
}

/// The weighted sum behind the heuristic score, before division by the
/// weight total: idle ratio, run-queue relief, IPC relief (against the larger
/// of IPC depth and queue pressure), object locality, cache relief, priority
/// rescaled from `0..=255` to the fixed-point scale, and migration relief.
pub open spec fn weighted_score(f: ScheduleFeatures) -> int {
    let scale = FIXED_POINT_SCALE as int;
    let ipc_pressure = if f.ipc_depth >= f.queue_pressure {
        f.ipc_depth as int
    } else {
        f.queue_pressure as int
    };
    f.idle_ratio * IDLE_RATIO_WEIGHT + (scale - f.run_queue_len) * RUN_QUEUE_RELIEF_WEIGHT + (scale
        - ipc_pressure) * IPC_RELIEF_WEIGHT + f.object_locality_score * OBJECT_LOCALITY_WEIGHT + (
    scale - f.cache_miss_rate) * CACHE_RELIEF_WEIGHT + ((f.priority as int * scale) / 255)
        * PRIORITY_WEIGHT + (scale - f.migration_cost) * MIGRATION_RELIEF_WEIGHT
}

/// The heuristic score of in-range features.
pub open spec fn heuristic_score(f: ScheduleFeatures) -> int {
    weighted_score(f) / HEURISTIC_WEIGHT_TOTAL as int
}

/// The IPC term weighs the larger of IPC depth and queue pressure: swapping
/// the two leaves the score unchanged.
pub proof fn lemma_score_symmetric_in_ipc_and_queue_pressure(f: ScheduleFeatures)
    ensures
        heuristic_score(f) == heuristic_score(
            ScheduleFeatures { ipc_depth: f.queue_pressure, queue_pressure: f.ipc_depth, ..f },
        ),
{
}

/// The score of in-range features is their weighted mean on the scale of
/// 10000: idle ratio with weight 20, run-queue relief 15, relief from the
/// larger of IPC depth and queue pressure 15, object locality 15, cache
/// relief 20, priority rescaled from 0..=255 with weight 10, and migration
/// relief 5, rounded down.
pub proof fn lemma_score_is_weighted_mean(f: ScheduleFeatures)
    ensures
        ({
            let pressure = if f.ipc_depth >= f.queue_pressure {
                f.ipc_depth as int
            } else {
                f.queue_pressure as int
            };
            heuristic_score(f) == (20 * f.idle_ratio + 15 * (10000 - f.run_queue_len) + 15 * (10000
                - pressure) + 15 * f.object_locality_score + 20 * (10000 - f.cache_miss_rate) + 10
                * ((f.priority * 10000) / 255) + 5 * (10000 - f.migration_cost)) / 100
        }),
{
}

/// The score is monotone in every feature: more idle time, locality or
/// priority never lowers it, and a longer run queue, deeper IPC, higher queue
/// pressure, more cache misses or a dearer migration never raises it.
pub proof fn lemma_score_monotone(f: ScheduleFeatures, g: ScheduleFeatures)
    requires
        features_in_range(f),
        features_in_range(g),
        g.idle_ratio >= f.idle_ratio,
        g.object_locality_score >= f.object_locality_score,
        g.priority >= f.priority,
        g.run_queue_len <= f.run_queue_len,
        g.ipc_depth <= f.ipc_depth,
        g.queue_pressure <= f.queue_pressure,
        g.cache_miss_rate <= f.cache_miss_rate,
        g.migration_cost <= f.migration_cost,
    ensures
        heuristic_score(f) <= heuristic_score(g),
{
    let pf = f.priority as int * FIXED_POINT_SCALE as int;
    let pg = g.priority as int * FIXED_POINT_SCALE as int;
    vstd::arithmetic::mul::lemma_mul_inequality(
        f.priority as int,
        g.priority as int,
        FIXED_POINT_SCALE as int,
    );
    vstd::arithmetic::div_mod::lemma_div_is_ordered(pf, pg, 255);
    vstd::arithmetic::div_mod::lemma_div_is_ordered(
        weighted_score(f),
        weighted_score(g),
        HEURISTIC_WEIGHT_TOTAL as int,
    );
}

/// Scores scheduler features; out-of-range features are rejected.
pub fn score_features(features: ScheduleFeatures) -> (r: Result<HeuristicScheduleScore, PolicyError>)
    ensures
        features_in_range(features) ==> (r matches Ok(s) && s.spec_get() == heuristic_score(
            features,
        )),
        !features_in_range(features) ==> r == Err::<HeuristicScheduleScore, PolicyError>(
            PolicyError::FeatureOutOfRange,
        ),
        r matches Ok(s) ==> s.spec_get() <= FIXED_POINT_SCALE,
{
    let features = match features.validate() {
        Ok(features) => features,
        Err(error) => return Err(error),
    };
    let load_relief = FIXED_POINT_SCALE - features.run_queue_len;
    let ipc_pressure = max_u32(features.ipc_depth, features.queue_pressure);
    let ipc_relief = FIXED_POINT_SCALE - ipc_pressure;
    let cache_relief = FIXED_POINT_SCALE - features.cache_miss_rate;
    let migration_relief = FIXED_POINT_SCALE - features.migration_cost;
    let priority = features.priority as u32;
    assert(priority * FIXED_POINT_SCALE <= 255 * 10_000) by (nonlinear_arith)
        requires
            priority <= 255,
    ;
    let priority_score = (priority * FIXED_POINT_SCALE) / 255;
    assert(priority_score <= FIXED_POINT_SCALE) by (nonlinear_arith)
        requires
            priority_score == (priority * FIXED_POINT_SCALE) / 255,
            priority <= 255,
    ;
    let weighted = features.idle_ratio * IDLE_RATIO_WEIGHT + load_relief * RUN_QUEUE_RELIEF_WEIGHT
        + ipc_relief * IPC_RELIEF_WEIGHT + features.object_locality_score * OBJECT_LOCALITY_WEIGHT
        + cache_relief * CACHE_RELIEF_WEIGHT + priority_score * PRIORITY_WEIGHT + migration_relief
        * MIGRATION_RELIEF_WEIGHT;
    assert(weighted as int == weighted_score(features));
    assert(weighted <= 1_000_000);
    let score = weighted / HEURISTIC_WEIGHT_TOTAL;
    assert(score <= FIXED_POINT_SCALE) by (nonlinear_arith)
        requires
            weighted <= 1_000_000,
            score == weighted / 100,
    ;
    HeuristicScheduleScore::new(score)
}

/// The configured policy.
#[derive(Clone, Copy, Debug, PartialEq, Eq, Structural)]
pub struct HeuristicSchedulerPolicy {
    config: SchedulerPolicyConfig,
}

/// The decision a scheduler policy with `config` reaches on `input`: the
/// selected core, its confidence, whether the fallback was used, the reason,
/// and the score that was recorded.
pub open spec fn expected_schedule(config: SchedulerPolicyConfig, input: ScheduleFeatures) -> (
    CoreId,
    int,
    bool,
    DecisionReason,
    Option<int>,
) {
    if !config.spec_heuristic_enabled() {
        (config.spec_fallback_core(), 0, true, DecisionReason::DeterministicFallback, None)
    } else if !features_in_range(input) {
        (config.spec_fallback_core(), 0, true, DecisionReason::SafetyRejected, None)
    } else if heuristic_score(input) < config.spec_minimum_score().spec_get() {
        (
            config.spec_fallback_core(),
            0,
            true,
            DecisionReason::DeterministicFallback,
            Some(heuristic_score(input)),
        )
    } else {
        (
            config.spec_heuristic_core(),
            heuristic_score(input),
            false,
            DecisionReason::Heuristic,
            Some(heuristic_score(input)),
        )
    }
}

/// The heuristic core is chosen only when the heuristic is enabled, the
/// features are in range and their score reaches the configured minimum;
/// the decision's confidence is then that score. Every other decision picks
/// the fallback core with zero confidence.
pub proof fn lemma_schedule_trusts_heuristic_only_above_minimum(
    config: SchedulerPolicyConfig,
    input: ScheduleFeatures,
)
    ensures
        ({
            let (core, confidence, fallback, reason, _score) = expected_schedule(config, input);
            &&& !fallback ==> {
                &&& config.spec_heuristic_enabled()
                &&& features_in_range(input)
                &&& heuristic_score(input) >= config.spec_minimum_score().spec_get()
                &&& core == config.spec_heuristic_core()
                &&& confidence == heuristic_score(input)
                &&& reason is Heuristic
            }
            &&& fallback ==> core == config.spec_fallback_core() && confidence == 0
                && !(reason is Heuristic)
            &&& (config.spec_heuristic_enabled() && features_in_range(input)
                && heuristic_score(input) >= config.spec_minimum_score().spec_get()) ==> !fallback
        }),
{
}

impl HeuristicSchedulerPolicy {
    pub closed spec fn spec_config(self) -> SchedulerPolicyConfig {
        self.config
    }

    pub fn new(config: SchedulerPolicyConfig) -> (r: Self)
        ensures
            r.spec_config() == config,
    {
        HeuristicSchedulerPolicy { config }
    }

    #[verifier::when_used_as_spec(spec_config)]
    pub fn config(self) -> (r: SchedulerPolicyConfig)
        ensures
            r == self.spec_config(),
    {
        self.config
    }

    /// Evaluates `input` and returns the decision together with its audit
    /// record.
    pub fn evaluate_with_record(&self, input: ScheduleFeatures) -> (r: (
        PolicyDecision<ScheduleAdvice>,
        SchedulerPolicyDecisionRecord,
    ))
        ensures
            ({
                let (core, confidence, fallback, reason, score) = expected_schedule(
                    self.spec_config(),
                    input,
                );
                let (decision, record) = r;
                &&& decision.spec_output().spec_target_core() == core
                &&& decision.spec_output().spec_confidence().spec_get() == confidence
                &&& decision.spec_output().spec_reason() == (if fallback {
                    DecisionReason::DeterministicFallback
                } else {
                    DecisionReason::Heuristic
                })
                &&& decision.spec_model() is None
                &&& decision.spec_confidence().spec_get() == confidence
                &&& decision.spec_fallback_used() == fallback
                &&& decision.spec_reason() == reason
                &&& record.spec_heuristic_enabled() == self.spec_config().spec_heuristic_enabled()
                &&& record.spec_selected_core() == core
                &&& record.spec_fallback_core() == self.spec_config().spec_fallback_core()
                &&& record.spec_fallback_used() == fallback
                &&& record.spec_reason() == reason
                &&& match score {
                    None => record.spec_score() is None,
                    Some(s) => record.spec_score() matches Some(rs) && rs.spec_get() == s,
                }
            }),
    {
        if !self.config.heuristic_enabled {
            let decision = PolicyDecision::deterministic_fallback(self.fallback_advice());
            let record = self.record(None, &decision);
            return (decision, record);
        }
        let score = match score_features(input) {
            Ok(score) => score,
            Err(_error) => {
                let fallback = self.fallback_advice();
                let decision = PolicyDecision::new(
                    fallback,
                    None,
                    Confidence::ZERO(),
                    true,
                    DecisionReason::SafetyRejected,
                );
                let record = self.record(None, &decision);
                return (decision, record);
            },
        };
        if score.get() < self.config.minimum_score.get() {
            let decision = PolicyDecision::deterministic_fallback(self.fallback_advice());
            let record = self.record(Some(score), &decision);
            return (decision, record);
        }
        let advice = ScheduleAdvice::new(
            self.config.heuristic_core,
            score.confidence(),
            DecisionReason::Heuristic,
        );
        let decision = PolicyDecision::new(
            advice,
            None,
            score.confidence(),
            false,
            DecisionReason::Heuristic,
        );
        let record = self.record(Some(score), &decision);
        (decision, record)
    }

    fn fallback_advice(&self) -> (r: ScheduleAdvice)
        ensures
            r.spec_target_core() == self.spec_config().spec_fallback_core(),
            r.spec_confidence().spec_get() == 0,
            r.spec_reason() == DecisionReason::DeterministicFallback,
    {
        ScheduleAdvice::new(
            self.config.fallback_core,
            Confidence::ZERO(),
            DecisionReason::DeterministicFallback,
        )
    }

    fn record(
        &self,
        score: Option<HeuristicScheduleScore>,
        decision: &PolicyDecision<ScheduleAdvice>,
    ) -> (r: SchedulerPolicyDecisionRecord)
        ensures
            r.spec_heuristic_enabled() == self.spec_config().spec_heuristic_enabled(),
            r.spec_score() == score,
            r.spec_selected_core() == decision.spec_output().spec_target_core(),
            r.spec_fallback_core() == self.spec_config().spec_fallback_core(),
            r.spec_fallback_used() == decision.spec_fallback_used(),
            r.spec_reason() == decision.spec_reason(),
    {
        SchedulerPolicyDecisionRecord {
            heuristic_enabled: self.config.heuristic_enabled,
            score,
            selected_core: decision.output().target_core(),
            fallback_core: self.config.fallback_core,
            fallback_used: decision.fallback_used(),
            reason: decision.reason(),
        }
    }
}

impl PolicyEngine for HeuristicSchedulerPolicy {
    type Input = ScheduleFeatures;

    type Output = ScheduleAdvice;

    fn evaluate(&self, input: ScheduleFeatures) -> (r: PolicyDecision<ScheduleAdvice>)
        ensures
            ({
                let (core, confidence, fallback, reason, _score) = expected_schedule(
                    self.spec_config(),
                    input,
                );
                &&& r.spec_output().spec_target_core() == core
                &&& r.spec_confidence().spec_get() == confidence
                &&& r.spec_fallback_used() == fallback
                &&& r.spec_reason() == reason
            }),
    {
        self.evaluate_with_record(input).0
    }

    fn fallback(&self, input: ScheduleFeatures) -> (r: ScheduleAdvice)
        ensures
            r.spec_target_core() == self.spec_config().spec_fallback_core(),
            r.spec_confidence().spec_get() == 0,
            r.spec_reason() == DecisionReason::DeterministicFallback,
    {
        self.fallback_advice()
    }
}

} // verus!
