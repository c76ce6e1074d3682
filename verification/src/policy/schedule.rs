use vstd::prelude::*;

use crate::abi::CoreId;
use crate::policy::confidence::Confidence;
use crate::policy::decision::{DecisionReason, PolicyError};

verus! {

/// Scale of the fixed-point scheduler ratios: 10_000 means 1.0.
pub const FIXED_POINT_SCALE: u32 = 10_000;

/// Telemetry of one scheduling decision, in fixed-point units.
#[derive(Clone, Copy, Debug, PartialEq, Eq, Structural)]
pub struct ScheduleFeatures {
    pub run_queue_len: u32,
    pub ipc_depth: u32,
    pub queue_pressure: u32,
    pub object_locality_score: u32,
    pub cache_miss_rate: u32,
    pub idle_ratio: u32,
    pub migration_cost: u32,
    /// Discrete scheduler priority. This is a compact rank, not a
    /// `FIXED_POINT_SCALE` ratio.
    pub priority: u8,
}

/// Every fixed-point ratio of `f` lies in `0..=FIXED_POINT_SCALE`.
pub open spec fn features_in_range(f: ScheduleFeatures) -> bool {
    &&& f.run_queue_len <= FIXED_POINT_SCALE
    &&& f.ipc_depth <= FIXED_POINT_SCALE
    &&& f.queue_pressure <= FIXED_POINT_SCALE
    &&& f.object_locality_score <= FIXED_POINT_SCALE
    &&& f.cache_miss_rate <= FIXED_POINT_SCALE
    &&& f.idle_ratio <= FIXED_POINT_SCALE
    &&& f.migration_cost <= FIXED_POINT_SCALE
}

impl Default for ScheduleFeatures {
    fn default() -> (r: Self)
        ensures
            r == (ScheduleFeatures {
                run_queue_len: 0,
                ipc_depth: 0,
                queue_pressure: 0,
                object_locality_score: 0,
                cache_miss_rate: 0,
                idle_ratio: 0,
                migration_cost: 0,
                priority: 0,
            }),
    {
        ScheduleFeatures {
            run_queue_len: 0,
            ipc_depth: 0,
            queue_pressure: 0,
            object_locality_score: 0,
            cache_miss_rate: 0,
            idle_ratio: 0,
            migration_cost: 0,
            priority: 0,
        }
    }
}

impl ScheduleFeatures {
    /// Returns the features unchanged when every ratio is in range.
    pub fn validate(self) -> (r: Result<Self, PolicyError>)
        ensures
            features_in_range(self) ==> r == Ok::<ScheduleFeatures, PolicyError>(self),
            !features_in_range(self) ==> r == Err::<ScheduleFeatures, PolicyError>(
                PolicyError::FeatureOutOfRange,
            ),
    {
        if self.run_queue_len > FIXED_POINT_SCALE || self.ipc_depth > FIXED_POINT_SCALE
            || self.queue_pressure > FIXED_POINT_SCALE || self.object_locality_score
            > FIXED_POINT_SCALE || self.cache_miss_rate > FIXED_POINT_SCALE || self.idle_ratio
            > FIXED_POINT_SCALE || self.migration_cost > FIXED_POINT_SCALE {
            return Err(PolicyError::FeatureOutOfRange);
        }
        Ok(self)
    }
}

/// A scheduling recommendation.
#[derive(Clone, Copy, Debug, PartialEq, Eq, Structural)]
pub struct ScheduleAdvice {
    target_core: CoreId,
    confidence: Confidence,
    reason: DecisionReason,
}

impl ScheduleAdvice {
    pub closed spec fn spec_target_core(self) -> CoreId {
        self.target_core
    }

    pub closed spec fn spec_confidence(self) -> Confidence {
        self.confidence
    }

    pub closed spec fn spec_reason(self) -> DecisionReason {
        self.reason
    }

    pub fn new(target_core: CoreId, confidence: Confidence, reason: DecisionReason) -> (r: Self)
        ensures
            r.spec_target_core() == target_core,
            r.spec_confidence() == confidence,
            r.spec_reason() == reason,
    {
        ScheduleAdvice { target_core, confidence, reason }
    }

    #[verifier::when_used_as_spec(spec_target_core)]
    pub fn target_core(self) -> (r: CoreId)
        ensures
            r == self.spec_target_core(),
    {
        self.target_core
    }

    #[verifier::when_used_as_spec(spec_confidence)]
    pub fn confidence(self) -> (r: Confidence)
        ensures
            r == self.spec_confidence(),
    {
        self.confidence
    }

    #[verifier::when_used_as_spec(spec_reason)]
    pub fn reason(self) -> (r: DecisionReason)
        ensures
            r == self.spec_reason(),
    {
        self.reason
    }
}

} // verus!
