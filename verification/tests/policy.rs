use aesynx::abi::{CoreId, ModelId};
use aesynx::policy::confidence::{Confidence, MAX_CONFIDENCE};
use aesynx::policy::decision::{DecisionReason, PolicyDecision, PolicyEngine, PolicyError};
use aesynx::policy::manifest::{
    Hash256, MODEL_MANIFEST_SCHEMA_VERSION, ModelKind, ModelObjectManifest, ModelSafetyLimits,
    PolicyDomain, RequiredTelemetryFields, Signature64,
};
use aesynx::policy::schedule::{FIXED_POINT_SCALE, ScheduleAdvice, ScheduleFeatures};

struct DenySchedulerPolicy;

impl PolicyEngine for DenySchedulerPolicy {
    type Input = ScheduleFeatures;
    type Output = ScheduleAdvice;

    fn evaluate(&self, input: Self::Input) -> PolicyDecision<Self::Output> {
        PolicyDecision::deterministic_fallback(self.fallback(input))
    }

    fn fallback(&self, _input: Self::Input) -> Self::Output {
        ScheduleAdvice::new(
            CoreId::new(0),
            Confidence::ZERO(),
            DecisionReason::DeterministicFallback,
        )
    }
}

fn hash(byte: u8) -> Result<Hash256, PolicyError> {
    Hash256::new([byte; 32])
}

fn signature() -> Result<Signature64, PolicyError> {
    Signature64::new([7; 64])
}

fn scheduler_manifest() -> Result<ModelObjectManifest, PolicyError> {
    Ok(ModelObjectManifest {
        id: ModelId::new(1),
        schema_version: MODEL_MANIFEST_SCHEMA_VERSION,
        kind: ModelKind::FixedPointHeuristic,
        domain: PolicyDomain::Scheduler,
        input_schema_hash: hash(1)?,
        output_schema_hash: hash(2)?,
        weights_hash: hash(3)?,
        signature: signature()?,
        safety_limits: ModelSafetyLimits::scheduler_default(),
    })
}

#[test]
fn confidence_rejects_out_of_range_values() {
    assert_eq!(
        Confidence::new(MAX_CONFIDENCE + 1),
        Err(PolicyError::ConfidenceOutOfRange)
    );
}

#[test]
fn policy_decision_uses_bounded_confidence() {
    let confidence = match Confidence::new(MAX_CONFIDENCE) {
        Ok(confidence) => confidence,
        Err(error) => return assert_eq!(error, PolicyError::ConfidenceOutOfRange),
    };
    let decision = PolicyDecision::new(7u8, None, confidence, false, DecisionReason::Heuristic);

    assert_eq!(*decision.output(), 7);
    assert_eq!(decision.confidence().get(), MAX_CONFIDENCE);
    assert!(!decision.fallback_used());
}

#[test]
fn model_decision_enforces_manifest_confidence_ceiling() {
    let confidence = match Confidence::new(1) {
        Ok(confidence) => confidence,
        Err(error) => return assert_eq!(error, PolicyError::ConfidenceOutOfRange),
    };
    let decision = PolicyDecision::from_model(
        7u8,
        3u8,
        ModelId::new(42),
        confidence,
        &ModelSafetyLimits::scheduler_default(),
        DecisionReason::ModelAdvice,
    );

    assert_eq!(*decision.output(), 3);
    assert_eq!(decision.model(), None);
    assert_eq!(decision.confidence(), Confidence::ZERO());
    assert!(decision.fallback_used());
    assert_eq!(decision.reason(), DecisionReason::SafetyRejected);
}

#[test]
fn model_decision_accepts_confidence_within_manifest_ceiling() {
    let confidence = match Confidence::new(7) {
        Ok(confidence) => confidence,
        Err(error) => return assert_eq!(error, PolicyError::ConfidenceOutOfRange),
    };
    let limits = ModelSafetyLimits::new(
        10_000,
        64 * 1024,
        confidence,
        true,
        RequiredTelemetryFields::scheduler_minimum(),
    );
    let decision = PolicyDecision::from_model(
        7u8,
        3u8,
        ModelId::new(42),
        confidence,
        &limits,
        DecisionReason::ModelAdvice,
    );

    assert_eq!(*decision.output(), 7);
    assert_eq!(decision.model(), Some(ModelId::new(42)));
    assert_eq!(decision.confidence(), confidence);
    assert!(!decision.fallback_used());
    assert_eq!(decision.reason(), DecisionReason::ModelAdvice);
}

#[test]
fn deterministic_fallback_decision_is_marked_fail_closed() {
    let decision = PolicyDecision::deterministic_fallback(3u8);

    assert_eq!(*decision.output(), 3);
    assert_eq!(decision.model(), None);
    assert_eq!(decision.confidence().get(), 0);
    assert!(decision.fallback_used());
    assert_eq!(decision.reason(), DecisionReason::DeterministicFallback);
}

#[test]
fn schedule_advice_uses_bounded_confidence() {
    let confidence = match Confidence::new(1) {
        Ok(confidence) => confidence,
        Err(error) => return assert_eq!(error, PolicyError::ConfidenceOutOfRange),
    };
    let advice = ScheduleAdvice::new(CoreId::new(2), confidence, DecisionReason::ModelAdvice);

    assert_eq!(advice.target_core(), CoreId::new(2));
    assert_eq!(advice.confidence().get(), 1);
}

#[test]
fn schedule_features_use_fixed_point_bounds() {
    assert!(ScheduleFeatures::default().validate().is_ok());

    let invalid = ScheduleFeatures {
        idle_ratio: FIXED_POINT_SCALE + 1,
        ..ScheduleFeatures::default()
    };
    assert_eq!(invalid.validate(), Err(PolicyError::FeatureOutOfRange));

    let invalid_raw_count = ScheduleFeatures {
        run_queue_len: FIXED_POINT_SCALE + 1,
        ..ScheduleFeatures::default()
    };
    assert_eq!(
        invalid_raw_count.validate(),
        Err(PolicyError::FeatureOutOfRange)
    );

    let invalid_migration_cost = ScheduleFeatures {
        migration_cost: FIXED_POINT_SCALE + 1,
        ..ScheduleFeatures::default()
    };
    assert_eq!(
        invalid_migration_cost.validate(),
        Err(PolicyError::FeatureOutOfRange)
    );
}

#[test]
fn model_manifest_accepts_scheduler_safe_manifest() {
    let manifest = match scheduler_manifest() {
        Ok(manifest) => manifest,
        Err(error) => return assert_eq!(error, PolicyError::EmptyHash),
    };
    let validated = match manifest.validate_for_domain(PolicyDomain::Scheduler) {
        Ok(validated) => validated,
        Err(error) => return assert_eq!(error, PolicyError::UnsupportedSchema),
    };

    assert_eq!(validated.manifest().id, ModelId::new(1));
}

#[test]
fn model_manifest_rejects_wrong_domain() {
    let manifest = match scheduler_manifest() {
        Ok(manifest) => manifest,
        Err(error) => return assert_eq!(error, PolicyError::EmptyHash),
    };

    assert!(manifest.validate_for_domain(PolicyDomain::Capability) == Err(PolicyError::UnsupportedDomain));
}

#[test]
fn model_manifest_rejects_missing_fallback() {
    let mut manifest = match scheduler_manifest() {
        Ok(manifest) => manifest,
        Err(error) => return assert_eq!(error, PolicyError::EmptyHash),
    };
    manifest.safety_limits.fallback_required = false;

    assert!(manifest.validate_for_domain(PolicyDomain::Scheduler) == Err(PolicyError::FallbackRequired));
}

#[test]
fn model_manifest_rejects_missing_scheduler_features() {
    let mut manifest = match scheduler_manifest() {
        Ok(manifest) => manifest,
        Err(error) => return assert_eq!(error, PolicyError::EmptyHash),
    };
    manifest.safety_limits.required_telemetry =
        RequiredTelemetryFields::RUN_QUEUE_LEN().union(RequiredTelemetryFields::IPC_DEPTH());

    assert!(manifest.validate_for_domain(PolicyDomain::Scheduler) == Err(PolicyError::FeatureOutOfRange));
}

#[test]
fn model_manifest_rejects_unbacked_model_kinds() {
    let mut manifest = match scheduler_manifest() {
        Ok(manifest) => manifest,
        Err(error) => return assert_eq!(error, PolicyError::EmptyHash),
    };

    manifest.kind = ModelKind::NeuralNetwork;
    assert!(manifest.validate_for_domain(PolicyDomain::Scheduler) == Err(PolicyError::UnsupportedModelKind));

    manifest.kind = ModelKind::WasmComponent;
    assert!(manifest.validate_for_domain(PolicyDomain::Scheduler) == Err(PolicyError::UnsupportedModelKind));
}

#[test]
fn deterministic_scheduler_fallback_always_works_without_model_identity() {
    let policy = DenySchedulerPolicy;
    let decision = policy.evaluate(ScheduleFeatures::default());

    assert_eq!(decision.output().target_core(), CoreId::new(0));
    assert_eq!(decision.model(), None);
    assert_eq!(decision.confidence().get(), 0);
    assert!(decision.fallback_used());
    assert_eq!(
        policy.explain(&decision),
        DecisionReason::DeterministicFallback
    );
}
