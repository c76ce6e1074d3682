use vstd::prelude::*;

use crate::abi::ModelId;
use crate::policy::confidence::Confidence;
use crate::policy::manifest::ModelSafetyLimits;

verus! {

/// Why a policy engine produced a decision.
#[derive(Clone, Copy, Debug, PartialEq, Eq, Structural)]
pub enum DecisionReason {
    DeterministicFallback,
    Heuristic,
    ModelAdvice,
    SafetyRejected,
}

/// Errors of the policy layer.
#[derive(Clone, Copy, Debug, PartialEq, Eq, Structural)]
pub enum PolicyError {
    ConfidenceOutOfRange,
    EmptyHash,
    EmptyModel,
    EmptySignature,
    FeatureOutOfRange,
    FallbackRequired,
    ResourceLimitExceeded,
    UnsupportedDomain,
    UnsupportedModelKind,
    UnsupportedSchema,
}

/// The outcome of one policy evaluation.
#[derive(Clone, Copy, Debug, PartialEq, Eq)]
pub struct PolicyDecision<T> {
    output: T,
    model: Option<ModelId>,
    confidence: Confidence,
    fallback_used: bool,
    reason: DecisionReason,
}

impl<T> PolicyDecision<T> {
    pub closed spec fn spec_output(&self) -> &T {
        &self.output
    }

    pub closed spec fn spec_model(&self) -> Option<ModelId> {
        self.model
    }

    pub closed spec fn spec_confidence(&self) -> Confidence {
        self.confidence
    }

    pub closed spec fn spec_fallback_used(&self) -> bool {
        self.fallback_used
    }

    pub closed spec fn spec_reason(&self) -> DecisionReason {
        self.reason
    }

    /// The decision has exactly these components.
    pub open spec fn has_parts(
        &self,
        output: T,
        model: Option<ModelId>,
        confidence: Confidence,
        fallback_used: bool,
        reason: DecisionReason,
    ) -> bool {
        &&& *self.spec_output() == output
        &&& self.spec_model() == model
        &&& self.spec_confidence() == confidence
        &&& self.spec_fallback_used() == fallback_used
        &&& self.spec_reason() == reason
    }

    /// The decision is the deterministic fail-closed outcome carrying `output`.
    pub open spec fn is_fallback_with(&self, output: T) -> bool {
        &&& *self.spec_output() == output
        &&& self.spec_model() is None
        &&& self.spec_confidence().spec_get() == 0
        &&& self.spec_fallback_used()
    }

    /// Constructs a raw policy decision.
    ///
    /// This constructor does not enforce a model manifest's confidence ceiling.
    /// Model-backed decisions should use [`Self::from_model`] so
    /// `ModelSafetyLimits::max_confidence` is applied at the trust boundary.
    pub fn new(
        output: T,
        model: Option<ModelId>,
        confidence: Confidence,
        fallback_used: bool,
        reason: DecisionReason,
    ) -> (r: Self)
        ensures
            r.has_parts(output, model, confidence, fallback_used, reason),
    {
        PolicyDecision { output, model, confidence, fallback_used, reason }
    }

    /// Constructs a model-backed policy decision with manifest confidence
    /// enforcement.
    ///
    /// If `confidence` exceeds `limits.max_confidence`, this returns the
    /// provided deterministic `fallback`, clears the model identity, reports
    /// zero confidence, and marks the reason as `SafetyRejected`.
    pub fn from_model(
        output: T,
        fallback: T,
        model: ModelId,
        confidence: Confidence,
        limits: &ModelSafetyLimits,
        reason: DecisionReason,
    ) -> (r: Self)
        ensures
            confidence.spec_get() > limits.max_confidence.spec_get() ==> {
                &&& r.is_fallback_with(fallback)
                &&& r.spec_reason() == DecisionReason::SafetyRejected
            },
            confidence.spec_get() <= limits.max_confidence.spec_get() ==> r.has_parts(
                output,
                Some(model),
                confidence,
                false,
                reason,
            ),
    {
        if confidence.get() > limits.max_confidence.get() {
            return PolicyDecision {
                output: fallback,
                model: None,
                confidence: Confidence::ZERO(),
                fallback_used: true,
                reason: DecisionReason::SafetyRejected,
            };
        }
        PolicyDecision { output, model: Some(model), confidence, fallback_used: false, reason }
    }

    /// The deterministic fail-closed decision carrying `output`.
    pub fn deterministic_fallback(output: T) -> (r: Self)
        ensures
            r.is_fallback_with(output),
            r.spec_reason() == DecisionReason::DeterministicFallback,
    {
        PolicyDecision {
            output,
            model: None,
            confidence: Confidence::ZERO(),
            fallback_used: true,
            reason: DecisionReason::DeterministicFallback,
        }
    }

    #[verifier::when_used_as_spec(spec_output)]
    pub fn output(&self) -> (r: &T)
        ensures
            r == self.spec_output(),
    {
        &self.output
    }

    #[verifier::when_used_as_spec(spec_model)]
    pub fn model(&self) -> (r: Option<ModelId>)
        ensures
            r == self.spec_model(),
    {
        self.model
    }

    #[verifier::when_used_as_spec(spec_confidence)]
    pub fn confidence(&self) -> (r: Confidence)
        ensures
            r == self.spec_confidence(),
    {
        self.confidence
    }

    #[verifier::when_used_as_spec(spec_fallback_used)]
    pub fn fallback_used(&self) -> (r: bool)
        ensures
            r == self.spec_fallback_used(),
    {
        self.fallback_used
    }

    #[verifier::when_used_as_spec(spec_reason)]
    pub fn reason(&self) -> (r: DecisionReason)
        ensures
            r == self.spec_reason(),
    {
        self.reason
    }
}

/// Policy engines may use heuristics or model advice, but their fallback path
/// is part of the security contract.
///
/// `fallback` must be deterministic, side-effect-free, and fail closed for the
/// policy domain. For scheduling this means returning a conservative local
/// decision; for authority or admission policy this means denying or selecting
/// the least-privileged outcome.
pub trait PolicyEngine {
    type Input;

    type Output;

    fn evaluate(&self, input: Self::Input) -> PolicyDecision<Self::Output>;

    /// Returns the deterministic fail-closed output for this policy.
    fn fallback(&self, input: Self::Input) -> Self::Output;

    /// The reason recorded in `decision`.
    fn explain(&self, decision: &PolicyDecision<Self::Output>) -> (r: DecisionReason)
        ensures
            r == decision.spec_reason(),
    {
        decision.reason()
    }
}

} // verus!
