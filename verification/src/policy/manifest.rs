use vstd::prelude::*;

use crate::abi::ModelId;
use crate::policy::confidence::Confidence;
use crate::policy::decision::PolicyError;
use vstd::std_specs::cmp::PartialEqSpecImpl;

verus! {

pub const MODEL_MANIFEST_SCHEMA_VERSION: u16 = 1;

pub const MAX_MODEL_EVAL_STEPS: u32 = 1_000_000;

pub const MAX_MODEL_MEMORY_BYTES: u32 = 1_048_576;

/// Every byte of `bytes` is zero.
pub open spec fn all_zero(bytes: Seq<u8>) -> bool {
    forall|i: int| 0 <= i < bytes.len() ==> bytes[i] == 0
}

/// A nonzero 256-bit hash metadata field.
///
/// Construction only proves the field is present and nonzero. It does not
/// verify that bytes loaded from storage match this hash.
#[derive(Clone, Copy)]
pub struct Hash256([u8; 32]);

impl Hash256 {
    #[verifier::type_invariant]
    spec fn nonzero(self) -> bool {
        !all_zero(self.0@)
    }

    pub closed spec fn spec_bytes(self) -> [u8; 32] {
        self.0
    }

    /// Accepts `bytes` unless every byte is zero.
    ///
    /// This is a metadata-presence gate only, not cryptographic verification.
    pub fn new(bytes: [u8; 32]) -> (r: Result<Self, PolicyError>)
        ensures
            !all_zero(bytes@) ==> (r matches Ok(h) && h.spec_bytes() == bytes),
            all_zero(bytes@) ==> r == Err::<Hash256, PolicyError>(PolicyError::EmptyHash),
    {
        if all_zero_32(&bytes) {
            return Err(PolicyError::EmptyHash);
        }
        Ok(Hash256(bytes))
    }

    #[verifier::when_used_as_spec(spec_bytes)]
    pub fn bytes(self) -> (r: [u8; 32])
        ensures
            r == self.spec_bytes(),
            !all_zero(r@),
    {
        proof {
            use_type_invariant(&self);
        }
        self.0
    }
}

impl PartialEq for Hash256 {
    /// Compares the two hashes without an early exit on the first difference.
    fn eq(&self, other: &Self) -> (r: bool) {
        constant_time_eq(&self.0, &other.0)
    }
}

impl PartialEqSpecImpl for Hash256 {
    open spec fn obeys_eq_spec() -> bool {
        true
    }

    open spec fn eq_spec(&self, other: &Hash256) -> bool {
        self.spec_bytes()@ == other.spec_bytes()@
    }
}

impl Eq for Hash256 {

}

/// A nonzero 64-byte signature metadata field.
///
/// Construction only proves the field is present and nonzero. It does not
/// cryptographically verify a manifest, model object, or model weights.
#[derive(Clone, Copy)]
pub struct Signature64([u8; 64]);

impl Signature64 {
    #[verifier::type_invariant]
    spec fn nonzero(self) -> bool {
        !all_zero(self.0@)
    }

    pub closed spec fn spec_bytes(self) -> [u8; 64] {
        self.0
    }

    /// Accepts `bytes` unless every byte is zero.
    pub fn new(bytes: [u8; 64]) -> (r: Result<Self, PolicyError>)
        ensures
            !all_zero(bytes@) ==> (r matches Ok(s) && s.spec_bytes() == bytes),
            all_zero(bytes@) ==> r == Err::<Signature64, PolicyError>(PolicyError::EmptySignature),
    {
        if all_zero_64(&bytes) {
            return Err(PolicyError::EmptySignature);
        }
        Ok(Signature64(bytes))
    }

    #[verifier::when_used_as_spec(spec_bytes)]
    pub fn bytes(self) -> (r: [u8; 64])
        ensures
            r == self.spec_bytes(),
            !all_zero(r@),
    {
        proof {
            use_type_invariant(&self);
        }
        self.0
    }
}

impl PartialEq for Signature64 {
    /// Compares the two signatures without an early exit on the first difference.
    fn eq(&self, other: &Self) -> (r: bool) {
        constant_time_eq(&self.0, &other.0)
    }
}

impl PartialEqSpecImpl for Signature64 {
    open spec fn obeys_eq_spec() -> bool {
        true
    }

    open spec fn eq_spec(&self, other: &Signature64) -> bool {
        self.spec_bytes()@ == other.spec_bytes()@
    }
}

impl Eq for Signature64 {

}

#[derive(Clone, Copy, Debug, PartialEq, Eq, Structural)]
pub enum ModelKind {
    FixedPointHeuristic,
    FixedPointTable,
    WasmComponent,
    NeuralNetwork,
}

#[derive(Clone, Copy, Debug, PartialEq, Eq, Structural)]
pub enum PolicyDomain {
    Scheduler,
    Admission,
    Capability,
    Security,
}

pub const TELEMETRY_RUN_QUEUE_LEN: u32 = 1;

pub const TELEMETRY_IPC_DEPTH: u32 = 2;

pub const TELEMETRY_QUEUE_PRESSURE: u32 = 4;

pub const TELEMETRY_OBJECT_LOCALITY: u32 = 8;

pub const TELEMETRY_IDLE_RATIO: u32 = 16;

pub const TELEMETRY_MIGRATION_COST: u32 = 32;

pub const TELEMETRY_PRIORITY: u32 = 64;

/// Run-queue length, IPC depth, queue pressure and idle ratio.
pub const TELEMETRY_SCHEDULER_MINIMUM: u32 = 23;

/// A set of telemetry fields, one bit per field.
#[derive(Clone, Copy, Debug, PartialEq, Eq, Structural)]
pub struct RequiredTelemetryFields(u32);

impl RequiredTelemetryFields {
    pub closed spec fn spec_bits(self) -> u32 {
        self.0
    }

    pub open spec fn spec_contains(self, required: Self) -> bool {
        self.spec_bits() & required.spec_bits() == required.spec_bits()
    }

    #[allow(non_snake_case)]
    pub fn RUN_QUEUE_LEN() -> (r: Self)
        ensures
            r.spec_bits() == TELEMETRY_RUN_QUEUE_LEN,
    {
        RequiredTelemetryFields(TELEMETRY_RUN_QUEUE_LEN)
    }

    #[allow(non_snake_case)]
    pub fn IPC_DEPTH() -> (r: Self)
        ensures
            r.spec_bits() == TELEMETRY_IPC_DEPTH,
    {
        RequiredTelemetryFields(TELEMETRY_IPC_DEPTH)
    }

    #[allow(non_snake_case)]
    pub fn QUEUE_PRESSURE() -> (r: Self)
        ensures
            r.spec_bits() == TELEMETRY_QUEUE_PRESSURE,
    {
        RequiredTelemetryFields(TELEMETRY_QUEUE_PRESSURE)
    }

    #[allow(non_snake_case)]
    pub fn OBJECT_LOCALITY() -> (r: Self)
        ensures
            r.spec_bits() == TELEMETRY_OBJECT_LOCALITY,
    {
        RequiredTelemetryFields(TELEMETRY_OBJECT_LOCALITY)
    }

    #[allow(non_snake_case)]
    pub fn IDLE_RATIO() -> (r: Self)
        ensures
            r.spec_bits() == TELEMETRY_IDLE_RATIO,
    {
        RequiredTelemetryFields(TELEMETRY_IDLE_RATIO)
    }

    #[allow(non_snake_case)]
    pub fn MIGRATION_COST() -> (r: Self)
        ensures
            r.spec_bits() == TELEMETRY_MIGRATION_COST,
    {
        RequiredTelemetryFields(TELEMETRY_MIGRATION_COST)
    }

    #[allow(non_snake_case)]
    pub fn PRIORITY() -> (r: Self)
        ensures
            r.spec_bits() == TELEMETRY_PRIORITY,
    {
        RequiredTelemetryFields(TELEMETRY_PRIORITY)
    }

    /// The set with no fields.
    pub fn empty() -> (r: Self)
        ensures
            r.spec_bits() == 0,
    {
        RequiredTelemetryFields(0)
    }

    /// The fields every scheduler model must consume.
    pub fn scheduler_minimum() -> (r: Self)
        ensures
            r.spec_bits() == TELEMETRY_SCHEDULER_MINIMUM,
    {
        assert(TELEMETRY_RUN_QUEUE_LEN | TELEMETRY_IPC_DEPTH | TELEMETRY_QUEUE_PRESSURE
            | TELEMETRY_IDLE_RATIO == TELEMETRY_SCHEDULER_MINIMUM) by (bit_vector);
        RequiredTelemetryFields(
            TELEMETRY_RUN_QUEUE_LEN | TELEMETRY_IPC_DEPTH | TELEMETRY_QUEUE_PRESSURE
                | TELEMETRY_IDLE_RATIO,
        )
    }

    #[verifier::when_used_as_spec(spec_bits)]
    pub fn bits(self) -> (r: u32)
        ensures
            r == self.spec_bits(),
    {
        self.0
    }

    /// Every field of `required` is in `self`.
    #[verifier::when_used_as_spec(spec_contains)]
    pub fn contains(self, required: Self) -> (r: bool)
        ensures
            r == self.spec_contains(required),
    {
        (self.0 & required.0) == required.0
    }

    /// The fields of `self` together with those of `other`.
    pub fn union(self, other: Self) -> (r: Self)
        ensures
            r.spec_bits() == self.spec_bits() | other.spec_bits(),
            r.spec_contains(self),
            r.spec_contains(other),
    {
        let a = self.0;
        let b = other.0;
        assert((a | b) & a == a && (a | b) & b == b) by (bit_vector);
        RequiredTelemetryFields(a | b)
    }
}

/// Resource and safety bounds a model declares.
#[derive(Clone, Copy, Debug, PartialEq, Eq)]
pub struct ModelSafetyLimits {
    pub max_eval_steps: u32,
    pub max_memory_bytes: u32,
    pub max_confidence: Confidence,
    pub fallback_required: bool,
    pub required_telemetry: RequiredTelemetryFields,
}

impl ModelSafetyLimits {
    pub fn new(
        max_eval_steps: u32,
        max_memory_bytes: u32,
        max_confidence: Confidence,
        fallback_required: bool,
        required_telemetry: RequiredTelemetryFields,
    ) -> (r: Self)
        ensures
            r == (ModelSafetyLimits {
                max_eval_steps,
                max_memory_bytes,
                max_confidence,
                fallback_required,
                required_telemetry,
            }),
    {
        ModelSafetyLimits {
            max_eval_steps,
            max_memory_bytes,
            max_confidence,
            fallback_required,
            required_telemetry,
        }
    }

    /// Conservative limits for scheduler models: zero model confidence and a
    /// mandatory fallback.
    pub fn scheduler_default() -> (r: Self)
        ensures
            r.max_eval_steps == 10_000,
            r.max_memory_bytes == 64 * 1024,
            r.max_confidence.spec_get() == 0,
            r.fallback_required,
            r.required_telemetry.spec_bits() == TELEMETRY_SCHEDULER_MINIMUM,
    {
        ModelSafetyLimits {
            max_eval_steps: 10_000,
            max_memory_bytes: 64 * 1024,
            max_confidence: Confidence::ZERO(),
            fallback_required: true,
            required_telemetry: RequiredTelemetryFields::scheduler_minimum(),
        }
    }
}

/// Model metadata submitted to the policy layer.
///
/// A manifest is data, not executable code. Use
/// [`ModelObjectManifest::validate_for_domain`] before admitting it to a
/// policy domain. Equality is structural and is not a constant-time
/// manifest verifier.
#[derive(Clone, Copy, PartialEq, Eq)]
pub struct ModelObjectManifest {
    pub id: ModelId,
    pub schema_version: u16,
    pub kind: ModelKind,
    pub domain: PolicyDomain,
    pub input_schema_hash: Hash256,
    pub output_schema_hash: Hash256,
    pub weights_hash: Hash256,
    pub signature: Signature64,
    pub safety_limits: ModelSafetyLimits,
}

/// The first validation rule that `manifest` breaks for `domain`, checked in
/// the order: identity, schema, kind, domain, fallback, resource bounds,
/// scheduler telemetry.
pub open spec fn manifest_rejection(
    manifest: ModelObjectManifest,
    domain: PolicyDomain,
) -> Option<PolicyError> {
    let limits = manifest.safety_limits;
    if manifest.id.0 == 0 {
        Some(PolicyError::EmptyModel)
    } else if manifest.schema_version != MODEL_MANIFEST_SCHEMA_VERSION {
        Some(PolicyError::UnsupportedSchema)
    } else if !(manifest.kind is FixedPointHeuristic || manifest.kind is FixedPointTable) {
        Some(PolicyError::UnsupportedModelKind)
    } else if manifest.domain != domain {
        Some(PolicyError::UnsupportedDomain)
    } else if !limits.fallback_required {
        Some(PolicyError::FallbackRequired)
    } else if limits.max_eval_steps == 0 || limits.max_eval_steps > MAX_MODEL_EVAL_STEPS
        || limits.max_memory_bytes == 0 || limits.max_memory_bytes > MAX_MODEL_MEMORY_BYTES {
        Some(PolicyError::ResourceLimitExceeded)
    } else if domain is Scheduler && limits.required_telemetry.spec_bits()
        & TELEMETRY_SCHEDULER_MINIMUM != TELEMETRY_SCHEDULER_MINIMUM {
        Some(PolicyError::FeatureOutOfRange)
    } else {
        None
    }
}

/// A manifest admitted to a domain names a model, carries the current
/// schema and a fixed-point kind, belongs to that domain, requires the
/// fallback, and declares a nonzero step budget of at most a million steps
/// and a nonzero memory budget of at most one MiB; a scheduler model also
/// asks for the scheduler's minimum telemetry.
pub proof fn lemma_admitted_manifest_is_bounded(manifest: ModelObjectManifest, domain: PolicyDomain)
    requires
        manifest_rejection(manifest, domain) is None,
    ensures
        manifest.id.0 != 0,
        manifest.schema_version == MODEL_MANIFEST_SCHEMA_VERSION,
        manifest.kind is FixedPointHeuristic || manifest.kind is FixedPointTable,
        manifest.domain == domain,
        manifest.safety_limits.fallback_required,
        0 < manifest.safety_limits.max_eval_steps <= 1_000_000,
        0 < manifest.safety_limits.max_memory_bytes <= 1_048_576,
        domain is Scheduler ==> manifest.safety_limits.required_telemetry.spec_bits()
            & TELEMETRY_SCHEDULER_MINIMUM == TELEMETRY_SCHEDULER_MINIMUM,
{
}

impl ModelObjectManifest {
    /// Admits the manifest to `expected_domain`, or names the first rule it
    /// breaks.
    pub fn validate_for_domain(self, expected_domain: PolicyDomain) -> (r: Result<
        ValidatedModelManifest,
        PolicyError,
    >)
        ensures
            match r {
                Ok(v) => manifest_rejection(self, expected_domain) is None && v.spec_manifest()
                    == self,
                Err(e) => manifest_rejection(self, expected_domain) == Some(e),
            },
            r is Ok ==> 0 < self.safety_limits.max_eval_steps <= MAX_MODEL_EVAL_STEPS
                && 0 < self.safety_limits.max_memory_bytes <= MAX_MODEL_MEMORY_BYTES,
    {
        if self.id.get() == 0 {
            return Err(PolicyError::EmptyModel);
        }
        if self.schema_version != MODEL_MANIFEST_SCHEMA_VERSION {
            return Err(PolicyError::UnsupportedSchema);
        }
        match self.kind {
            ModelKind::FixedPointHeuristic | ModelKind::FixedPointTable => {},
            _ => {
                return Err(PolicyError::UnsupportedModelKind);
            },
        }
        if !same_domain(self.domain, expected_domain) {
            return Err(PolicyError::UnsupportedDomain);
        }
        if !self.safety_limits.fallback_required {
            return Err(PolicyError::FallbackRequired);
        }
        if self.safety_limits.max_eval_steps == 0 || self.safety_limits.max_eval_steps
            > MAX_MODEL_EVAL_STEPS || self.safety_limits.max_memory_bytes == 0
            || self.safety_limits.max_memory_bytes > MAX_MODEL_MEMORY_BYTES {
            return Err(PolicyError::ResourceLimitExceeded);
        }
        if same_domain(expected_domain, PolicyDomain::Scheduler)
            && !self.safety_limits.required_telemetry.contains(
            RequiredTelemetryFields::scheduler_minimum(),
        ) {
            return Err(PolicyError::FeatureOutOfRange);
        }
        Ok(ValidatedModelManifest { manifest: self })
    }
}

/// A manifest that passed structural and policy validation for its own
/// domain.
///
/// This does not verify [`Hash256`] or [`Signature64`] cryptographically.
#[derive(Clone, Copy, PartialEq, Eq)]
pub struct ValidatedModelManifest {
    manifest: ModelObjectManifest,
}

impl ValidatedModelManifest {
    #[verifier::type_invariant]
    spec fn admitted(self) -> bool {
        manifest_rejection(self.manifest, self.manifest.domain) is None
    }

    pub closed spec fn spec_manifest(self) -> ModelObjectManifest {
        self.manifest
    }

    /// The admitted manifest; it passes validation for its own domain.
    #[verifier::when_used_as_spec(spec_manifest)]
    pub fn manifest(self) -> (r: ModelObjectManifest)
        ensures
            r == self.spec_manifest(),
            manifest_rejection(r, r.domain) is None,
    {
        proof {
            use_type_invariant(&self);
        }
        self.manifest
    }
}

/// Whether two policy domains are the same.
pub fn same_domain(left: PolicyDomain, right: PolicyDomain) -> (r: bool)
    ensures
        r == (left == right),
{
    match (left, right) {
        (PolicyDomain::Scheduler, PolicyDomain::Scheduler)
        | (PolicyDomain::Admission, PolicyDomain::Admission)
        | (PolicyDomain::Capability, PolicyDomain::Capability)
        | (PolicyDomain::Security, PolicyDomain::Security) => true,
        _ => false,
    }
}

/// Whether all 32 bytes are zero.
pub fn all_zero_32(bytes: &[u8; 32]) -> (r: bool)
    ensures
        r == all_zero(bytes@),
{
    let mut index: usize = 0;
    while index < 32
        invariant
            index <= 32,
            bytes@.len() == 32,
            forall|i: int| 0 <= i < index ==> bytes@[i] == 0,
        decreases 32 - index,
    {
        if bytes[index] != 0 {
            return false;
        }
        index += 1;
    }
    true
}

/// Whether all 64 bytes are zero.
pub fn all_zero_64(bytes: &[u8; 64]) -> (r: bool)
    ensures
        r == all_zero(bytes@),
{
    let mut index: usize = 0;
    while index < 64
        invariant
            index <= 64,
            bytes@.len() == 64,
            forall|i: int| 0 <= i < index ==> bytes@[i] == 0,
        decreases 64 - index,
    {
        if bytes[index] != 0 {
            return false;
        }
        index += 1;
    }
    true
}

/// Byte-wise equality that always inspects every byte.
pub fn constant_time_eq<const LEN: usize>(left: &[u8; LEN], right: &[u8; LEN]) -> (r: bool)
    ensures
        r == (left@ == right@),
{
    let mut diff: u8 = 0;
    let mut index: usize = 0;
    while index < LEN
        invariant
            index <= LEN,
            left@.len() == LEN,
            right@.len() == LEN,
            (diff == 0) == (forall|i: int| 0 <= i < index ==> left@[i] == right@[i]),
        decreases LEN - index,
    {
        let a = left[index];
        let b = right[index];
        let d = diff;
        assert(((d | (a ^ b)) == 0) == (d == 0 && a == b)) by (bit_vector);
        diff = d | (a ^ b);
        index += 1;
    }
    proof {
        if diff == 0 {
            assert(left@ =~= right@);
        }
    }
    diff == 0
}

} // verus!
