use vstd::prelude::*;

use crate::abi::ObjectId;
use crate::cap::capability::{Capability, CapabilityState, live_rejection};
use crate::cap::derivation::CapValidationError;
use crate::cap::perms::{CapPerms, PERM_REVOKE};

verus! {

#[derive(Clone, Copy, Debug, PartialEq, Eq, Structural)]
pub enum RevocationError {
    MissingRevokePermission,
    StaleAuthority,
    AuthorityRevoked,
    WrongObject,
    StoreUnavailable,
}

/// The revocation error a failed live validation maps to.
pub open spec fn revocation_error_of(error: CapValidationError) -> RevocationError {
    match error {
        CapValidationError::StaleGeneration => RevocationError::StaleAuthority,
        CapValidationError::Revoked => RevocationError::AuthorityRevoked,
    }
}

/// Maps a failed live validation to the revocation error it stands for.
pub fn revocation_error_from(error: CapValidationError) -> (r: RevocationError)
    ensures
        r == revocation_error_of(error),
{
    match error {
        CapValidationError::StaleGeneration => RevocationError::StaleAuthority,
        CapValidationError::Revoked => RevocationError::AuthorityRevoked,
    }
}

impl From<CapValidationError> for RevocationError {
    fn from(error: CapValidationError) -> (r: Self) {
        revocation_error_from(error)
    }
}

impl vstd::std_specs::convert::FromSpecImpl<CapValidationError> for RevocationError {
    open spec fn obeys_from_spec() -> bool {
        true
    }

    open spec fn from_spec(v: CapValidationError) -> Self {
        revocation_error_of(v)
    }
}

/// Why `authority` may not revoke `object_id`, if it may not.
pub open spec fn revoke_authority_rejection(authority: CapabilityState, object_id: ObjectId) -> Option<
    RevocationError,
> {
    if authority.object_id != object_id {
        Some(RevocationError::WrongObject)
    } else if !authority.perms.has(PERM_REVOKE) {
        Some(RevocationError::MissingRevokePermission)
    } else {
        None
    }
}

/// Checks that `authority` names `object_id` and holds the revoke
/// permission.
pub fn ensure_revoke_authority(authority: &Capability, object_id: ObjectId) -> (r: Result<
    (),
    RevocationError,
>)
    ensures
        match revoke_authority_rejection(authority@, object_id) {
            Some(e) => r == Err::<(), RevocationError>(e),
            None => r == Ok::<(), RevocationError>(()),
        },
{
    if authority.object_id() != object_id {
        return Err(RevocationError::WrongObject);
    }
    if !authority.perms().contains(CapPerms::REVOKE()) {
        return Err(RevocationError::MissingRevokePermission);
    }
    Ok(())
}

/// Store of per-object revocation epochs.
pub trait RevocationEpochStore: Sized {
    /// The revocation epoch the store holds for `object_id`.
    ///
    /// The default describes a store whose epochs all stay at zero, which
    /// can only refuse every increment; a store that counts describes itself
    /// by overriding it.
    closed spec fn spec_epoch(&self, object_id: ObjectId) -> u64 {
        0
    }

    /// Increments and returns the object's revocation epoch.
    ///
    /// Implementations must return `Err(RevocationError::StoreUnavailable)`
    /// instead of wrapping if incrementing the epoch would overflow `u64::MAX`.
    /// Wrapped epochs can make revoked capabilities spuriously validate again.
    /// No other object's epoch changes, and a failed call changes nothing.
    fn increment_epoch(&mut self, object_id: ObjectId) -> (r: Result<u64, RevocationError>)
        ensures
            old(self).spec_epoch(object_id) == u64::MAX ==> r == Err::<u64, RevocationError>(
                RevocationError::StoreUnavailable,
            ),
            r matches Ok(epoch) ==> {
                &&& epoch == old(self).spec_epoch(object_id) + 1
                &&& final(self).spec_epoch(object_id) == epoch
                &&& forall|other: ObjectId|
                    other != object_id ==> #[trigger] final(self).spec_epoch(other) == old(
                        self,
                    ).spec_epoch(other)
            },
            r is Err ==> *final(self) == *old(self),
    ;

    /// Increments the object's epoch when `authority` is live and may revoke
    /// it; the store is not touched otherwise.
    fn revoke_object_live(
        &mut self,
        authority: &Capability,
        object_id: ObjectId,
        current_generation: u32,
        current_epoch: u64,
    ) -> (r: Result<u64, RevocationError>)
        ensures
            match live_rejection(authority@, current_generation, current_epoch) {
                Some(e) => r == Err::<u64, RevocationError>(revocation_error_of(e)) && *final(self)
                    == *old(self),
                None => match revoke_authority_rejection(authority@, object_id) {
                    Some(e) => r == Err::<u64, RevocationError>(e) && *final(self) == *old(self),
                    None => {
                        &&& old(self).spec_epoch(object_id) == u64::MAX ==> r == Err::<
                            u64,
                            RevocationError,
                        >(RevocationError::StoreUnavailable)
                        &&& r matches Ok(epoch) ==> {
                            &&& epoch == old(self).spec_epoch(object_id) + 1
                            &&& final(self).spec_epoch(object_id) == epoch
                            &&& forall|other: ObjectId|
                                other != object_id ==> #[trigger] final(self).spec_epoch(other)
                                    == old(self).spec_epoch(other)
                        }
                        &&& r is Err ==> *final(self) == *old(self)
                    },
                },
            },
    {
        match authority.validate_live(current_generation, current_epoch) {
            Ok(()) => {},
            Err(error) => return Err(revocation_error_from(error)),
        }
        match ensure_revoke_authority(authority, object_id) {
            Ok(()) => {},
            Err(error) => return Err(error),
        }
        self.increment_epoch(object_id)
    }
}

} // verus!
