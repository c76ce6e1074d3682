use aesynx::abi::{CapId, ObjectId, PrincipalId, VirtAddr};
use aesynx::cap::capability::{CapAuditAction, CapAuditError, CapAuditEvent, CapAuditLog};
use aesynx::cap::derivation::{CapValidationError, DeriveError, DeriveRequest, ObjectBoundedRange};
use aesynx::cap::id::CapIdError;
use aesynx::cap::revocation::RevocationError;
use aesynx::cap::kind::CapKind;
use aesynx::cap::perms::CapPerms;
use aesynx::cap::table::{
    CapTableError, CapabilityTable, LiveAuthorityError, LiveAuthorityState, LiveAuthorityView,
};

#[derive(Default)]
struct TestAudit {
    events: [Option<CapAuditEvent>; 4],
    len: usize,
}

impl TestAudit {
    fn len(&self) -> usize {
        self.len
    }

    fn first_action(&self) -> Option<CapAuditAction> {
        self.events[0].map(|event| event.action)
    }

    fn last_action(&self) -> Option<CapAuditAction> {
        if self.len == 0 {
            None
        } else {
            self.events[self.len - 1].map(|event| event.action)
        }
    }

    fn last_event(&self) -> Option<CapAuditEvent> {
        if self.len == 0 {
            None
        } else {
            self.events[self.len - 1]
        }
    }
}

impl CapAuditLog for TestAudit {
    fn record(&mut self, event: CapAuditEvent) -> Result<(), CapAuditError> {
        if self.len >= self.events.len() {
            return Err(CapAuditError::Rejected);
        }

        self.events[self.len] = Some(event);
        self.len += 1;
        Ok(())
    }
}

/// Every object is at generation 1, epoch 0: what `insert_root` below mints.
struct TestLiveAuthority;

impl TestLiveAuthority {
    fn matching_root() -> Self {
        TestLiveAuthority
    }
}

impl LiveAuthorityView for TestLiveAuthority {
    fn live_authority(&self, _object_id: ObjectId) -> Result<LiveAuthorityState, LiveAuthorityError> {
        Ok(LiveAuthorityState::new(1, 0))
    }
}

fn insert_root(table: &mut CapabilityTable<4>) -> Result<CapId, CapTableError> {
    table.insert_root(
        ObjectId::new(42),
        CapKind::Memory,
        PrincipalId::new(1),
        CapPerms::READ()
            .union(CapPerms::WRITE())
            .union(CapPerms::DERIVE())
            .union(CapPerms::GRANT())
            .union(CapPerms::REVOKE()),
        1,
        0,
    )
}

#[test]
fn table_grants_child_into_new_slot_with_audit() {
    let mut table = CapabilityTable::<4>::new();
    let root = insert_root(&mut table);
    let mut audit = TestAudit::default();
    let live = TestLiveAuthority::matching_root();

    if let Ok(root) = root {
        let child = table.grant_with_audit(root, PrincipalId::new(2), &live, &mut audit);

        assert!(child.is_ok());
        if let Ok(child) = child {
            assert!(table.check(child, CapPerms::READ()).is_ok());
            assert_eq!(
                table.check(child, CapPerms::GRANT()).map(|_| ()),
                Err(CapTableError::MissingPermission)
            );
            assert_eq!(audit.len(), 1);
            assert_eq!(audit.first_action(), Some(CapAuditAction::Grant));
            assert_eq!(table.occupied_slots(), 2);
        }
    }
}

#[test]
fn table_inserts_root_and_checks_permissions() {
    let mut table = CapabilityTable::<4>::new();
    let root = insert_root(&mut table);

    assert!(root.is_ok());
    if let Ok(root) = root {
        assert!(table.check(root, CapPerms::READ()).is_ok());
        assert_eq!(
            table.check(root, CapPerms::EXECUTE()).map(|_| ()),
            Err(CapTableError::MissingPermission)
        );
        assert_eq!(table.occupied_slots(), 1);
    }
}

#[test]
fn table_derives_child_into_new_slot_with_audit() {
    let mut table = CapabilityTable::<4>::new();
    let root = insert_root(&mut table);
    let mut audit = TestAudit::default();
    let live = TestLiveAuthority::matching_root();

    if let Ok(root) = root {
        let child = table.derive_with_audit(
            root,
            DeriveRequest::bounded(CapPerms::READ(), PrincipalId::new(2), ObjectBoundedRange::new_for_test(VirtAddr::new(0x1000), 0x1000)),
            &live,
            &mut audit,
        );

        assert!(child.is_ok());
        if let Ok(child) = child {
            assert!(table.check(child, CapPerms::READ()).is_ok());
            assert_eq!(
                table.check(child, CapPerms::WRITE()).map(|_| ()),
                Err(CapTableError::MissingPermission)
            );
            assert_eq!(audit.len(), 1);
            assert_eq!(audit.first_action(), Some(CapAuditAction::Derive));
            assert_eq!(table.occupied_slots(), 2);
        }
    }
}

#[test]
fn table_rejects_stale_ids_after_revoke() {
    let mut table = CapabilityTable::<4>::new();
    let root = insert_root(&mut table);
    let mut audit = TestAudit::default();
    let live = TestLiveAuthority::matching_root();

    if let Ok(root) = root {
        let child = table.derive_with_audit(
            root,
            DeriveRequest::bounded(CapPerms::READ(), PrincipalId::new(2), ObjectBoundedRange::new_for_test(VirtAddr::new(0x1000), 0x1000)),
            &live,
            &mut audit,
        );

        if let Ok(child) = child {
            assert_eq!(table.revoke_with_audit(root, child, &live, &mut audit), Ok(2));
            assert_eq!(
                table.check(root, CapPerms::READ()).map(|_| ()),
                Err(CapTableError::StaleId)
            );
            assert_eq!(
                table.check(child, CapPerms::READ()).map(|_| ()),
                Err(CapTableError::StaleId)
            );
            assert_eq!(table.occupied_slots(), 0);
            assert_eq!(audit.last_action(), Some(CapAuditAction::Revoke));
            assert_eq!(
                audit.last_event().map(|event| event.affected_slots),
                Some(2)
            );
        }
    }
}

#[test]
fn table_fails_closed_when_full() {
    let mut table = CapabilityTable::<1>::new();

    assert!(
        table
            .insert_root(
                ObjectId::new(1),
                CapKind::Object,
                PrincipalId::new(1),
                CapPerms::READ(),
                1,
                0,
            )
            .is_ok()
    );
    assert_eq!(
        table.insert_root(
            ObjectId::new(2),
            CapKind::Object,
            PrincipalId::new(1),
            CapPerms::READ(),
            1,
            0,
        ),
        Err(CapTableError::TableFull)
    );
}

#[test]
fn full_table_derive_does_not_emit_phantom_audit() {
    let mut table = CapabilityTable::<1>::new();
    let root = table.insert_root(
        ObjectId::new(1),
        CapKind::Memory,
        PrincipalId::new(1),
        CapPerms::READ().union(CapPerms::DERIVE()),
        1,
        0,
    );
    let mut audit = TestAudit::default();
    let live = TestLiveAuthority::matching_root();

    if let Ok(root) = root {
        assert_eq!(
            table.derive_with_audit(
                root,
                DeriveRequest::bounded(CapPerms::READ(), PrincipalId::new(1), ObjectBoundedRange::new_for_test(VirtAddr::new(0x1000), 0x1000)),
                &live,
                &mut audit,
            ),
            Err(CapTableError::TableFull)
        );
        assert_eq!(audit.len(), 0);
    }
}

#[test]
fn full_table_grant_does_not_emit_phantom_audit() {
    let mut table = CapabilityTable::<1>::new();
    let root = table.insert_root(
        ObjectId::new(1),
        CapKind::Object,
        PrincipalId::new(1),
        CapPerms::READ().union(CapPerms::GRANT()),
        1,
        0,
    );
    let mut audit = TestAudit::default();
    let live = TestLiveAuthority::matching_root();

    if let Ok(root) = root {
        assert_eq!(
            table.grant_with_audit(root, PrincipalId::new(2), &live, &mut audit),
            Err(CapTableError::TableFull)
        );
        assert_eq!(audit.len(), 0);
    }
}

#[test]
fn table_grants_child_into_receiver_table_with_audit() {
    let mut sender = CapabilityTable::<4>::new();
    let mut receiver = CapabilityTable::<2>::new();
    let root = insert_root(&mut sender);
    let mut audit = TestAudit::default();
    let live = TestLiveAuthority::matching_root();

    if let Ok(root) = root {
        let receiver_cap = sender.grant_to_table_with_audit(
            root,
            &mut receiver,
            PrincipalId::new(2),
            &live,
            &mut audit,
        );

        assert!(receiver_cap.is_ok());
        if let Ok(receiver_cap) = receiver_cap {
            assert_eq!(sender.occupied_slots(), 1);
            assert_eq!(receiver.occupied_slots(), 1);
            assert!(receiver.check(receiver_cap, CapPerms::READ()).is_ok());
            assert_eq!(
                receiver.check(receiver_cap, CapPerms::GRANT()).map(|_| ()),
                Err(CapTableError::MissingPermission)
            );
            assert_eq!(audit.len(), 1);
            assert_eq!(audit.first_action(), Some(CapAuditAction::Grant));
        }
    }
}

#[test]
fn cross_table_grant_rejects_missing_grant_permission_without_receiver_mutation() {
    let mut sender = CapabilityTable::<4>::new();
    let mut receiver = CapabilityTable::<2>::new();
    let source = sender.insert_root(
        ObjectId::new(42),
        CapKind::Memory,
        PrincipalId::new(1),
        CapPerms::READ(),
        1,
        0,
    );
    let mut audit = TestAudit::default();
    let live = TestLiveAuthority::matching_root();

    if let Ok(source) = source {
        assert_eq!(
            sender.grant_to_table_with_audit(
                source,
                &mut receiver,
                PrincipalId::new(2),
                &live,
                &mut audit,
            ),
            Err(CapTableError::MissingPermission)
        );
        assert_eq!(receiver.occupied_slots(), 0);
        assert_eq!(audit.len(), 0);
    }
}

#[test]
fn error_conversions_keep_their_meaning() {
    assert_eq!(
        CapTableError::from(CapIdError::ZeroGeneration),
        CapTableError::Id(CapIdError::ZeroGeneration)
    );
    assert_eq!(
        CapTableError::from(LiveAuthorityError::ObjectNotFound),
        CapTableError::LiveAuthority(LiveAuthorityError::ObjectNotFound)
    );
    assert_eq!(
        CapTableError::from(CapValidationError::Revoked),
        CapTableError::Revoke(RevocationError::AuthorityRevoked)
    );
    assert_eq!(
        RevocationError::from(CapValidationError::StaleGeneration),
        RevocationError::StaleAuthority
    );
    assert_eq!(
        CapTableError::from(DeriveError::ParentStaleGeneration),
        CapTableError::StaleId
    );
    assert_eq!(
        CapTableError::from(DeriveError::RangeEscalates),
        CapTableError::MissingPermission
    );
    assert_eq!(
        CapTableError::from(RevocationError::WrongObject),
        CapTableError::Revoke(RevocationError::WrongObject)
    );
}
