//! What a session may do with which objects.
use crate::capability::{Capability, CapabilitySet};
use crate::error::{DeviceError, Result};
use crate::object::{InfoModel, ObjectInfo, ObjectRecord};
use vstd::prelude::*;

verus! {

/// Immutable authorization snapshot attached to an established secure session.
#[derive(Clone, Copy, Debug, PartialEq, Eq, Structural)]
pub struct SessionAuthorization {
    pub authentication_key_id: u16,
    pub capabilities: CapabilitySet,
    pub delegated_capabilities: CapabilitySet,
    pub domains: u16,
}

impl SessionAuthorization {
    /// Whether the session has a capability.
    pub open spec fn may(self, capability: Capability) -> core::result::Result<(), DeviceError> {
        if self.capabilities.has(capability.byte()) {
            Ok(())
        } else {
            Err(DeviceError::InsufficientPermissions)
        }
    }

    /// Whether the session shares a domain with an object.
    pub open spec fn sees(self, object: InfoModel) -> bool {
        self.domains & object.domains != 0
    }

    /// Whether the session finds an object. One of other domains is
    /// indistinguishable from a missing one.
    pub open spec fn finds(self, object: InfoModel) -> core::result::Result<(), DeviceError> {
        if self.sees(object) {
            Ok(())
        } else {
            Err(DeviceError::ObjectNotFound)
        }
    }

    /// Whether the session may use an object: it finds the object, and both
    /// have the capability.
    pub open spec fn may_use(
        self,
        object: InfoModel,
        session_capability: Capability,
        object_capability: Capability,
    ) -> core::result::Result<(), DeviceError> {
        if !self.sees(object) {
            Err(DeviceError::ObjectNotFound)
        } else if !self.capabilities.has(session_capability.byte()) || !object.capabilities.has(
            object_capability.byte(),
        ) {
            Err(DeviceError::InsufficientPermissions)
        } else {
            Ok(())
        }
    }

    /// Whether the session may create an object: it has the capability, the
    /// object is valid, and its domains and capabilities lie within the
    /// session's domains and delegated capabilities.
    pub open spec fn may_create(
        self,
        requested: InfoModel,
        command_capability: Capability,
    ) -> core::result::Result<(), DeviceError> {
        if !self.capabilities.has(command_capability.byte()) {
            Err(DeviceError::InsufficientPermissions)
        } else if requested.validated() is Err {
            requested.validated()
        } else if requested.domains & !self.domains != 0 || !self.delegated_capabilities.covers(
            requested.capabilities,
        ) || !self.delegated_capabilities.covers(requested.delegated_capabilities) {
            Err(DeviceError::InsufficientPermissions)
        } else {
            Ok(())
        }
    }

    /// Whether the session may delete an object: it finds the object and has
    /// the delete capability of the object's type.
    pub open spec fn may_delete(self, object: InfoModel) -> core::result::Result<
        (),
        DeviceError,
    > {
        if !self.sees(object) {
            Err(DeviceError::ObjectNotFound)
        } else {
            self.may(object.object_type.deletion())
        }
    }

    /// Whether the session may export an object under a wrap key: it may use
    /// the wrap key for that, finds the object, and the object is exportable
    /// with capabilities that the wrap key delegates.
    pub open spec fn may_export(
        self,
        object: InfoModel,
        wrap_key: InfoModel,
    ) -> core::result::Result<
        (),
        DeviceError,
    > {
        let wrap = self.may_use(wrap_key, Capability::ExportWrapped, Capability::ExportWrapped);
        if wrap is Err {
            wrap
        } else if !self.sees(object) {
            Err(DeviceError::ObjectNotFound)
        } else if !object.capabilities.has(Capability::ExportableUnderWrap.byte())
            || !wrap_key.delegated_capabilities.covers(object.capabilities) {
            Err(DeviceError::InsufficientPermissions)
        } else {
            Ok(())
        }
    }

    /// Whether the session may create an unwrapped object: it may create it
    /// under the import capability, with capabilities that the wrap key
    /// delegates.
    pub open spec fn may_import(
        self,
        requested: InfoModel,
        wrap_key: InfoModel,
    ) -> core::result::Result<(), DeviceError> {
        let create = self.may_create(requested, Capability::ImportWrapped);
        if create is Err {
            create
        } else if !wrap_key.delegated_capabilities.covers(requested.capabilities) {
            Err(DeviceError::InsufficientPermissions)
        } else {
            Ok(())
        }
    }

    /// Checks that the session has a capability.
    pub fn require_capability(self, capability: Capability) -> (allowed: Result<()>)
        ensures
            allowed == self.may(capability),
    {
        if self.capabilities.contains(capability) {
            Ok(())
        } else {
            Err(DeviceError::InsufficientPermissions)
        }
    }

    /// Tells whether the session shares a domain with an object.
    pub fn can_see(self, object: &ObjectInfo) -> (visible: bool)
        ensures
            visible == self.sees(object@),
    {
        self.domains & object.domains != 0
    }

    /// Checks that the session finds an object.
    pub fn require_visible(self, object: &ObjectInfo) -> (allowed: Result<()>)
        ensures
            allowed == self.finds(object@),
    {
        if self.can_see(object) {
            Ok(())
        } else {
            Err(DeviceError::ObjectNotFound)
        }
    }

    /// Checks that the session may use an object.
    pub fn authorize_use(
        self,
        object: &ObjectInfo,
        session_capability: Capability,
        object_capability: Capability,
    ) -> (allowed: Result<()>)
        ensures
            allowed == self.may_use(object@, session_capability, object_capability),
    {
        self.require_visible(object)?;
        self.require_capability(session_capability)?;
        if object.capabilities.contains(object_capability) {
            Ok(())
        } else {
            Err(DeviceError::InsufficientPermissions)
        }
    }

    /// Checks that the session may create an object.
    pub fn authorize_create(
        self,
        requested: &ObjectInfo,
        command_capability: Capability,
    ) -> (allowed: Result<()>)
        ensures
            allowed == self.may_create(requested@, command_capability),
    {
        self.require_capability(command_capability)?;
        requested.validate()?;
        if requested.domains & !self.domains != 0 || !requested.capabilities.is_subset_of(
            self.delegated_capabilities,
        ) || !requested.delegated_capabilities.is_subset_of(self.delegated_capabilities) {
            return Err(DeviceError::InsufficientPermissions);
        }
        Ok(())
    }

    /// Checks that the session may delete an object.
    pub fn authorize_delete(self, object: &ObjectInfo) -> (allowed: Result<()>)
        ensures
            allowed == self.may_delete(object@),
    {
        let capability = object.object_type.deletion_capability();
        self.require_visible(object)?;
        self.require_capability(capability)
    }

    /// Checks that the session may export an object under a wrap key.
    pub fn authorize_wrapped_export(
        self,
        object: &ObjectRecord,
        wrap_key: &ObjectRecord,
    ) -> (allowed: Result<()>)
        ensures
            allowed == self.may_export(object@.info, wrap_key@.info),
    {
        self.authorize_use(&wrap_key.info, Capability::ExportWrapped, Capability::ExportWrapped)?;
        self.require_visible(&object.info)?;
        if !object.info.capabilities.contains(Capability::ExportableUnderWrap)
            || !object.info.capabilities.is_subset_of(wrap_key.info.delegated_capabilities) {
            return Err(DeviceError::InsufficientPermissions);
        }
        Ok(())
    }

    /// Checks that the session may create an unwrapped object.
    pub fn authorize_wrapped_creation(
        self,
        requested: &ObjectInfo,
        wrap_key: &ObjectRecord,
    ) -> (allowed: Result<()>)
        ensures
            allowed == self.may_import(requested@, wrap_key@.info),
    {
        self.authorize_create(requested, Capability::ImportWrapped)?;
        if !requested.capabilities.is_subset_of(wrap_key.info.delegated_capabilities) {
            return Err(DeviceError::InsufficientPermissions);
        }
        Ok(())
    }
}

/// Using an object takes the capability on the session, the capability on the
/// object, and a domain that both share; nothing else.
pub proof fn use_needs_session_object_and_domain(
    session: SessionAuthorization,
    object: InfoModel,
    capability: Capability,
)
    ensures
        session.may_use(object, capability, capability) is Ok <==> session.capabilities.has(
            capability.byte(),
        ) && object.capabilities.has(capability.byte()) && session.sees(object),
{
}

/// An object of other domains answers as a missing one does, whatever is asked
/// of it.
pub proof fn cross_domain_objects_are_hidden(
    session: SessionAuthorization,
    object: InfoModel,
    capability: Capability,
)
    requires
        !session.sees(object),
    ensures
        session.finds(object) == Err::<(), DeviceError>(DeviceError::ObjectNotFound),
        session.may_use(object, capability, capability) == Err::<(), DeviceError>(
            DeviceError::ObjectNotFound,
        ),
        session.may_delete(object) == Err::<(), DeviceError>(DeviceError::ObjectNotFound),
{
}

/// Whatever a session may create stays within its ceilings: every domain of the
/// object is one of the session's, and the object has and delegates only what
/// the session delegates.
pub proof fn created_objects_stay_within_the_ceilings(
    session: SessionAuthorization,
    requested: InfoModel,
    capability: Capability,
)
    requires
        session.may_create(requested, capability) is Ok,
    ensures
        requested.domains & session.domains == requested.domains,
        requested.domains != 0,
        session.delegated_capabilities.covers(requested.capabilities),
        session.delegated_capabilities.covers(requested.delegated_capabilities),
        session.sees(requested),
{
    let (wanted, own) = (requested.domains, session.domains);
    assert(wanted & !own == 0 ==> wanted & own == wanted) by (bit_vector);
    assert(wanted & own == own & wanted) by (bit_vector);
}

/// Deleting takes the session's capability and a shared domain; the object's
/// own capabilities have no say.
pub proof fn deletion_ignores_object_capabilities(
    session: SessionAuthorization,
    object: InfoModel,
    capabilities: CapabilitySet,
)
    ensures
        session.may_delete(object) == session.may_delete(InfoModel { capabilities, ..object }),
        session.may_delete(object) is Ok <==> session.sees(object) && session.capabilities.has(
            object.object_type.deletion().byte(),
        ),
{
}

/// What may be exported under a wrap key may be created from it again by a
/// session with the import capability whose ceilings hold the object.
pub proof fn exportable_objects_may_be_imported(
    session: SessionAuthorization,
    object: InfoModel,
    wrap_key: InfoModel,
)
    requires
        session.may_export(object, wrap_key) is Ok,
        session.may_create(object, Capability::ImportWrapped) is Ok,
    ensures
        session.may_import(object, wrap_key) is Ok,
{
}

} // verus!
