//! Firmware profiles of the virtual device.
use vstd::prelude::*;

verus! {

/// The command and algorithm surface of the virtual device.
///
/// The two asymmetric profiles exist only to exercise client fallback
/// selection.
#[derive(Clone, Copy, Debug, PartialEq, Eq, Structural)]
pub enum FirmwareProfile {
    YubiHsm2,
    SecureChannel,
    Full,
    TestPrefixedEcdh,
    TestSessionObjects,
}

impl FirmwareProfile {
    /// The profile of a build that selects no extension.
    pub fn compiled() -> (profile: FirmwareProfile)
        ensures
            profile == FirmwareProfile::select(false, false, false, false),
            profile == FirmwareProfile::YubiHsm2,
    {
        FirmwareProfile::YubiHsm2
    }

    /// The most capable profile among those selected: `full` before the secure
    /// channel, which both extensions together amount to, before either
    /// extension alone.
    pub open spec fn select(
        full: bool,
        secure_channel: bool,
        prefixed_ecdh: bool,
        session_objects: bool,
    ) -> FirmwareProfile {
        if full {
            FirmwareProfile::Full
        } else if secure_channel || (prefixed_ecdh && session_objects) {
            FirmwareProfile::SecureChannel
        } else if prefixed_ecdh {
            FirmwareProfile::TestPrefixedEcdh
        } else if session_objects {
            FirmwareProfile::TestSessionObjects
        } else {
            FirmwareProfile::YubiHsm2
        }
    }

    /// Selects the most capable of the requested profiles.
    pub fn selected(
        full: bool,
        secure_channel: bool,
        prefixed_ecdh: bool,
        session_objects: bool,
    ) -> (profile: FirmwareProfile)
        ensures
            profile == FirmwareProfile::select(
                full,
                secure_channel,
                prefixed_ecdh,
                session_objects,
            ),
    {
        if full {
            FirmwareProfile::Full
        } else if secure_channel || (prefixed_ecdh && session_objects) {
            FirmwareProfile::SecureChannel
        } else if prefixed_ecdh {
            FirmwareProfile::TestPrefixedEcdh
        } else if session_objects {
            FirmwareProfile::TestSessionObjects
        } else {
            FirmwareProfile::YubiHsm2
        }
    }

    /// Tells whether curves beyond the official registry are available.
    pub fn extended_curves(self) -> (enabled: bool)
        ensures
            enabled == (self == FirmwareProfile::Full),
    {
        matches!(self, FirmwareProfile::Full)
    }

    /// Tells whether a profile is one for post-quantum commands. No command of this
    /// library is one of them, so nothing here asks.
    pub fn post_quantum(self) -> (enabled: bool)
        ensures
            enabled == (self == FirmwareProfile::Full),
    {
        matches!(self, FirmwareProfile::Full)
    }

    /// Whether the prefixed ECDH derivation is available.
    pub open spec fn has_prefixed_ecdh(self) -> bool {
        self == FirmwareProfile::SecureChannel || self == FirmwareProfile::Full || self
            == FirmwareProfile::TestPrefixedEcdh
    }

    /// Tells whether the prefixed ECDH derivation is available.
    pub fn prefixed_ecdh(self) -> (enabled: bool)
        ensures
            enabled == self.has_prefixed_ecdh(),
    {
        matches!(
            self,
            FirmwareProfile::SecureChannel | FirmwareProfile::Full | FirmwareProfile::TestPrefixedEcdh
        )
    }

    /// Whether volatile session objects are available.
    pub open spec fn has_session_objects(self) -> bool {
        self == FirmwareProfile::SecureChannel || self == FirmwareProfile::Full || self
            == FirmwareProfile::TestSessionObjects
    }

    /// Tells whether volatile session objects are available.
    pub fn session_objects(self) -> (enabled: bool)
        ensures
            enabled == self.has_session_objects(),
    {
        matches!(
            self,
            FirmwareProfile::SecureChannel
                | FirmwareProfile::Full
                | FirmwareProfile::TestSessionObjects
        )
    }

    /// Tells whether RSA keys may wrap key material without an AES key between.
    pub fn direct_rsa_wrap(self) -> (enabled: bool)
        ensures
            enabled == (self == FirmwareProfile::Full),
    {
        matches!(self, FirmwareProfile::Full)
    }
}

/// A profile offers what each selected profile offers: selecting more never
/// takes an extension away.
pub proof fn selection_keeps_every_requested_extension(
    full: bool,
    secure_channel: bool,
    prefixed_ecdh: bool,
    session_objects: bool,
)
    ensures
        FirmwareProfile::select(
            full,
            secure_channel,
            prefixed_ecdh,
            session_objects,
        ).has_prefixed_ecdh() <==> full || secure_channel || prefixed_ecdh,
        FirmwareProfile::select(
            full,
            secure_channel,
            prefixed_ecdh,
            session_objects,
        ).has_session_objects() <==> full || secure_channel || session_objects,
{
}

} // verus!
