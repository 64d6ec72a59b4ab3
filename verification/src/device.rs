//! The state of a device.
use crate::algorithm::Algorithm;
use crate::audit::{
    command_can_be_audited, is_auditable, AuditEntry, AuditModel, AuditState, EntryModel,
};
use crate::authorization::SessionAuthorization;
use crate::bytes::{append, contains, copied, u16_at};
use crate::capability::CapabilitySet;
use crate::engine::{
    fail, key_from, lift, run, settled, sized_from, stopped, x25519_from, Answers, EngineReply,
    EngineRequest, Halt, HaltModel, Operation, RequestModel, Run, StopModel,
};
use crate::error::{DeviceError, Result};
use crate::firmware::FirmwareProfile;
use crate::history::{next_generation, SequenceHistory};
use crate::keys::{key_kind, EcCurve, KeyKind, SigningKey, SigningKeyModel};
use crate::object::{
    AuthenticationKeyMaterial, InfoModel, MaterialModel, ObjectInfo, ObjectKey, ObjectMaterial,
    ObjectRecord, ObjectType, RecordModel,
};
use crate::options::{
    fips_disallowed_algorithm, lookup_option, option_value, outside_fips, DeviceOptions,
    OptionsModel, OPTION_OFF, OPTION_ON,
};
use crate::protocol::CommandCode;
use crate::session::{
    random_secret_key, SessionEntry, SessionModel, AUTHENTICATION_ALGORITHM_AES128_YUBICO,
};
use crate::session_object::{SessionObject, VolatileModel};
use std::collections::BTreeMap;
use vstd::prelude::*;

verus! {

/// How many objects a device has room for.
pub const MAX_OBJECTS: usize = 256;

/// How many sessions a device has at most.
pub const MAX_SESSIONS: u8 = 16;

/// How long a session lives unused, in nanoseconds.
pub const SESSION_INACTIVITY_TIMEOUT: u64 = 30_000_000_000;

/// What a device is.
#[derive(Clone, Debug, PartialEq, Eq)]
pub struct DeviceConfig {
    pub version: [u8; 3],
    pub serial: u32,
    pub log_capacity: u8,
    pub algorithms: Vec<u8>,
    pub part_number: [u8; 13],
}

/// What a device's configuration says.
#[verifier::ext_equal]
pub struct ConfigModel {
    pub version: Seq<u8>,
    pub serial: u32,
    pub log_capacity: u8,
    pub algorithms: Seq<u8>,
    pub part_number: Seq<u8>,
}

impl View for DeviceConfig {
    type V = ConfigModel;

    open spec fn view(&self) -> ConfigModel {
        ConfigModel {
            version: self.version@,
            serial: self.serial,
            log_capacity: self.log_capacity,
            algorithms: self.algorithms@,
            part_number: self.part_number@,
        }
    }
}

/// The numbers of the algorithms that a firmware profile knows.
pub open spec fn known_numbers(algorithms: Seq<Algorithm>, firmware: FirmwareProfile) -> Seq<u8>
    decreases algorithms.len(),
{
    if algorithms.len() == 0 {
        Seq::empty()
    } else {
        let before = known_numbers(algorithms.drop_last(), firmware);
        if algorithms.last().available(firmware) {
            before.push(algorithms.last().byte())
        } else {
            before
        }
    }
}

impl ConfigModel {
    /// The configuration of a new device under a firmware profile: the official
    /// registry and the extensions of the profile.
    pub open spec fn factory(firmware: FirmwareProfile) -> ConfigModel {
        ConfigModel {
            version: seq![2u8, 5u8, 0u8],
            serial: 12_345_678,
            log_capacity: 62,
            algorithms: known_numbers(Algorithm::OFFICIAL@.push(Algorithm::X25519), firmware),
            part_number: seq![
                0x37u8,
                0x38u8,
                0x43u8,
                0x4cu8,
                0x55u8,
                0x46u8,
                0x58u8,
                0x35u8,
                0x30u8,
                0x30u8,
                0x30u8,
                0x50u8,
                0u8,
            ],
        }
    }
}

impl DeviceConfig {
    /// Returns the configuration of a new device under a firmware profile.
    pub fn for_firmware(firmware: FirmwareProfile) -> (config: DeviceConfig)
        ensures
            config@ == ConfigModel::factory(firmware),
    {
        let official: [Algorithm; 55] = Algorithm::OFFICIAL;
        let mut algorithms: Vec<u8> = Vec::new();
        let ghost all = Algorithm::OFFICIAL@.push(Algorithm::X25519);
        let mut index: usize = 0;
        assert(algorithms@ =~= known_numbers(all.subrange(0, 0), firmware));
        while index < 55
            invariant
                index <= 55,
                official@ == Algorithm::OFFICIAL@,
                all == Algorithm::OFFICIAL@.push(Algorithm::X25519),
                algorithms@ == known_numbers(all.subrange(0, index as int), firmware),
            decreases 55 - index,
        {
            let algorithm = official[index];
            proof {
                let longer = all.subrange(0, index + 1);
                assert(longer.drop_last() =~= all.subrange(0, index as int));
                assert(longer.last() == algorithm);
            }
            if algorithm.supported_by_firmware(firmware) {
                algorithms.push(algorithm.to_byte());
            }
            index = index + 1;
        }
        if Algorithm::X25519.supported_by_firmware(firmware) {
            algorithms.push(Algorithm::X25519.to_byte());
        }
        assert(all.drop_last() =~= all.subrange(0, 55));
        let config = DeviceConfig {
            version: [2, 5, 0],
            serial: 12_345_678,
            log_capacity: 62,
            algorithms,
            part_number: [
                0x37,
                0x38,
                0x43,
                0x4c,
                0x55,
                0x46,
                0x58,
                0x35,
                0x30,
                0x30,
                0x30,
                0x50,
                0,
            ],
        };
        assert(config.version@ =~= ConfigModel::factory(firmware).version);
        assert(config.part_number@ =~= ConfigModel::factory(firmware).part_number);
        config
    }

    /// Copies the configuration.
    pub fn copied(&self) -> (config: DeviceConfig)
        ensures
            config@ == self@,
    {
        DeviceConfig {
            version: self.version,
            serial: self.serial,
            log_capacity: self.log_capacity,
            algorithms: copied(&self.algorithms),
            part_number: self.part_number,
        }
    }
}

impl Default for DeviceConfig {
    fn default() -> (config: DeviceConfig)
        ensures
            config@ == ConfigModel::factory(FirmwareProfile::YubiHsm2),
    {
        DeviceConfig::for_firmware(FirmwareProfile::compiled())
    }
}

/// A device: its objects, its sessions and what it has been told.
#[derive(Clone, Debug)]
pub struct Device {
    pub config: DeviceConfig,
    pub firmware: FirmwareProfile,
    /// The objects by the number of their key.
    pub objects: BTreeMap<u32, ObjectRecord>,
    pub sessions: BTreeMap<u8, SessionEntry>,
    pub device_static_private: SigningKey,
    pub state_epoch: u64,
    pub sequence_history: SequenceHistory,
    pub options: DeviceOptions,
    pub audit: AuditState,
    pub persistent_change: bool,
}

/// What a device says.
#[verifier::ext_equal]
pub struct DeviceModel {
    pub config: ConfigModel,
    pub firmware: FirmwareProfile,
    pub objects: Map<u32, RecordModel>,
    pub sessions: Map<u8, SessionModel>,
    pub key: SigningKeyModel,
    pub epoch: u64,
    pub history: Map<u16, u64>,
    pub options: OptionsModel,
    pub audit: AuditModel,
    pub changed: bool,
}

/// What objects say.
pub open spec fn records(objects: Map<u32, ObjectRecord>) -> Map<u32, RecordModel> {
    objects.map_values(|record: ObjectRecord| record@)
}

/// What sessions say.
pub open spec fn session_models(sessions: Map<u8, SessionEntry>) -> Map<u8, SessionModel> {
    sessions.map_values(|session: SessionEntry| session@)
}

impl View for Device {
    type V = DeviceModel;

    open spec fn view(&self) -> DeviceModel {
        DeviceModel {
            config: self.config@,
            firmware: self.firmware,
            objects: records(self.objects@),
            sessions: session_models(self.sessions@),
            key: self.device_static_private@,
            epoch: self.state_epoch,
            history: self.sequence_history@,
            options: self.options@,
            audit: self.audit@,
            changed: self.persistent_change,
        }
    }
}

/// What a plain result says.
pub open spec fn viewed<T: View>(
    result: core::result::Result<T, DeviceError>,
) -> core::result::Result<
    T::V,
    DeviceError,
> {
    match result {
        Ok(value) => Ok(value@),
        Err(error) => Err(error),
    }
}

/// The factory authentication key: its two static keys, derived from the
/// documented password.
pub open spec fn factory_keys() -> Seq<u8> {
    seq![
        0x09u8,
        0x0bu8,
        0x47u8,
        0xdbu8,
        0xedu8,
        0x59u8,
        0x56u8,
        0x54u8,
        0x90u8,
        0x1du8,
        0xeeu8,
        0x1cu8,
        0xc6u8,
        0x55u8,
        0xe4u8,
        0x20u8,
        0x59u8,
        0x2fu8,
        0xd4u8,
        0x83u8,
        0xf7u8,
        0x59u8,
        0xe2u8,
        0x99u8,
        0x09u8,
        0xa0u8,
        0x4cu8,
        0x45u8,
        0x05u8,
        0xd2u8,
        0xceu8,
        0x0au8,
    ]
}

/// The label of the factory authentication key: "DEFAULT AUTHKEY CHANGE THIS".
pub open spec fn factory_label() -> Seq<u8> {
    seq![
        0x44u8,
        0x45u8,
        0x46u8,
        0x41u8,
        0x55u8,
        0x4cu8,
        0x54u8,
        0x20u8,
        0x41u8,
        0x55u8,
        0x54u8,
        0x48u8,
        0x4bu8,
        0x45u8,
        0x59u8,
        0x20u8,
        0x43u8,
        0x48u8,
        0x41u8,
        0x4eu8,
        0x47u8,
        0x45u8,
        0x20u8,
        0x54u8,
        0x48u8,
        0x49u8,
        0x53u8,
    ]
}

/// The object that every new device has: an authentication key with every
/// capability in every domain.
pub open spec fn factory_record() -> RecordModel {
    RecordModel {
        info: InfoModel {
            capabilities: CapabilitySet::full(),
            id: 1,
            length: 40,
            domains: 0xffff,
            object_type: ObjectType::AuthenticationKey,
            algorithm: AUTHENTICATION_ALGORITHM_AES128_YUBICO,
            sequence: 0,
            origin: 2,
            label: factory_label(),
            delegated_capabilities: CapabilitySet::full(),
        },
        material: MaterialModel::Symmetric(factory_keys()),
    }
}

/// The key of the object that every new device has.
pub open spec fn factory_key() -> ObjectKey {
    ObjectKey { object_type: ObjectType::AuthenticationKey, id: 1 }
}

/// Makes the object that every new device has.
fn make_factory_record() -> (record: ObjectRecord)
    ensures
        record@ == factory_record(),
{
    let label: Vec<u8> = vec![
        0x44,
        0x45,
        0x46,
        0x41,
        0x55,
        0x4c,
        0x54,
        0x20,
        0x41,
        0x55,
        0x54,
        0x48,
        0x4b,
        0x45,
        0x59,
        0x20,
        0x43,
        0x48,
        0x41,
        0x4e,
        0x47,
        0x45,
        0x20,
        0x54,
        0x48,
        0x49,
        0x53,
    ];
    let keys: Vec<u8> = vec![
        0x09,
        0x0b,
        0x47,
        0xdb,
        0xed,
        0x59,
        0x56,
        0x54,
        0x90,
        0x1d,
        0xee,
        0x1c,
        0xc6,
        0x55,
        0xe4,
        0x20,
        0x59,
        0x2f,
        0xd4,
        0x83,
        0xf7,
        0x59,
        0xe2,
        0x99,
        0x09,
        0xa0,
        0x4c,
        0x45,
        0x05,
        0xd2,
        0xce,
        0x0a,
    ];
    assert(label@ =~= factory_label());
    assert(keys@ =~= factory_keys());
    ObjectRecord {
        info: ObjectInfo {
            capabilities: CapabilitySet::all(),
            id: 1,
            length: 40,
            domains: 0xffff,
            object_type: ObjectType::AuthenticationKey,
            algorithm: AUTHENTICATION_ALGORITHM_AES128_YUBICO,
            sequence: 0,
            origin: 2,
            label,
            delegated_capabilities: CapabilitySet::all(),
        },
        material: ObjectMaterial::Authentication(AuthenticationKeyMaterial::Symmetric(keys)),
    }
}

/// What a command changes when it is done.
#[derive(Clone, Debug)]
pub enum Effect {
    Nothing,
    /// Writes an object as the next generation of its number.
    Write(ObjectRecord),
    Remove(ObjectKey),
    TrimLog(u16),
    SetOptions(DeviceOptions),
    /// Back to a new device, with a new key.
    Reset(SigningKey),
    /// Adds a volatile object to the session.
    Add(u64, SessionObject),
    /// Drops a volatile object from the session.
    Discard(u64),
}

/// What an effect says.
#[verifier::ext_equal]
pub enum EffectModel {
    Nothing,
    Write(RecordModel),
    Remove(ObjectKey),
    TrimLog(u16),
    SetOptions(OptionsModel),
    Reset(SigningKeyModel),
    Add(u64, VolatileModel),
    Discard(u64),
}

impl View for Effect {
    type V = EffectModel;

    open spec fn view(&self) -> EffectModel {
        match *self {
            Effect::Nothing => EffectModel::Nothing,
            Effect::Write(record) => EffectModel::Write(record@),
            Effect::Remove(key) => EffectModel::Remove(key),
            Effect::TrimLog(index) => EffectModel::TrimLog(index),
            Effect::SetOptions(options) => EffectModel::SetOptions(options@),
            Effect::Reset(key) => EffectModel::Reset(key@),
            Effect::Add(handle, object) => EffectModel::Add(handle, object@),
            Effect::Discard(handle) => EffectModel::Discard(handle),
        }
    }
}

/// What a command answers and what it changes.
#[derive(Clone, Debug)]
pub struct Outcome {
    pub data: Vec<u8>,
    pub effect: Effect,
}

/// What an outcome says.
#[verifier::ext_equal]
pub struct OutcomeModel {
    pub data: Seq<u8>,
    pub effect: EffectModel,
}

impl View for Outcome {
    type V = OutcomeModel;

    open spec fn view(&self) -> OutcomeModel {
        OutcomeModel { data: self.data@, effect: self.effect@ }
    }
}

/// The first random number that can be a new object's: neither zero nor the
/// highest, nor the number of an object of any type.
pub open spec fn drawn_id(
    objects: Map<u32, RecordModel>,
    replies: Seq<EngineReply>,
    used: nat,
) -> Run<u16>
    decreases replies.len() - used,
{
    match sized_from(replies, used, RequestModel::Random(2), 2, DeviceError::StorageFailed) {
        Ok((bytes, next)) => if is_free(objects, u16_at(bytes, 0)) {
            Ok((u16_at(bytes, 0), next))
        } else {
            drawn_id(objects, replies, next)
        },
        Err(halt) => Err(halt),
    }
}

/// Whether a number can be a new object's: neither zero nor the highest, nor the
/// number of an object of any type.
pub open spec fn is_free(objects: Map<u32, RecordModel>, id: u16) -> bool {
    &&& id != 0
    &&& id != 0xffff
    &&& forall|object_type: ObjectType| !#[trigger] is_taken(objects, object_type, id)
}

/// Whether a number is that of an object of a type.
pub open spec fn is_taken(
    objects: Map<u32, RecordModel>,
    object_type: ObjectType,
    id: u16,
) -> bool {
    objects.contains_key(ObjectKey { object_type, id }.number())
}

/// The typed form of an object's material: raw private-key material becomes the
/// key that the key engine makes of it.
pub open spec fn promoted(record: RecordModel, replies: Seq<EngineReply>, used: nat) -> Run<
    RecordModel,
> {
    if record.material is Secret && (record.info.object_type == ObjectType::AsymmetricKey
        || record.holds_private_key()) {
        match typed_material(record.info.algorithm, record.material->Secret_0, replies, used) {
            Ok((material, used)) => Ok((RecordModel { material, ..record }, used)),
            Err(halt) => Err(halt),
        }
    } else {
        Ok((record, used))
    }
}

/// The key that serialized private-key material of an algorithm stands for.
pub open spec fn typed_material(
    algorithm: u8,
    encoded: Seq<u8>,
    replies: Seq<EngineReply>,
    used: nat,
) -> Run<MaterialModel> {
    match Algorithm::of_byte(algorithm) {
        None => Err(HaltModel::Error(DeviceError::InvalidData, used)),
        Some(Algorithm::X25519) => match x25519_from(
            replies,
            used,
            RequestModel::keyed(Operation::ImportX25519, Seq::empty(), encoded),
            DeviceError::InvalidData,
        ) {
            Ok((key, used)) => Ok((MaterialModel::X25519Key(key), used)),
            Err(halt) => Err(halt),
        },
        Some(algorithm) => match KeyKind::named(algorithm) {
            None => Err(HaltModel::Error(DeviceError::InvalidData, used)),
            Some(kind) => if kind is Rsa && encoded.len() != kind.material_length() {
                Err(HaltModel::Error(DeviceError::InvalidData, used))
            } else {
                match key_from(
                    replies,
                    used,
                    RequestModel::keyed(Operation::ImportKey(kind), Seq::empty(), encoded),
                    kind,
                    DeviceError::InvalidData,
                ) {
                    Ok((key, used)) => Ok((MaterialModel::SigningKey(key), used)),
                    Err(halt) => Err(halt),
                }
            },
        },
    }
}

impl DeviceModel {
    /// Whether every object is consistent and stands under its own key.
    pub open spec fn valid(self) -> bool {
        forall|number: u32|
            #![trigger self.objects.contains_key(number)]
            #![trigger self.objects[number]]
            self.objects.contains_key(number) ==> self.objects[number].validated() is Ok
                && self.objects[number].info.key().number() == number
    }

    /// A device that was never used.
    pub open spec fn factory(
        config: ConfigModel,
        firmware: FirmwareProfile,
        key: SigningKeyModel,
    ) -> DeviceModel {
        DeviceModel {
            config,
            firmware,
            objects: Map::empty().insert(factory_key().number(), factory_record()),
            sessions: Map::empty(),
            key,
            epoch: 0,
            history: Map::empty().insert(1u16, 0u64),
            options: OptionsModel::factory(),
            audit: AuditModel::factory(),
            changed: false,
        }
    }

    /// The object of a key.
    pub open spec fn get(self, key: ObjectKey) -> core::result::Result<RecordModel, DeviceError> {
        if self.objects.contains_key(key.number()) {
            Ok(self.objects[key.number()])
        } else {
            Err(DeviceError::ObjectNotFound)
        }
    }

    /// The object of a key that a session finds.
    pub open spec fn found(
        self,
        authorization: SessionAuthorization,
        key: ObjectKey,
    ) -> core::result::Result<RecordModel, DeviceError> {
        match self.get(key) {
            Ok(record) => match authorization.finds(record.info) {
                Ok(()) => Ok(record),
                Err(error) => Err(error),
            },
            Err(error) => Err(error),
        }
    }

    /// Whether an algorithm is enabled: the firmware and the configuration know
    /// it, it is not switched off, and the mode of operation allows it.
    pub open spec fn enabled(self, algorithm: u8) -> bool {
        &&& Algorithm::of_byte(algorithm) matches Some(known) && known.available(self.firmware)
        &&& self.config.algorithms.contains(algorithm)
        &&& option_value(self.options.algorithm_toggle, algorithm, OPTION_ON) != OPTION_OFF
        &&& !(self.options.fips_mode != OPTION_OFF && outside_fips(algorithm))
    }

    /// The object of a type and number that a session finds and whose algorithm
    /// is enabled.
    pub open spec fn usable(
        self,
        authorization: SessionAuthorization,
        object_type: ObjectType,
        id: u16,
    ) -> core::result::Result<RecordModel, DeviceError> {
        match self.found(authorization, ObjectKey { object_type, id }) {
            Ok(record) => if self.enabled(record.info.algorithm) {
                Ok(record)
            } else {
                Err(DeviceError::InvalidData)
            },
            Err(error) => Err(error),
        }
    }

    /// The number of a new object: the requested one where it is free for the
    /// type, or a random free one where none is requested.
    pub open spec fn resolved(
        self,
        object_type: ObjectType,
        requested: u16,
        replies: Seq<EngineReply>,
        used: nat,
    ) -> Run<u16> {
        if requested == 0xffff {
            Err(HaltModel::Error(DeviceError::InvalidId, used))
        } else if requested != 0 {
            if self.objects.contains_key(ObjectKey { object_type, id: requested }.number()) {
                Err(HaltModel::Error(DeviceError::ObjectExists, used))
            } else {
                Ok((requested, used))
            }
        } else {
            drawn_id(self.objects, replies, used)
        }
    }

    /// Whether a command's use is audited.
    pub open spec fn audits(self, command: CommandCode) -> bool {
        is_auditable(command) && option_value(
            self.options.command_audit,
            command.byte(),
            OPTION_OFF,
        ) != OPTION_OFF
    }

    /// Whether the audit log is full.
    pub open spec fn log_full(self) -> bool {
        self.audit.full(self.config.log_capacity)
    }

    /// The device with an object written as the next generation of its number.
    pub open spec fn written(self, record: RecordModel) -> DeviceModel {
        let generation = next_generation(self.history, record.info.id);
        let numbered = RecordModel {
            info: InfoModel { sequence: (generation % 256) as u8, ..record.info },
            ..record
        };
        DeviceModel {
            objects: self.objects.insert(record.info.key().number(), numbered),
            history: self.history.insert(record.info.id, generation),
            ..self
        }
    }

    /// The device after a reset: as new, with a new key. Its identity, its
    /// epoch and what is yet to be saved stay.
    pub open spec fn reset(self, key: SigningKeyModel) -> DeviceModel {
        DeviceModel {
            epoch: self.epoch,
            changed: self.changed,
            ..DeviceModel::factory(self.config, self.firmware, key)
        }
    }

    /// The device after an effect.
    pub open spec fn applied(self, effect: EffectModel) -> DeviceModel {
        match effect {
            EffectModel::Nothing | EffectModel::Add(_, _) | EffectModel::Discard(_) => self,
            EffectModel::Write(record) => self.written(record),
            EffectModel::Remove(key) => DeviceModel {
                objects: self.objects.remove(key.number()),
                ..self
            },
            EffectModel::TrimLog(index) => DeviceModel {
                audit: self.audit.trimmed(index),
                ..self
            },
            EffectModel::SetOptions(options) => DeviceModel { options, ..self },
            EffectModel::Reset(key) => self.reset(key),
        }
    }

    /// The device with an entry in its audit log.
    pub open spec fn logged(self, entry: Option<EntryModel>) -> DeviceModel {
        match entry {
            Some(entry) => DeviceModel {
                audit: self.audit.appended(entry),
                changed: true,
                ..self
            },
            None => self,
        }
    }

    /// The device that has counted an authentication, where auditing is forced
    /// and the log has no room for it.
    pub open spec fn counted(self) -> DeviceModel {
        if self.options.force_audit != OPTION_OFF && self.log_full() {
            DeviceModel {
                audit: self.audit.with_unlogged_authentication(),
                changed: true,
                ..self
            }
        } else {
            self
        }
    }

    /// Whether a session is still alive.
    pub open spec fn alive(session: SessionModel, now: u64) -> bool {
        now - session.last_activity < SESSION_INACTIVITY_TIMEOUT
    }

    /// The device without the sessions that were not used for too long.
    pub open spec fn expired(self, now: u64) -> DeviceModel {
        DeviceModel {
            sessions: self.sessions.restrict(
                Set::new(
                    |sid: u8|
                        self.sessions.contains_key(sid) && DeviceModel::alive(
                            self.sessions[sid],
                            now,
                        ),
                ),
            ),
            ..self
        }
    }
}

/// Whether an effect leaves every object consistent.
pub open spec fn effect_is_valid(effect: EffectModel) -> bool {
    effect matches EffectModel::Write(record) ==> record.validated() is Ok
}

/// Consistent objects stay consistent, whatever a valid effect changes.
pub proof fn effects_keep_devices_valid(device: DeviceModel, effect: EffectModel)
    requires
        device.valid(),
        effect_is_valid(effect),
    ensures
        device.applied(effect).valid(),
{
    let after = device.applied(effect);
    assert forall|number: u32| after.objects.contains_key(number) implies {
        &&& after.objects[number].validated() is Ok
        &&& after.objects[number].info.key().number() == number
    } by {
        assert(device.objects.contains_key(number) ==> device.objects[number].validated() is Ok
            && device.objects[number].info.key().number() == number);
    }
}

impl Device {
    /// Whether every object is consistent and stands under its own key.
    pub open spec fn valid(self) -> bool {
        self@.valid()
    }

    /// Makes a device that was never used, with a new key.
    pub fn factory_default(
        config: DeviceConfig,
        firmware: FirmwareProfile,
        replies: &[EngineReply],
    ) -> (device: core::result::Result<Device, Halt>)
        ensures
            stopped(device) == settled(factory_run(config@, firmware, replies@)),
            device matches Ok(device) ==> device.valid(),
    {
        let mut answers = Answers::new(replies);
        let key = random_secret_key(&mut answers)?;
        Ok(Device::with_key(config, firmware, key))
    }

    /// Makes a device that was never used, with a given key.
    pub fn factory_default_with_device_static_private(
        config: DeviceConfig,
        firmware: FirmwareProfile,
        device_static_private: &[u8],
        replies: &[EngineReply],
    ) -> (device: core::result::Result<Device, Halt>)
        ensures
            stopped(device) == settled(
                keyed_run(config@, firmware, device_static_private@, replies@),
            ),
            device matches Ok(device) ==> device.valid(),
    {
        let mut answers = Answers::new(replies);
        let key = import_device_key(device_static_private, &mut answers)?;
        Ok(Device::with_key(config, firmware, key))
    }

    /// Makes a device that was never used.
    fn with_key(
        config: DeviceConfig,
        firmware: FirmwareProfile,
        key: SigningKey,
    ) -> (device: Device)
        ensures
            device.valid(),
            device@ == DeviceModel::factory(config@, firmware, key@),
    {
        let mut device = Device {
            config,
            firmware,
            objects: BTreeMap::new(),
            sessions: BTreeMap::new(),
            device_static_private: key,
            state_epoch: 0,
            sequence_history: SequenceHistory::default(),
            options: DeviceOptions::default(),
            audit: AuditState::factory(),
            persistent_change: false,
        };
        assert(device@.objects =~= Map::<u32, RecordModel>::empty());
        assert(device@.sessions =~= Map::<u8, SessionModel>::empty());
        device.install_factory_authentication_key();
        device
    }

    /// Installs the authentication key of a new device.
    fn install_factory_authentication_key(&mut self)
        ensures
            final(self)@ == (DeviceModel {
                objects: old(self)@.objects.insert(factory_key().number(), factory_record()),
                history: old(self)@.history.insert(1u16, 0u64),
                ..old(self)@
            }),
            old(self).valid() ==> final(self).valid(),
    {
        let record = make_factory_record();
        let key = record.info.key();
        let number: u32 = key.code();
        self.sequence_history.record(1, 0);
        self.objects.insert(number, record);
        assert(self@.objects =~= old(self)@.objects.insert(factory_key().number(), factory_record()));
        assert(factory_record().validated() is Ok);
        proof {
            if old(self).valid() {
                effects_of_insertion(old(self)@, number, factory_record());
            }
        }
    }

    /// Looks an object up.
    pub fn find(&self, key: ObjectKey) -> (record: Result<&ObjectRecord>)
        ensures
            viewed(record) == self@.get(key),
    {
        let number: u32 = key.code();
        let found = self.objects.get(&number);
        assert(found is Some <==> self@.objects.contains_key(number));
        match found {
            Some(record) => Ok(record),
            None => Err(DeviceError::ObjectNotFound),
        }
    }

    /// Tells whether there is an object.
    pub fn holds(&self, key: ObjectKey) -> (held: bool)
        ensures
            held == self@.objects.contains_key(key.number()),
    {
        let number: u32 = key.code();
        let held = self.objects.contains_key(&number);
        assert(held == self@.objects.contains_key(number));
        held
    }

    /// Returns an object.
    pub fn object(&self, key: ObjectKey) -> (record: Option<&ObjectRecord>)
        ensures
            match record {
                Some(record) => self@.get(key) == Ok::<RecordModel, DeviceError>(record@),
                None => !self@.objects.contains_key(key.number()),
            },
    {
        match self.find(key) {
            Ok(record) => Some(record),
            Err(_) => None,
        }
    }

    /// Looks up an object that a session finds.
    pub fn find_visible(
        &self,
        authorization: SessionAuthorization,
        key: ObjectKey,
    ) -> (record: Result<
        &ObjectRecord,
    >)
        ensures
            viewed(record) == self@.found(authorization, key),
    {
        let record = self.find(key)?;
        authorization.require_visible(&record.info)?;
        Ok(record)
    }

    /// Tells whether an algorithm is enabled.
    pub fn algorithm_enabled(&self, algorithm: u8) -> (enabled: bool)
        ensures
            enabled == self@.enabled(algorithm),
    {
        let known = match Algorithm::from_byte(algorithm) {
            Some(known) => known.supported_by_firmware(self.firmware),
            None => false,
        };
        known && contains(&self.config.algorithms, algorithm) && lookup_option(
            &self.options.algorithm_toggle,
            algorithm,
            OPTION_ON,
        ) != OPTION_OFF && !(self.options.fips_mode != OPTION_OFF && fips_disallowed_algorithm(
            algorithm,
        ))
    }

    /// Checks that an algorithm is enabled.
    pub fn require_algorithm_enabled(&self, algorithm: u8) -> (enabled: Result<()>)
        ensures
            enabled == (if self@.enabled(algorithm) {
                Ok(())
            } else {
                Err(DeviceError::InvalidData)
            }),
    {
        if self.algorithm_enabled(algorithm) {
            Ok(())
        } else {
            Err(DeviceError::InvalidData)
        }
    }

    /// Looks up an object that a session finds and whose algorithm is enabled.
    pub fn find_usable(
        &self,
        authorization: SessionAuthorization,
        object_type: ObjectType,
        id: u16,
    ) -> (record: Result<&ObjectRecord>)
        ensures
            viewed(record) == self@.usable(authorization, object_type, id),
    {
        let record = self.find_visible(authorization, ObjectKey { object_type, id })?;
        self.require_algorithm_enabled(record.info.algorithm)?;
        Ok(record)
    }

    /// Tells whether a number can be a new object's.
    fn id_is_free(&self, id: u16) -> (free: bool)
        ensures
            free == is_free(self@.objects, id),
    {
        if id == 0 || id == 0xffff {
            return false;
        }
        let opaque = self.holds(ObjectKey { object_type: ObjectType::Opaque, id });
        let authentication = self.holds(
            ObjectKey { object_type: ObjectType::AuthenticationKey, id },
        );
        let asymmetric = self.holds(ObjectKey { object_type: ObjectType::AsymmetricKey, id });
        let wrap = self.holds(ObjectKey { object_type: ObjectType::WrapKey, id });
        let hmac = self.holds(ObjectKey { object_type: ObjectType::HmacKey, id });
        let template = self.holds(ObjectKey { object_type: ObjectType::Template, id });
        let otp = self.holds(ObjectKey { object_type: ObjectType::OtpAeadKey, id });
        let symmetric = self.holds(ObjectKey { object_type: ObjectType::SymmetricKey, id });
        let public = self.holds(ObjectKey { object_type: ObjectType::PublicWrapKey, id });
        let taken = opaque || authentication || asymmetric || wrap || hmac || template || otp
            || symmetric || public;
        proof {
            if taken {
                let ghost objects = self@.objects;
                let object_type = if opaque {
                    ObjectType::Opaque
                } else if authentication {
                    ObjectType::AuthenticationKey
                } else if asymmetric {
                    ObjectType::AsymmetricKey
                } else if wrap {
                    ObjectType::WrapKey
                } else if hmac {
                    ObjectType::HmacKey
                } else if template {
                    ObjectType::Template
                } else if otp {
                    ObjectType::OtpAeadKey
                } else if symmetric {
                    ObjectType::SymmetricKey
                } else {
                    ObjectType::PublicWrapKey
                };
                assert(is_taken(objects, object_type, id));
            } else {
                assert forall|object_type: ObjectType|
                    !#[trigger] is_taken(self@.objects, object_type, id) by {
                    match object_type {
                        ObjectType::Opaque => {},
                        ObjectType::AuthenticationKey => {},
                        ObjectType::AsymmetricKey => {},
                        ObjectType::WrapKey => {},
                        ObjectType::HmacKey => {},
                        ObjectType::Template => {},
                        ObjectType::OtpAeadKey => {},
                        ObjectType::SymmetricKey => {},
                        ObjectType::PublicWrapKey => {},
                    }
                }
            }
        }
        !taken
    }

    /// Draws random numbers until one can be a new object's.
    fn random_available_id(&self, answers: &mut Answers) -> (id: core::result::Result<u16, Halt>)
        requires
            old(answers).valid(),
        ensures
            final(answers).valid(),
            final(answers).replies == old(answers).replies,
            run(id, final(answers).used) == drawn_id(
                self@.objects,
                old(answers).replies@,
                old(answers).used as nat,
            ),
    {
        let ghost start = answers.used as nat;
        loop
            invariant
                answers.valid(),
                answers.replies == old(answers).replies,
                start == old(answers).used,
                drawn_id(self@.objects, answers.replies@, start) == drawn_id(
                    self@.objects,
                    answers.replies@,
                    answers.used as nat,
                ),
            decreases answers.replies@.len() - answers.used,
        {
            let bytes: Vec<u8> = answers.sized(
                EngineRequest::Random(2),
                2,
                DeviceError::StorageFailed,
            )?;
            let id: u16 = crate::bytes::read_u16(&bytes, 0);
            if self.id_is_free(id) {
                return Ok(id);
            }
        }
    }

    /// Finds the number of a new object.
    pub fn resolve_id(
        &self,
        object_type: ObjectType,
        requested: u16,
        answers: &mut Answers,
    ) -> (id: core::result::Result<u16, Halt>)
        requires
            old(answers).valid(),
        ensures
            final(answers).valid(),
            final(answers).replies == old(answers).replies,
            run(id, final(answers).used) == self@.resolved(
                object_type,
                requested,
                old(answers).replies@,
                old(answers).used as nat,
            ),
    {
        if requested == 0xffff {
            return fail(DeviceError::InvalidId);
        }
        if requested != 0 {
            if self.holds(ObjectKey { object_type, id: requested }) {
                return fail(DeviceError::ObjectExists);
            }
            return Ok(requested);
        }
        self.random_available_id(answers)
    }

    /// Tells whether a command's use is audited.
    pub fn should_audit(&self, command: CommandCode) -> (audited: bool)
        ensures
            audited == self@.audits(command),
    {
        command_can_be_audited(command) && lookup_option(
            &self.options.command_audit,
            command.to_byte(),
            OPTION_OFF,
        ) != OPTION_OFF
    }

    /// Writes an object as the next generation of its number.
    fn write_object(&mut self, record: ObjectRecord)
        ensures
            final(self)@ == old(self)@.written(record@),
    {
        let mut record = record;
        let key = record.info.key();
        let number: u32 = key.code();
        let generation: u64 = self.sequence_history.next(key.id);
        record.info.sequence = (generation % 256) as u8;
        let ghost numbered = record@;
        self.sequence_history.record(key.id, generation);
        self.objects.insert(number, record);
        assert(self@.objects =~= old(self)@.objects.insert(number, numbered));
    }

    /// Puts the device back to new, with a new key.
    fn reset(&mut self, key: SigningKey)
        ensures
            final(self)@ == old(self)@.reset(key@),
    {
        self.objects.clear();
        self.sequence_history.clear();
        self.sessions.clear();
        self.device_static_private = key;
        self.options = DeviceOptions::default();
        self.audit = AuditState::factory();
        assert(self@.objects =~= Map::<u32, RecordModel>::empty());
        assert(self@.sessions =~= Map::<u8, SessionModel>::empty());
        self.install_factory_authentication_key();
    }

    /// Applies an effect to the device.
    pub fn apply(&mut self, effect: Effect)
        requires
            old(self).valid(),
            effect_is_valid(effect@),
        ensures
            final(self).valid(),
            final(self)@ == old(self)@.applied(effect@),
    {
        proof {
            effects_keep_devices_valid(self@, effect@);
        }
        match effect {
            Effect::Nothing => {},
            Effect::Add(_, _) => {},
            Effect::Discard(_) => {},
            Effect::Write(record) => {
                self.write_object(record);
            },
            Effect::Remove(key) => {
                let number: u32 = key.code();
                self.objects.remove(&number);
                assert(self@.objects =~= old(self)@.objects.remove(number));
            },
            Effect::TrimLog(index) => {
                self.audit.trim(index);
            },
            Effect::SetOptions(options) => {
                self.options = options;
            },
            Effect::Reset(key) => {
                self.reset(key);
            },
        }
    }

    /// Adds an entry to the audit log.
    pub fn log(&mut self, entry: Option<AuditEntry>)
        ensures
            final(self)@ == old(self)@.logged(
                match entry {
                    Some(entry) => Some(entry@),
                    None => None,
                },
            ),
            old(self).valid() ==> final(self).valid(),
    {
        if let Some(entry) = entry {
            self.audit.append(entry);
            self.persistent_change = true;
            assert(self@.objects == old(self)@.objects);
        }
    }

    /// Counts an authentication, where auditing is forced and the log has no
    /// room for it.
    pub fn record_unlogged_authentication_if_full(&mut self)
        ensures
            final(self)@ == old(self)@.counted(),
            old(self).valid() ==> final(self).valid(),
    {
        if self.options.force_audit != OPTION_OFF && self.audit.entries.len()
            >= self.config.log_capacity as usize {
            self.audit.count_unlogged_authentication();
            self.persistent_change = true;
        }
        assert(self@.objects == old(self)@.objects);
    }

    /// Installs or replaces an object as part of trusted device provisioning.
    /// Normal protocol clients must use the authorized PUT/GENERATE commands.
    ///
    /// Nothing changes unless the object is installed.
    pub fn provision_object(&mut self, object: ObjectRecord, replies: &[EngineReply]) -> (done:
        core::result::Result<(), Halt>)
        requires
            old(self).valid(),
        ensures
            final(self).valid(),
            match settled(provisioned(object@, replies@)) {
                Ok(record) => done is Ok && final(self)@ == (DeviceModel {
                    objects: old(self)@.objects.insert(record.info.key().number(), record),
                    history: old(self)@.history.insert(
                        record.info.id,
                        record.info.sequence as u64,
                    ),
                    changed: true,
                    ..old(self)@
                }),
                Err(stop) => stopped(done) == Err::<(), StopModel>(stop)
                    && *final(self) == *old(self),
            },
    {
        let mut answers = Answers::new(replies);
        let record = promote_private_material(object, &mut answers)?;
        lift(record.validate())?;
        let key = record.info.key();
        let number: u32 = key.code();
        let ghost installed = record@;
        self.sequence_history.record(key.id, record.info.sequence as u64);
        self.objects.insert(number, record);
        self.persistent_change = true;
        assert(self@.objects =~= old(self)@.objects.insert(number, installed));
        proof {
            effects_of_insertion(old(self)@, number, installed);
        }
        Ok(())
    }

    /// Returns how many sessions there are.
    pub fn active_session_count(&self) -> (count: usize)
        ensures
            count == self@.sessions.len(),
    {
        assert(self@.sessions.dom() =~= self.sessions@.dom());
        self.sessions.len()
    }

    /// Drops the sessions that were not used for too long.
    pub fn expire_inactive_sessions(&mut self, now: u64)
        ensures
            final(self)@ == old(self)@.expired(now),
            old(self).valid() ==> final(self).valid(),
    {
        let mut sid: u16 = 0;
        while sid < 256
            invariant
                sid <= 256,
                self@ == (DeviceModel { sessions: self@.sessions, ..old(self)@ }),
                forall|i: u8|
                    sid <= i ==> (#[trigger] self@.sessions.contains_key(i)
                        == old(self)@.sessions.contains_key(i)),
                forall|i: u8|
                    i < sid ==> (#[trigger] self@.sessions.contains_key(i) == (
                    old(self)@.sessions.contains_key(i) && DeviceModel::alive(
                        old(self)@.sessions[i],
                        now,
                    ))),
                forall|i: u8| #[trigger]
                    self@.sessions.contains_key(i) ==> self@.sessions[i] == old(self)@.sessions[i],
            decreases 256 - sid,
        {
            let number: u8 = sid as u8;
            let ghost before = self@.sessions;
            let idle = match self.sessions.get(&number) {
                Some(session) => now.saturating_sub(session.last_activity)
                    >= SESSION_INACTIVITY_TIMEOUT,
                None => false,
            };
            assert(before.contains_key(number) == old(self)@.sessions.contains_key(number));
            if idle {
                self.sessions.remove(&number);
                assert(self@.sessions =~= before.remove(number));
            }
            sid = sid + 1;
        }
        assert(self@.sessions =~= old(self)@.expired(now).sessions);
        assert(self@.objects == old(self)@.objects);
    }

    /// Drops every session. Objects stay as they are.
    pub fn clear_sessions(&mut self)
        ensures
            final(self)@ == (DeviceModel { sessions: Map::empty(), ..old(self)@ }),
            old(self).valid() ==> final(self).valid(),
    {
        self.sessions.clear();
        assert(self@.sessions =~= Map::<u8, SessionModel>::empty());
        assert(self@.objects == old(self)@.objects);
    }

    /// Puts a session under a number.
    pub fn keep_session(&mut self, sid: u8, session: SessionEntry)
        ensures
            final(self)@ == (DeviceModel {
                sessions: old(self)@.sessions.insert(sid, session@),
                ..old(self)@
            }),
            old(self).valid() ==> final(self).valid(),
    {
        self.sessions.insert(sid, session);
        assert(self@.sessions =~= old(self)@.sessions.insert(sid, session@));
        assert(self@.objects == old(self)@.objects);
    }

    /// Takes the session of a number out.
    pub fn take_session(&mut self, sid: u8) -> (session: Option<SessionEntry>)
        ensures
            match session {
                Some(session) => old(self)@.sessions.contains_key(sid) && session@
                    == old(self)@.sessions[sid],
                None => !old(self)@.sessions.contains_key(sid),
            },
            final(self)@ == (DeviceModel {
                sessions: old(self)@.sessions.remove(sid),
                ..old(self)@
            }),
            old(self).valid() ==> final(self).valid(),
    {
        let session = self.sessions.remove(&sid);
        assert(session is Some <==> old(self)@.sessions.contains_key(sid));
        assert(self@.sessions =~= old(self)@.sessions.remove(sid));
        assert(self@.objects == old(self)@.objects);
        session
    }

    /// Looks the session of a number up.
    pub fn session(&self, sid: u8) -> (session: Option<&SessionEntry>)
        ensures
            match session {
                Some(session) => self@.sessions.contains_key(sid) && self@.sessions[sid]
                    == session@,
                None => !self@.sessions.contains_key(sid),
            },
    {
        let found = self.sessions.get(&sid);
        assert(found is Some <==> self@.sessions.contains_key(sid));
        found
    }

    /// Takes the pending change for saving and advances the epoch.
    pub fn take_persistent_change(&mut self) -> (taken: Result<bool>)
        ensures
            match taken {
                Ok(false) => !old(self)@.changed && final(self)@ == old(self)@,
                Ok(true) => old(self)@.changed && old(self)@.epoch < u64::MAX && final(self)@ == (
                DeviceModel {
                    epoch: (old(self)@.epoch + 1) as u64,
                    changed: false,
                    ..old(self)@
                }),
                Err(error) => error == DeviceError::StorageFailed && old(self)@.changed
                    && old(self)@.epoch == u64::MAX && final(self)@ == old(self)@,
            },
            old(self).valid() ==> final(self).valid(),
    {
        if !self.persistent_change {
            return Ok(false);
        }
        match self.state_epoch.checked_add(1) {
            Some(epoch) => {
                self.state_epoch = epoch;
                self.persistent_change = false;
                assert(self@.objects == old(self)@.objects);
                Ok(true)
            },
            None => Err(DeviceError::StorageFailed),
        }
    }

    /// Returns the ordering key of the next snapshot.
    pub fn state_epoch(&self) -> (epoch: u64)
        ensures
            epoch == self@.epoch,
    {
        self.state_epoch
    }

    /// Returns what a session opened with an authentication key may do.
    pub fn session_authorization(&self, authentication_key_id: u16) -> (authorization: Result<
        SessionAuthorization,
    >)
        ensures
            authorization == self@.authorizes(authentication_key_id),
    {
        let record = self.find(
            ObjectKey { object_type: ObjectType::AuthenticationKey, id: authentication_key_id },
        )?;
        if !matches!(record.material, ObjectMaterial::Authentication(_)) {
            return Err(DeviceError::InvalidData);
        }
        Ok(
            SessionAuthorization {
                authentication_key_id,
                capabilities: record.info.capabilities,
                delegated_capabilities: record.info.delegated_capabilities,
                domains: record.info.domains,
            },
        )
    }

    /// Returns what an authentication key holds.
    pub fn authentication_key_material(&self, authentication_key_id: u16) -> (material: Result<
        &AuthenticationKeyMaterial,
    >)
        ensures
            match material {
                Ok(AuthenticationKeyMaterial::Symmetric(value)) => self@.authentication_material(
                    authentication_key_id,
                ) == Ok::<MaterialModel, DeviceError>(MaterialModel::Symmetric(value@)),
                Ok(AuthenticationKeyMaterial::Asymmetric(value)) => self@.authentication_material(
                    authentication_key_id,
                ) == Ok::<MaterialModel, DeviceError>(MaterialModel::Asymmetric(value@)),
                Err(error) => self@.authentication_material(authentication_key_id) == Err::<
                    MaterialModel,
                    DeviceError,
                >(error),
            },
    {
        let record = self.find(
            ObjectKey { object_type: ObjectType::AuthenticationKey, id: authentication_key_id },
        )?;
        match &record.material {
            ObjectMaterial::Authentication(material) => Ok(material),
            _ => Err(DeviceError::InvalidData),
        }
    }
}

impl DeviceModel {
    /// What a session opened with an authentication key may do.
    pub open spec fn authorizes(self, authentication_key_id: u16) -> core::result::Result<
        SessionAuthorization,
        DeviceError,
    > {
        match self.get(
            ObjectKey { object_type: ObjectType::AuthenticationKey, id: authentication_key_id },
        ) {
            Err(error) => Err(error),
            Ok(record) => if record.material is Symmetric || record.material is Asymmetric {
                Ok(
                    SessionAuthorization {
                        authentication_key_id,
                        capabilities: record.info.capabilities,
                        delegated_capabilities: record.info.delegated_capabilities,
                        domains: record.info.domains,
                    },
                )
            } else {
                Err(DeviceError::InvalidData)
            },
        }
    }

    /// What an authentication key holds.
    pub open spec fn authentication_material(
        self,
        authentication_key_id: u16,
    ) -> core::result::Result<
        MaterialModel,
        DeviceError,
    > {
        match self.get(
            ObjectKey { object_type: ObjectType::AuthenticationKey, id: authentication_key_id },
        ) {
            Err(error) => Err(error),
            Ok(record) => if record.material is Symmetric || record.material is Asymmetric {
                Ok(record.material)
            } else {
                Err(DeviceError::InvalidData)
            },
        }
    }
}

/// A consistent object under its own key leaves a device valid.
proof fn effects_of_insertion(device: DeviceModel, number: u32, record: RecordModel)
    requires
        device.valid(),
        record.validated() is Ok,
        record.info.key().number() == number,
    ensures
        forall|after: DeviceModel|
            after.objects == device.objects.insert(number, record) ==> #[trigger] after.valid(),
{
    assert forall|after: DeviceModel|
        after.objects == device.objects.insert(number, record) implies #[trigger] after.valid() by {
        assert forall|other: u32|
            after.objects.contains_key(other) implies after.objects[other].validated() is Ok
            && after.objects[other].info.key().number() == other by {
            assert(device.objects.contains_key(other) ==> device.objects[other].validated() is Ok
                && device.objects[other].info.key().number() == other);
        }
    }
}

/// Imports the key of a device.
pub fn import_device_key(private: &[u8], answers: &mut Answers) -> (key: core::result::Result<
    SigningKey,
    Halt,
>)
    requires
        old(answers).valid(),
    ensures
        final(answers).valid(),
        final(answers).replies == old(answers).replies,
        run(key, final(answers).used) == imported_device_key(
            private@,
            old(answers).replies@,
            old(answers).used as nat,
        ),
{
    let none: Vec<u8> = Vec::new();
    assert(none@ =~= Seq::<u8>::empty());
    let p256 = KeyKind::Ec(EcCurve::P256);
    answers.key(
        EngineRequest::keyed(Operation::ImportKey(p256), &none, private),
        p256,
        DeviceError::InvalidData,
    )
}

/// The key of a device from its private value.
pub open spec fn imported_device_key(
    private: Seq<u8>,
    replies: Seq<EngineReply>,
    used: nat,
) -> Run<SigningKeyModel> {
    key_from(
        replies,
        used,
        RequestModel::keyed(
            Operation::ImportKey(KeyKind::Ec(EcCurve::P256)),
            Seq::empty(),
            private,
        ),
        KeyKind::Ec(EcCurve::P256),
        DeviceError::InvalidData,
    )
}

/// Making a device with a new key.
pub open spec fn factory_run(
    config: ConfigModel,
    firmware: FirmwareProfile,
    replies: Seq<EngineReply>,
) -> Run<DeviceModel> {
    match key_from(
        replies,
        0,
        RequestModel::keyed(
            Operation::GenerateKey(KeyKind::Ec(EcCurve::P256)),
            Seq::empty(),
            Seq::empty(),
        ),
        KeyKind::Ec(EcCurve::P256),
        DeviceError::StorageFailed,
    ) {
        Ok((key, used)) => Ok((DeviceModel::factory(config, firmware, key), used)),
        Err(halt) => Err(halt),
    }
}

/// Making a device with a given key.
pub open spec fn keyed_run(
    config: ConfigModel,
    firmware: FirmwareProfile,
    private: Seq<u8>,
    replies: Seq<EngineReply>,
) -> Run<DeviceModel> {
    match imported_device_key(private, replies, 0) {
        Ok((key, used)) => Ok((DeviceModel::factory(config, firmware, key), used)),
        Err(halt) => Err(halt),
    }
}

/// The object that provisioning installs: typed and consistent.
pub open spec fn provisioned(object: RecordModel, replies: Seq<EngineReply>) -> Run<RecordModel> {
    match promoted(object, replies, 0) {
        Ok((record, used)) => match record.validated() {
            Ok(()) => Ok((record, used)),
            Err(error) => Err(HaltModel::Error(error, used)),
        },
        Err(halt) => Err(halt),
    }
}

/// Makes the key of serialized private-key material.
pub fn typed_private_material(algorithm: u8, encoded: &[u8], answers: &mut Answers) -> (material:
    core::result::Result<ObjectMaterial, Halt>)
    requires
        old(answers).valid(),
    ensures
        final(answers).valid(),
        final(answers).replies == old(answers).replies,
        run(material, final(answers).used) == typed_material(
            algorithm,
            encoded@,
            old(answers).replies@,
            old(answers).used as nat,
        ),
{
    let none: Vec<u8> = Vec::new();
    assert(none@ =~= Seq::<u8>::empty());
    let algorithm = match Algorithm::from_byte(algorithm) {
        Some(algorithm) => algorithm,
        None => {
            return fail(DeviceError::InvalidData);
        },
    };
    if matches!(algorithm, Algorithm::X25519) {
        let key = answers.x25519(
            EngineRequest::keyed(Operation::ImportX25519, &none, encoded),
            DeviceError::InvalidData,
        )?;
        return Ok(ObjectMaterial::X25519Key(key));
    }
    let kind = lift(key_kind(algorithm))?;
    if let KeyKind::Rsa { modulus_bits } = kind {
        if encoded.len() != modulus_bits / 8 {
            return fail(DeviceError::InvalidData);
        }
    }
    let key = answers.key(
        EngineRequest::keyed(Operation::ImportKey(kind), &none, encoded),
        kind,
        DeviceError::InvalidData,
    )?;
    Ok(ObjectMaterial::SigningKey(key))
}

/// Converts raw private-key material to its typed form.
pub fn promote_private_material(record: ObjectRecord, answers: &mut Answers) -> (promotion:
    core::result::Result<ObjectRecord, Halt>)
    requires
        old(answers).valid(),
    ensures
        final(answers).valid(),
        final(answers).replies == old(answers).replies,
        run(promotion, final(answers).used) == promoted(
            record@,
            old(answers).replies@,
            old(answers).used as nat,
        ),
{
    let rsa = match Algorithm::from_byte(record.info.algorithm) {
        Some(algorithm) => algorithm.is_rsa_key(),
        None => false,
    };
    let private = matches!(record.info.object_type, ObjectType::AsymmetricKey) || (matches!(
        record.info.object_type,
        ObjectType::WrapKey
    ) && rsa);
    if let ObjectMaterial::Secret(value) = &record.material {
        if private {
            let material = typed_private_material(record.info.algorithm, value, answers)?;
            return Ok(ObjectRecord { info: record.info, material });
        }
    }
    Ok(record)
}

/// A new number is not zero, not the highest, and no object's of the type; a
/// random one is no object's of any type.
pub proof fn new_numbers_are_free(
    device: DeviceModel,
    object_type: ObjectType,
    requested: u16,
    replies: Seq<EngineReply>,
    used: nat,
)
    ensures
        device.resolved(object_type, requested, replies, used) matches Ok((id, _)) ==> id != 0 && id
            != 0xffff && !device.objects.contains_key(ObjectKey { object_type, id }.number()) && (
        requested == 0 ==> is_free(device.objects, id)) && (requested != 0 ==> id == requested),
{
    if requested == 0 {
        drawn_numbers_are_free(device.objects, replies, used);
        if let Ok((id, _)) = device.resolved(object_type, requested, replies, used) {
            assert(!is_taken(device.objects, object_type, id));
        }
    }
}

/// A drawn number is no object's.
proof fn drawn_numbers_are_free(
    objects: Map<u32, RecordModel>,
    replies: Seq<EngineReply>,
    used: nat,
)
    ensures
        drawn_id(objects, replies, used) matches Ok((id, _)) ==> is_free(objects, id),
    decreases replies.len() - used,
{
    if let Ok((bytes, next)) = sized_from(
        replies,
        used,
        RequestModel::Random(2),
        2,
        DeviceError::StorageFailed,
    ) {
        if !is_free(objects, u16_at(bytes, 0)) {
            drawn_numbers_are_free(objects, replies, next);
        }
    }
}

/// An object that is written is there as it was given, but for its sequence: the
/// generation after the latest of its number, across deletions and types.
pub proof fn written_objects_are_found(device: DeviceModel, record: RecordModel)
    ensures
        device.written(record).get(record.info.key()) matches Ok(stored) && stored.material
            == record.material && stored.info == (InfoModel {
            sequence: (next_generation(device.history, record.info.id) % 256) as u8,
            ..record.info
        }),
        device.written(record).history[record.info.id] == next_generation(
            device.history,
            record.info.id,
        ),
{
}

/// Writing an object touches no other.
pub proof fn writing_keeps_other_objects(device: DeviceModel, record: RecordModel, key: ObjectKey)
    requires
        key != record.info.key(),
    ensures
        device.written(record).get(key) == device.get(key),
{
    crate::object::object_keys_are_their_numbers(key, record.info.key());
}

/// A deleted object is gone, every other object stays, and the generations of
/// its number go on where they were.
pub proof fn deletion_keeps_the_history(device: DeviceModel, key: ObjectKey, other: ObjectKey)
    ensures
        device.applied(EffectModel::Remove(key)).get(key) == Err::<RecordModel, DeviceError>(
            DeviceError::ObjectNotFound,
        ),
        other != key ==> device.applied(EffectModel::Remove(key)).get(other) == device.get(other),
        device.applied(EffectModel::Remove(key)).history == device.history,
{
    crate::object::object_keys_are_their_numbers(key, other);
}

/// Writing a number again after its object was deleted takes the next
/// generation, not the first.
pub proof fn generations_go_on_after_deletion(
    device: DeviceModel,
    first: RecordModel,
    second: RecordModel,
)
    requires
        first.info.id == second.info.id,
        next_generation(device.history, first.info.id) < u64::MAX,
    ensures
        device.written(first).applied(EffectModel::Remove(first.info.key())).written(
            second,
        ).history[second.info.id] == next_generation(device.history, first.info.id) + 1,
{
}

/// A reset device is as new but for its key, its epoch and what is yet to be
/// saved: the factory authentication key is its only object, nothing is
/// remembered, and no session is left.
pub proof fn reset_restores_the_factory_state(device: DeviceModel, key: SigningKeyModel)
    ensures
        device.reset(key).objects == Map::<u32, RecordModel>::empty().insert(
            factory_key().number(),
            factory_record(),
        ),
        device.reset(key).sessions == Map::<u8, SessionModel>::empty(),
        device.reset(key).options == OptionsModel::factory(),
        device.reset(key).audit == AuditModel::factory(),
        device.reset(key).config == device.config,
        device.reset(key).epoch == device.epoch,
        device.reset(key).valid(),
{
    let after = device.reset(key);
    assert(factory_record().validated() is Ok);
    assert(factory_record().info.key().number() == factory_key().number());
}

/// Sessions end by inactivity alone: exactly those that were unused for the
/// timeout.
pub proof fn expiry_drops_idle_sessions(device: DeviceModel, now: u64, sid: u8)
    ensures
        device.expired(now).sessions.contains_key(sid) <==> device.sessions.contains_key(sid) && now
            - device.sessions[sid].last_activity < SESSION_INACTIVITY_TIMEOUT,
        device.expired(now).sessions.contains_key(sid) ==> device.expired(now).sessions[sid]
            == device.sessions[sid],
        device.expired(now).objects == device.objects,
{
}

} // verus!
