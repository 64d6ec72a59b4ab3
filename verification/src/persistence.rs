//! What a device keeps over a power cycle, and how it comes back from it.
//!
//! Secure sessions and their counters are not kept. The image is made of plain
//! values; how they are written into bytes is not decided here.
use crate::algorithm::Algorithm;
use crate::audit::{AuditModel, AuditState};
use crate::bytes::{append, copied};
use crate::device::{
    import_device_key, imported_device_key, promote_private_material, promoted, records, viewed,
    ConfigModel, Device, DeviceConfig, DeviceModel,
};
use crate::engine::{
    fail, lift, run, settled, stopped, Answers, EngineReply, Halt, HaltModel, Run, StopModel,
};
use crate::error::{DeviceError, Result};
use crate::firmware::FirmwareProfile;
use crate::history::SequenceHistory;
use crate::keys::{left_pad, padded_left, SigningKeyModel};
use crate::numbers::{ascends, gaps_hold_nothing, listing, numbers};
use crate::object::{
    AuthenticationKeyMaterial, MaterialModel, ObjectInfo, ObjectMaterial, ObjectRecord, ObjectType,
    RecordModel,
};
use crate::options::{DeviceOptions, OptionsModel};
use crate::session::{SessionEntry, SessionModel};
use std::collections::BTreeMap;
use vstd::prelude::*;

verus! {

/// The version of the images that are written.
pub const PERSISTENT_STATE_VERSION: u16 = 3;

/// The name of the image's form.
pub open spec fn state_schema() -> Seq<char> {
    "virtual-yubihsm-state"@
}

/// What an image holds of an object: private keys as their serialized bytes.
#[derive(Clone, Debug)]
pub enum StoredObjectMaterial {
    Authentication(AuthenticationKeyMaterial),
    Secret(Vec<u8>),
    Opaque(Vec<u8>),
    Public(Vec<u8>),
    OtpAeadKey { nonce_id: [u8; 4], key: Vec<u8> },
}

impl View for StoredObjectMaterial {
    type V = MaterialModel;

    open spec fn view(&self) -> MaterialModel {
        match *self {
            StoredObjectMaterial::Authentication(
                AuthenticationKeyMaterial::Symmetric(value),
            ) => MaterialModel::Symmetric(value@),
            StoredObjectMaterial::Authentication(
                AuthenticationKeyMaterial::Asymmetric(value),
            ) => MaterialModel::Asymmetric(value@),
            StoredObjectMaterial::Secret(value) => MaterialModel::Secret(value@),
            StoredObjectMaterial::Opaque(value) => MaterialModel::Opaque(value@),
            StoredObjectMaterial::Public(value) => MaterialModel::Public(value@),
            StoredObjectMaterial::OtpAeadKey { nonce_id, key } => MaterialModel::OtpAeadKey {
                nonce_id: nonce_id@,
                key: key@,
            },
        }
    }
}

/// An object in an image.
#[derive(Clone, Debug)]
pub struct StoredObjectRecord {
    pub info: ObjectInfo,
    pub material: StoredObjectMaterial,
}

impl View for StoredObjectRecord {
    type V = RecordModel;

    open spec fn view(&self) -> RecordModel {
        RecordModel { info: self.info@, material: self.material@ }
    }
}

/// The image of a device.
#[derive(Clone, Debug)]
pub struct PersistentState {
    pub schema: String,
    pub version: u16,
    pub config: DeviceConfig,
    pub objects: Vec<StoredObjectRecord>,
    pub device_static_private: [u8; 32],
    pub state_epoch: u64,
    pub sequence_history: SequenceHistory,
    pub options: DeviceOptions,
    pub audit: AuditState,
}

/// The contents of an image.
#[verifier::ext_equal]
pub struct StateModel {
    pub schema: Seq<char>,
    pub version: u16,
    pub config: ConfigModel,
    pub objects: Seq<RecordModel>,
    pub private: Seq<u8>,
    pub epoch: u64,
    pub history: Map<u16, u64>,
    pub options: OptionsModel,
    pub audit: AuditModel,
}

/// The contents of stored objects.
pub open spec fn stored_models(objects: Seq<StoredObjectRecord>) -> Seq<RecordModel> {
    Seq::new(objects.len(), |i: int| objects[i]@)
}

impl View for PersistentState {
    type V = StateModel;

    open spec fn view(&self) -> StateModel {
        StateModel {
            schema: self.schema@,
            version: self.version,
            config: self.config@,
            objects: stored_models(self.objects@),
            private: self.device_static_private@,
            epoch: self.state_epoch,
            history: self.sequence_history@,
            options: self.options@,
            audit: self.audit@,
        }
    }
}

/// What an image holds of an object's material. The primes of an RSA key are
/// stored one after the other, each with the same length.
pub open spec fn stored_material(record: RecordModel) -> core::result::Result<
    MaterialModel,
    DeviceError,
> {
    match record.material {
        MaterialModel::SigningKey(key) => match record.info.known_algorithm() {
            None => Err(DeviceError::InvalidData),
            Some(algorithm) => if !algorithm.is_rsa() {
                Ok(MaterialModel::Secret(key.private))
            } else {
                let half = algorithm.key_length()->0 as int / 2;
                if key.private.len() > half || key.second.len() > half {
                    Err(DeviceError::InvalidData)
                } else {
                    Ok(
                        MaterialModel::Secret(
                            padded_left(key.private, half) + padded_left(key.second, half),
                        ),
                    )
                }
            },
        },
        MaterialModel::X25519Key(key) => Ok(MaterialModel::Secret(key.private)),
        other => Ok(other),
    }
}

/// What an image holds of an object.
pub open spec fn stored(record: RecordModel) -> core::result::Result<RecordModel, DeviceError> {
    match stored_material(record) {
        Ok(material) => Ok(RecordModel { info: record.info, material }),
        Err(error) => Err(error),
    }
}

/// What an image holds of objects, in their order.
pub open spec fn all_stored(objects: Seq<RecordModel>) -> core::result::Result<
    Seq<RecordModel>,
    DeviceError,
>
    decreases objects.len(),
{
    if objects.len() == 0 {
        Ok(Seq::empty())
    } else {
        match all_stored(objects.drop_last()) {
            Err(error) => Err(error),
            Ok(before) => match stored(objects.last()) {
                Err(error) => Err(error),
                Ok(object) => Ok(before.push(object)),
            },
        }
    }
}

/// The length that images of the second version give an object.
pub open spec fn version_two_length(record: RecordModel) -> core::result::Result<int, DeviceError> {
    let algorithm = record.info.known_algorithm();
    if record.info.object_type == ObjectType::AsymmetricKey {
        match algorithm {
            Some(Algorithm::Ed25519) => Ok(64),
            Some(algorithm) => match algorithm.object_length() {
                Some(length) => Ok(length as int),
                None => Err(DeviceError::InvalidData),
            },
            None => Err(DeviceError::InvalidData),
        }
    } else if record.info.object_type == ObjectType::WrapKey && (algorithm matches Some(algorithm)
        && algorithm.is_rsa()) {
        match algorithm->0.object_length() {
            Some(length) => Ok(length as int),
            None => Err(DeviceError::InvalidData),
        }
    } else {
        Ok(record.material.size())
    }
}

/// An object out of an image of some version, with the length of this version.
/// Lengths of earlier versions must be what those versions wrote.
pub open spec fn migrated(
    version: u16,
    stored_length: int,
    record: RecordModel,
) -> core::result::Result<
    RecordModel,
    DeviceError,
> {
    if version >= PERSISTENT_STATE_VERSION {
        Ok(record)
    } else {
        match (if version == 1 {
            Ok(stored_length)
        } else if version == 2 {
            version_two_length(record)
        } else {
            Err(DeviceError::InvalidData)
        }) {
            Err(error) => Err(error),
            Ok(previous) => if record.info.length != previous {
                Err(DeviceError::InvalidData)
            } else {
                record.normalized()
            },
        }
    }
}

/// An object out of an image.
pub open spec fn restored(
    version: u16,
    object: RecordModel,
    replies: Seq<EngineReply>,
    used: nat,
) -> Run<RecordModel> {
    match promoted(object, replies, used) {
        Err(halt) => Err(halt),
        Ok((record, used)) => match migrated(version, object.material.size(), record) {
            Err(error) => Err(HaltModel::Error(error, used)),
            Ok(record) => match record.validated() {
                Err(error) => Err(HaltModel::Error(error, used)),
                Ok(()) => Ok((record, used)),
            },
        },
    }
}

/// The objects out of an image, each under its key. No two may have one key.
pub open spec fn all_restored(
    version: u16,
    objects: Seq<RecordModel>,
    replies: Seq<EngineReply>,
    used: nat,
) -> Run<Map<u32, RecordModel>>
    decreases objects.len(),
{
    if objects.len() == 0 {
        Ok((Map::empty(), used))
    } else {
        match all_restored(version, objects.drop_last(), replies, used) {
            Err(halt) => Err(halt),
            Ok((before, used)) => match restored(version, objects.last(), replies, used) {
                Err(halt) => Err(halt),
                Ok((record, used)) => if before.contains_key(record.info.key().number()) {
                    Err(HaltModel::Error(DeviceError::InvalidData, used))
                } else {
                    Ok((before.insert(record.info.key().number(), record), used))
                },
            },
        }
    }
}

impl StateModel {
    /// Whether an image is one of a device with this configuration, and says
    /// nothing that no device says.
    pub open spec fn acceptable(self, config: ConfigModel) -> bool {
        &&& self.schema == state_schema()
        &&& 1 <= self.version <= PERSISTENT_STATE_VERSION
        &&& self.config.serial == config.serial
        &&& self.audit.entries.len() <= config.log_capacity
        &&& self.options.valid()
    }

    /// The device of an image. The configuration is that of the running
    /// firmware, whatever the image was written with.
    pub open spec fn device(
        self,
        config: ConfigModel,
        firmware: FirmwareProfile,
        replies: Seq<EngineReply>,
    ) -> Run<DeviceModel> {
        if !self.acceptable(config) {
            Err(HaltModel::Error(DeviceError::InvalidData, 0))
        } else {
            match imported_device_key(self.private, replies, 0) {
                Err(halt) => Err(halt),
                Ok((key, used)) => if exists|id: u16|
                    self.history.contains_key(id) && (id == 0 || id == 0xffff) {
                    Err(HaltModel::Error(DeviceError::InvalidData, used))
                } else {
                    match all_restored(self.version, self.objects, replies, used) {
                        Err(halt) => Err(halt),
                        Ok((objects, used)) => Ok(
                            (
                                DeviceModel {
                                    config,
                                    firmware,
                                    objects,
                                    sessions: Map::empty(),
                                    key,
                                    epoch: self.epoch,
                                    history: self.history,
                                    options: self.options,
                                    audit: self.audit,
                                    changed: false,
                                },
                                used,
                            ),
                        ),
                    }
                },
            }
        }
    }
}

impl DeviceModel {
    /// The objects in ascending order of their keys.
    pub open spec fn listed(self) -> Seq<RecordModel> {
        listing(self.objects, 0x1_0000_0000)
    }

    /// The image of a device.
    pub open spec fn state(self) -> core::result::Result<StateModel, DeviceError> {
        match all_stored(self.listed()) {
            Err(error) => Err(error),
            Ok(objects) => if self.key.private.len() != 32 {
                Err(DeviceError::StorageFailed)
            } else {
                Ok(
                    StateModel {
                        schema: state_schema(),
                        version: PERSISTENT_STATE_VERSION,
                        config: self.config,
                        objects,
                        private: self.key.private,
                        epoch: self.epoch,
                        history: self.history,
                        options: self.options,
                        audit: self.audit,
                    },
                )
            },
        }
    }
}

impl StoredObjectMaterial {
    /// Returns the length of what is stored.
    pub fn len(&self) -> (length: usize)
        ensures
            length == self@.size(),
    {
        match self {
            StoredObjectMaterial::Authentication(AuthenticationKeyMaterial::Symmetric(value)) => {
                value.len()
            },
            StoredObjectMaterial::Authentication(AuthenticationKeyMaterial::Asymmetric(value)) => {
                value.len()
            },
            StoredObjectMaterial::Secret(value) => value.len(),
            StoredObjectMaterial::Opaque(value) => value.len(),
            StoredObjectMaterial::Public(value) => value.len(),
            StoredObjectMaterial::OtpAeadKey { key, .. } => key.len(),
        }
    }
}

impl ObjectRecord {
    /// Makes the object for an image.
    pub fn to_stored(&self) -> (object: Result<StoredObjectRecord>)
        ensures
            viewed(object) == stored(self@),
    {
        let material = match &self.material {
            ObjectMaterial::Authentication(AuthenticationKeyMaterial::Symmetric(value)) => {
                StoredObjectMaterial::Authentication(
                    AuthenticationKeyMaterial::Symmetric(copied(value)),
                )
            },
            ObjectMaterial::Authentication(AuthenticationKeyMaterial::Asymmetric(value)) => {
                StoredObjectMaterial::Authentication(
                    AuthenticationKeyMaterial::Asymmetric(copied(value)),
                )
            },
            ObjectMaterial::SigningKey(key) => {
                let algorithm = match Algorithm::from_byte(self.info.algorithm) {
                    Some(algorithm) => algorithm,
                    None => {
                        return Err(DeviceError::InvalidData);
                    },
                };
                if algorithm.is_rsa_key() {
                    let half: usize = match algorithm.asymmetric_key_length() {
                        Some(length) => length / 2,
                        None => {
                            return Err(DeviceError::InvalidData);
                        },
                    };
                    let mut encoded: Vec<u8> = left_pad(&key.private, half)?;
                    let second: Vec<u8> = left_pad(&key.second, half)?;
                    append(&mut encoded, &second);
                    StoredObjectMaterial::Secret(encoded)
                } else {
                    StoredObjectMaterial::Secret(copied(&key.private))
                }
            },
            ObjectMaterial::X25519Key(key) => StoredObjectMaterial::Secret(copied(&key.private)),
            ObjectMaterial::Secret(value) => StoredObjectMaterial::Secret(copied(value)),
            ObjectMaterial::Opaque(value) => StoredObjectMaterial::Opaque(copied(value)),
            ObjectMaterial::Public(value) => StoredObjectMaterial::Public(copied(value)),
            ObjectMaterial::OtpAeadKey { nonce_id, key } => StoredObjectMaterial::OtpAeadKey {
                nonce_id: *nonce_id,
                key: copied(key),
            },
        };
        Ok(StoredObjectRecord { info: self.info.copied(), material })
    }

    /// Makes the object of an image, with its private key where it has one.
    pub fn from_stored(
        object: StoredObjectRecord,
        answers: &mut Answers,
    ) -> (record: core::result::Result<
        ObjectRecord,
        Halt,
    >)
        requires
            old(answers).valid(),
        ensures
            final(answers).valid(),
            final(answers).replies == old(answers).replies,
            run(record, final(answers).used) == promoted(
                object@,
                old(answers).replies@,
                old(answers).used as nat,
            ),
    {
        let material = match object.material {
            StoredObjectMaterial::Authentication(value) => ObjectMaterial::Authentication(value),
            StoredObjectMaterial::Secret(value) => ObjectMaterial::Secret(value),
            StoredObjectMaterial::Opaque(value) => ObjectMaterial::Opaque(value),
            StoredObjectMaterial::Public(value) => ObjectMaterial::Public(value),
            StoredObjectMaterial::OtpAeadKey { nonce_id, key } => ObjectMaterial::OtpAeadKey {
                nonce_id,
                key,
            },
        };
        promote_private_material(ObjectRecord { info: object.info, material }, answers)
    }
}

/// Returns the length that images of the second version give an object.
pub fn version_two_object_length(object: &ObjectRecord) -> (length: Result<usize>)
    ensures
        match length {
            Ok(length) => version_two_length(object@) == Ok::<int, DeviceError>(length as int),
            Err(error) => version_two_length(object@) == Err::<int, DeviceError>(error),
        },
{
    let algorithm = Algorithm::from_byte(object.info.algorithm);
    match object.info.object_type {
        ObjectType::AsymmetricKey => match algorithm {
            Some(Algorithm::Ed25519) => Ok(64),
            Some(algorithm) => match algorithm.asymmetric_object_length() {
                Some(length) => Ok(length),
                None => Err(DeviceError::InvalidData),
            },
            None => Err(DeviceError::InvalidData),
        },
        ObjectType::WrapKey => match algorithm {
            Some(algorithm) => if algorithm.is_rsa_key() {
                match algorithm.asymmetric_object_length() {
                    Some(length) => Ok(length),
                    None => Err(DeviceError::InvalidData),
                }
            } else {
                Ok(object.material.len())
            },
            None => Ok(object.material.len()),
        },
        _ => Ok(object.material.len()),
    }
}

/// Gives an object out of an image the length of this version.
fn migrate(version: u16, stored_length: usize, record: ObjectRecord) -> (migration: Result<
    ObjectRecord,
>)
    ensures
        viewed(migration) == migrated(version, stored_length as int, record@),
{
    if version >= PERSISTENT_STATE_VERSION {
        return Ok(record);
    }
    let previous: usize = match version {
        1 => stored_length,
        2 => version_two_object_length(&record)?,
        _ => {
            return Err(DeviceError::InvalidData);
        },
    };
    if record.info.length as usize != previous {
        return Err(DeviceError::InvalidData);
    }
    let mut record = record;
    record.normalize_info_length()?;
    Ok(record)
}

/// Makes an object out of an image.
fn restore(
    version: u16,
    object: StoredObjectRecord,
    answers: &mut Answers,
) -> (record: core::result::Result<
    ObjectRecord,
    Halt,
>)
    requires
        old(answers).valid(),
    ensures
        final(answers).valid(),
        final(answers).replies == old(answers).replies,
        run(record, final(answers).used) == restored(
            version,
            object@,
            old(answers).replies@,
            old(answers).used as nat,
        ),
{
    let stored_length: usize = object.material.len();
    let record = ObjectRecord::from_stored(object, answers)?;
    let record = lift(migrate(version, stored_length, record))?;
    lift(record.validate())?;
    Ok(record)
}

/// Copies 32 bytes into an array.
pub fn thirty_two(bytes: &[u8]) -> (array: [u8; 32])
    requires
        bytes@.len() == 32,
    ensures
        array@ == bytes@,
{
    let mut array: [u8; 32] = [0u8; 32];
    let mut index: usize = 0;
    while index < 32
        invariant
            index <= 32,
            bytes@.len() == 32,
            forall|i: int| 0 <= i < index ==> array@[i] == bytes@[i],
        decreases 32 - index,
    {
        array[index] = bytes[index];
        index = index + 1;
    }
    assert(array@ =~= bytes@);
    array
}

/// The contents of listed objects.
pub open spec fn listed_models(objects: Seq<&ObjectRecord>) -> Seq<RecordModel> {
    Seq::new(objects.len(), |i: int| objects[i]@)
}

impl Device {
    /// Lists the objects, in ascending order of their keys.
    pub fn objects(&self) -> (objects: Vec<&ObjectRecord>)
        ensures
            listed_models(objects@) == self@.listed(),
    {
        let mut objects: Vec<&ObjectRecord> = Vec::new();
        let all: Vec<u32> = numbers(&self.objects);
        let mut index: usize = 0;
        let ghost models = self@.objects;
        let ghost mut bound: nat = 0;
        assert(models.dom() =~= self.objects@.dom());
        assert(listed_models(objects@) =~= listing(models, 0));
        while index < all.len()
            invariant
                models == self@.objects,
                ascends(all@, models.dom()),
                index <= all@.len(),
                bound <= 0x1_0000_0000,
                listed_models(objects@) == listing(models, bound),
                bound == (if index == 0 {
                    0
                } else {
                    all@[index - 1] + 1
                }),
            decreases all@.len() - index,
        {
            let number: u32 = all[index];
            let ghost before = objects@;
            assert forall|other: u32| bound <= other < number implies !models.contains_key(
                other,
            ) by {
                if models.dom().contains(other) {
                    let place = choose|place: int| 0 <= place < all@.len() && all@[place] == other;
                    assert(all@[place] == other);
                }
            }
            proof {
                gaps_hold_nothing(models, bound, number as nat);
                bound = (number + 1) as nat;
            }
            assert(models.dom().contains(number));
            if let Some(record) = self.objects.get(&number) {
                objects.push(record);
                assert(listed_models(objects@) =~= listed_models(before).push(record@));
            }
            index = index + 1;
        }
        assert forall|other: u32| bound <= other < 0x1_0000_0000 implies !models.contains_key(
            other,
        ) by {
            if models.dom().contains(other) {
                let place = choose|place: int| 0 <= place < all@.len() && all@[place] == other;
                assert(all@[place] == other);
            }
        }
        proof {
            gaps_hold_nothing(models, bound, 0x1_0000_0000);
        }
        objects
    }

    /// Makes the image of the device.
    pub fn persistent_state(&self) -> (state: Result<PersistentState>)
        ensures
            viewed(state) == self@.state(),
    {
        let listed = self.objects();
        let ghost models = self@.listed();
        let mut objects: Vec<StoredObjectRecord> = Vec::new();
        let mut index: usize = 0;
        assert(stored_models(objects@) =~= Seq::<RecordModel>::empty());
        assert(models.subrange(0, 0) =~= Seq::<RecordModel>::empty());
        while index < listed.len()
            invariant
                index <= listed@.len(),
                models == listed_models(listed@),
                models == self@.listed(),
                all_stored(models.subrange(0, index as int)) == Ok::<
                    Seq<RecordModel>,
                    DeviceError,
                >(stored_models(objects@)),
            decreases listed@.len() - index,
        {
            let ghost longer = models.subrange(0, index + 1);
            let ghost before = objects@;
            assert(longer.drop_last() =~= models.subrange(0, index as int));
            assert(longer.last() == listed@[index as int]@);
            let object = listed[index].to_stored();
            match object {
                Ok(object) => {
                    objects.push(object);
                    assert(stored_models(objects@) =~= stored_models(before).push(object@));
                },
                Err(error) => {
                    proof {
                        failures_stay(models, index + 1);
                    }
                    return Err(error);
                },
            }
            index = index + 1;
        }
        assert(models.subrange(0, models.len() as int) =~= models);
        if self.device_static_private.private.len() != 32 {
            return Err(DeviceError::StorageFailed);
        }
        Ok(
            PersistentState {
                schema: "virtual-yubihsm-state".to_string(),
                version: PERSISTENT_STATE_VERSION,
                config: self.config.copied(),
                objects,
                device_static_private: thirty_two(&self.device_static_private.private),
                state_epoch: self.state_epoch,
                sequence_history: self.sequence_history.copied(),
                options: self.options.copied(),
                audit: self.audit.copied(),
            },
        )
    }

    /// Makes the objects of an image.
    fn restore_objects(
        version: u16,
        objects: Vec<StoredObjectRecord>,
        answers: &mut Answers,
    ) -> (restored: core::result::Result<
        RestoredObjects,
        Halt,
    >)
        requires
            old(answers).valid(),
        ensures
            final(answers).valid(),
            final(answers).replies == old(answers).replies,
            run(restored, final(answers).used) == all_restored(
                version,
                stored_models(objects@),
                old(answers).replies@,
                old(answers).used as nat,
            ),
            restored matches Ok(restored) ==> restored.valid(),
    {
        let ghost models = stored_models(objects@);
        let ghost start = answers.used as nat;
        let mut restored = RestoredObjects { objects: BTreeMap::new() };
        let mut rest = objects;
        let mut index: usize = 0;
        let count: usize = rest.len();
        assert(restored@ =~= Map::<u32, RecordModel>::empty());
        assert(models.subrange(0, 0) =~= Seq::<RecordModel>::empty());
        while index < count
            invariant
                index <= count,
                count == models.len(),
                models == stored_models(objects@),
                start == old(answers).used as nat,
                rest@.len() == count - index,
                stored_models(rest@) == models.subrange(index as int, count as int),
                answers.valid(),
                answers.replies == old(answers).replies,
                restored.valid(),
                all_restored(version, models.subrange(0, index as int), answers.replies@, start)
                    == Ok::<(Map<u32, RecordModel>, nat), HaltModel>(
                    (restored@, answers.used as nat),
                ),
            decreases count - index,
        {
            let ghost longer = models.subrange(0, index + 1);
            assert(longer.drop_last() =~= models.subrange(0, index as int));
            assert(longer.last() == stored_models(rest@)[0]);
            let ghost before = rest@;
            let object = rest.remove(0);
            assert(stored_models(rest@) =~= models.subrange(index + 1, count as int)) by {
                assert forall|i: int| 0 <= i < rest@.len() implies stored_models(rest@)[i]
                    == models[index + 1 + i] by {
                    assert(rest@[i] == before[i + 1]);
                    assert(stored_models(before)[i + 1] == models.subrange(
                        index as int,
                        count as int,
                    )[i + 1]);
                }
            }
            proof {
                halts_stay(version, models, index + 1, answers.replies@, start);
            }
            let record = restore(version, object, answers)?;
            let number: u32 = record.info.key().code();
            if restored.objects.contains_key(&number) {
                assert(restored@.contains_key(number));
                return fail(DeviceError::InvalidData);
            }
            let ghost kept = restored@;
            assert(!kept.contains_key(number));
            restored.objects.insert(number, record);
            assert(restored@ =~= kept.insert(number, record@));
            index = index + 1;
        }
        assert(models.subrange(0, models.len() as int) =~= models);
        Ok(restored)
    }

    /// Makes the device of an image. An image that is corrupt, of another
    /// device, or of an unknown version is refused.
    pub fn from_persistent_state(
        config: DeviceConfig,
        firmware: FirmwareProfile,
        state: PersistentState,
        replies: &[EngineReply],
    ) -> (device: core::result::Result<Device, Halt>)
        ensures
            stopped(device) == settled(state@.device(config@, firmware, replies@)),
            device matches Ok(device) ==> device.valid(),
    {
        let schema: String = "virtual-yubihsm-state".to_string();
        if state.schema != schema || state.version < 1 || state.version
            > PERSISTENT_STATE_VERSION || state.config.serial != config.serial
            || state.audit.entries.len() > config.log_capacity as usize || !state.options.valid() {
            return fail(DeviceError::InvalidData);
        }
        let mut answers = Answers::new(replies);
        let key = import_device_key(&state.device_static_private, &mut answers)?;
        if !state.sequence_history.validate() {
            return fail(DeviceError::InvalidData);
        }
        let restored = Device::restore_objects(state.version, state.objects, &mut answers)?;
        let sessions: BTreeMap<u8, SessionEntry> = BTreeMap::new();
        let device = Device {
            config,
            firmware,
            objects: restored.objects,
            sessions,
            device_static_private: key,
            state_epoch: state.state_epoch,
            sequence_history: state.sequence_history,
            options: state.options,
            audit: state.audit,
            persistent_change: false,
        };
        assert(device@.sessions =~= Map::<u8, SessionModel>::empty());
        assert(device@.objects == restored@);
        Ok(device)
    }
}

/// The objects of an image, each under its key.
pub struct RestoredObjects {
    pub objects: BTreeMap<u32, ObjectRecord>,
}

impl View for RestoredObjects {
    type V = Map<u32, RecordModel>;

    open spec fn view(&self) -> Map<u32, RecordModel> {
        records(self.objects@)
    }
}

impl RestoredObjects {
    /// Whether every object is consistent and stands under its own key.
    pub open spec fn valid(self) -> bool {
        forall|number: u32| #[trigger]
            self@.contains_key(number) ==> self@[number].validated() is Ok
                && self@[number].info.key().number() == number
    }
}

/// An object that cannot be stored keeps all of them from being stored.
proof fn failures_stay(objects: Seq<RecordModel>, count: int)
    requires
        0 <= count <= objects.len(),
    ensures
        all_stored(objects.subrange(0, count)) matches Err(error) ==> all_stored(objects) == Err::<
            Seq<RecordModel>,
            DeviceError,
        >(error),
    decreases objects.len() - count,
{
    if count < objects.len() {
        failures_stay(objects, count + 1);
        assert(objects.subrange(0, count + 1).drop_last() =~= objects.subrange(0, count));
    } else {
        assert(objects.subrange(0, count) =~= objects);
    }
}

/// What stops the restoring of an object stops that of all.
proof fn halts_stay(
    version: u16,
    objects: Seq<RecordModel>,
    count: int,
    replies: Seq<EngineReply>,
    used: nat,
)
    requires
        0 <= count <= objects.len(),
    ensures
        all_restored(version, objects.subrange(0, count), replies, used) matches Err(halt)
            ==> all_restored(version, objects, replies, used) == Err::<
            (Map<u32, RecordModel>, nat),
            HaltModel,
        >(halt),
    decreases objects.len() - count,
{
    if count < objects.len() {
        halts_stay(version, objects, count + 1, replies, used);
        assert(objects.subrange(0, count + 1).drop_last() =~= objects.subrange(0, count));
    } else {
        assert(objects.subrange(0, count) =~= objects);
    }
}

/// How far answers go in which the engine makes every private key, out of what
/// is stored of it, again the key that it was; nothing where they do not.
pub open spec fn recalled(
    objects: Seq<RecordModel>,
    replies: Seq<EngineReply>,
    used: nat,
) -> Option<
    nat,
>
    decreases objects.len(),
{
    if objects.len() == 0 {
        Some(used)
    } else {
        match recalled(objects.drop_last(), replies, used) {
            None => None,
            Some(used) => {
                let record = objects.last();
                if record.material is SigningKey || record.material is X25519Key {
                    match stored(record) {
                        Err(_) => None,
                        Ok(object) => match promoted(object, replies, used) {
                            Ok((back, used)) => if back == record {
                                Some(used)
                            } else {
                                None
                            },
                            Err(_) => None,
                        },
                    }
                } else {
                    Some(used)
                }
            },
        }
    }
}

/// Whether private keys are held as keys, and not as bytes.
pub open spec fn holds_typed_keys(record: RecordModel) -> bool {
    record.material is Secret ==> record.info.object_type != ObjectType::AsymmetricKey
        && !record.holds_private_key()
}

impl DeviceModel {
    /// Whether a device can be written down and brought back: its options have
    /// values that they can have, its log is within its limit, its own key has 32
    /// bytes, its history has no reserved number, and no private key is held as
    /// bare bytes.
    pub open spec fn storable(self) -> bool {
        &&& self.options.valid()
        &&& self.audit.entries.len() <= self.config.log_capacity
        &&& self.key.private.len() == 32
        &&& forall|id: u16| #[trigger] self.history.contains_key(id) ==> id != 0 && id != 0xffff
        &&& forall|number: u32| #[trigger]
            self.objects.contains_key(number) ==> holds_typed_keys(self.objects[number])
    }
}

/// Objects come back from an image as they were.
proof fn objects_come_back(
    objects: Map<u32, RecordModel>,
    bound: nat,
    replies: Seq<EngineReply>,
    used: nat,
)
    requires
        bound <= 0x1_0000_0000,
        forall|number: u32| #[trigger]
            objects.contains_key(number) ==> objects[number].validated() is Ok
                && objects[number].info.key().number() == number && holds_typed_keys(
                objects[number],
            ),
        recalled(listing(objects, bound), replies, used) is Some,
    ensures
        all_stored(listing(objects, bound)) is Ok,
        all_restored(
            PERSISTENT_STATE_VERSION,
            all_stored(listing(objects, bound))->Ok_0,
            replies,
            used,
        ) == Ok::<(Map<u32, RecordModel>, nat), HaltModel>(
            (
                objects.restrict(Set::new(|number: u32| number < bound)),
                recalled(listing(objects, bound), replies, used)->0,
            ),
        ),
    decreases bound,
{
    let below = objects.restrict(Set::new(|number: u32| number < bound));
    if bound == 0 {
        assert(below =~= Map::<u32, RecordModel>::empty());
    } else {
        let shorter = (bound - 1) as nat;
        let number = (bound - 1) as u32;
        let before = objects.restrict(Set::new(|number: u32| number < shorter));
        let all = listing(objects, bound);
        if objects.contains_key(number) {
            let record = objects[number];
            assert(all.drop_last() =~= listing(objects, shorter));
            assert(all.last() == record);
            objects_come_back(objects, shorter, replies, used);
            let reached = recalled(listing(objects, shorter), replies, used)->0;
            assert(restored(PERSISTENT_STATE_VERSION, stored(record)->Ok_0, replies, reached) is Ok);
            let images = all_stored(all)->Ok_0;
            assert(images.drop_last() =~= all_stored(listing(objects, shorter))->Ok_0);
            assert(images.last() == stored(record)->Ok_0);
            assert(!before.contains_key(number));
            assert(before.insert(number, record) =~= below);
        } else {
            objects_come_back(objects, shorter, replies, used);
            assert(before =~= below);
        }
    }
}

/// A device comes back from its image as it was, but for its sessions, where the
/// engine makes every stored private key the key that it was. It comes back under
/// whichever configuration has its serial number and room for its log, and under
/// whichever firmware; those, and not the stored ones, are the new device's.
pub proof fn images_bring_devices_back(
    device: DeviceModel,
    config: ConfigModel,
    firmware: FirmwareProfile,
    replies: Seq<EngineReply>,
    used: nat,
)
    requires
        device.valid(),
        device.storable(),
        config.serial == device.config.serial,
        device.audit.entries.len() <= config.log_capacity,
        imported_device_key(device.key.private, replies, 0) == Ok::<
            (SigningKeyModel, nat),
            HaltModel,
        >((device.key, used)),
        recalled(device.listed(), replies, used) is Some,
    ensures
        device.state() is Ok,
        device.state()->Ok_0.device(config, firmware, replies) matches Ok((back, _)) && back == (
        DeviceModel { config, firmware, sessions: Map::empty(), changed: false, ..device }),
{
    objects_come_back(device.objects, 0x1_0000_0000, replies, used);
    assert(device.objects.restrict(Set::new(|number: u32| number < 0x1_0000_0000))
        =~= device.objects);
}

/// An image of another device, of an unknown form or version, or with more log
/// entries than there is room for is refused, whatever else it holds.
pub proof fn foreign_images_are_refused(
    state: StateModel,
    config: ConfigModel,
    firmware: FirmwareProfile,
    replies: Seq<EngineReply>,
)
    requires
        state.schema != state_schema() || state.version == 0 || state.version
            > PERSISTENT_STATE_VERSION || state.config.serial != config.serial
            || state.audit.entries.len() > config.log_capacity || !state.options.valid(),
    ensures
        settled(state.device(config, firmware, replies)) == Err::<DeviceModel, StopModel>(
            StopModel::Error(DeviceError::InvalidData),
        ),
{
}

} // verus!
