//! Volatile objects of a session.
use crate::bytes::{copied, read_u64, u64_at};
use crate::engine::{
    fail, run, sized_from, Answers, EngineReply, EngineRequest, Halt, HaltModel, RequestModel, Run,
};
use crate::error::DeviceError;
use crate::keys::{EcCurve, KeyKind, SigningKey, SigningKeyModel};
use std::collections::BTreeMap;
use vstd::prelude::*;

verus! {

/// What a volatile session object holds.
#[derive(Clone, Copy, Debug, PartialEq, Eq, Structural)]
pub enum SessionObjectKind {
    GenericSecret,
    Aes,
    P256Private,
}

impl SessionObjectKind {
    /// The protocol byte of this kind.
    pub open spec fn byte(self) -> u8 {
        match self {
            SessionObjectKind::GenericSecret => 1,
            SessionObjectKind::Aes => 2,
            SessionObjectKind::P256Private => 3,
        }
    }

    /// The kind that a protocol byte stands for.
    pub open spec fn of_byte(value: u8) -> Option<SessionObjectKind> {
        match value {
            1 => Some(SessionObjectKind::GenericSecret),
            2 => Some(SessionObjectKind::Aes),
            3 => Some(SessionObjectKind::P256Private),
            _ => None,
        }
    }

    /// Returns the protocol byte.
    pub fn to_byte(self) -> (value: u8)
        ensures
            value == self.byte(),
    {
        match self {
            SessionObjectKind::GenericSecret => 1,
            SessionObjectKind::Aes => 2,
            SessionObjectKind::P256Private => 3,
        }
    }

    /// Decodes a protocol byte.
    pub fn from_byte(value: u8) -> (decoded: Option<SessionObjectKind>)
        ensures
            decoded == SessionObjectKind::of_byte(value),
    {
        match value {
            1 => Some(SessionObjectKind::GenericSecret),
            2 => Some(SessionObjectKind::Aes),
            3 => Some(SessionObjectKind::P256Private),
            _ => None,
        }
    }
}

/// A session-object kind and its protocol byte determine each other: the byte decodes to
/// the session-object kind it came from, and nothing else decodes to it.
pub proof fn session_object_kind_byte_round_trip(item: SessionObjectKind, value: u8)
    ensures
        SessionObjectKind::of_byte(item.byte()) == Some(item),
        SessionObjectKind::of_byte(value) == Some(item) <==> item.byte() == value,
{
}

/// How many volatile objects a session holds at most.
pub const MAX_SESSION_OBJECTS: usize = 64;

/// The object's value may be read.
pub const FLAG_READABLE: u8 = 1;

/// Other objects may be derived from the object.
pub const FLAG_DERIVE: u8 = 2;

/// The object may verify signatures.
pub const FLAG_VERIFY: u8 = 4;

/// What a volatile object holds.
#[derive(Clone, Debug, PartialEq, Eq)]
pub enum SessionObjectMaterial {
    Secret(Vec<u8>),
    P256Private(SigningKey),
}

/// A volatile object.
#[derive(Clone, Debug, PartialEq, Eq)]
pub struct SessionObject {
    pub kind: SessionObjectKind,
    pub flags: u8,
    pub material: SessionObjectMaterial,
}

/// What a volatile object's material says.
#[verifier::ext_equal]
pub enum VolatileMaterial {
    Secret(Seq<u8>),
    P256Private(SigningKeyModel),
}

/// What a volatile object says.
#[verifier::ext_equal]
pub struct VolatileModel {
    pub kind: SessionObjectKind,
    pub flags: u8,
    pub material: VolatileMaterial,
}

impl View for SessionObject {
    type V = VolatileModel;

    open spec fn view(&self) -> VolatileModel {
        VolatileModel {
            kind: self.kind,
            flags: self.flags,
            material: match self.material {
                SessionObjectMaterial::Secret(value) => VolatileMaterial::Secret(value@),
                SessionObjectMaterial::P256Private(key) => VolatileMaterial::P256Private(key@),
            },
        }
    }
}

/// What a volatile object that may be missing says.
pub open spec fn volatile_model(object: Option<SessionObject>) -> Option<VolatileModel> {
    match object {
        Some(object) => Some(object@),
        None => None,
    }
}

impl VolatileModel {
    /// A secret of a kind: at most a kilobyte, of an AES key's length for an AES
    /// key, and never a private key.
    pub open spec fn secret(kind: SessionObjectKind, flags: u8, value: Seq<u8>) -> Option<
        VolatileModel,
    > {
        if value.len() == 0 || value.len() > 1024 || (kind == SessionObjectKind::Aes && value.len()
            != 16 && value.len() != 24 && value.len() != 32) || kind
            == SessionObjectKind::P256Private {
            None
        } else {
            Some(VolatileModel { kind, flags, material: VolatileMaterial::Secret(value) })
        }
    }

    /// A private P-256 key.
    pub open spec fn p256_private(flags: u8, key: SigningKeyModel) -> Option<VolatileModel> {
        if key.kind == KeyKind::Ec(EcCurve::P256) {
            Some(
                VolatileModel {
                    kind: SessionObjectKind::P256Private,
                    flags,
                    material: VolatileMaterial::P256Private(key),
                },
            )
        } else {
            None
        }
    }
}

impl SessionObject {
    /// Makes a secret of a kind.
    pub fn secret(kind: SessionObjectKind, flags: u8, value: Vec<u8>) -> (object: Option<
        SessionObject,
    >)
        ensures
            volatile_model(object) == VolatileModel::secret(kind, flags, value@),
    {
        if value.len() == 0 || value.len() > 1024 || (matches!(kind, SessionObjectKind::Aes)
            && value.len() != 16 && value.len() != 24 && value.len() != 32) || matches!(
            kind,
            SessionObjectKind::P256Private
        ) {
            return None;
        }
        Some(SessionObject { kind, flags, material: SessionObjectMaterial::Secret(value) })
    }

    /// Makes a private P-256 key.
    pub fn p256_private(flags: u8, key: SigningKey) -> (object: Option<SessionObject>)
        ensures
            volatile_model(object) == VolatileModel::p256_private(flags, key@),
    {
        if !matches!(key.kind, KeyKind::Ec(EcCurve::P256)) {
            return None;
        }
        Some(
            SessionObject {
                kind: SessionObjectKind::P256Private,
                flags,
                material: SessionObjectMaterial::P256Private(key),
            },
        )
    }

    /// Returns the secret, unless the object is a private key.
    pub fn secret_value(&self) -> (value: Option<&[u8]>)
        ensures
            match value {
                Some(value) => self@.material == VolatileMaterial::Secret(value@),
                None => self@.material is P256Private,
            },
    {
        match &self.material {
            SessionObjectMaterial::Secret(value) => Some(value.as_slice()),
            SessionObjectMaterial::P256Private(_) => None,
        }
    }

    /// Returns the private key, unless the object is a secret.
    pub fn p256_key(&self) -> (key: Option<&SigningKey>)
        ensures
            match key {
                Some(key) => self@.material == VolatileMaterial::P256Private(key@),
                None => self@.material is Secret,
            },
    {
        match &self.material {
            SessionObjectMaterial::P256Private(key) => Some(key),
            SessionObjectMaterial::Secret(_) => None,
        }
    }

    /// Returns the uncompressed public key, unless the object is a secret.
    pub fn public_key(&self) -> (public: Option<Vec<u8>>)
        ensures
            match public {
                Some(public) => self@.material is P256Private
                    && self@.material->P256Private_0.public == public@,
                None => self@.material is Secret,
            },
    {
        match self.p256_key() {
            Some(key) => Some(copied(&key.public)),
            None => None,
        }
    }

    /// Copies the object.
    pub fn copied(&self) -> (object: SessionObject)
        ensures
            object@ == self@,
    {
        SessionObject {
            kind: self.kind,
            flags: self.flags,
            material: match &self.material {
                SessionObjectMaterial::Secret(value) => SessionObjectMaterial::Secret(
                    copied(value),
                ),
                SessionObjectMaterial::P256Private(key) => SessionObjectMaterial::P256Private(
                    key.copied(),
                ),
            },
        }
    }
}

/// The volatile objects of a session, by handle.
#[derive(Clone, Debug)]
pub struct SessionObjects {
    pub entries: BTreeMap<u64, SessionObject>,
}

impl View for SessionObjects {
    type V = Map<u64, VolatileModel>;

    open spec fn view(&self) -> Map<u64, VolatileModel> {
        self.entries@.map_values(|object: SessionObject| object@)
    }
}

/// A handle for a new object: the first random number that is neither zero nor
/// taken. A full session has none.
pub open spec fn fresh_handle(
    objects: Map<u64, VolatileModel>,
    replies: Seq<EngineReply>,
    used: nat,
) -> Run<u64> {
    if objects.len() >= MAX_SESSION_OBJECTS {
        Err(HaltModel::Error(DeviceError::StorageFailed, used))
    } else {
        drawn_handle(objects, replies, used)
    }
}

/// The first random number that is neither zero nor the handle of an object.
pub open spec fn drawn_handle(
    objects: Map<u64, VolatileModel>,
    replies: Seq<EngineReply>,
    used: nat,
) -> Run<u64>
    decreases replies.len() - used,
{
    match sized_from(replies, used, RequestModel::Random(8), 8, DeviceError::StorageFailed) {
        Ok((bytes, next)) => {
            let handle = u64_at(bytes, 0);
            if handle != 0 && !objects.contains_key(handle) {
                Ok((handle, next))
            } else {
                drawn_handle(objects, replies, next)
            }
        },
        Err(halt) => Err(halt),
    }
}

impl SessionObjects {
    /// Returns no objects.
    pub fn none() -> (objects: SessionObjects)
        ensures
            objects@ == Map::<u64, VolatileModel>::empty(),
    {
        let objects = SessionObjects { entries: BTreeMap::new() };
        assert(objects@ =~= Map::<u64, VolatileModel>::empty());
        objects
    }

    /// Returns the object of a handle.
    pub fn get(&self, handle: u64) -> (object: Option<&SessionObject>)
        ensures
            match object {
                Some(object) => self@.contains_key(handle) && self@[handle] == object@,
                None => !self@.contains_key(handle),
            },
    {
        let found = self.entries.get(&handle);
        assert(found is Some <==> self@.contains_key(handle));
        found
    }

    /// Returns how many objects there are.
    pub fn len(&self) -> (length: usize)
        ensures
            length == self@.len(),
    {
        assert(self@.dom() =~= self.entries@.dom());
        self.entries.len()
    }

    /// Finds a handle for a new object.
    pub fn free_handle(&self, answers: &mut Answers) -> (handle: core::result::Result<u64, Halt>)
        requires
            old(answers).valid(),
        ensures
            final(answers).valid(),
            final(answers).replies == old(answers).replies,
            run(handle, final(answers).used) == fresh_handle(
                self@,
                old(answers).replies@,
                old(answers).used as nat,
            ),
    {
        if self.len() >= MAX_SESSION_OBJECTS {
            return fail(DeviceError::StorageFailed);
        }
        let ghost start = answers.used as nat;
        loop
            invariant
                answers.valid(),
                answers.replies == old(answers).replies,
                self@.len() < MAX_SESSION_OBJECTS,
                start == old(answers).used,
                drawn_handle(self@, answers.replies@, start) == drawn_handle(
                    self@,
                    answers.replies@,
                    answers.used as nat,
                ),
            decreases answers.replies@.len() - answers.used,
        {
            let bytes: Vec<u8> = answers.sized(
                EngineRequest::Random(8),
                8,
                DeviceError::StorageFailed,
            )?;
            let handle: u64 = read_u64(&bytes, 0);
            if handle != 0 && self.get(handle).is_none() {
                return Ok(handle);
            }
        }
    }

    /// Adds an object under a handle.
    pub fn insert(&mut self, handle: u64, object: SessionObject)
        ensures
            final(self)@ == old(self)@.insert(handle, object@),
    {
        self.entries.insert(handle, object);
        assert(self@ =~= old(self)@.insert(handle, object@));
    }

    /// Drops the object of a handle.
    pub fn remove(&mut self, handle: u64)
        ensures
            final(self)@ == old(self)@.remove(handle),
    {
        self.entries.remove(&handle);
        assert(self@ =~= old(self)@.remove(handle));
    }
}

/// A handle that was found is not zero, was free, and the session had room.
pub proof fn found_handles_are_fresh(
    objects: Map<u64, VolatileModel>,
    replies: Seq<EngineReply>,
    used: nat,
)
    ensures
        fresh_handle(objects, replies, used) matches Ok((handle, _)) ==> handle != 0
            && !objects.contains_key(handle) && objects.len() < MAX_SESSION_OBJECTS,
    decreases replies.len() - used,
{
    if objects.len() < MAX_SESSION_OBJECTS {
        if let Ok((bytes, next)) = sized_from(
            replies,
            used,
            RequestModel::Random(8),
            8,
            DeviceError::StorageFailed,
        ) {
            let handle = u64_at(bytes, 0);
            if !(handle != 0 && !objects.contains_key(handle)) {
                found_handles_are_fresh(objects, replies, next);
            }
        }
    }
}

/// A session never holds more volatile objects than it has room for.
pub proof fn sessions_stay_within_their_capacity(
    objects: Map<u64, VolatileModel>,
    object: VolatileModel,
    replies: Seq<EngineReply>,
    used: nat,
)
    requires
        objects.dom().finite(),
        objects.len() <= MAX_SESSION_OBJECTS,
    ensures
        fresh_handle(objects, replies, used) matches Ok((handle, _)) ==> objects.insert(
            handle,
            object,
        ).len() == objects.len() + 1 <= MAX_SESSION_OBJECTS,
{
    found_handles_are_fresh(objects, replies, used);
}

} // verus!
