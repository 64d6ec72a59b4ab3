//! The secure channel of a session.
use crate::audit::first_sixteen;
use crate::authorization::SessionAuthorization;
use crate::bytes::{append, copied, copied_range, joined, single, u16_be, write_u16, zeros};
use crate::engine::{
    bytes_from, channel_from, fail, key_from, lift, run, sized_from, Answers, EngineReply,
    EngineRequest, Halt, HaltModel, Operation, RequestModel, Run,
};
use crate::error::{DeviceError, Result};
use crate::frame::{Frame, FrameModel, HEADER_LENGTH, MAX_DATA_LENGTH, RESPONSE_BIT};
use crate::keys::{EcCurve, HashAlgorithm, KeyKind, SigningKey, SigningKeyModel};
use crate::outside::same_secret;
use crate::protocol::CommandCode;
use crate::session_object::{SessionObjects, VolatileModel};
use vstd::prelude::*;

verus! {

/// Length of a cipher block.
pub const BLOCK_SIZE: usize = 16;

/// Length of the message authentication code on the wire.
pub const MAC_LENGTH: usize = 8;

/// Length of a challenge.
pub const CHALLENGE_LENGTH: usize = 8;

/// Length of an uncompressed P-256 point.
pub const P256_PUBLIC_KEY_LENGTH: usize = 65;

/// The algorithm number of symmetric authentication keys.
pub const AUTHENTICATION_ALGORITHM_AES128_YUBICO: u8 = 38;

/// The algorithm number of asymmetric authentication keys.
pub const AUTHENTICATION_ALGORITHM_EC_P256: u8 = 49;

/// What an asymmetric session derives its keys for.
pub open spec fn scp11_shared_info() -> Seq<u8> {
    seq![0x3cu8, 0x88u8, 0x10u8]
}

/// Data with the marker byte and zeros after it, up to a whole number of blocks.
pub open spec fn padded(data: Seq<u8>) -> Seq<u8> {
    data + seq![0x80u8] + Seq::new((15 - data.len() % 16) as nat, |i: int| 0u8)
}

/// What stands before the last marker byte, where only zeros follow it.
pub open spec fn unpadded(data: Seq<u8>) -> core::result::Result<Seq<u8>, DeviceError>
    decreases data.len(),
{
    if data.len() == 0 {
        Err(DeviceError::InvalidData)
    } else if data.last() == 0 {
        unpadded(data.drop_last())
    } else if data.last() == 0x80 {
        Ok(data.drop_last())
    } else {
        Err(DeviceError::InvalidData)
    }
}

/// Pads data to a whole number of blocks.
pub fn pad(data: &[u8]) -> (padding: Vec<u8>)
    ensures
        padding@ == padded(data@),
{
    let mut padding: Vec<u8> = copied(data);
    padding.push(0x80);
    append(&mut padding, &zeros(15 - data.len() % 16));
    assert(padding@ =~= padded(data@));
    padding
}

/// Removes the padding of data.
pub fn unpad(data: Vec<u8>) -> (clear: Result<Vec<u8>>)
    ensures
        match clear {
            Ok(clear) => unpadded(data@) == Ok::<Seq<u8>, DeviceError>(clear@),
            Err(error) => unpadded(data@) == Err::<Seq<u8>, DeviceError>(error),
        },
{
    let mut end: usize = data.len();
    assert(data@.subrange(0, end as int) =~= data@);
    while end > 0 && data[end - 1] == 0
        invariant
            end <= data@.len(),
            unpadded(data@) == unpadded(data@.subrange(0, end as int)),
        decreases end,
    {
        assert(data@.subrange(0, end as int).drop_last() =~= data@.subrange(0, end - 1));
        end = end - 1;
    }
    if end == 0 || data[end - 1] != 0x80 {
        return Err(DeviceError::InvalidData);
    }
    assert(data@.subrange(0, end as int).drop_last() =~= data@.subrange(0, end - 1));
    Ok(copied_range(&data, 0, end - 1))
}

/// Padded data is a whole number of blocks, longer than the data, and unpads to
/// the data.
pub proof fn padding_round_trip(data: Seq<u8>)
    ensures
        padded(data).len() % 16 == 0,
        data.len() < padded(data).len() <= data.len() + 16,
        unpadded(padded(data)) == Ok::<Seq<u8>, DeviceError>(data),
{
    unpadding_skips_zeros(data, (15 - data.len() % 16) as nat);
}

/// Zeros after the marker make no difference.
proof fn unpadding_skips_zeros(data: Seq<u8>, count: nat)
    ensures
        unpadded(data + seq![0x80u8] + Seq::new(count, |i: int| 0u8)) == Ok::<
            Seq<u8>,
            DeviceError,
        >(data),
    decreases count,
{
    let all = data + seq![0x80u8] + Seq::new(count, |i: int| 0u8);
    if count == 0 {
        assert(all.drop_last() =~= data);
    } else {
        let fewer = (count - 1) as nat;
        unpadding_skips_zeros(data, fewer);
        assert(all.drop_last() =~= data + seq![0x80u8] + Seq::new(fewer, |i: int| 0u8));
    }
}

/// The number that follows, as big-endian bytes of the same length: after the
/// highest comes zero.
pub open spec fn following_counter(counter: Seq<u8>) -> Seq<u8>
    decreases counter.len(),
{
    if counter.len() == 0 {
        counter
    } else if counter.last() == 0xff {
        following_counter(counter.drop_last()).push(0)
    } else {
        counter.drop_last().push((counter.last() + 1) as u8)
    }
}

/// The number that big-endian bytes stand for.
pub open spec fn counter_value(counter: Seq<u8>) -> nat
    decreases counter.len(),
{
    if counter.len() == 0 {
        0
    } else {
        counter_value(counter.drop_last()) * 256 + counter.last() as nat
    }
}

/// One more than the highest number of so many bytes.
pub open spec fn counter_range(length: nat) -> nat
    decreases length,
{
    if length == 0 {
        1
    } else {
        counter_range((length - 1) as nat) * 256
    }
}

/// The number that follows is one more, and after the highest comes zero.
pub proof fn counters_count(counter: Seq<u8>)
    ensures
        following_counter(counter).len() == counter.len(),
        counter_value(counter) < counter_range(counter.len()),
        counter_value(following_counter(counter)) == (if counter_value(counter) + 1
            == counter_range(counter.len()) {
            0
        } else {
            counter_value(counter) + 1
        }),
    decreases counter.len(),
{
    if counter.len() > 0 {
        let rest = counter.drop_last();
        counters_count(rest);
        let next = following_counter(counter);
        if counter.last() == 0xff {
            assert(next.drop_last() =~= following_counter(rest));
        } else {
            assert(next.drop_last() =~= rest);
        }
    }
}

/// Counts one further.
pub fn increment_counter(counter: &mut [u8; 16])
    ensures
        final(counter)@ == following_counter(old(counter)@),
{
    let ghost before = counter@;
    let mut index: usize = 16;
    let ghost mut carried: Seq<u8> = Seq::empty();
    assert(before.subrange(0, 16) =~= before);
    assert(following_counter(before.subrange(0, 16)) + carried =~= following_counter(before));
    while index > 0
        invariant
            index <= 16,
            before.len() == 16,
            before == old(counter)@,
            carried.len() == 16 - index,
            counter@ == before.subrange(0, index as int) + carried,
            following_counter(before) == following_counter(before.subrange(0, index as int))
                + carried,
        decreases index,
    {
        let ghost part = before.subrange(0, index as int);
        index = index - 1;
        let byte: u8 = counter[index];
        assert(byte == part.last());
        if byte != 0xff {
            counter[index] = byte + 1;
            assert(counter@ =~= part.drop_last().push((byte + 1) as u8) + carried);
            return;
        }
        counter[index] = 0;
        proof {
            assert(part.drop_last() =~= before.subrange(0, index as int));
            assert(following_counter(part) + carried =~= following_counter(part.drop_last()) + (
            seq![0u8] + carried));
            carried = seq![0u8] + carried;
            assert(counter@ =~= before.subrange(0, index as int) + carried);
        }
    }
    assert(before.subrange(0, 0) =~= Seq::<u8>::empty());
    assert(following_counter(before) =~= counter@);
}

/// Length of the secure response that carries so much data: the session number,
/// the padded inner frame and the authentication code.
pub open spec fn secure_length(data_length: int) -> int {
    1 + (HEADER_LENGTH + data_length + 16) / 16 * 16 + MAC_LENGTH
}

/// Tells whether a secure response can carry so much data.
pub fn secure_response_data_fits(data_length: usize) -> (fits: bool)
    ensures
        fits == (secure_length(data_length as int) <= MAX_DATA_LENGTH),
{
    if data_length > MAX_DATA_LENGTH {
        return false;
    }
    1 + (HEADER_LENGTH + data_length + 16) / 16 * 16 + MAC_LENGTH <= MAX_DATA_LENGTH
}

/// Tells whether a secure response can carry an inner response.
pub fn secure_response_fits(response: &Frame) -> (fits: bool)
    ensures
        fits == (secure_length(response@.data.len() as int) <= MAX_DATA_LENGTH),
{
    secure_response_data_fits(response.data.len())
}

/// The most that a secure response carries is 3116 bytes, and its length is that
/// of the padded frame with the session number and the authentication code.
pub proof fn secure_response_limit(frame: FrameModel)
    ensures
        secure_length(frame.data.len() as int) <= MAX_DATA_LENGTH <==> frame.data.len() <= 3_116,
        secure_length(frame.data.len() as int) == 1 + padded(frame.encoded()).len() + MAC_LENGTH,
{
}

/// The keys and counters of a session.
#[derive(Clone, Debug)]
pub struct SecureSession {
    pub sid: u8,
    pub s_enc: [u8; 16],
    pub s_mac: [u8; 16],
    pub s_rmac: [u8; 16],
    pub counter: [u8; 16],
    pub mac_chaining_value: [u8; 16],
}

/// What the keys and counters of a session say.
#[verifier::ext_equal]
pub struct SecureModel {
    pub sid: u8,
    pub s_enc: Seq<u8>,
    pub s_mac: Seq<u8>,
    pub s_rmac: Seq<u8>,
    pub counter: Seq<u8>,
    pub chaining: Seq<u8>,
}

impl View for SecureSession {
    type V = SecureModel;

    open spec fn view(&self) -> SecureModel {
        SecureModel {
            sid: self.sid,
            s_enc: self.s_enc@,
            s_mac: self.s_mac@,
            s_rmac: self.s_rmac@,
            counter: self.counter@,
            chaining: self.mac_chaining_value@,
        }
    }
}

/// Zero as a counter.
pub open spec fn zero_block() -> Seq<u8> {
    Seq::new(16, |i: int| 0u8)
}

/// What opening a symmetric session gives.
pub struct SymmetricOpening {
    pub secure: SecureSession,
    pub card_cryptogram: Vec<u8>,
    pub host_cryptogram: Vec<u8>,
}

/// What a symmetric opening says.
#[verifier::ext_equal]
pub struct SymmetricModel {
    pub secure: SecureModel,
    pub card_cryptogram: Seq<u8>,
    pub host_cryptogram: Seq<u8>,
}

impl View for SymmetricOpening {
    type V = SymmetricModel;

    open spec fn view(&self) -> SymmetricModel {
        SymmetricModel {
            secure: self.secure@,
            card_cryptogram: self.card_cryptogram@,
            host_cryptogram: self.host_cryptogram@,
        }
    }
}

/// What opening an asymmetric session gives.
pub struct AsymmetricOpening {
    pub secure: SecureSession,
    pub ephemeral_public: Vec<u8>,
    pub receipt: Vec<u8>,
}

/// What an asymmetric opening says.
#[verifier::ext_equal]
pub struct AsymmetricModel {
    pub secure: SecureModel,
    pub ephemeral_public: Seq<u8>,
    pub receipt: Seq<u8>,
}

impl View for AsymmetricOpening {
    type V = AsymmetricModel;

    open spec fn view(&self) -> AsymmetricModel {
        AsymmetricModel {
            secure: self.secure@,
            ephemeral_public: self.ephemeral_public@,
            receipt: self.receipt@,
        }
    }
}

/// A message that a session has taken or made, and the session after it.
pub struct Exchange {
    pub secure: SecureSession,
    pub frame: Frame,
}

/// What an exchange says.
#[verifier::ext_equal]
pub struct ExchangeModel {
    pub secure: SecureModel,
    pub frame: FrameModel,
}

impl View for Exchange {
    type V = ExchangeModel;

    open spec fn view(&self) -> ExchangeModel {
        ExchangeModel { secure: self.secure@, frame: self.frame@ }
    }
}

/// A verified payload, and the session after it.
pub struct Verified {
    pub secure: SecureSession,
    pub payload: Vec<u8>,
}

/// What a verified payload says.
#[verifier::ext_equal]
pub struct VerifiedModel {
    pub secure: SecureModel,
    pub payload: Seq<u8>,
}

impl View for Verified {
    type V = VerifiedModel;

    open spec fn view(&self) -> VerifiedModel {
        VerifiedModel { secure: self.secure@, payload: self.payload@ }
    }
}

/// A derived session key.
pub open spec fn session_key_from(
    replies: Seq<EngineReply>,
    used: nat,
    key: Seq<u8>,
    constant: u8,
    context: Seq<u8>,
) -> Run<Seq<u8>> {
    sized_from(
        replies,
        used,
        RequestModel::keyed(Operation::Scp03Key(constant), key, context),
        16,
        DeviceError::SessionFailed,
    )
}

/// A derived cryptogram.
pub open spec fn cryptogram_from(
    replies: Seq<EngineReply>,
    used: nat,
    key: Seq<u8>,
    constant: u8,
    context: Seq<u8>,
) -> Run<Seq<u8>> {
    sized_from(
        replies,
        used,
        RequestModel::keyed(Operation::Scp03Cryptogram(constant), key, context),
        8,
        DeviceError::SessionFailed,
    )
}

/// Derives a session key.
fn derive_key(key: &[u8], constant: u8, context: &[u8], answers: &mut Answers) -> (derived:
    core::result::Result<Vec<u8>, Halt>)
    requires
        old(answers).valid(),
    ensures
        final(answers).valid(),
        final(answers).replies == old(answers).replies,
        run(derived, final(answers).used) == session_key_from(
            old(answers).replies@,
            old(answers).used as nat,
            key@,
            constant,
            context@,
        ),
{
    answers.sized(
        EngineRequest::keyed(Operation::Scp03Key(constant), key, context),
        16,
        DeviceError::SessionFailed,
    )
}

/// Derives a cryptogram.
fn derive_cryptogram(key: &[u8], constant: u8, context: &[u8], answers: &mut Answers) -> (derived:
    core::result::Result<Vec<u8>, Halt>)
    requires
        old(answers).valid(),
    ensures
        final(answers).valid(),
        final(answers).replies == old(answers).replies,
        run(derived, final(answers).used) == cryptogram_from(
            old(answers).replies@,
            old(answers).used as nat,
            key@,
            constant,
            context@,
        ),
{
    answers.sized(
        EngineRequest::keyed(Operation::Scp03Cryptogram(constant), key, context),
        8,
        DeviceError::SessionFailed,
    )
}

/// A static public key with its marker: the 64 bytes of a point, or all 65.
pub open spec fn marked_point(public: Seq<u8>) -> core::result::Result<Seq<u8>, DeviceError> {
    if public.len() == 64 {
        Ok(seq![0x04u8] + public)
    } else if public.len() == 65 {
        Ok(public)
    } else {
        Err(DeviceError::WrongLength)
    }
}

impl SecureModel {
    /// Opens a symmetric session: three session keys and the two cryptograms,
    /// derived from the static keys and both challenges.
    pub open spec fn symmetric(
        sid: u8,
        static_keys: Seq<u8>,
        host_challenge: Seq<u8>,
        card_challenge: Seq<u8>,
        replies: Seq<EngineReply>,
        used: nat,
    ) -> Run<SymmetricModel> {
        if static_keys.len() != 32 || host_challenge.len() != CHALLENGE_LENGTH {
            Err(HaltModel::Error(DeviceError::WrongLength, used))
        } else {
            let context = host_challenge + card_challenge;
            let encryption = static_keys.subrange(0, 16);
            let authentication = static_keys.subrange(16, 32);
            match session_key_from(replies, used, encryption, 0x04, context) {
                Err(halt) => Err(halt),
                Ok((s_enc, used)) => match session_key_from(
                    replies,
                    used,
                    authentication,
                    0x06,
                    context,
                ) {
                    Err(halt) => Err(halt),
                    Ok((s_mac, used)) => match session_key_from(
                        replies,
                        used,
                        authentication,
                        0x07,
                        context,
                    ) {
                        Err(halt) => Err(halt),
                        Ok((s_rmac, used)) => match cryptogram_from(
                            replies,
                            used,
                            s_mac,
                            0x00,
                            context,
                        ) {
                            Err(halt) => Err(halt),
                            Ok((card_cryptogram, used)) => match cryptogram_from(
                                replies,
                                used,
                                s_mac,
                                0x01,
                                context,
                            ) {
                                Err(halt) => Err(halt),
                                Ok((host_cryptogram, used)) => Ok(
                                    (
                                        SymmetricModel {
                                            secure: SecureModel {
                                                sid,
                                                s_enc,
                                                s_mac,
                                                s_rmac,
                                                counter: zero_block(),
                                                chaining: zero_block(),
                                            },
                                            card_cryptogram,
                                            host_cryptogram,
                                        },
                                        used,
                                    ),
                                ),
                            },
                        },
                    },
                },
            }
        }
    }

    /// Opens an asymmetric session: a fresh key, agreement of the fresh and of
    /// the static keys, four keys derived from both secrets, and the receipt.
    pub open spec fn asymmetric(
        sid: u8,
        device_static: SigningKeyModel,
        host_static: Seq<u8>,
        host_ephemeral: Seq<u8>,
        replies: Seq<EngineReply>,
        used: nat,
    ) -> Run<AsymmetricModel> {
        let p256 = KeyKind::Ec(EcCurve::P256);
        if device_static.kind != p256 {
            Err(HaltModel::Error(DeviceError::InvalidData, used))
        } else {
            match marked_point(host_static) {
                Err(error) => Err(HaltModel::Error(error, used)),
                Ok(host_static) => match key_from(
                    replies,
                    used,
                    RequestModel::keyed(Operation::GenerateKey(p256), Seq::empty(), Seq::empty()),
                    p256,
                    DeviceError::StorageFailed,
                ) {
                    Err(halt) => Err(halt),
                    Ok((device_ephemeral, used)) => SecureModel::agreed(
                        sid,
                        device_static,
                        device_ephemeral,
                        host_static,
                        host_ephemeral,
                        replies,
                        used,
                    ),
                },
            }
        }
    }

    /// An asymmetric session from both key pairs.
    pub open spec fn agreed(
        sid: u8,
        device_static: SigningKeyModel,
        device_ephemeral: SigningKeyModel,
        host_static: Seq<u8>,
        host_ephemeral: Seq<u8>,
        replies: Seq<EngineReply>,
        used: nat,
    ) -> Run<AsymmetricModel> {
        let agreement = Operation::Agree(KeyKind::Ec(EcCurve::P256));
        let public = device_ephemeral.public;
        if public.len() != P256_PUBLIC_KEY_LENGTH {
            Err(HaltModel::Error(DeviceError::SessionFailed, used))
        } else {
            match bytes_from(
                replies,
                used,
                RequestModel::with_key(agreement, device_ephemeral, Seq::empty(), host_ephemeral),
                DeviceError::InvalidData,
            ) {
                Err(halt) => Err(halt),
                Ok((ephemeral_secret, used)) => match bytes_from(
                    replies,
                    used,
                    RequestModel::with_key(agreement, device_static, Seq::empty(), host_static),
                    DeviceError::InvalidData,
                ) {
                    Err(halt) => Err(halt),
                    Ok((static_secret, used)) => match sized_from(
                        replies,
                        used,
                        RequestModel::compute(
                            Operation::X963Kdf(HashAlgorithm::Sha256, 64),
                            ephemeral_secret + static_secret,
                            scp11_shared_info(),
                            Seq::empty(),
                        ),
                        64,
                        DeviceError::SessionFailed,
                    ) {
                        Err(halt) => Err(halt),
                        Ok((keys, used)) => match channel_from(
                            replies,
                            used,
                            RequestModel::keyed(
                                Operation::Cmac,
                                keys.subrange(0, 16),
                                public + host_ephemeral,
                            ),
                            Some(16),
                        ) {
                            Err(halt) => Err(halt),
                            Ok((receipt, used)) => Ok(
                                (
                                    AsymmetricModel {
                                        secure: SecureModel {
                                            sid,
                                            s_enc: keys.subrange(16, 32),
                                            s_mac: keys.subrange(32, 48),
                                            s_rmac: keys.subrange(48, 64),
                                            counter: following_counter(zero_block()),
                                            chaining: receipt,
                                        },
                                        ephemeral_public: public,
                                        receipt,
                                    },
                                    used,
                                ),
                            ),
                        },
                    },
                },
            }
        }
    }

    /// The payload of a request whose authentication code is right: the code
    /// covers the code before it and everything up to itself.
    pub open spec fn verified(
        self,
        request: FrameModel,
        replies: Seq<EngineReply>,
        used: nat,
    ) -> Run<VerifiedModel> {
        let length = request.data.len() - MAC_LENGTH;
        if length < 0 {
            Err(HaltModel::Error(DeviceError::AuthenticationFailed, used))
        } else {
            match channel_from(
                replies,
                used,
                RequestModel::keyed(
                    Operation::Cmac,
                    self.s_mac,
                    self.chaining + request.encoded().subrange(0, HEADER_LENGTH + length),
                ),
                Some(16),
            ) {
                Err(halt) => Err(halt),
                Ok((mac, used)) => if mac.subrange(0, 8) != request.data.subrange(
                    length,
                    request.data.len() as int,
                ) {
                    Err(HaltModel::Error(DeviceError::AuthenticationFailed, used))
                } else {
                    Ok(
                        (
                            VerifiedModel {
                                secure: SecureModel { chaining: mac, ..self },
                                payload: request.data.subrange(0, length),
                            },
                            used,
                        ),
                    )
                },
            }
        }
    }

    /// The session after the host has authenticated itself.
    pub open spec fn authenticated(
        self,
        request: FrameModel,
        expected: Seq<u8>,
        replies: Seq<EngineReply>,
        used: nat,
    ) -> Run<SecureModel> {
        match self.verified(request, replies, used) {
            Err(halt) => Err(halt),
            Ok((verified, used)) => if verified.payload == seq![self.sid] + expected {
                Ok(
                    (
                        SecureModel {
                            counter: following_counter(self.counter),
                            ..verified.secure
                        },
                        used,
                    ),
                )
            } else {
                Err(HaltModel::Error(DeviceError::AuthenticationFailed, used))
            },
        }
    }

    /// The command in an authenticated session message.
    pub open spec fn decrypted(
        self,
        request: FrameModel,
        replies: Seq<EngineReply>,
        used: nat,
    ) -> Run<ExchangeModel> {
        match self.verified(request, replies, used) {
            Err(halt) => Err(halt),
            Ok((verified, used)) => {
                let payload = verified.payload;
                if payload.len() < 1 + BLOCK_SIZE || payload[0] != self.sid || (payload.len() - 1)
                    % 16 != 0 {
                    Err(HaltModel::Error(DeviceError::SessionFailed, used))
                } else {
                    match channel_from(
                        replies,
                        used,
                        RequestModel::keyed(Operation::EncryptBlock, self.s_enc, self.counter),
                        Some(16),
                    ) {
                        Err(halt) => Err(halt),
                        Ok((iv, used)) => match channel_from(
                            replies,
                            used,
                            RequestModel::compute(
                                Operation::DecryptCbc,
                                self.s_enc,
                                iv,
                                payload.subrange(1, payload.len() as int),
                            ),
                            None,
                        ) {
                            Err(halt) => Err(halt),
                            Ok((clear, used)) => match unpadded(clear) {
                                Err(error) => Err(HaltModel::Error(error, used)),
                                Ok(encoded) => match FrameModel::parsed(encoded) {
                                    Err(error) => Err(HaltModel::Error(error, used)),
                                    Ok(frame) => Ok(
                                        (ExchangeModel { secure: verified.secure, frame }, used),
                                    ),
                                },
                            },
                        },
                    }
                }
            },
        }
    }

    /// The session message that carries a response, and the session after it.
    pub open spec fn encrypted(
        self,
        response: FrameModel,
        replies: Seq<EngineReply>,
        used: nat,
    ) -> Run<ExchangeModel> {
        let command = CommandCode::SessionMessage.byte() | RESPONSE_BIT;
        match channel_from(
            replies,
            used,
            RequestModel::keyed(Operation::EncryptBlock, self.s_enc, self.counter),
            Some(16),
        ) {
            Err(halt) => Err(halt),
            Ok((iv, used)) => match channel_from(
                replies,
                used,
                RequestModel::compute(
                    Operation::EncryptCbc,
                    self.s_enc,
                    iv,
                    padded(response.encoded()),
                ),
                None,
            ) {
                Err(halt) => Err(halt),
                Ok((ciphertext, used)) => {
                    let body = seq![self.sid] + ciphertext;
                    let length = ((body.len() + MAC_LENGTH) % 0x1_0000) as u16;
                    match channel_from(
                        replies,
                        used,
                        RequestModel::keyed(
                            Operation::Cmac,
                            self.s_rmac,
                            self.chaining + (seq![command] + u16_be(length) + body),
                        ),
                        Some(16),
                    ) {
                        Err(halt) => Err(halt),
                        Ok((mac, used)) => if body.len() + MAC_LENGTH > MAX_DATA_LENGTH {
                            Err(HaltModel::Error(DeviceError::WrongLength, used))
                        } else {
                            Ok(
                                (
                                    ExchangeModel {
                                        secure: SecureModel {
                                            counter: following_counter(self.counter),
                                            ..self
                                        },
                                        frame: FrameModel {
                                            command,
                                            data: body + mac.subrange(0, 8),
                                        },
                                    },
                                    used,
                                ),
                            )
                        },
                    }
                },
            },
        }
    }
}

impl SecureSession {
    /// Copies the state of a secure channel.
    pub fn copied(&self) -> (secure: SecureSession)
        ensures
            secure@ == self@,
    {
        SecureSession {
            sid: self.sid,
            s_enc: self.s_enc,
            s_mac: self.s_mac,
            s_rmac: self.s_rmac,
            counter: self.counter,
            mac_chaining_value: self.mac_chaining_value,
        }
    }

    /// Opens a symmetric session.
    pub fn begin_symmetric(
        sid: u8,
        static_keys: &[u8],
        host_challenge: &[u8],
        card_challenge: &[u8],
        answers: &mut Answers,
    ) -> (opening: core::result::Result<SymmetricOpening, Halt>)
        requires
            old(answers).valid(),
        ensures
            final(answers).valid(),
            final(answers).replies == old(answers).replies,
            run(opening, final(answers).used) == SecureModel::symmetric(
                sid,
                static_keys@,
                host_challenge@,
                card_challenge@,
                old(answers).replies@,
                old(answers).used as nat,
            ),
    {
        if static_keys.len() != 32 || host_challenge.len() != CHALLENGE_LENGTH {
            return fail(DeviceError::WrongLength);
        }
        let context: Vec<u8> = joined(host_challenge, card_challenge);
        let encryption: Vec<u8> = copied_range(static_keys, 0, 16);
        let authentication: Vec<u8> = copied_range(static_keys, 16, 32);
        let s_enc: Vec<u8> = derive_key(&encryption, 0x04, &context, answers)?;
        let s_mac: Vec<u8> = derive_key(&authentication, 0x06, &context, answers)?;
        let s_rmac: Vec<u8> = derive_key(&authentication, 0x07, &context, answers)?;
        let card_cryptogram: Vec<u8> = derive_cryptogram(&s_mac, 0x00, &context, answers)?;
        let host_cryptogram: Vec<u8> = derive_cryptogram(&s_mac, 0x01, &context, answers)?;
        let zero: [u8; 16] = [0, 0, 0, 0, 0, 0, 0, 0, 0, 0, 0, 0, 0, 0, 0, 0];
        assert(zero@ =~= zero_block());
        let secure = SecureSession {
            sid,
            s_enc: first_sixteen(&s_enc),
            s_mac: first_sixteen(&s_mac),
            s_rmac: first_sixteen(&s_rmac),
            counter: zero,
            mac_chaining_value: zero,
        };
        assert(s_enc@.subrange(0, 16) =~= s_enc@);
        assert(s_mac@.subrange(0, 16) =~= s_mac@);
        assert(s_rmac@.subrange(0, 16) =~= s_rmac@);
        Ok(SymmetricOpening { secure, card_cryptogram, host_cryptogram })
    }

    /// Opens an asymmetric session.
    pub fn begin_asymmetric(
        sid: u8,
        device_static: &SigningKey,
        host_static_public: &[u8],
        host_ephemeral_public: &[u8],
        answers: &mut Answers,
    ) -> (opening: core::result::Result<AsymmetricOpening, Halt>)
        requires
            old(answers).valid(),
        ensures
            final(answers).valid(),
            final(answers).replies == old(answers).replies,
            run(opening, final(answers).used) == SecureModel::asymmetric(
                sid,
                device_static@,
                host_static_public@,
                host_ephemeral_public@,
                old(answers).replies@,
                old(answers).used as nat,
            ),
    {
        if !matches!(device_static.kind, KeyKind::Ec(EcCurve::P256)) {
            return fail(DeviceError::InvalidData);
        }
        let host_static: Vec<u8> = if host_static_public.len() == 64 {
            joined(&single(0x04), host_static_public)
        } else if host_static_public.len() == 65 {
            copied(host_static_public)
        } else {
            return fail(DeviceError::WrongLength);
        };
        let none: Vec<u8> = Vec::new();
        assert(none@ =~= Seq::<u8>::empty());
        let p256 = KeyKind::Ec(EcCurve::P256);
        let device_ephemeral = random_secret_key(answers)?;
        if device_ephemeral.public.len() != P256_PUBLIC_KEY_LENGTH {
            return fail(DeviceError::SessionFailed);
        }
        let ephemeral_secret: Vec<u8> = answers.bytes(
            EngineRequest::with_key(
                Operation::Agree(p256),
                &device_ephemeral,
                &none,
                host_ephemeral_public,
            ),
            DeviceError::InvalidData,
        )?;
        let static_secret: Vec<u8> = answers.bytes(
            EngineRequest::with_key(Operation::Agree(p256), device_static, &none, &host_static),
            DeviceError::InvalidData,
        )?;
        let shared_info: Vec<u8> = vec![0x3c, 0x88, 0x10];
        assert(shared_info@ =~= scp11_shared_info());
        let keys: Vec<u8> = answers.sized(
            EngineRequest::compute(
                Operation::X963Kdf(HashAlgorithm::Sha256, 64),
                &joined(&ephemeral_secret, &static_secret),
                &shared_info,
                &none,
            ),
            64,
            DeviceError::SessionFailed,
        )?;
        let receipt: Vec<u8> = answers.channel(
            EngineRequest::keyed(
                Operation::Cmac,
                &copied_range(&keys, 0, 16),
                &joined(&device_ephemeral.public, host_ephemeral_public),
            ),
            Some(16),
        )?;
        let mut counter: [u8; 16] = [0, 0, 0, 0, 0, 0, 0, 0, 0, 0, 0, 0, 0, 0, 0, 0];
        assert(counter@ =~= zero_block());
        increment_counter(&mut counter);
        let s_enc: Vec<u8> = copied_range(&keys, 16, 32);
        let s_mac: Vec<u8> = copied_range(&keys, 32, 48);
        let s_rmac: Vec<u8> = copied_range(&keys, 48, 64);
        assert(s_enc@.subrange(0, 16) =~= s_enc@);
        assert(s_mac@.subrange(0, 16) =~= s_mac@);
        assert(s_rmac@.subrange(0, 16) =~= s_rmac@);
        assert(receipt@.subrange(0, 16) =~= receipt@);
        let secure = SecureSession {
            sid,
            s_enc: first_sixteen(&s_enc),
            s_mac: first_sixteen(&s_mac),
            s_rmac: first_sixteen(&s_rmac),
            counter,
            mac_chaining_value: first_sixteen(&receipt),
        };
        Ok(AsymmetricOpening { secure, ephemeral_public: device_ephemeral.public, receipt })
    }

    /// Checks the authentication code of a request.
    fn verify_request_mac(&self, request: &Frame, answers: &mut Answers) -> (verified:
        core::result::Result<Verified, Halt>)
        requires
            old(answers).valid(),
        ensures
            final(answers).valid(),
            final(answers).replies == old(answers).replies,
            run(verified, final(answers).used) == self@.verified(
                request@,
                old(answers).replies@,
                old(answers).used as nat,
            ),
    {
        if request.data.len() < MAC_LENGTH {
            return fail(DeviceError::AuthenticationFailed);
        }
        let length: usize = request.data.len() - MAC_LENGTH;
        let encoded: Vec<u8> = request.encode();
        assert(encoded@.len() == HEADER_LENGTH + request.data@.len());
        let input: Vec<u8> = joined(
            &self.mac_chaining_value,
            &copied_range(&encoded, 0, HEADER_LENGTH + length),
        );
        let mac: Vec<u8> = answers.channel(
            EngineRequest::keyed(Operation::Cmac, &self.s_mac, &input),
            Some(16),
        )?;
        if !same_secret(
            &copied_range(&mac, 0, 8),
            &copied_range(&request.data, length, request.data.len()),
        ) {
            return fail(DeviceError::AuthenticationFailed);
        }
        assert(mac@.subrange(0, 16) =~= mac@);
        let secure = SecureSession {
            sid: self.sid,
            s_enc: self.s_enc,
            s_mac: self.s_mac,
            s_rmac: self.s_rmac,
            counter: self.counter,
            mac_chaining_value: first_sixteen(&mac),
        };
        Ok(Verified { secure, payload: copied_range(&request.data, 0, length) })
    }

    /// Authenticates the host of a symmetric session.
    pub fn authenticate_symmetric(
        &self,
        request: &Frame,
        expected_host_cryptogram: &[u8],
        answers: &mut Answers,
    ) -> (secure: core::result::Result<SecureSession, Halt>)
        requires
            old(answers).valid(),
        ensures
            final(answers).valid(),
            final(answers).replies == old(answers).replies,
            run(secure, final(answers).used) == self@.authenticated(
                request@,
                expected_host_cryptogram@,
                old(answers).replies@,
                old(answers).used as nat,
            ),
    {
        let verified = self.verify_request_mac(request, answers)?;
        let expected: Vec<u8> = joined(&single(self.sid), expected_host_cryptogram);
        if !same_secret(&verified.payload, &expected) {
            return fail(DeviceError::AuthenticationFailed);
        }
        let mut secure = verified.secure;
        increment_counter(&mut secure.counter);
        Ok(secure)
    }

    /// Takes the command out of an authenticated session message.
    pub fn decrypt_request(&self, request: &Frame, answers: &mut Answers) -> (exchange:
        core::result::Result<Exchange, Halt>)
        requires
            old(answers).valid(),
        ensures
            final(answers).valid(),
            final(answers).replies == old(answers).replies,
            run(exchange, final(answers).used) == self@.decrypted(
                request@,
                old(answers).replies@,
                old(answers).used as nat,
            ),
    {
        let verified = self.verify_request_mac(request, answers)?;
        let payload: &Vec<u8> = &verified.payload;
        if payload.len() < 1 + BLOCK_SIZE || payload[0] != self.sid || (payload.len() - 1)
            % BLOCK_SIZE != 0 {
            return fail(DeviceError::SessionFailed);
        }
        let iv: Vec<u8> = answers.channel(
            EngineRequest::keyed(Operation::EncryptBlock, &self.s_enc, &self.counter),
            Some(16),
        )?;
        let clear: Vec<u8> = answers.channel(
            EngineRequest::compute(
                Operation::DecryptCbc,
                &self.s_enc,
                &iv,
                &copied_range(payload, 1, payload.len()),
            ),
            None,
        )?;
        let encoded: Vec<u8> = lift(unpad(clear))?;
        let frame = lift(Frame::parse(&encoded))?;
        Ok(Exchange { secure: verified.secure, frame })
    }

    /// Puts a response into a session message.
    #[verifier::spinoff_prover]
    #[verifier::rlimit(40)]
    pub fn encrypt_response(&self, response: &Frame, answers: &mut Answers) -> (exchange:
        core::result::Result<Exchange, Halt>)
        requires
            old(answers).valid(),
        ensures
            final(answers).valid(),
            final(answers).replies == old(answers).replies,
            run(exchange, final(answers).used) == self@.encrypted(
                response@,
                old(answers).replies@,
                old(answers).used as nat,
            ),
    {
        let command: u8 = CommandCode::SessionMessage.to_byte() | RESPONSE_BIT;
        let iv: Vec<u8> = answers.channel(
            EngineRequest::keyed(Operation::EncryptBlock, &self.s_enc, &self.counter),
            Some(16),
        )?;
        let ciphertext: Vec<u8> = answers.channel(
            EngineRequest::compute(
                Operation::EncryptCbc,
                &self.s_enc,
                &iv,
                &pad(&response.encode()),
            ),
            None,
        )?;
        let body: Vec<u8> = joined(&single(self.sid), &ciphertext);
        let mut covered: Vec<u8> = single(command);
        write_u16(
            &mut covered,
            ((body.len() % 0x1_0000 + MAC_LENGTH) % 0x1_0000) as u16,
        );
        append(&mut covered, &body);
        let mac: Vec<u8> = answers.channel(
            EngineRequest::keyed(
                Operation::Cmac,
                &self.s_rmac,
                &joined(&self.mac_chaining_value, &covered),
            ),
            Some(16),
        )?;
        let data: Vec<u8> = joined(&body, &copied_range(&mac, 0, 8));
        let frame = lift(Frame::new(command, data))?;
        let mut secure = SecureSession {
            sid: self.sid,
            s_enc: self.s_enc,
            s_mac: self.s_mac,
            s_rmac: self.s_rmac,
            counter: self.counter,
            mac_chaining_value: self.mac_chaining_value,
        };
        increment_counter(&mut secure.counter);
        Ok(Exchange { secure, frame })
    }
}

/// Generates a P-256 key.
pub fn random_secret_key(answers: &mut Answers) -> (key: core::result::Result<SigningKey, Halt>)
    requires
        old(answers).valid(),
    ensures
        final(answers).valid(),
        final(answers).replies == old(answers).replies,
        run(key, final(answers).used) == key_from(
            old(answers).replies@,
            old(answers).used as nat,
            RequestModel::keyed(
                Operation::GenerateKey(KeyKind::Ec(EcCurve::P256)),
                Seq::empty(),
                Seq::empty(),
            ),
            KeyKind::Ec(EcCurve::P256),
            DeviceError::StorageFailed,
        ),
{
    let none: Vec<u8> = Vec::new();
    assert(none@ =~= Seq::<u8>::empty());
    let p256 = KeyKind::Ec(EcCurve::P256);
    answers.key(
        EngineRequest::keyed(Operation::GenerateKey(p256), &none, &none),
        p256,
        DeviceError::StorageFailed,
    )
}

/// A session.
#[derive(Clone, Debug)]
pub struct SessionEntry {
    pub authorization: SessionAuthorization,
    pub secure: SecureSession,
    /// What the host has yet to answer, in a symmetric session.
    pub expected_host_cryptogram: Option<Vec<u8>>,
    pub authenticated: bool,
    /// When the session was last used, in nanoseconds.
    pub last_activity: u64,
    pub objects: SessionObjects,
}

/// What a session says.
#[verifier::ext_equal]
pub struct SessionModel {
    pub authorization: SessionAuthorization,
    pub secure: SecureModel,
    pub expected_host_cryptogram: Option<Seq<u8>>,
    pub authenticated: bool,
    pub last_activity: u64,
    pub objects: Map<u64, VolatileModel>,
}

impl View for SessionEntry {
    type V = SessionModel;

    open spec fn view(&self) -> SessionModel {
        SessionModel {
            authorization: self.authorization,
            secure: self.secure@,
            expected_host_cryptogram: match self.expected_host_cryptogram {
                Some(cryptogram) => Some(cryptogram@),
                None => None,
            },
            authenticated: self.authenticated,
            last_activity: self.last_activity,
            objects: self.objects@,
        }
    }
}

/// A request with a wrong authentication code is refused, whatever it holds.
pub proof fn wrong_codes_are_refused(
    secure: SecureModel,
    request: FrameModel,
    mac: Vec<u8>,
    replies: Seq<EngineReply>,
    used: nat,
)
    requires
        used < replies.len(),
        replies[used as int] == EngineReply::Bytes(mac),
        mac@.len() == 16,
        request.data.len() >= MAC_LENGTH,
        mac@.subrange(0, 8) != request.data.subrange(
            request.data.len() - MAC_LENGTH,
            request.data.len() as int,
        ),
    ensures
        secure.decrypted(request, replies, used) == Err::<(ExchangeModel, nat), HaltModel>(
            HaltModel::Error(DeviceError::AuthenticationFailed, used + 1),
        ),
{
}

/// Every answered message uses the next counter, so that no two messages of a
/// session are encrypted alike.
pub proof fn messages_use_successive_counters(
    secure: SecureModel,
    response: FrameModel,
    replies: Seq<EngineReply>,
    used: nat,
)
    requires
        secure.counter.len() == 16,
    ensures
        secure.encrypted(response, replies, used) matches Ok((exchange, _)) ==> counter_value(
            exchange.secure.counter,
        ) == (if counter_value(secure.counter) + 1 == counter_range(16) {
            0
        } else {
            counter_value(secure.counter) + 1
        }) && exchange.frame.data.len() <= MAX_DATA_LENGTH,
{
    counters_count(secure.counter);
}

} // verus!
