//! One-time passwords: credentials that are created, rewrapped and used.
use crate::authorization::SessionAuthorization;
use crate::bytes::{u16_at, u16_be, u16_round_trip};
use crate::consultation::{adds, consulted, draws, told, undoes};
use crate::device::DeviceModel;
use crate::engine::{EngineReply, HaltModel, Operation, RequestModel, Run, StopModel};
use crate::error::DeviceError;
use crate::object::{ObjectKey, ObjectType, RecordModel};
use crate::request::{CreateOtpAeadRequest, RewrapOtpAeadRequest};
use crate::usage::{crc16, crc_bits};
use crate::wire::decoded;
use vstd::prelude::*;

verus! {

/// Whether an engine is one for one-time passwords: it opens what it sealed, and
/// sealing adds eight bytes.
pub open spec fn seals_credentials(engine: spec_fn(RequestModel) -> EngineReply) -> bool {
    &&& undoes(engine, Operation::EncryptOtpAead, Operation::DecryptOtpAead)
    &&& adds(engine, Operation::EncryptOtpAead, 8)
    &&& draws(engine)
}

/// What a device answers when it is asked to read a one-time password with a
/// sealed credential.
pub open spec fn read_with(
    device: DeviceModel,
    authorization: SessionAuthorization,
    engine: spec_fn(RequestModel) -> EngineReply,
    id: u16,
    aead: Seq<u8>,
    otp: Seq<u8>,
) -> core::result::Result<Seq<u8>, StopModel> {
    consulted(
        |replies: Seq<EngineReply>|
            device.decrypts_otp(authorization, u16_be(id) + aead + otp, replies, 0),
        engine,
        Seq::empty(),
        2,
    )
}

/// What a one-time password says under a credential: where it decrypts, under the
/// credential's first 16 bytes, to the credential's last six and has the right
/// checksum, its use counter, then its timestamp with the high byte first, then
/// the rest of it.
pub open spec fn said_by(
    engine: spec_fn(RequestModel) -> EngineReply,
    credential: Seq<u8>,
    otp: Seq<u8>,
) -> core::result::Result<Seq<u8>, StopModel> {
    match told(
        engine,
        RequestModel::compute(
            Operation::DecryptEcb,
            credential.subrange(0, 16),
            Seq::empty(),
            otp,
        ),
    ) {
        Some(token) => if token.len() != 16 {
            Err(StopModel::Error(DeviceError::InvalidData))
        } else if token.subrange(0, 6) == credential.subrange(16, 22) && crc16(token) == 0xf0b8 {
            Ok(seq![token[6], token[7], token[11], token[10], token[8], token[9]])
        } else {
            Err(StopModel::Error(DeviceError::InvalidOtp))
        },
        None => Err(StopModel::Error(DeviceError::InvalidData)),
    }
}

/// The parts of a request of two numbers and more.
proof fn lemma_parts(first: u16, rest: Seq<u8>)
    ensures
        u16_at(u16_be(first) + rest, 0) == first,
        (u16_be(first) + rest).len() == 2 + rest.len(),
        (u16_be(first) + rest).subrange(2, 2 + rest.len() as int) == rest,
{
    u16_round_trip(first);
    let whole = u16_be(first) + rest;
    assert(whole[0] == u16_be(first)[0] && whole[1] == u16_be(first)[1]);
    assert(whole.subrange(2, 2 + rest.len() as int) =~= rest);
}

/// A device reads a one-time password with a sealed credential as what the
/// password says under the credential that was sealed: under the key of that
/// number, with the nonce that stands before the ciphertext.
pub proof fn sealed_credentials_are_used(
    device: DeviceModel,
    authorization: SessionAuthorization,
    engine: spec_fn(RequestModel) -> EngineReply,
    id: u16,
    aead: Seq<u8>,
    otp: Seq<u8>,
)
    requires
        device.usable(authorization, ObjectType::OtpAeadKey, id) matches Ok(record)
            && record.material is OtpAeadKey,
        aead.len() == 36,
        otp.len() == 16,
    ensures
        ({
            let key = device.objects[
                ObjectKey { object_type: ObjectType::OtpAeadKey, id }.number()
            ];
            read_with(device, authorization, engine, id, aead, otp) == (match told(
                engine,
                RequestModel::compute(
                    Operation::DecryptOtpAead,
                    key.material->key,
                    key.material->nonce_id + aead.subrange(0, 6) + seq![0u8, 0, 0],
                    aead.subrange(6, 36),
                ),
            ) {
                Some(credential) => if credential.len() == 22 {
                    said_by(engine, credential, otp)
                } else {
                    Err(StopModel::Error(DeviceError::InvalidOtp))
                },
                None => Err(StopModel::Error(DeviceError::InvalidOtp)),
            })
        }),
{
    let data = u16_be(id) + aead + otp;
    u16_round_trip(id);
    assert(u16_at(data, 0) == id);
    assert(data.subrange(2, 38) =~= aead);
    assert(data.subrange(38, 54) =~= otp);
    let command = |replies: Seq<EngineReply>|
        device.decrypts_otp(authorization, u16_be(id) + aead + otp, replies, 0);
    let none = Seq::<EngineReply>::empty();
    let key = device.objects[ObjectKey { object_type: ObjectType::OtpAeadKey, id }.number()];
    let first = RequestModel::compute(
        Operation::DecryptOtpAead,
        key.material->key,
        key.material->nonce_id + aead.subrange(0, 6) + seq![0u8, 0, 0],
        aead.subrange(6, 36),
    );
    assert(command(none) == Err::<(Seq<u8>, nat), HaltModel>(HaltModel::Ask(first)));
    let one = none.push(engine(first));
    assert(consulted(command, engine, none, 2) == consulted(command, engine, one, 1));
    if let Some(credential) = told(engine, first) {
        if credential.len() == 22 {
            let second = RequestModel::compute(
                Operation::DecryptEcb,
                credential.subrange(0, 16),
                Seq::empty(),
                otp,
            );
            assert(command(one) == Err::<(Seq<u8>, nat), HaltModel>(HaltModel::Ask(second)));
            let two = one.push(engine(second));
            assert(consulted(command, engine, one, 1) == consulted(command, engine, two, 0));
            assert(two[0] == one[0]);
            if let Some(token) = told(engine, second) {
                if token.len() == 16 {
                    assert(token.subrange(6, 8) + seq![token[11], token[10]] + token.subrange(8, 10)
                        =~= seq![token[6], token[7], token[11], token[10], token[8], token[9]]);
                }
            }
        }
    }
}

/// A credential that is created under a key is the one that one-time passwords
/// are read with, under the same key.
pub proof fn created_credentials_are_used(
    device: DeviceModel,
    authorization: SessionAuthorization,
    engine: spec_fn(RequestModel) -> EngineReply,
    id: u16,
    credential: Seq<u8>,
    otp: Seq<u8>,
)
    requires
        seals_credentials(engine),
        credential.len() == 22,
        otp.len() == 16,
        consulted(
            |replies: Seq<EngineReply>|
                device.creates_otp_aead(authorization, u16_be(id) + credential, replies, 0),
            engine,
            Seq::empty(),
            2,
        ) is Ok,
    ensures
        ({
            let aead = consulted(
                |replies: Seq<EngineReply>|
                    device.creates_otp_aead(authorization, u16_be(id) + credential, replies, 0),
                engine,
                Seq::empty(),
                2,
            )->Ok_0;
            &&& aead.len() == 36
            &&& read_with(device, authorization, engine, id, aead, otp) == said_by(
                engine,
                credential,
                otp,
            )
        }),
{
    let data = u16_be(id) + credential;
    lemma_parts(id, credential);
    let command = |replies: Seq<EngineReply>|
        device.creates_otp_aead(authorization, u16_be(id) + credential, replies, 0);
    let none = Seq::<EngineReply>::empty();
    assert(data.subrange(2, 24) =~= credential);
    assert(decoded::<CreateOtpAeadRequest>(data) is Ok);
    let usable = device.usable(authorization, ObjectType::OtpAeadKey, id);
    assert(command(none) == (match usable {
        Ok(record) => record.otp_encrypted(credential, none, 0),
        Err(error) => Err(HaltModel::Error(error, 0)),
    }));
    let record = usable->Ok_0;
    assert(usable is Ok);
    lemma_sealing(record, credential, engine, none, command);
    let aead = consulted(command, engine, none, 2)->Ok_0;
    sealed_credentials_are_used(device, authorization, engine, id, aead, otp);
}

/// Sealing a credential, as the last thing that a command does: what comes out is
/// opened under the key again.
proof fn lemma_sealing(
    record: RecordModel,
    credential: Seq<u8>,
    engine: spec_fn(RequestModel) -> EngineReply,
    replies: Seq<EngineReply>,
    command: spec_fn(Seq<EngineReply>) -> Run<Seq<u8>>,
)
    requires
        seals_credentials(engine),
        consulted(command, engine, replies, 2) is Ok,
        command(replies) == record.otp_encrypted(credential, replies, replies.len()),
        ({
            let one = replies.push(engine(RequestModel::Random(6)));
            &&& command(one) == record.otp_encrypted(credential, one, replies.len())
            &&& forall|reply: EngineReply|
                #![trigger one.push(reply)]
                command(one.push(reply)) == record.otp_encrypted(
                    credential,
                    one.push(reply),
                    replies.len(),
                )
        }),
    ensures
        credential.len() == 22,
        record.material is OtpAeadKey,
        ({
            let aead = consulted(command, engine, replies, 2)->Ok_0;
            &&& aead.len() == 36
            &&& told(
                engine,
                RequestModel::compute(
                    Operation::DecryptOtpAead,
                    record.material->key,
                    record.material->nonce_id + aead.subrange(0, 6) + seq![0u8, 0, 0],
                    aead.subrange(6, 36),
                ),
            ) == Some(credential)
        }),
{
    let random = RequestModel::Random(6);
    let one = replies.push(engine(random));
    if credential.len() == 22 && record.material is OtpAeadKey {
        let drawn = told(engine, random)->0;
        assert(drawn.len() == 6);
        assert(command(replies) == Err::<(Seq<u8>, nat), HaltModel>(HaltModel::Ask(random)));
        assert(consulted(command, engine, replies, 2) == consulted(command, engine, one, 1));
        let nonce = record.material->nonce_id + drawn + seq![0u8, 0, 0];
        let sealing = RequestModel::compute(
            Operation::EncryptOtpAead,
            record.material->key,
            nonce,
            credential,
        );
        assert(one[replies.len() as int] == engine(random));
        assert(command(one) == Err::<(Seq<u8>, nat), HaltModel>(HaltModel::Ask(sealing)));
        let two = one.push(engine(sealing));
        assert(consulted(command, engine, one, 1) == consulted(command, engine, two, 0));
        assert(two[replies.len() as int] == engine(random));
        assert(two[replies.len() + 1int] == engine(sealing));
        if let Some(sealed) = told(engine, sealing) {
            let aead = drawn + sealed;
            assert(consulted(command, engine, two, 0) == Ok::<Seq<u8>, StopModel>(aead));
            assert(aead.subrange(0, 6) =~= drawn);
            assert(aead.subrange(6, 36) =~= sealed);
        }
    }
}

/// The credential that comes of a sealed one under the key of a number: what stands
/// behind its first six bytes, decrypted with the nonce of the key, those bytes and
/// three zeros.
pub open spec fn opened_with(
    device: DeviceModel,
    engine: spec_fn(RequestModel) -> EngineReply,
    id: u16,
    aead: Seq<u8>,
) -> Option<Seq<u8>> {
    let key = device.objects[(0x7_0000 + id) as u32];
    told(
        engine,
        RequestModel::compute(
            Operation::DecryptOtpAead,
            key.material->key,
            key.material->nonce_id + aead.subrange(0, 6) + seq![0u8, 0, 0],
            aead.subrange(6, 36),
        ),
    )
}

/// A credential that is rewrapped from one key to another is the same credential
/// under the other key: what comes out opens there to the credential that what went
/// in holds under the first. With what comes out, the other key reads every one-time
/// password as the first key does with what went in.
pub proof fn rewrapped_credentials_are_the_same(
    device: DeviceModel,
    authorization: SessionAuthorization,
    engine: spec_fn(RequestModel) -> EngineReply,
    from_id: u16,
    to_id: u16,
    aead: Seq<u8>,
    otp: Seq<u8>,
)
    requires
        seals_credentials(engine),
        aead.len() == 36,
        otp.len() == 16,
        consulted(
            |replies: Seq<EngineReply>|
                device.rewraps_otp_aead(
                    authorization,
                    u16_be(from_id) + u16_be(to_id) + aead,
                    replies,
                    0,
                ),
            engine,
            Seq::empty(),
            3,
        ) is Ok,
    ensures
        ({
            let rewrapped = consulted(
                |replies: Seq<EngineReply>|
                    device.rewraps_otp_aead(
                        authorization,
                        u16_be(from_id) + u16_be(to_id) + aead,
                        replies,
                        0,
                    ),
                engine,
                Seq::empty(),
                3,
            )->Ok_0;
            &&& rewrapped.len() == 36
            &&& opened_with(device, engine, to_id, rewrapped) is Some
            &&& opened_with(device, engine, to_id, rewrapped) == opened_with(
                device,
                engine,
                from_id,
                aead,
            )
            &&& read_with(device, authorization, engine, to_id, rewrapped, otp) == read_with(
                device,
                authorization,
                engine,
                from_id,
                aead,
                otp,
            )
        }),
{
    let data = u16_be(from_id) + u16_be(to_id) + aead;
    u16_round_trip(from_id);
    u16_round_trip(to_id);
    assert(u16_at(data, 0) == from_id);
    assert(data[2] == u16_be(to_id)[0] && data[3] == u16_be(to_id)[1]);
    assert(u16_at(data, 2) == to_id);
    assert(data.subrange(4, 40) =~= aead);
    assert(decoded::<RewrapOtpAeadRequest>(data) is Ok);
    let command = |replies: Seq<EngineReply>|
        device.rewraps_otp_aead(
            authorization,
            u16_be(from_id) + u16_be(to_id) + aead,
            replies,
            0,
        );
    let none = Seq::<EngineReply>::empty();
    let from = device.usable(authorization, ObjectType::OtpAeadKey, from_id)->Ok_0;
    let to = device.usable(authorization, ObjectType::OtpAeadKey, to_id)->Ok_0;
    assert(device.usable(authorization, ObjectType::OtpAeadKey, from_id) is Ok);
    assert(device.usable(authorization, ObjectType::OtpAeadKey, to_id) is Ok);
    assert(from.material is OtpAeadKey);
    let opening = RequestModel::compute(
        Operation::DecryptOtpAead,
        from.material->key,
        from.material->nonce_id + aead.subrange(0, 6) + seq![0u8, 0, 0],
        aead.subrange(6, 36),
    );
    assert(command(none) == Err::<(Seq<u8>, nat), HaltModel>(HaltModel::Ask(opening)));
    let one = none.push(engine(opening));
    assert(consulted(command, engine, none, 3) == consulted(command, engine, one, 2));
    let credential = told(engine, opening)->0;
    assert(one[0] == engine(opening));
    assert(told(engine, opening) is Some && credential.len() == 22);
    assert(command(one) == to.otp_encrypted(credential, one, 1));
    let two = one.push(engine(RequestModel::Random(6)));
    assert(two[0] == one[0]);
    assert(command(two) == to.otp_encrypted(credential, two, 1));
    assert forall|reply: EngineReply|
        #![trigger two.push(reply)]
        command(two.push(reply)) == to.otp_encrypted(credential, two.push(reply), 1) by {
        assert(two.push(reply)[0] == one[0]);
    }
    lemma_sealing(to, credential, engine, one, command);
    let rewrapped = consulted(command, engine, none, 3)->Ok_0;
    sealed_credentials_are_used(device, authorization, engine, to_id, rewrapped, otp);
    sealed_credentials_are_used(device, authorization, engine, from_id, aead, otp);
}

/// A credential that the device draws itself is 22 random bytes, and the one that
/// one-time passwords are read with, under the same key.
pub proof fn drawn_credentials_are_used(
    device: DeviceModel,
    authorization: SessionAuthorization,
    engine: spec_fn(RequestModel) -> EngineReply,
    id: u16,
    otp: Seq<u8>,
)
    requires
        seals_credentials(engine),
        otp.len() == 16,
        consulted(
            |replies: Seq<EngineReply>|
                device.randomizes_otp_aead(authorization, u16_be(id), replies, 0),
            engine,
            Seq::empty(),
            3,
        ) is Ok,
    ensures
        ({
            let aead = consulted(
                |replies: Seq<EngineReply>|
                    device.randomizes_otp_aead(authorization, u16_be(id), replies, 0),
                engine,
                Seq::empty(),
                3,
            )->Ok_0;
            &&& aead.len() == 36
            &&& read_with(device, authorization, engine, id, aead, otp) == said_by(
                engine,
                told(engine, RequestModel::Random(22))->0,
                otp,
            )
        }),
{
    u16_round_trip(id);
    assert(u16_at(u16_be(id), 0) == id);
    let command = |replies: Seq<EngineReply>|
        device.randomizes_otp_aead(authorization, u16_be(id), replies, 0);
    let none = Seq::<EngineReply>::empty();
    let drawing = RequestModel::Random(22);
    assert(device.usable(authorization, ObjectType::OtpAeadKey, id) is Ok);
    let record = device.usable(authorization, ObjectType::OtpAeadKey, id)->Ok_0;
    assert(command(none) == Err::<(Seq<u8>, nat), HaltModel>(HaltModel::Ask(drawing)));
    let one = none.push(engine(drawing));
    assert(consulted(command, engine, none, 3) == consulted(command, engine, one, 2));
    let credential = told(engine, drawing)->0;
    assert(one[0] == engine(drawing));
    assert(told(engine, drawing) is Some && credential.len() == 22);
    assert(command(one) == record.otp_encrypted(credential, one, 1));
    let two = one.push(engine(RequestModel::Random(6)));
    assert(two[0] == one[0]);
    assert(command(two) == record.otp_encrypted(credential, two, 1));
    assert forall|reply: EngineReply|
        #![trigger two.push(reply)]
        command(two.push(reply)) == record.otp_encrypted(credential, two.push(reply), 1) by {
        assert(two.push(reply)[0] == one[0]);
    }
    lemma_sealing(record, credential, engine, one, command);
    let aead = consulted(command, engine, none, 3)->Ok_0;
    sealed_credentials_are_used(device, authorization, engine, id, aead, otp);
}

/// The checksum of a one-time password: all ones at first, each byte added to its
/// low end, and each bit shifted out, where it is one with the polynomial
/// x^16 + x^12 + x^5 + 1 added, lowest term first.
pub proof fn checksums_divide_by_the_polynomial(data: Seq<u8>, byte: u8, crc: u16, bits: nat)
    ensures
        crc16(Seq::empty()) == 0xffff,
        crc16(data.push(byte)) == crc_bits(crc16(data) ^ byte as u16, 8),
        crc_bits(crc, 0) == crc,
        crc_bits(crc, bits + 1) == crc_bits(
            if crc % 2 == 1 {
                (crc / 2) ^ (0x8000 + 0x0400 + 0x0008) as u16
            } else {
                crc / 2
            },
            bits,
        ),
{
    assert(data.push(byte).drop_last() =~= data);
    lemma_first_bit(crc, bits);
}

proof fn lemma_first_bit(crc: u16, bits: nat)
    ensures
        crc_bits(crc, bits + 1) == crc_bits(
            if crc % 2 == 1 {
                (crc / 2) ^ 0x8408
            } else {
                crc / 2
            },
            bits,
        ),
    decreases bits,
{
    assert((crc & 1 != 0) == (crc % 2 == 1)) by (bit_vector);
    assert(crc >> 1 == crc / 2) by (bit_vector);
    if bits > 0 {
        lemma_first_bit(crc, (bits - 1) as nat);
    } else {
        assert(crc_bits(crc, 0) == crc);
    }
}

} // verus!
