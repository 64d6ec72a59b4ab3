//! Sessions: with which keys they are opened, how long they last, and what they
//! carry.
use crate::authorization::SessionAuthorization;
use crate::bytes::{u16_at, u16_be};
use crate::channel::first_free;
use crate::consultation::{consulted, told};
use crate::device::DeviceModel;
use crate::engine::{EngineReply, HaltModel, Operation, RequestModel, StopModel};
use crate::error::DeviceError;
use crate::frame::FrameModel;
use crate::keys::{EcCurve, HashAlgorithm, KeyKind, SigningKeyModel};
use crate::promises::computing::{computation, place};
use crate::session::{
    following_counter, padded, unpadded, AsymmetricModel, SecureModel, SessionModel,
    SymmetricModel,
};
use vstd::prelude::*;

verus! {

/// Whether an engine derives session keys of 16 bytes and cryptograms of 8.
pub open spec fn derives_sessions(engine: spec_fn(RequestModel) -> EngineReply) -> bool {
    &&& forall|constant: u8, key: Seq<u8>, context: Seq<u8>|
        (#[trigger] told(
            engine,
            RequestModel::compute(Operation::Scp03Key(constant), key, Seq::empty(), context),
        )) matches Some(derived) && derived.len() == 16
    &&& forall|constant: u8, key: Seq<u8>, context: Seq<u8>|
        (#[trigger] told(
            engine,
            RequestModel::compute(Operation::Scp03Cryptogram(constant), key, Seq::empty(), context),
        )) matches Some(shown) && shown.len() == 8
}

/// A session key that an engine derives.
pub open spec fn session_key(
    engine: spec_fn(RequestModel) -> EngineReply,
    constant: u8,
    key: Seq<u8>,
    context: Seq<u8>,
) -> Seq<u8> {
    told(
        engine,
        RequestModel::compute(Operation::Scp03Key(constant), key, Seq::empty(), context),
    )->0
}

/// A cryptogram that an engine derives.
pub open spec fn cryptogram(
    engine: spec_fn(RequestModel) -> EngineReply,
    constant: u8,
    key: Seq<u8>,
    context: Seq<u8>,
) -> Seq<u8> {
    told(
        engine,
        RequestModel::compute(Operation::Scp03Cryptogram(constant), key, Seq::empty(), context),
    )->0
}

/// The keys of a session with a pair of keys of 16 bytes: the first makes the key
/// for encryption, the second those for the codes of requests and of responses,
/// each by its constant and over both challenges; and the key for requests makes
/// what the device and the host show of it.
pub proof fn session_keys_come_of_the_static_keys(
    engine: spec_fn(RequestModel) -> EngineReply,
    sid: u8,
    keys: Seq<u8>,
    host: Seq<u8>,
    card: Seq<u8>,
)
    requires
        derives_sessions(engine),
        keys.len() == 32,
        host.len() == 8,
    ensures
        ({
            let context = host + card;
            let request_key = session_key(engine, 6, keys.subrange(16, 32), context);
            consulted(
                |replies: Seq<EngineReply>|
                    SecureModel::symmetric(sid, keys, host, card, replies, 0),
                engine,
                Seq::empty(),
                5,
            ) == Ok::<_, StopModel>(
                SymmetricModel {
                    secure: SecureModel {
                        sid,
                        s_enc: session_key(engine, 4, keys.subrange(0, 16), context),
                        s_mac: request_key,
                        s_rmac: session_key(engine, 7, keys.subrange(16, 32), context),
                        counter: Seq::new(16, |i: int| 0u8),
                        chaining: Seq::new(16, |i: int| 0u8),
                    },
                    card_cryptogram: cryptogram(engine, 0, request_key, context),
                    host_cryptogram: cryptogram(engine, 1, request_key, context),
                },
            )
        }),
{
    let context = host + card;
    let command = |replies: Seq<EngineReply>|
        SecureModel::symmetric(sid, keys, host, card, replies, 0);
    let none = Seq::<EngineReply>::empty();
    let q1 = RequestModel::compute(
        Operation::Scp03Key(4),
        keys.subrange(0, 16),
        Seq::empty(),
        context,
    );
    let q2 = RequestModel::compute(
        Operation::Scp03Key(6),
        keys.subrange(16, 32),
        Seq::empty(),
        context,
    );
    let q3 = RequestModel::compute(
        Operation::Scp03Key(7),
        keys.subrange(16, 32),
        Seq::empty(),
        context,
    );
    let request_key = told(engine, q2)->0;
    let q4 = RequestModel::compute(
        Operation::Scp03Cryptogram(0),
        request_key,
        Seq::empty(),
        context,
    );
    let q5 = RequestModel::compute(
        Operation::Scp03Cryptogram(1),
        request_key,
        Seq::empty(),
        context,
    );
    assert(told(engine, q1) is Some && told(engine, q2) is Some && told(engine, q3) is Some);
    assert(told(engine, q4) is Some && told(engine, q5) is Some);
    let r1 = none.push(engine(q1));
    let r2 = r1.push(engine(q2));
    let r3 = r2.push(engine(q3));
    let r4 = r3.push(engine(q4));
    let r5 = r4.push(engine(q5));
    assert(r1[0] == engine(q1));
    assert(r2[0] == engine(q1) && r2[1] == engine(q2));
    assert(r3[0] == engine(q1) && r3[1] == engine(q2) && r3[2] == engine(q3));
    assert(r4[0] == engine(q1) && r4[1] == engine(q2) && r4[2] == engine(q3) && r4[3] == engine(
        q4,
    ));
    assert(r5[0] == engine(q1) && r5[1] == engine(q2) && r5[2] == engine(q3) && r5[3] == engine(q4)
        && r5[4] == engine(q5));
    assert(command(none) == Err::<(SymmetricModel, nat), HaltModel>(HaltModel::Ask(q1)));
    assert(command(r1) == Err::<(SymmetricModel, nat), HaltModel>(HaltModel::Ask(q2)));
    assert(command(r2) == Err::<(SymmetricModel, nat), HaltModel>(HaltModel::Ask(q3)));
    assert(command(r3) == Err::<(SymmetricModel, nat), HaltModel>(HaltModel::Ask(q4)));
    assert(command(r4) == Err::<(SymmetricModel, nat), HaltModel>(HaltModel::Ask(q5)));
    assert(consulted(command, engine, none, 5) == consulted(command, engine, r1, 4));
    assert(consulted(command, engine, r1, 4) == consulted(command, engine, r2, 3));
    assert(consulted(command, engine, r2, 3) == consulted(command, engine, r3, 2));
    assert(consulted(command, engine, r3, 2) == consulted(command, engine, r4, 1));
    assert(consulted(command, engine, r4, 1) == consulted(command, engine, r5, 0));
}

/// The keys of a session with key agreement: the secret of the two fresh keys
/// before that of the two static ones goes through the derivation with SHA-256,
/// and the 64 bytes are the key of the receipt, that for encryption and those for
/// the codes. The receipt is the code of both fresh keys, the device's first; it
/// starts the chain, and messages count from one.
pub proof fn session_keys_come_of_the_agreement(
    engine: spec_fn(RequestModel) -> EngineReply,
    sid: u8,
    device_static: SigningKeyModel,
    device_fresh: SigningKeyModel,
    host_static: Seq<u8>,
    host_fresh: Seq<u8>,
    opened: AsymmetricModel,
)
    requires
        consulted(
            |replies: Seq<EngineReply>|
                SecureModel::agreed(
                    sid,
                    device_static,
                    device_fresh,
                    host_static,
                    host_fresh,
                    replies,
                    0,
                ),
            engine,
            Seq::empty(),
            4,
        ) == Ok::<_, StopModel>(opened),
    ensures
        ({
            let agreement = Operation::Agree(KeyKind::Ec(EcCurve::P256));
            let fresh = told(
                engine,
                RequestModel::with_key(agreement, device_fresh, Seq::empty(), host_fresh),
            );
            let fixed = told(
                engine,
                RequestModel::with_key(agreement, device_static, Seq::empty(), host_static),
            );
            let keys = told(
                engine,
                RequestModel::compute(
                    Operation::X963Kdf(HashAlgorithm::Sha256, 64),
                    fresh->0 + fixed->0,
                    seq![0x3cu8, 0x88, 0x10],
                    Seq::empty(),
                ),
            );
            &&& device_fresh.public.len() == 65
            &&& fresh is Some && fixed is Some && keys is Some && keys->0.len() == 64
            &&& told(
                engine,
                RequestModel::compute(
                    Operation::Cmac,
                    keys->0.subrange(0, 16),
                    Seq::empty(),
                    device_fresh.public + host_fresh,
                ),
            ) == Some(opened.receipt)
            &&& opened.receipt.len() == 16
            &&& opened.ephemeral_public == device_fresh.public
            &&& opened.secure.sid == sid
            &&& opened.secure.s_enc == keys->0.subrange(16, 32)
            &&& opened.secure.s_mac == keys->0.subrange(32, 48)
            &&& opened.secure.s_rmac == keys->0.subrange(48, 64)
            &&& opened.secure.chaining == opened.receipt
            &&& opened.secure.counter == following_counter(Seq::new(16, |i: int| 0u8))
        }),
{
    let command = |replies: Seq<EngineReply>|
        SecureModel::agreed(
            sid,
            device_static,
            device_fresh,
            host_static,
            host_fresh,
            replies,
            0,
        );
    let agreement = Operation::Agree(KeyKind::Ec(EcCurve::P256));
    let none = Seq::<EngineReply>::empty();
    let q1 = RequestModel::with_key(agreement, device_fresh, Seq::empty(), host_fresh);
    let q2 = RequestModel::with_key(agreement, device_static, Seq::empty(), host_static);
    let (fresh, fixed) = (told(engine, q1), told(engine, q2));
    let q3 = RequestModel::compute(
        Operation::X963Kdf(HashAlgorithm::Sha256, 64),
        fresh->0 + fixed->0,
        seq![0x3cu8, 0x88, 0x10],
        Seq::empty(),
    );
    let keys = told(engine, q3);
    let q4 = RequestModel::compute(
        Operation::Cmac,
        keys->0.subrange(0, 16),
        Seq::empty(),
        device_fresh.public + host_fresh,
    );
    assert(device_fresh.public.len() == 65);
    let r1 = none.push(engine(q1));
    let r2 = r1.push(engine(q2));
    let r3 = r2.push(engine(q3));
    let r4 = r3.push(engine(q4));
    assert(r1[0] == engine(q1));
    assert(r2[0] == engine(q1) && r2[1] == engine(q2));
    assert(r3[0] == engine(q1) && r3[1] == engine(q2) && r3[2] == engine(q3));
    assert(r4[0] == engine(q1) && r4[1] == engine(q2) && r4[2] == engine(q3) && r4[3] == engine(
        q4,
    ));
    assert(command(none) == Err::<(AsymmetricModel, nat), HaltModel>(HaltModel::Ask(q1)));
    assert(consulted(command, engine, none, 4) == consulted(command, engine, r1, 3));
    assert(fresh is Some);
    assert(command(r1) == Err::<(AsymmetricModel, nat), HaltModel>(HaltModel::Ask(q2)));
    assert(consulted(command, engine, r1, 3) == consulted(command, engine, r2, 2));
    assert(fixed is Some);
    assert(command(r2) == Err::<(AsymmetricModel, nat), HaltModel>(HaltModel::Ask(q3)));
    assert(consulted(command, engine, r2, 2) == consulted(command, engine, r3, 1));
    assert(keys is Some && keys->0.len() == 64);
    assert(command(r3) == Err::<(AsymmetricModel, nat), HaltModel>(HaltModel::Ask(q4)));
    assert(consulted(command, engine, r3, 1) == consulted(command, engine, r4, 0));
}

/// What a session opens: under the smallest number that is free, with the rights of
/// its key, not authenticated yet where the host still has to show its cryptogram,
/// and with a challenge of eight random bytes that is answered with what the device
/// shows.
pub proof fn sessions_open_under_their_key(
    device: DeviceModel,
    authorization: SessionAuthorization,
    host: Seq<u8>,
    now: u64,
    replies: Seq<EngineReply>,
    used: nat,
)
    ensures
        device.opens_session(authorization, host, now, replies, used) matches Ok((opening, _))
            ==> {
            let key = device.objects[place(2, authorization.authentication_key_id)];
            let sid = opening.session.secure.sid;
            &&& device.objects.contains_key(place(2, authorization.authentication_key_id))
            &&& sid < 16 && !device.sessions.contains_key(sid)
            &&& forall|other: u8| other < sid ==> device.sessions.contains_key(other)
            &&& opening.session.authorization == authorization
            &&& opening.session.last_activity == now
            &&& opening.session.objects == Map::<u64, crate::session_object::VolatileModel>::empty()
            &&& opening.data[0] == sid
            &&& key.material is Symmetric ==> host.len() == 8 && !opening.session.authenticated
                && opening.session.expected_host_cryptogram is Some && opening.data.len() == 17
            &&& key.material is Asymmetric ==> host.len() == 65 && opening.session.authenticated
                && opening.session.expected_host_cryptogram is None && opening.data.len() == 82
        },
{
    lemma_smallest(device.sessions, 0);
}

proof fn lemma_smallest(sessions: Map<u8, SessionModel>, from: u8)
    requires
        from <= 16,
    ensures
        first_free(sessions, from) matches Some(sid) ==> from <= sid < 16 && !sessions.contains_key(
            sid,
        ) && forall|other: u8| from <= other < sid ==> sessions.contains_key(other),
    decreases 16 - from,
{
    if from < 16 && sessions.contains_key(from) {
        lemma_smallest(sessions, (from + 1) as u8);
    }
}

/// The rights of a session are those of its authentication key.
pub proof fn sessions_have_the_rights_of_their_key(device: DeviceModel, id: u16)
    ensures
        ({
            let key = device.objects[place(2, id)];
            let rights = device.authorizes(id);
            &&& rights is Ok <==> device.objects.contains_key(place(2, id)) && (
            key.material is Symmetric || key.material is Asymmetric)
            &&& rights matches Ok(rights) ==> rights.authentication_key_id == id
                && rights.capabilities == key.info.capabilities && rights.delegated_capabilities
                == key.info.delegated_capabilities && rights.domains == key.info.domains
        }),
{
}

/// A session ends half a minute after its last message, and not before; nothing
/// but sessions ends.
pub proof fn idle_sessions_end(device: DeviceModel, now: u64, sid: u8)
    ensures
        ({
            let after = device.expired(now);
            &&& after.sessions.contains_key(sid) <==> device.sessions.contains_key(sid) && now
                - device.sessions[sid].last_activity < 30_000_000_000
            &&& after.sessions.contains_key(sid) ==> after.sessions[sid] == device.sessions[sid]
            &&& after == DeviceModel { sessions: after.sessions, ..device }
        }),
{
}

/// Outside of a session a device echoes, tells of itself and makes sessions, and
/// refuses every other command without doing anything.
pub proof fn other_commands_need_a_session(
    device: DeviceModel,
    request: FrameModel,
    now: u64,
    hooked: bool,
    replies: Seq<EngineReply>,
)
    ensures
        ({
            let run = device.receives(request, now, hooked, replies);
            &&& request.command != 0x01 && request.command != 0x03 && request.command != 0x04
                && request.command != 0x05 && request.command != 0x06 && request.command != 0x0a
                ==> run == Err::<(crate::channel::StepModel, nat), _>(
                HaltModel::Error(DeviceError::InvalidCommand, 0),
            )
            &&& request.command == 0x01 ==> (run matches Ok((step, _)) && step.device == device
                && step.handled.response == FrameModel { command: 0x81, data: request.data })
        }),
{
    assert(1u8 | 0x80 == 0x81) by (bit_vector);
}

/// A frame is its command, the length of its data in two bytes, and its data; what
/// is longer than 3133 bytes, or not as long as it says, is refused.
pub proof fn frames_have_a_header(frame: FrameModel, encoded: Seq<u8>)
    ensures
        frame.data.len() <= 3133 ==> {
            &&& frame.encoded().len() == 3 + frame.data.len()
            &&& frame.encoded()[0] == frame.command
            &&& u16_at(frame.encoded(), 1) == frame.data.len()
            &&& frame.encoded().subrange(3, frame.encoded().len() as int) == frame.data
        },
        FrameModel::parsed(encoded) == (if encoded.len() < 3 || u16_at(encoded, 1) > 3133
            || encoded.len() != 3 + u16_at(encoded, 1) {
            Err(DeviceError::WrongLength)
        } else {
            Ok(
                FrameModel {
                    command: encoded[0],
                    data: encoded.subrange(3, encoded.len() as int),
                },
            )
        }),
{
    if frame.data.len() <= 3133 {
        let length = frame.data.len() as u16;
        crate::bytes::u16_round_trip(length);
        let bytes = frame.encoded();
        assert(bytes[1] == u16_be(length)[0] && bytes[2] == u16_be(length)[1]);
        assert(bytes.subrange(3, bytes.len() as int) =~= frame.data);
    }
}

/// The code of a message covers the code before it, the command, the length and
/// everything in front of the code itself; its first eight bytes stand at the end,
/// and the whole of it is chained to. A message with another code is refused.
pub proof fn codes_cover_the_message(
    secure: SecureModel,
    message: FrameModel,
    reply: EngineReply,
)
    requires
        8 <= message.data.len() <= 3133,
    ensures
        ({
            let none = Seq::<EngineReply>::empty();
            let covered = message.data.subrange(0, message.data.len() - 8);
            let code = message.data.subrange(message.data.len() - 8, message.data.len() as int);
            let run = secure.verified(message, none.push(reply), 0);
            &&& computation(secure.verified(message, none, 0)) matches Some(asked)
                && asked.operation == Operation::Cmac && asked.key == secure.s_mac && asked.data
                == secure.chaining + seq![message.command] + u16_be(message.data.len() as u16)
                + covered
            &&& reply matches EngineReply::Bytes(
                right,
            ) ==> right@.len() == 16 ==> if right@.subrange(
                0,
                8,
            ) == code {
                &&& run matches Ok((verified, _))
                &&& verified.payload == covered
                &&& verified.secure == SecureModel { chaining: right@, ..secure }
            } else {
                run == Err::<(crate::session::VerifiedModel, nat), _>(
                    HaltModel::Error(DeviceError::AuthenticationFailed, 1),
                )
            }
        }),
{
    let length = message.data.len() - 8;
    let covered = message.data.subrange(0, length);
    let encoded = message.encoded();
    assert(encoded.subrange(0, 3 + length) =~= seq![message.command] + u16_be(
        message.data.len() as u16,
    ) + covered);
    assert(secure.chaining + (seq![message.command] + u16_be(message.data.len() as u16) + covered)
        =~= secure.chaining + seq![message.command] + u16_be(message.data.len() as u16) + covered);
}

/// A host is authenticated by the cryptogram that was expected, behind the number
/// of the session, and messages count on from there.
pub proof fn hosts_show_their_cryptogram(
    secure: SecureModel,
    message: FrameModel,
    expected: Seq<u8>,
    replies: Seq<EngineReply>,
    used: nat,
)
    ensures
        secure.authenticated(message, expected, replies, used) matches Ok((after, _)) ==> {
            &&& message.data.len() >= 8
            &&& message.data.subrange(0, message.data.len() - 8) == seq![secure.sid] + expected
            &&& after.counter == following_counter(secure.counter)
            &&& after.sid == secure.sid && after.s_enc == secure.s_enc && after.s_mac
                == secure.s_mac && after.s_rmac == secure.s_rmac
        },
{
}

/// A request is read out of a message with the key for encryption: its counter is
/// encrypted to the vector, the ciphertext between the number of the session and
/// the code is decrypted with it, and the padding is taken away.
pub proof fn requests_are_decrypted(
    secure: SecureModel,
    message: FrameModel,
    code: EngineReply,
    vector: EngineReply,
    clear: EngineReply,
)
    requires
        25 <= message.data.len() <= 3133,
        (message.data.len() - 9) % 16 == 0,
        message.data[0] == secure.sid,
        code matches EngineReply::Bytes(code) && code@.len() == 16 && code@.subrange(0, 8)
            == message.data.subrange(message.data.len() - 8, message.data.len() as int),
        vector matches EngineReply::Bytes(vector) && vector@.len() == 16,
        clear is Bytes,
    ensures
        ({
            let none = Seq::<EngineReply>::empty();
            let second = computation(secure.decrypted(message, none.push(code), 0));
            let third = computation(secure.decrypted(message, none.push(code).push(vector), 0));
            let run = secure.decrypted(message, none.push(code).push(vector).push(clear), 0);
            &&& second matches Some(asked) && asked.operation == Operation::EncryptBlock
                && asked.key == secure.s_enc && asked.data == secure.counter
            &&& third matches Some(asked) && asked.operation == Operation::DecryptCbc && asked.key
                == secure.s_enc && asked.parameter == vector->Bytes_0@ && asked.data
                == message.data.subrange(1, message.data.len() - 8)
            &&& run matches Ok((exchange, _)) ==> {
                &&& unpadded(clear->Bytes_0@) matches Ok(inner)
                &&& FrameModel::parsed(inner) == Ok::<_, DeviceError>(exchange.frame)
                &&& exchange.secure == SecureModel { chaining: code->Bytes_0@, ..secure }
            }
            &&& unpadded(clear->Bytes_0@) matches Ok(inner) ==> (FrameModel::parsed(inner) is Ok)
                ==> run is Ok
        }),
{
    let payload = message.data.subrange(0, message.data.len() - 8);
    assert(payload.subrange(1, payload.len() as int) =~= message.data.subrange(
        1,
        message.data.len() - 8,
    ));
    let none = Seq::<EngineReply>::empty();
    let one = none.push(code);
    let two = one.push(vector);
    let three = two.push(clear);
    assert(one[0] == code);
    assert(two[0] == code && two[1] == vector);
    assert(three[0] == code && three[1] == vector && three[2] == clear);
}

/// A response is put into a message the other way round: padded, encrypted with the
/// vector of the same counter, behind the number of the session, and under a code
/// with the key for responses over the last request's code; after it messages
/// count on.
pub proof fn responses_are_encrypted(
    secure: SecureModel,
    response: FrameModel,
    vector: EngineReply,
    hidden: EngineReply,
    code: EngineReply,
)
    requires
        vector matches EngineReply::Bytes(vector) && vector@.len() == 16,
        hidden matches EngineReply::Bytes(hidden) && hidden@.len() + 9 <= 3133,
        code matches EngineReply::Bytes(code) && code@.len() == 16,
    ensures
        ({
            let none = Seq::<EngineReply>::empty();
            let first = computation(secure.encrypted(response, none, 0));
            let second = computation(secure.encrypted(response, none.push(vector), 0));
            let third = computation(secure.encrypted(response, none.push(vector).push(hidden), 0));
            let run = secure.encrypted(response, none.push(vector).push(hidden).push(code), 0);
            let body = seq![secure.sid] + hidden->Bytes_0@;
            &&& first matches Some(asked) && asked.operation == Operation::EncryptBlock
                && asked.key == secure.s_enc && asked.data == secure.counter
            &&& second matches Some(asked) && asked.operation == Operation::EncryptCbc && asked.key
                == secure.s_enc && asked.parameter == vector->Bytes_0@ && asked.data == padded(
                response.encoded(),
            )
            &&& third matches Some(asked) && asked.operation == Operation::Cmac && asked.key
                == secure.s_rmac && asked.data == secure.chaining + (seq![0x85u8] + u16_be(
                (body.len() + 8) as u16,
            ) + body)
            &&& run matches Ok((exchange, _))
            &&& exchange.frame.command == 0x85
            &&& exchange.frame.data == body + code->Bytes_0@.subrange(0, 8)
            &&& exchange.secure == SecureModel {
                counter: following_counter(secure.counter),
                ..secure
            }
        }),
{
    assert(5u8 | 0x80 == 0x85) by (bit_vector);
    let none = Seq::<EngineReply>::empty();
    let one = none.push(vector);
    let two = one.push(hidden);
    let three = two.push(code);
    assert(one[0] == vector);
    assert(two[0] == vector && two[1] == hidden);
    assert(three[0] == vector && three[1] == hidden && three[2] == code);
}

/// A frame is padded to whole blocks of 16 bytes, by 0x80 and as many zeros as it
/// takes; even one of whole blocks gets a block more.
pub proof fn frames_are_padded_to_blocks(data: Seq<u8>, i: int)
    ensures
        padded(data).len() % 16 == 0,
        data.len() < padded(data).len() <= data.len() + 16,
        padded(data).subrange(0, data.len() as int) == data,
        padded(data)[data.len() as int] == 0x80,
        data.len() < i < padded(data).len() ==> padded(data)[i] == 0,
{
    assert(padded(data).subrange(0, data.len() as int) =~= data);
}

} // verus!
