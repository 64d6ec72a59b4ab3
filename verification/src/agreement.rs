//! What both sides of a session keep to: what one sends, the other reads.
use crate::bytes::u16_be;
use crate::engine::{EngineReply, HaltModel};
use crate::error::DeviceError;
use crate::frame::{
    error_responses_are_distinct, written_frames_read_back, FrameModel, MAX_DATA_LENGTH,
    RESPONSE_BIT,
};
use crate::host::{
    commanded, first_counter, host_challenge, opened, CredentialsModel, HostHaltModel, HostReply,
    QuestionModel,
};
use crate::protocol::CommandCode;
use crate::session::{
    following_counter, padded, padding_round_trip, secure_length, secure_response_limit, zero_block,
    ExchangeModel, SecureModel, SymmetricModel,
};
use vstd::prelude::*;

verus! {

/// The computations that both sides of a session make: the keys and cryptograms
/// of a session, by constant, the code of a message, one block, and the encryption
/// of whole blocks with its inverse.
pub struct Cipher {
    pub session_key: spec_fn(Seq<u8>, u8, Seq<u8>) -> Seq<u8>,
    pub cryptogram: spec_fn(Seq<u8>, u8, Seq<u8>) -> Seq<u8>,
    pub code: spec_fn(Seq<u8>, Seq<u8>) -> Seq<u8>,
    pub block: spec_fn(Seq<u8>, Seq<u8>) -> Seq<u8>,
    pub encrypt: spec_fn(Seq<u8>, Seq<u8>, Seq<u8>) -> Seq<u8>,
    pub decrypt: spec_fn(Seq<u8>, Seq<u8>, Seq<u8>) -> Seq<u8>,
}

impl Cipher {
    /// Whether keys, codes and blocks have 16 bytes and cryptograms 8, and whole
    /// blocks are encrypted to as many bytes, from which they are decrypted.
    pub open spec fn sound(self) -> bool {
        &&& forall|key: Seq<u8>, constant: u8, context: Seq<u8>|
            (#[trigger] (self.session_key)(key, constant, context)).len() == 16
        &&& forall|key: Seq<u8>, constant: u8, context: Seq<u8>|
            (#[trigger] (self.cryptogram)(key, constant, context)).len() == 8
        &&& forall|key: Seq<u8>, data: Seq<u8>| (#[trigger] (self.code)(key, data)).len() == 16
        &&& forall|key: Seq<u8>, data: Seq<u8>| (#[trigger] (self.block)(key, data)).len() == 16
        &&& forall|key: Seq<u8>, start: Seq<u8>, data: Seq<u8>|
            #![trigger (self.encrypt)(key, start, data)]
            data.len() % 16 == 0 ==> (self.encrypt)(key, start, data).len() == data.len() && (
            self.decrypt)(key, start, (self.encrypt)(key, start, data)) == data
    }

    /// Where the encryption of a session's next message starts.
    pub open spec fn start(self, secure: SecureModel) -> Seq<u8> {
        (self.block)(secure.s_enc, secure.counter)
    }

    /// A frame in a session's next message, encrypted.
    pub open spec fn hidden(self, secure: SecureModel, frame: FrameModel) -> Seq<u8> {
        (self.encrypt)(secure.s_enc, self.start(secure), padded(frame.encoded()))
    }

    /// The part of a message that its code is about.
    pub open spec fn covered(self, secure: SecureModel, command: u8, frame: FrameModel) -> Seq<u8> {
        let body = seq![secure.sid] + self.hidden(secure, frame);
        seq![command] + u16_be((body.len() + 8) as u16) + body
    }

    /// The code of a request.
    pub open spec fn request_code(self, secure: SecureModel, request: FrameModel) -> Seq<u8> {
        (self.code)(
            secure.s_mac,
            secure.chaining + self.covered(secure, CommandCode::SessionMessage.byte(), request),
        )
    }

    /// The message that carries a request.
    pub open spec fn request_message(self, secure: SecureModel, request: FrameModel) -> FrameModel {
        FrameModel {
            command: CommandCode::SessionMessage.byte(),
            data: seq![secure.sid] + self.hidden(secure, request) + self.request_code(
                secure,
                request,
            ).subrange(0, 8),
        }
    }

    /// A session whose next message was read and not answered yet.
    pub open spec fn asked(self, secure: SecureModel, request: FrameModel) -> SecureModel {
        SecureModel { chaining: self.request_code(secure, request), ..secure }
    }

    /// The code of a response.
    pub open spec fn response_code(
        self,
        secure: SecureModel,
        request: FrameModel,
        response: FrameModel,
    ) -> Seq<u8> {
        (self.code)(
            secure.s_rmac,
            self.request_code(secure, request) + self.covered(
                secure,
                CommandCode::SessionMessage.byte() | RESPONSE_BIT,
                response,
            ),
        )
    }

    /// The message that carries a response.
    pub open spec fn response_message(
        self,
        secure: SecureModel,
        request: FrameModel,
        response: FrameModel,
    ) -> FrameModel {
        FrameModel {
            command: CommandCode::SessionMessage.byte() | RESPONSE_BIT,
            data: seq![secure.sid] + self.hidden(secure, response) + self.response_code(
                secure,
                request,
                response,
            ).subrange(0, 8),
        }
    }

    /// A session after a request and its response.
    pub open spec fn answered(self, secure: SecureModel, request: FrameModel) -> SecureModel {
        SecureModel {
            counter: following_counter(secure.counter),
            ..self.asked(secure, request)
        }
    }
}

impl Cipher {
    /// The keys of a session that was opened and not confirmed yet.
    pub open spec fn begun(self, sid: u8, static_keys: Seq<u8>, card: Seq<u8>) -> SecureModel {
        let context = host_challenge() + card;
        let encryption = static_keys.subrange(0, 16);
        let authentication = static_keys.subrange(16, 32);
        SecureModel {
            sid,
            s_enc: (self.session_key)(encryption, 0x04, context),
            s_mac: (self.session_key)(authentication, 0x06, context),
            s_rmac: (self.session_key)(authentication, 0x07, context),
            counter: zero_block(),
            chaining: zero_block(),
        }
    }

    /// What the device shows of the keys.
    pub open spec fn card_cryptogram(self, secure: SecureModel, card: Seq<u8>) -> Seq<u8> {
        (self.cryptogram)(secure.s_mac, 0x00, host_challenge() + card)
    }

    /// What the host shows of the keys.
    pub open spec fn host_cryptogram(self, secure: SecureModel, card: Seq<u8>) -> Seq<u8> {
        (self.cryptogram)(secure.s_mac, 0x01, host_challenge() + card)
    }

    /// The code of the message that confirms a session.
    pub open spec fn confirming_code(self, secure: SecureModel, card: Seq<u8>) -> Seq<u8> {
        (self.code)(
            secure.s_mac,
            zero_block() + (seq![CommandCode::AuthenticateSession.byte()] + u16_be(17) + (seq![
                secure.sid,
            ] + self.host_cryptogram(secure, card))),
        )
    }

    /// The message that confirms a session.
    pub open spec fn confirming_message(self, secure: SecureModel, card: Seq<u8>) -> FrameModel {
        FrameModel {
            command: CommandCode::AuthenticateSession.byte(),
            data: seq![secure.sid] + self.host_cryptogram(secure, card) + self.confirming_code(
                secure,
                card,
            ).subrange(0, 8),
        }
    }

    /// A session that was confirmed.
    pub open spec fn confirmed(self, secure: SecureModel, card: Seq<u8>) -> SecureModel {
        SecureModel {
            counter: first_counter(),
            chaining: self.confirming_code(secure, card),
            ..secure
        }
    }
}

/// A host and a device that hold the same static keys open a session: over the
/// same computations, each finds what the other shows of the keys as it expects,
/// and both end with the same session.
pub proof fn equal_keys_open_a_session(
    cipher: Cipher,
    credentials: CredentialsModel,
    sid: u8,
    card: Seq<u8>,
    host: Seq<HostReply>,
    device: Seq<EngineReply>,
    used: nat,
    confirming: Seq<EngineReply>,
)
    requires
        cipher.sound(),
        credentials.static_keys.len() == 32,
        card.len() == 8,
        ({
            let secure = cipher.begun(sid, credentials.static_keys, card);
            &&& gives(device, used, secure.s_enc)
            &&& gives(device, used + 1, secure.s_mac)
            &&& gives(device, used + 2, secure.s_rmac)
            &&& gives(device, used + 3, cipher.card_cryptogram(secure, card))
            &&& gives(device, used + 4, cipher.host_cryptogram(secure, card))
            &&& gives(confirming, 0, cipher.confirming_code(secure, card))
            &&& host.len() == 8
            &&& tells(
                host,
                0,
                FrameModel::response(
                    CommandCode::CreateSession.byte(),
                    seq![sid] + card + cipher.card_cryptogram(secure, card),
                ).encoded(),
            )
            &&& tells(host, 1, secure.s_enc)
            &&& tells(host, 2, secure.s_mac)
            &&& tells(host, 3, secure.s_rmac)
            &&& tells(host, 4, cipher.card_cryptogram(secure, card))
            &&& tells(host, 5, cipher.host_cryptogram(secure, card))
            &&& tells(host, 6, cipher.confirming_code(secure, card))
            &&& tells(
                host,
                7,
                FrameModel::response(
                    CommandCode::AuthenticateSession.byte(),
                    Seq::empty(),
                ).encoded(),
            )
        }),
    ensures
        ({
            let secure = cipher.begun(sid, credentials.static_keys, card);
            &&& SecureModel::symmetric(
                sid,
                credentials.static_keys,
                host_challenge(),
                card,
                device,
                used,
            ) == Ok::<(SymmetricModel, nat), HaltModel>(
                (
                    SymmetricModel {
                        secure,
                        card_cryptogram: cipher.card_cryptogram(secure, card),
                        host_cryptogram: cipher.host_cryptogram(secure, card),
                    },
                    used + 5,
                ),
            )
            &&& opened(credentials, host.subrange(0, 7), 0) == Err::<
                (SecureModel, nat),
                HostHaltModel,
            >(
                HostHaltModel::Ask(
                    QuestionModel::Exchange(cipher.confirming_message(secure, card).encoded()),
                ),
            )
            &&& secure.authenticated(
                cipher.confirming_message(secure, card),
                cipher.host_cryptogram(secure, card),
                confirming,
                0,
            ) == Ok::<(SecureModel, nat), HaltModel>((cipher.confirmed(secure, card), 1))
            &&& opened(credentials, host, 0) == Ok::<(SecureModel, nat), HostHaltModel>(
                (cipher.confirmed(secure, card), 8),
            )
        }),
{
    let secure = cipher.begun(sid, credentials.static_keys, card);
    let create = seq![sid] + card + cipher.card_cryptogram(secure, card);
    let first = FrameModel::response(CommandCode::CreateSession.byte(), create);
    let last = FrameModel::response(CommandCode::AuthenticateSession.byte(), Seq::<u8>::empty());
    let message = cipher.confirming_message(secure, card);
    let payload = seq![secure.sid] + cipher.host_cryptogram(secure, card);
    written_frames_read_back(first);
    written_frames_read_back(last);
    error_responses_are_distinct(
        CommandCode::CreateSession.byte(),
        create,
        DeviceError::InvalidCommand,
    );
    error_responses_are_distinct(
        CommandCode::AuthenticateSession.byte(),
        Seq::empty(),
        DeviceError::InvalidCommand,
    );
    assert(create.subrange(1, 9) =~= card);
    assert(create.subrange(9, create.len() as int) =~= cipher.card_cryptogram(secure, card));
    assert(zero_block() + seq![CommandCode::AuthenticateSession.byte()] + u16_be(17) + payload
        =~= zero_block() + (seq![CommandCode::AuthenticateSession.byte()] + u16_be(17) + payload));
    assert(message.encoded().subrange(0, 12) =~= seq![
        CommandCode::AuthenticateSession.byte(),
    ] + u16_be(17) + payload);
    assert(message.data.subrange(0, 9) =~= payload);
    assert(message.data.subrange(9, 17) =~= cipher.confirming_code(secure, card).subrange(0, 8));
    assert(following_counter(zero_block()) =~= first_counter());
    let asked = host.subrange(0, 7);
    assert(forall|i: int| 0 <= i < 7 ==> asked[i] == host[i]);
}

/// Whether an answer to the device is these bytes.
pub open spec fn gives(replies: Seq<EngineReply>, at: nat, bytes: Seq<u8>) -> bool {
    at < replies.len() && (replies[at as int] matches EngineReply::Bytes(given) && given@ == bytes)
}

/// Whether an answer to the host is these bytes.
pub open spec fn tells(replies: Seq<HostReply>, at: nat, bytes: Seq<u8>) -> bool {
    at < replies.len() && (replies[at as int] matches HostReply::Bytes(told) && told@ == bytes)
}

/// A message holds the part that its code is about, and then the first half of
/// the code.
#[verifier::spinoff_prover]
#[verifier::rlimit(40)]
proof fn messages_hold_their_code(
    cipher: Cipher,
    secure: SecureModel,
    command: u8,
    frame: FrameModel,
    code: Seq<u8>,
)
    requires
        cipher.sound(),
        code.len() == 16,
        secure_length(frame.data.len() as int) <= MAX_DATA_LENGTH,
    ensures
        ({
            let body = seq![secure.sid] + cipher.hidden(secure, frame);
            let message = FrameModel { command, data: body + code.subrange(0, 8) };
            &&& cipher.hidden(secure, frame).len() == padded(frame.encoded()).len()
            &&& cipher.hidden(secure, frame).len() % 16 == 0
            &&& cipher.hidden(secure, frame).len() >= 16
            &&& message.data.len() == secure_length(frame.data.len() as int)
            &&& message.data.len() == body.len() + 8
            &&& message.encoded().subrange(0, (3 + body.len()) as int) == cipher.covered(
                secure,
                command,
                frame,
            )
            &&& message.data.subrange(0, body.len() as int) == body
            &&& message.data.subrange(body.len() as int, message.data.len() as int)
                == code.subrange(0, 8)
        }),
{
    let body = seq![secure.sid] + cipher.hidden(secure, frame);
    let message = FrameModel { command, data: body + code.subrange(0, 8) };
    padding_round_trip(frame.encoded());
    secure_response_limit(frame);
    assert(message.encoded().subrange(0, (3 + body.len()) as int) =~= cipher.covered(
        secure,
        command,
        frame,
    ));
    assert(message.data.subrange(0, body.len() as int) =~= body);
    assert(message.data.subrange(body.len() as int, message.data.len() as int) =~= code.subrange(
        0,
        8,
    ));
}

/// What a host sends in a session, the device reads: asked for its computations,
/// the host sends the message that carries the request, and the device, over the
/// same computations, finds the request in it.
pub proof fn requests_reach_the_device(
    cipher: Cipher,
    secure: SecureModel,
    request: FrameModel,
    host: Seq<HostReply>,
    device: Seq<EngineReply>,
    used: nat,
)
    requires
        cipher.sound(),
        secure_length(request.data.len() as int) <= MAX_DATA_LENGTH,
        host.len() == 3,
        tells(host, 0, cipher.start(secure)),
        tells(host, 1, cipher.hidden(secure, request)),
        tells(host, 2, cipher.request_code(secure, request)),
        gives(device, used, cipher.request_code(secure, request)),
        gives(device, used + 1, cipher.start(secure)),
        gives(
            device,
            used + 2,
            (cipher.decrypt)(secure.s_enc, cipher.start(secure), cipher.hidden(secure, request)),
        ),
    ensures
        commanded(secure, request, host, 0) == Err::<(ExchangeModel, nat), HostHaltModel>(
            HostHaltModel::Ask(
                QuestionModel::Exchange(cipher.request_message(secure, request).encoded()),
            ),
        ),
        secure.decrypted(cipher.request_message(secure, request), device, used) == Ok::<
            (ExchangeModel, nat),
            HaltModel,
        >((ExchangeModel { secure: cipher.asked(secure, request), frame: request }, used + 3)),
{
    let command = CommandCode::SessionMessage.byte();
    let code = cipher.request_code(secure, request);
    let body = seq![secure.sid] + cipher.hidden(secure, request);
    let message = cipher.request_message(secure, request);
    messages_hold_their_code(cipher, secure, command, request, code);
    padding_round_trip(request.encoded());
    written_frames_read_back(request);
    assert(secure.chaining + seq![command] + u16_be((body.len() + 8) as u16) + body
        =~= secure.chaining + cipher.covered(secure, command, request));
    assert(body.subrange(1, body.len() as int) =~= cipher.hidden(secure, request));
}

/// What the device answers in a session, the host reads, and both sides go on in
/// step: over the same computations, the device's message carries the response,
/// the host finds the response in it, and both end with the same counter and the
/// same code to chain on.
pub proof fn responses_reach_the_host(
    cipher: Cipher,
    secure: SecureModel,
    request: FrameModel,
    response: FrameModel,
    host: Seq<HostReply>,
    device: Seq<EngineReply>,
    used: nat,
)
    requires
        cipher.sound(),
        secure_length(request.data.len() as int) <= MAX_DATA_LENGTH,
        secure_length(response.data.len() as int) <= MAX_DATA_LENGTH,
        gives(device, used, cipher.start(secure)),
        gives(device, used + 1, cipher.hidden(secure, response)),
        gives(device, used + 2, cipher.response_code(secure, request, response)),
        host.len() == 6,
        tells(host, 0, cipher.start(secure)),
        tells(host, 1, cipher.hidden(secure, request)),
        tells(host, 2, cipher.request_code(secure, request)),
        tells(host, 3, cipher.response_message(secure, request, response).encoded()),
        tells(host, 4, cipher.response_code(secure, request, response)),
        tells(
            host,
            5,
            (cipher.decrypt)(secure.s_enc, cipher.start(secure), cipher.hidden(secure, response)),
        ),
    ensures
        cipher.asked(secure, request).encrypted(response, device, used) == Ok::<
            (ExchangeModel, nat),
            HaltModel,
        >(
            (
                ExchangeModel {
                    secure: cipher.answered(secure, request),
                    frame: cipher.response_message(secure, request, response),
                },
                used + 3,
            ),
        ),
        commanded(secure, request, host, 0) == Ok::<(ExchangeModel, nat), HostHaltModel>(
            (ExchangeModel { secure: cipher.answered(secure, request), frame: response }, 6),
        ),
{
    let command = CommandCode::SessionMessage.byte();
    let answer = command | RESPONSE_BIT;
    let code = cipher.request_code(secure, request);
    let request_body = seq![secure.sid] + cipher.hidden(secure, request);
    let body = seq![secure.sid] + cipher.hidden(secure, response);
    let message = cipher.response_message(secure, request, response);
    messages_hold_their_code(cipher, secure, command, request, code);
    messages_hold_their_code(
        cipher,
        secure,
        answer,
        response,
        cipher.response_code(secure, request, response),
    );
    padding_round_trip(response.encoded());
    written_frames_read_back(response);
    written_frames_read_back(message);
    error_responses_are_distinct(command, response.data, DeviceError::InvalidCommand);
    assert(secure.chaining + seq![command] + u16_be((request_body.len() + 8) as u16) + request_body
        =~= secure.chaining + cipher.covered(secure, command, request));
    assert(message.data.subrange(1, body.len() as int) =~= cipher.hidden(secure, response));
    assert(((body.len() + 8) % 0x1_0000) as u16 == (body.len() + 8) as u16);
}

} // verus!
