//! The device on a bus: its display, its worker, its records and its descriptors.
use crate::authorization::SessionAuthorization;
use crate::buttons::{event_read, ButtonError};
use crate::bytes::{u16_at, u32_at, u32_be};
use crate::control::{endpoint_map, endpoints_of, ControlModel};
use crate::display::{Attention, Command, DisplayKind, DisplayState};
use crate::error::DeviceError;
use crate::frame::FrameModel;
use crate::i2c::target_check;
use crate::keys::padded_left;
use crate::object::{MaterialModel, ObjectType, RecordModel};
use crate::observation::{attention_asked, inner_failure, reported_code, session_of, LoggedFailure};
use crate::persistence::{migrated, stored};
use crate::supervision::{Action, BusEvent, Phase, Worker};
use crate::usb::{shown, string_bytes, utf16_text};
use vstd::prelude::*;

verus! {

/// The light blinks where the device is in use and nowhere else: it begins with the
/// use and ends with it.
pub proof fn lights_blink_in_use(before: DisplayState, command: Command)
    ensures
        ({
            let (after, reaction) = before.after(command);
            let used = before.personality_present && before.bound && !before.suspended;
            let uses = after.personality_present && after.bound && !after.suspended;
            &&& !used && uses ==> reaction.blinking is Enable
            &&& used && !uses ==> reaction.blinking is Disable || reaction.blinking is End
            &&& reaction.blinking is Enable ==> uses
            &&& reaction.blinking is End <==> command is Shutdown
        }),
{
}

/// Attention is called for the seconds that are asked for, and only while the
/// device is in use; it ends when the time is over or the device leaves the bus.
pub proof fn attention_is_called_in_use(before: DisplayState, command: Command)
    ensures
        ({
            let (after, reaction) = before.after(command);
            let used = before.personality_present && before.bound && !before.suspended;
            &&& forall|seconds: u8| #[trigger]
                reaction.attention == Attention::Begin(seconds) <==> command == Command::Identify(
                    seconds,
                ) && seconds != 0 && used
            &&& after.identifying ==> before.identifying || reaction.attention is Begin
            &&& before.identifying && !after.identifying ==> reaction.attention is End
            &&& command is Timeout || command is Suspend || command is Unbind || command is Bind
                || command is PersonalityAbsent || command is PersonalityPresent
                || command is Shutdown ==> !after.identifying && reaction.attention is End
        }),
{
}

/// What the display knows follows what it is told, and nothing else.
pub proof fn displays_follow_the_bus(before: DisplayState, command: Command)
    ensures
        ({
            let (after, reaction) = before.after(command);
            &&& after.personality_present == (match command {
                Command::PersonalityPresent => true,
                Command::PersonalityAbsent | Command::Shutdown => false,
                _ => before.personality_present,
            })
            &&& after.bound == (match command {
                Command::Bind => true,
                Command::Unbind
                | Command::PersonalityPresent
                | Command::PersonalityAbsent
                | Command::Shutdown => false,
                _ => before.bound,
            })
            &&& reaction.picture is Off <==> command is PersonalityAbsent || command is Shutdown
            &&& reaction.picture is Dark ==> after.personality_present
            &&& command is Suspend ==> after.suspended
            &&& command is Bind ==> !after.suspended
            &&& command is Resume ==> (after.suspended <==> before.suspended && !(
            before.personality_present && before.bound))
        }),
{
}

/// A picture has two bytes for each of 240 by 240 points in color, and a bit for
/// each of 128 by 64 without.
pub proof fn pictures_fit_their_display(kind: DisplayKind)
    ensures
        8 * kind.size() == (match kind {
            DisplayKind::St7789Spi => 240int * 240 * 16,
            DisplayKind::Sh1106Spi => 128int * 64,
        }),
{
}

/// Sessions end whenever the bus takes the device or lets it go; endpoints run once
/// it is enabled; and the display is told what it shows.
pub proof fn workers_follow_the_bus(event: BusEvent)
    ensures
        Worker::following(event) == (match event {
            BusEvent::Bind => Action::Follow {
                activate: false,
                clear_sessions: true,
                display: Some(Command::Bind),
            },
            BusEvent::Unbind => Action::Follow {
                activate: false,
                clear_sessions: true,
                display: Some(Command::Unbind),
            },
            BusEvent::Enable => Action::Follow {
                activate: true,
                clear_sessions: false,
                display: None,
            },
            BusEvent::Disable => Action::Follow {
                activate: false,
                clear_sessions: true,
                display: None,
            },
            BusEvent::Suspend => Action::Follow {
                activate: false,
                clear_sessions: false,
                display: Some(Command::Suspend),
            },
            BusEvent::Resume => Action::Follow {
                activate: false,
                clear_sessions: false,
                display: Some(Command::Resume),
            },
        }),
{
}

/// What a worker sends carries the generation and the number of what it is about:
/// its personality where it wants to be shown and nothing where not.
pub proof fn actions_are_sent(action: Action, personality: Seq<u8>)
    ensures
        action.sends(personality) matches Some(record) ==> {
            &&& record.files == 0
            &&& match action {
                Action::Publish { generation, request_id, present } => record.kind.byte() == 0x80
                    && record.generation == generation && record.request_id == request_id
                    && record.body == (if present {
                    personality
                } else {
                    Seq::empty()
                }),
                Action::Serve { generation, request_id, .. } => record.kind.byte() == 0x82
                    && record.generation == generation && record.request_id == request_id
                    && record.body.len() == 0,
                Action::Refuse { generation, request_id } => record.kind.byte() == 0x81
                    && record.generation == generation && record.request_id == request_id
                    && record.body == seq![0u8],
                Action::Quiesce { generation, request_id, .. } => record.kind.byte() == 0x84
                    && record.generation == generation && record.request_id == request_id
                    && record.body.len() == 0,
                _ => false,
            }
        },
        action is Publish || action is Serve || action is Refuse || action is Quiesce
            ==> action.sends(personality) is Some,
{
}

/// A worker in service answers only what is of its generation: a bus event is
/// followed, a control request refused by its number, and a request to stop obeyed
/// where it is the bus's own or the last that the worker made to be ejected.
pub proof fn service_is_of_one_generation(
    worker: Worker,
    generation: u32,
    ejecting: bool,
    record: ControlModel,
    event: Option<BusEvent>,
)
    requires
        worker.phase == (Phase::Serving { generation, ejecting }),
    ensures
        ({
            let (after, action) = worker.received(record, event);
            &&& record.generation != generation || record.files != 0 ==> action is Fail
            &&& action is Follow ==> record.kind.byte() == 3 && record.request_id == 0 && after
                == worker
            &&& action is Refuse ==> record.kind.byte() == 4 && action == (Action::Refuse {
                generation,
                request_id: record.request_id,
            }) && record.request_id != 0 && after == worker
            &&& action matches Action::Quiesce { generation: of, request_id, again } ==> {
                &&& record.kind.byte() == 0x11
                &&& of == generation
                &&& request_id == record.request_id
                &&& again <==> record.request_id != 0
                &&& again ==> ejecting && record.request_id == worker.request && after.phase == (
                Phase::Ejected { generation })
                &&& !again ==> after.phase is Ended
            }
            &&& action is Fail ==> after.phase is Ended
            &&& after.request == worker.request
        }),
{
}

/// A record is the letters USGP, a version, a kind, how many descriptors come with
/// it, its generation and number, the length of its body, and its body.
pub proof fn records_have_a_header(record: ControlModel)
    requires
        record.sendable(),
    ensures
        ({
            let packet = record.encoded();
            &&& packet.len() == 20 + record.body.len()
            &&& packet.subrange(0, 4) == seq![0x55u8, 0x47, 0x53, 0x50]
            &&& packet[4] == 1
            &&& packet[5] == record.kind.byte()
            &&& packet[6] == 0 && packet[7] == 0
            &&& packet.subrange(8, 12) == u32_be(record.generation)
            &&& packet.subrange(12, 16) == u32_be(record.request_id)
            &&& packet.subrange(16, 20) == u32_be(record.body.len() as u32)
            &&& packet.subrange(20, packet.len() as int) == record.body
        }),
{
    let packet = record.encoded();
    assert(packet.subrange(0, 4) =~= seq![0x55u8, 0x47, 0x53, 0x50]);
    assert(packet.subrange(8, 12) =~= u32_be(record.generation));
    assert(packet.subrange(12, 16) =~= u32_be(record.request_id));
    assert(packet.subrange(16, 20) =~= u32_be(record.body.len() as u32));
    assert(packet.subrange(20, packet.len() as int) =~= record.body);
}

/// What is received is what its header says, and complete: a record that is cut
/// off, of another version, of an unknown kind, of another length, or with another
/// number of descriptors than it says is refused.
pub proof fn records_are_complete(packet: Seq<u8>, truncated: bool, descriptors: nat)
    ensures
        ControlModel::received(packet, truncated, descriptors) matches Ok(record) ==> {
            &&& !truncated
            &&& packet.len() >= 20
            &&& packet.subrange(0, 4) == seq![0x55u8, 0x47, 0x53, 0x50]
            &&& packet[4] == 1
            &&& record.kind.byte() == packet[5]
            &&& u16_at(packet, 6) == descriptors && descriptors <= 32
            &&& record.files == descriptors
            &&& record.generation == u32_at(packet, 8)
            &&& record.request_id == u32_at(packet, 12)
            &&& u32_at(packet, 16) == packet.len() - 20 && packet.len() - 20 <= 1_048_576
            &&& record.body == packet.subrange(20, packet.len() as int)
        },
{
}

/// Of the two endpoints, the one at address 1 is the output and the one at 0x81
/// the input; both are bulk endpoints of 64 bytes.
pub proof fn endpoints_are_known_by_address(body: Seq<u8>, files: nat)
    requires
        endpoint_map(body, files) is Ok,
    ensures
        ({
            let places = endpoint_map(body, files)->Ok_0;
            let (output, input) = (2 + 4 * places.output as int, 2 + 4 * places.input as int);
            &&& body.len() == 10 && u16_at(body, 0) == 2 && files == 2
            &&& body[output] == 0x01 && body[output + 1] == 2 && u16_at(body, output + 2) == 64
            &&& body[input] == 0x81 && body[input + 1] == 2 && u16_at(body, input + 2) == 64
        }),
{
    crate::control::endpoint_maps_are_pairs(body, files);
    reveal_with_fuel(endpoints_of, 4);
}

/// The device shows itself as the product 0x0030 of the vendor 0x1050, over USB 2.0,
/// with packets of 64 bytes, and with its serial number as its third string.
pub proof fn devices_show_what_they_are(serial: u32)
    ensures
        ({
            let device = shown(serial).device_descriptor;
            &&& device.len() == 18 && device[0] == 18 && device[1] == 1
            &&& device[2] + 256 * device[3] == 0x0200
            &&& device[7] == 64
            &&& device[8] + 256 * device[9] == 0x1050
            &&& device[10] + 256 * device[11] == 0x0030
            &&& device[14] == 1 && device[15] == 2 && device[16] == 3 && device[17] == 1
            &&& shown(serial).strings.len() == 4
            &&& forall|i: int| 0 <= i < 4 ==> (#[trigger] shown(serial).strings[i]).index == i
            &&& shown(serial).strings[3].descriptor == string_bytes(
                crate::text::numeral(serial as nat),
            )
        }),
{
}

/// A string's descriptor tells its own length and is of type 3.
pub proof fn strings_tell_their_length(text: Seq<char>)
    requires
        utf16_text(text).len() <= 253,
    ensures
        string_bytes(text)[0] == string_bytes(text).len(),
        string_bytes(text)[1] == 3,
        string_bytes(text).subrange(2, string_bytes(text).len() as int) == utf16_text(text),
{
    assert(string_bytes(text).subrange(2, string_bytes(text).len() as int) =~= utf16_text(text));
}

/// An event of the line is 48 bytes, and rising and falling edges are presses and
/// releases.
pub proof fn line_events_are_whole(length: usize, id: u32)
    ensures
        event_read(length, id) == (if length == 48 {
            Ok(id == 1 || id == 2)
        } else if length == 0 {
            Err(ButtonError::Closed)
        } else {
            Err(ButtonError::Partial(length))
        }),
{
}

/// A driver will do that speaks the third version of the interface and takes whole
/// frames.
pub proof fn drivers_take_whole_frames(info: Seq<u32>)
    ensures
        target_check(info) is Ok <==> info[0] == 3 && info[5] == 1 && info[3] >= 3136,
{
}

/// Only errors are logged: with the code of the response, the session that it was
/// in, and the command, which inside a session is that in the message.
pub proof fn failures_are_logged(
    session: Option<u8>,
    authorization: SessionAuthorization,
    request: FrameModel,
    response: FrameModel,
)
    ensures
        reported_code(response) is Some <==> response.command == 0x7f,
        response.command == 0x7f && response.data.len() > 0 ==> reported_code(response) == Some(
            response.data[0],
        ),
        inner_failure(session, authorization, request, response) matches Some(failure) ==> failure
            == (LoggedFailure::Authenticated {
            command: request.command,
            code: reported_code(response)->0,
            session,
            authentication_key_id: authorization.authentication_key_id,
        }),
        inner_failure(session, authorization, request, response) is Some <==> response.command
            == 0x7f,
        session_of(request) == (if (request.command == 4 || request.command == 5)
            && request.data.len() > 0 {
            Some(request.data[0])
        } else {
            None
        }),
        attention_asked(request, response) == (if request.command == 0x6b && response.command
            == 0xeb && request.data.len() > 0 {
            Some(request.data[0])
        } else {
            None
        }),
{
    assert(0x6bu8 | 0x80 == 0xeb) by (bit_vector);
}

/// What is stored of an object is all that is known of it, and its private key as
/// bytes: of RSA the two primes, each as long as half the modulus.
pub proof fn stored_objects_keep_their_key(record: RecordModel)
    ensures
        stored(record) matches Ok(image) ==> {
            &&& image.info == record.info
            &&& match record.material {
                MaterialModel::SigningKey(key) => image.material == MaterialModel::Secret(
                    if 9 <= record.info.algorithm <= 11 {
                        let half: int = match record.info.algorithm {
                            9 => 128,
                            10 => 192,
                            _ => 256,
                        };
                        padded_left(key.private, half) + padded_left(key.second, half)
                    } else {
                        key.private
                    },
                ),
                MaterialModel::X25519Key(key) => image.material == MaterialModel::Secret(
                    key.private,
                ),
                other => image.material == other,
            }
        },
{
}

/// Objects of older images are taken over where their length is what it was then:
/// in the second version that of an Ed25519 key was 64, of other private keys what
/// it is now without the eight bytes of a wrap key, and of all else the contents
/// alone. They then get the length that such objects have now.
pub proof fn older_objects_are_taken_over(version: u16, length: int, record: RecordModel)
    ensures
        migrated(version, length, record) matches Ok(taken) ==> {
            &&& taken.material == record.material
            &&& taken.info == crate::object::InfoModel {
                length: taken.info.length,
                ..record.info
            }
            &&& version >= 3 ==> taken == record
            &&& version == 1 ==> record.info.length == length
            &&& version == 2 && record.info.object_type == ObjectType::AsymmetricKey
                && record.info.algorithm == 46 ==> record.info.length == 64
            &&& version == 2 && record.info.object_type == ObjectType::AsymmetricKey
                && record.info.algorithm == 12 ==> record.info.length == 96
            &&& version == 2 && record.info.object_type == ObjectType::HmacKey
                ==> record.info.length == record.material.size()
            &&& version < 3 ==> record.expected_length() == Ok::<int, DeviceError>(
                taken.info.length as int,
            )
            &&& version != 0
        },
{
}

} // verus!
