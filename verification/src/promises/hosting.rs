//! The host: how it opens sessions and sends commands, what it qualifies, and how
//! it reaches a device.
use crate::bytes::{place_in, u16_be, u32_round_trip};
use crate::connector::{authority_of, connector_of, crlf, lines, response_body, status_of};
use crate::device::DeviceModel;
use crate::frame::FrameModel;
use crate::host::{
    commanded, derived, opened, response_data, CallModel, CredentialsModel, FailureModel,
    HostHaltModel, HostReply, HostRun, Oracle, QuestionModel,
};
use crate::protocol::CommandCode;
use crate::qualification::{identity_of, recovery, Case, Profile};
use crate::qualifier::{chained, key_number, source_of};
use crate::session::{padded, SecureModel};
use vstd::prelude::*;
use vstd::utf8::decode_utf8;

verus! {

/// The computation that a host stops to ask for.
pub open spec fn host_computation<T>(run: HostRun<T>) -> Option<CallModel> {
    match run {
        Err(HostHaltModel::Ask(QuestionModel::Compute(call))) => Some(call),
        _ => None,
    }
}

/// The bytes that a host stops to send.
pub open spec fn sent<T>(run: HostRun<T>) -> Option<Seq<u8>> {
    match run {
        Err(HostHaltModel::Ask(QuestionModel::Exchange(bytes))) => Some(bytes),
        _ => None,
    }
}

/// Whether a computation is of one kind, under a key and over data.
pub open spec fn is_call(
    call: Option<CallModel>,
    oracle: Oracle,
    key: Seq<u8>,
    parameter: Seq<u8>,
    data: Seq<u8>,
) -> bool {
    call matches Some(call) && call.oracle == oracle && call.key == key && call.parameter
        == parameter && call.data == data
}

/// A host opens a session with CreateSession, the number of its key, and a
/// challenge of eight bytes.
pub proof fn hosts_begin_with_their_key(credentials: CredentialsModel)
    ensures
        sent(opened(credentials, Seq::empty(), 0)) matches Some(bytes) && bytes.len() == 13
            && bytes[0] == 3 && bytes[1] == 0 && bytes[2] == 10 && bytes.subrange(3, 5) == u16_be(
            credentials.authentication_key_id,
        ),
{
    let bytes = sent(opened(credentials, Seq::empty(), 0))->0;
    assert(bytes.subrange(3, 5) =~= u16_be(credentials.authentication_key_id));
}

/// A host derives the keys of a session as the device does: from the first of its
/// static keys that for encryption, and from the second those for the codes of
/// requests and of responses.
pub proof fn hosts_derive_the_same_keys(
    keys: Seq<u8>,
    context: Seq<u8>,
    first: HostReply,
    second: HostReply,
    third: HostReply,
)
    requires
        first matches HostReply::Bytes(bytes) && bytes@.len() == 16,
        second matches HostReply::Bytes(bytes) && bytes@.len() == 16,
        third matches HostReply::Bytes(bytes) && bytes@.len() == 16,
    ensures
        ({
            let none = Seq::<HostReply>::empty();
            let one = none.push(first);
            let two = one.push(second);
            let run = derived(keys, context, two.push(third), 0);
            &&& is_call(
                host_computation(derived(keys, context, none, 0)),
                Oracle::Scp03Key(4),
                keys.subrange(0, 16),
                Seq::empty(),
                context,
            )
            &&& is_call(
                host_computation(derived(keys, context, one, 0)),
                Oracle::Scp03Key(6),
                keys.subrange(16, 32),
                Seq::empty(),
                context,
            )
            &&& is_call(
                host_computation(derived(keys, context, two, 0)),
                Oracle::Scp03Key(7),
                keys.subrange(16, 32),
                Seq::empty(),
                context,
            )
            &&& run matches Ok((made, _)) && made.s_enc == first->Bytes_0@ && made.s_mac
                == second->Bytes_0@ && made.s_rmac == third->Bytes_0@
        }),
{
    let none = Seq::<HostReply>::empty();
    let one = none.push(first);
    let two = one.push(second);
    let three = two.push(third);
    assert(one[0] == first);
    assert(two[0] == first && two[1] == second);
    assert(three[0] == first && three[1] == second && three[2] == third);
}

/// A host hides a command: it encrypts the counter to a vector, and the padded
/// command with that.
pub proof fn hosts_hide_their_commands(
    secure: SecureModel,
    request: FrameModel,
    vector: HostReply,
)
    requires
        request.data.len() <= 3133,
        vector matches HostReply::Bytes(bytes) && bytes@.len() == 16,
    ensures
        is_call(
            host_computation(commanded(secure, request, Seq::empty(), 0)),
            Oracle::EncryptBlock,
            secure.s_enc,
            Seq::empty(),
            secure.counter,
        ),
        is_call(
            host_computation(commanded(secure, request, Seq::empty().push(vector), 0)),
            Oracle::EncryptCbc,
            secure.s_enc,
            vector->Bytes_0@,
            padded(request.encoded()),
        ),
{
    let one = Seq::<HostReply>::empty().push(vector);
    assert(one[0] == vector);
}

/// A host's message is what it hid behind the number of the session, and the first
/// half of a code that covers the code before it and all of the message.
#[verifier::spinoff_prover]
#[verifier::rlimit(60)]
pub proof fn hosts_sign_their_commands(
    secure: SecureModel,
    request: FrameModel,
    vector: HostReply,
    hidden: HostReply,
    code: HostReply,
)
    requires
        request.data.len() <= 3133,
        vector matches HostReply::Bytes(bytes) && bytes@.len() == 16,
        hidden matches HostReply::Bytes(bytes) && bytes@.len() + 9 <= 3133,
        code matches HostReply::Bytes(bytes) && bytes@.len() == 16,
    ensures
        ({
            let two = Seq::<HostReply>::empty().push(vector).push(hidden);
            let body = seq![secure.sid] + hidden->Bytes_0@;
            let length = u16_be((body.len() + 8) as u16);
            &&& is_call(
                host_computation(commanded(secure, request, two, 0)),
                Oracle::Cmac,
                secure.s_mac,
                Seq::empty(),
                secure.chaining + seq![5u8] + length + body,
            )
            &&& sent(commanded(secure, request, two.push(code), 0)) == Some(
                (FrameModel { command: 5, data: body + code->Bytes_0@.subrange(0, 8) }).encoded(),
            )
        }),
{
    let two = Seq::<HostReply>::empty().push(vector).push(hidden);
    let three = two.push(code);
    assert(two[0] == vector && two[1] == hidden);
    assert(three[0] == vector && three[1] == hidden && three[2] == code);
}

/// A response counts where it is of its command; an error does not, and neither
/// does a response to another command.
pub proof fn responses_are_of_their_command(response: FrameModel, command: CommandCode)
    requires
        command.byte() < 0x80,
    ensures
        response_data(response, command) == (if response.command == 0x7f {
            Err(FailureModel::Refused(command, response.data))
        } else if response.command == command.byte() + 0x80 {
            Ok(response.data)
        } else {
            Err(FailureModel::Unrelated(command, response.command))
        }),
{
    let byte = command.byte();
    assert(byte < 0x80 ==> byte | 0x80 == byte + 0x80) by (bit_vector);
}

/// What a host reads of a device is what the device tells of itself.
pub proof fn devices_are_identified(device: DeviceModel)
    requires
        device.config.version.len() == 3,
        device.audit.entries.len() <= 255,
    ensures
        device.tells_device_info(Seq::empty()) matches Ok(told) && (identity_of(told) matches Some(
            identity,
        ) && identity.version == device.config.version && identity.serial == device.config.serial
            && identity.log_capacity == device.config.log_capacity && identity.log_used
            == device.audit.entries.len()),
{
    let told = device.tells_device_info(Seq::empty())->Ok_0;
    let serial = crate::bytes::u32_be(device.config.serial);
    u32_round_trip(device.config.serial);
    assert(told.subrange(0, 3) =~= device.config.version);
    assert(told[3] == serial[0] && told[4] == serial[1] && told[5] == serial[2] && told[6]
        == serial[3]);
}

/// A profile has as many cases as it counts, and none of them twice. Every profile
/// begins with the five that need no session; all but the shortest go through the
/// same twenty, and each of the two longest adds two of its own.
pub proof fn profiles_are_complete(profile: Profile, i: int, j: int)
    requires
        0 <= i,
        0 <= j,
    ensures
        profile.count() == (match profile {
            Profile::Smoke => 5int,
            Profile::Managed => 20,
            Profile::Extensions | Profile::Ephemeral => 22,
        }),
        profile.case_at(i) is Some <==> i < profile.count(),
        profile.case_at(i) is Some && profile.case_at(i) == profile.case_at(j) ==> i == j,
        i < 5 ==> profile.case_at(i) == Profile::Smoke.case_at(i),
        i < 20 && !(profile is Smoke) ==> profile.case_at(i) == Profile::Managed.case_at(i),
        Profile::Extensions.case_at(20) == Some(Case::X25519),
        Profile::Extensions.case_at(21) == Some(Case::Prefixed),
        Profile::Ephemeral.case_at(20) == Some(Case::Audit),
        Profile::Ephemeral.case_at(21) == Some(Case::ForceAudit),
{
}

/// Where credentials come from: none for the shortest profile, those of a new
/// device for one's own, and else the first of the card, the platform and the
/// password that is there.
pub proof fn credentials_come_in_order(
    profile: Profile,
    core: bool,
    label: bool,
    platform: bool,
    password: bool,
)
    ensures
        ({
            let source = source_of(profile, core, label, platform, password);
            let managed = !(profile is Smoke) && !(profile is Ephemeral) && !core;
            &&& source is NotNeeded <==> profile is Smoke
            &&& source is Factory <==> !(profile is Smoke) && (profile is Ephemeral || core)
            &&& source is HsmAuth <==> managed && label
            &&& source is Platform <==> managed && !label && platform
            &&& source is Password <==> managed && !label && !platform && password
            &&& source is Missing <==> managed && !label && !platform && !password
        }),
{
}

/// The first key is used where no other is named, and no number is above 65535.
pub proof fn keys_are_named_by_number(setting: Seq<char>)
    ensures
        key_number(None) == Some(1nat),
        key_number(Some(setting)) == crate::text::number_of(setting, 10, 0xffff),
{
}

/// A case that failed leaves what it made behind only where it did not come as far
/// as making something: from the third step on of the case about authorizations,
/// what was made is taken away step by step.
pub proof fn failed_cases_clean_up(case: Case, step: nat)
    ensures
        recovery(case, step) is Some <==> case is Authorization && 3 <= step <= 11,
        recovery(case, step) matches Some(next) ==> next > step && 9 <= next <= 12,
{
}

/// Every part of a chain but the last is marked as not the last, and carries 255
/// bytes; the last is not marked, and carries the rest.
pub proof fn chains_are_marked(cla: u8, instruction: u8, p1: u8, p2: u8, data: Seq<u8>, i: int)
    ensures
        ({
            let parts = chained(cla, instruction, p1, p2, data);
            &&& parts.len() >= 1
            &&& 0 <= i < parts.len() ==> {
                let part = parts[i];
                &&& part.len() >= 5
                &&& part[1] == instruction && part[2] == p1 && part[3] == p2
                &&& part[4] == part.len() - 5
                &&& i < parts.len() - 1 ==> part[0] == cla | 0x10 && part.len() == 260
                &&& i == parts.len() - 1 ==> part[0] == cla && part.len() <= 260
            }
        }),
    decreases data.len(),
{
    if data.len() > 255 {
        let rest = data.subrange(255, data.len() as int);
        let parts = chained(cla, instruction, p1, p2, data);
        chains_are_marked(cla, instruction, p1, p2, rest, i - 1);
        let others = chained(cla, instruction, p1, p2, rest);
        assert(parts.len() == 1 + others.len());
        if 1 <= i < parts.len() {
            assert(parts[i] == others[i - 1]);
        }
    }
}

/// A host is reached on port 80 where its address names none; a plain address
/// names one behind its only colon.
pub proof fn ports_default_to_http(authority: Seq<char>)
    requires
        authority.len() > 0,
        authority[0] != '[',
        !authority.contains(':'),
    ensures
        authority_of(authority) matches Ok(place) && place.host == authority && place.port == 80,
{
    lemma_no_place(authority, ':');
}

proof fn lemma_no_place(text: Seq<char>, wanted: char)
    requires
        !text.contains(wanted),
    ensures
        crate::connector::last_place_of(text, wanted) is None,
    decreases text.len(),
{
    if text.len() > 0 {
        assert(text[text.len() - 1] != wanted);
        let shorter = text.drop_last();
        if shorter.contains(wanted) {
            let i = choose|i: int| 0 <= i < shorter.len() && shorter[i] == wanted;
            assert(text[i] == wanted);
        }
        lemma_no_place(shorter, wanted);
    }
}

/// A device is reached under its serial number, of letters and digits alone.
pub proof fn devices_are_reached_by_serial(url: Seq<char>, serial: Seq<char>)
    ensures
        connector_of(url, serial) matches Ok(connector) ==> {
            &&& serial.len() > 0
            &&& connector.serial == serial
            &&& connector.timeout == 120_000
            &&& connector.path.len() >= ("/v1/devices/"@ + serial + "/commands"@).len()
            &&& connector.path.subrange(
                connector.path.len() - ("/v1/devices/"@ + serial + "/commands"@).len(),
                connector.path.len() as int,
            ) == "/v1/devices/"@ + serial + "/commands"@
            &&& forall|i: int|
                0 <= i < serial.len() ==> {
                    let code = #[trigger] serial[i] as u32;
                    0x30 <= code <= 0x39 || 0x41 <= code <= 0x5a || 0x61 <= code <= 0x7a
                }
        },
{
    if let Ok(connector) = connector_of(url, serial) {
        let tail = "/v1/devices/"@ + serial + "/commands"@;
        assert(connector.path.subrange(
            connector.path.len() - tail.len(),
            connector.path.len() as int,
        ) =~= tail);
        assert forall|i: int| 0 <= i < serial.len() implies {
            let code = #[trigger] serial[i] as u32;
            0x30 <= code <= 0x39 || 0x41 <= code <= 0x5a || 0x61 <= code <= 0x7a
        } by {
            assert(crate::connector::is_alphanumeric(serial[i]));
        }
    }
}

/// An option of a worker can be written in one word or in two.
pub proof fn displays_are_named_either_way(
    value: Seq<char>,
    rest: Seq<Seq<char>>,
    options: crate::worker::Options,
)
    requires
        value.len() > 0,
    ensures
        crate::worker::asked(seq!["--display"@, value] + rest, options) == crate::worker::asked(
            seq!["--display="@ + value] + rest,
            options,
        ),
        crate::worker::asked(seq!["--help"@] + rest, options) == Ok::<
            Option<crate::worker::Options>,
            crate::arguments::ArgumentErrorModel,
        >(None),
        crate::worker::asked(Seq::empty(), options) == Ok::<
            _,
            crate::arguments::ArgumentErrorModel,
        >(Some(options)),
{
    reveal_strlit("--display");
    reveal_strlit("--display=");
    reveal_strlit("--serial");
    reveal_strlit("--help");
    reveal_strlit("-h");
    let two = seq!["--display"@, value] + rest;
    let one = seq!["--display="@ + value] + rest;
    let help = seq!["--help"@] + rest;
    assert(help[0] == "--help"@);
    assert(two[0] == "--display"@ && two[1] == value);
    assert(two.subrange(2, two.len() as int) =~= rest);
    assert(one[0] == "--display="@ + value);
    assert(one.subrange(1, one.len() as int) =~= rest);
    let word = "--display="@ + value;
    assert(word.len() > 10);
    assert("--display"@.len() == 9 && "--serial"@.len() == 8 && "--help"@.len() == 6);
    assert(word != "--display"@ && word != "--serial"@ && word != "--help"@ && word != "-h"@);
    assert("--display"@[2] == 'd' && "--serial"@[2] == 's');
    assert("--display"@ != "--serial"@);
    assert("--display"@ != "--help"@ && "--display"@ != "-h"@);
    assert(word.subrange(0, 10) =~= "--display="@);
    assert(word.subrange(10, word.len() as int) =~= value);
}

/// A body comes only with the status 200.
pub proof fn bodies_come_with_success(encoded: Seq<u8>)
    ensures
        response_body(encoded) is Ok ==> (place_in(encoded, seq![13u8, 10, 13, 10], 0) matches Some(
            end,
        ) && status_of(lines(decode_utf8(encoded.subrange(0, end)))) == Some(200nat)),
{
    assert(crlf() + crlf() =~= seq![13u8, 10, 13, 10]);
}

} // verus!
