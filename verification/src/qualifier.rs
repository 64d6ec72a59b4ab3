//! The program that qualifies a device: its command line, where it takes its
//! credentials from, and how it speaks to the cards that hold some of them.
use crate::arguments::lines_of;
use crate::bytes::{append, copied_range, equal, place_in, read_u16, u16_at};
use crate::outside::{p256_agreement, p256_shared};
use crate::qualification::Profile;
use crate::text::{characters, number_of, part, read_number, same};
use vstd::prelude::*;
use vstd::string::*;

verus! {

/// What is qualified: a device within the program, or one behind a connector.
#[derive(Clone, Debug, PartialEq, Eq)]
pub enum Target {
    Core,
    Connector { url: String, serial: String },
}

/// What a target says.
#[verifier::ext_equal]
pub enum TargetModel {
    Core,
    Connector { url: Seq<char>, serial: Seq<char> },
}

impl View for Target {
    type V = TargetModel;

    open spec fn view(&self) -> TargetModel {
        match *self {
            Target::Core => TargetModel::Core,
            Target::Connector { url, serial } => TargetModel::Connector {
                url: url@,
                serial: serial@,
            },
        }
    }
}

/// Why a command line was not understood.
#[derive(Clone, Copy, Debug, PartialEq, Eq, Structural)]
pub enum UsageError {
    Usage,
    /// The profile that changes a device for good, for one that is not the
    /// program's own.
    Ephemeral,
}

/// The profile that a name asks for.
pub open spec fn profile_of(name: Seq<char>, core: bool) -> core::result::Result<
    Profile,
    UsageError,
> {
    match Profile::named(name, core) {
        Some(profile) => Ok(profile),
        None => if name == "ephemeral"@ {
            Err(UsageError::Ephemeral)
        } else {
            Err(UsageError::Usage)
        },
    }
}

/// Reads the name of a profile.
pub fn parse_profile(name: &str, core: bool) -> (profile: core::result::Result<Profile, UsageError>)
    ensures
        profile == profile_of(name@, core),
{
    match Profile::parse(name, core) {
        Some(profile) => Ok(profile),
        None => {
            if name.to_owned() == "ephemeral".to_owned() {
                Err(UsageError::Ephemeral)
            } else {
                Err(UsageError::Usage)
            }
        },
    }
}

/// What a command line asks for.
pub open spec fn asked(arguments: Seq<Seq<char>>) -> core::result::Result<
    (TargetModel, Profile),
    UsageError,
> {
    if arguments.len() == 1 && arguments[0] == "core"@ {
        Ok((TargetModel::Core, Profile::Ephemeral))
    } else if arguments.len() == 2 && arguments[0] == "core"@ {
        match profile_of(arguments[1], true) {
            Err(error) => Err(error),
            Ok(profile) => Ok((TargetModel::Core, profile)),
        }
    } else if arguments.len() == 3 && arguments[0] == "connector"@ {
        Ok(
            (
                TargetModel::Connector { url: arguments[1], serial: arguments[2] },
                Profile::Smoke,
            ),
        )
    } else if arguments.len() == 4 && arguments[0] == "connector"@ {
        match profile_of(arguments[3], false) {
            Err(error) => Err(error),
            Ok(profile) => Ok(
                (TargetModel::Connector { url: arguments[1], serial: arguments[2] }, profile),
            ),
        }
    } else {
        Err(UsageError::Usage)
    }
}

/// Reads the command line after the program's name.
pub fn parse_arguments(arguments: &[String]) -> (plan: core::result::Result<
    (Target, Profile),
    UsageError,
>)
    ensures
        match plan {
            Ok((target, profile)) => asked(lines_of(arguments@)) == Ok::<
                (TargetModel, Profile),
                UsageError,
            >((target@, profile)),
            Err(error) => asked(lines_of(arguments@)) == Err::<(TargetModel, Profile), UsageError>(
                error,
            ),
        },
{
    let count: usize = arguments.len();
    if count == 0 {
        return Err(UsageError::Usage);
    }
    let is_core: bool = arguments[0] == "core".to_owned();
    let is_connector: bool = arguments[0] == "connector".to_owned();
    if count == 1 && is_core {
        return Ok((Target::Core, Profile::Ephemeral));
    }
    if count == 2 && is_core {
        let profile: Profile = parse_profile(arguments[1].as_str(), true)?;
        return Ok((Target::Core, profile));
    }
    if (count == 3 || count == 4) && is_connector {
        let profile: Profile = if count == 3 {
            Profile::Smoke
        } else {
            parse_profile(arguments[3].as_str(), false)?
        };
        let target = Target::Connector {
            url: arguments[1].as_str().to_owned(),
            serial: arguments[2].as_str().to_owned(),
        };
        return Ok((target, profile));
    }
    Err(UsageError::Usage)
}

/// A profile that changes a device for good is never run against a connector.
pub proof fn connectors_are_left_as_they_are(arguments: Seq<Seq<char>>)
    ensures
        asked(arguments) matches Ok((TargetModel::Connector { .. }, profile)) ==> profile
            != Profile::Ephemeral,
{
}

/// The number of the authentication key that a setting gives, the first where
/// there is no setting; nothing where it gives no number of 16 bits.
pub open spec fn key_number(setting: Option<Seq<char>>) -> Option<nat> {
    match setting {
        None => Some(1),
        Some(setting) => number_of(setting, 10, 65_535),
    }
}

/// Reads the number of the authentication key off a setting.
pub fn authentication_key_id(setting: Option<&str>) -> (id: Option<u16>)
    ensures
        match id {
            Some(id) => key_number(
                match setting {
                    Some(setting) => Some(setting@),
                    None => None,
                },
            ) == Some(id as nat),
            None => key_number(
                match setting {
                    Some(setting) => Some(setting@),
                    None => None,
                },
            ) is None,
        },
{
    match setting {
        None => Some(1),
        Some(setting) => {
            let digits: Vec<char> = characters(setting);
            match read_number(digits.as_slice(), 10, 65_535) {
                Some(id) => Some(id as u16),
                None => None,
            }
        },
    }
}

/// Where credentials come from.
#[derive(Clone, Copy, Debug, PartialEq, Eq, Structural)]
pub enum CredentialSource {
    /// No session is opened.
    NotNeeded,
    /// The password that a device leaves the factory with.
    Factory,
    /// A credential on a card, by its label.
    HsmAuth,
    /// A credential of the platform, by its name.
    Platform,
    /// A password given in a setting.
    Password,
    /// There is no setting that gives any.
    Missing,
}

/// Where credentials come from, by the profile, the target, and which settings
/// there are: a card before the platform, the platform before a password.
pub open spec fn source_of(
    profile: Profile,
    core: bool,
    label: bool,
    platform: bool,
    password: bool,
) -> CredentialSource {
    if profile == Profile::Smoke {
        CredentialSource::NotNeeded
    } else if profile == Profile::Ephemeral || core {
        CredentialSource::Factory
    } else if label {
        CredentialSource::HsmAuth
    } else if platform {
        CredentialSource::Platform
    } else if password {
        CredentialSource::Password
    } else {
        CredentialSource::Missing
    }
}

/// Tells where credentials come from.
pub fn credential_source(
    profile: Profile,
    core: bool,
    label: bool,
    platform: bool,
    password: bool,
) -> (source: CredentialSource)
    ensures
        source == source_of(profile, core, label, platform, password),
{
    match profile {
        Profile::Smoke => CredentialSource::NotNeeded,
        Profile::Ephemeral => CredentialSource::Factory,
        Profile::Managed | Profile::Extensions => {
            if core {
                CredentialSource::Factory
            } else if label {
                CredentialSource::HsmAuth
            } else if platform {
                CredentialSource::Platform
            } else if password {
                CredentialSource::Password
            } else {
                CredentialSource::Missing
            }
        },
    }
}

/// The keys of a session between two that have key pairs.
#[derive(Clone, Debug, PartialEq, Eq)]
pub struct AsymmetricSessionKeys {
    pub receipt: Vec<u8>,
    pub encryption: Vec<u8>,
    pub mac: Vec<u8>,
    pub response_mac: Vec<u8>,
}

/// Splits what a key derivation returned into the keys of a session; where it
/// returned another number of bytes than 64, that number is the error.
pub fn split_session_keys(
    keys: &[u8],
) -> (split: core::result::Result<AsymmetricSessionKeys, usize>)
    ensures
        match split {
            Ok(split) => keys@.len() == 64 && split.receipt@ == keys@.subrange(0, 16)
                && split.encryption@ == keys@.subrange(16, 32) && split.mac@ == keys@.subrange(
                32,
                48,
            ) && split.response_mac@ == keys@.subrange(48, 64),
            Err(length) => keys@.len() != 64 && length == keys@.len(),
        },
{
    if keys.len() != 64 {
        return Err(keys.len());
    }
    Ok(
        AsymmetricSessionKeys {
            receipt: copied_range(keys, 0, 16),
            encryption: copied_range(keys, 16, 32),
            mac: copied_range(keys, 32, 48),
            response_mac: copied_range(keys, 48, 64),
        },
    )
}

/// Why no secret was agreed on.
#[derive(Clone, Copy, Debug, PartialEq, Eq, Structural)]
pub enum AgreementError {
    /// A context that does not start with the host's own public key.
    HostKey,
    /// A device key that is no point, or a host key that is no key.
    DeviceKey,
}

/// The secret that a host's ephemeral key agrees on with the device's, which
/// follows the host's own public key in the context of a session.
pub open spec fn agreed(
    secret: Seq<u8>,
    host_public_key: Seq<u8>,
    context: Seq<u8>,
) -> core::result::Result<
    Seq<u8>,
    AgreementError,
> {
    if context.len() != 130 || context.subrange(0, 65) != host_public_key {
        Err(AgreementError::HostKey)
    } else {
        match p256_shared(secret, context.subrange(65, 130)) {
            Some(shared) => Ok(shared),
            None => Err(AgreementError::DeviceKey),
        }
    }
}

/// Computes the secret that a host's ephemeral key agrees on with the device's.
pub fn ephemeral_secret(
    secret: &[u8],
    host_public_key: &[u8],
    context: &[u8],
) -> (shared: core::result::Result<
    Vec<u8>,
    AgreementError,
>)
    ensures
        match shared {
            Ok(shared) => agreed(secret@, host_public_key@, context@) == Ok::<
                Seq<u8>,
                AgreementError,
            >(shared@),
            Err(error) => agreed(secret@, host_public_key@, context@) == Err::<
                Seq<u8>,
                AgreementError,
            >(error),
        },
{
    if context.len() != 130 {
        return Err(AgreementError::HostKey);
    }
    let own: Vec<u8> = copied_range(context, 0, 65);
    if !equal(own.as_slice(), host_public_key) {
        return Err(AgreementError::HostKey);
    }
    let device: Vec<u8> = copied_range(context, 65, 130);
    match p256_agreement(secret, device.as_slice()) {
        Some(shared) => Ok(shared),
        None => Err(AgreementError::DeviceKey),
    }
}

/// Tells whether what a card gave as a challenge is an uncompressed point.
pub fn is_point(challenge: &[u8]) -> (point: bool)
    ensures
        point == (challenge@.len() == 65 && challenge@[0] == 0x04),
{
    challenge.len() == 65 && challenge[0] == 0x04
}

/// Tells whether a reader is to be looked at: every one is, unless only those are
/// that have a text in their name.
pub fn is_asked_reader(name: &str, filter: Option<&str>) -> (asked: bool)
    ensures
        asked == (filter matches Some(part) ==> place_in(name@, part@, 0) is Some),
{
    match filter {
        None => true,
        Some(part) => contains(&characters(name), &characters(part)),
    }
}

/// Tells whether a text stands within another.
fn contains(whole: &[char], pattern: &[char]) -> (found: bool)
    ensures
        found == (place_in(whole@, pattern@, 0) is Some),
{
    if pattern.len() == 0 {
        assert(whole@.subrange(0, 0) =~= pattern@);
        return true;
    }
    if pattern.len() > whole.len() {
        return false;
    }
    let mut place: usize = 0;
    while place <= whole.len() - pattern.len()
        invariant
            0 < pattern@.len() <= whole@.len(),
            place <= whole@.len() - pattern@.len() + 1,
            place_in(whole@, pattern@, 0) == place_in(whole@, pattern@, place as int),
        decreases whole@.len() - pattern@.len() + 1 - place,
    {
        if same(&part(whole, place, place + pattern.len()), pattern) {
            return true;
        }
        place = place + 1;
    }
    false
}

/// Why no card was chosen.
#[derive(Clone, Copy, Debug, PartialEq, Eq, Structural)]
pub enum SelectionError {
    /// No card holds the credential.
    Missing,
    /// More than one card holds it.
    Ambiguous,
}

/// Whether the card in a reader holds the credential: it gave a point as its
/// challenge.
pub open spec fn holds_credential(challenge: Option<Vec<u8>>) -> bool {
    challenge matches Some(bytes) && bytes@.len() == 65 && bytes@[0] == 0x04
}

/// Chooses the one card that holds a credential, by what the card in each reader
/// gave as its challenge, if anything.
pub fn choose_card(challenges: &[Option<Vec<u8>>]) -> (chosen: core::result::Result<
    usize,
    SelectionError,
>)
    ensures
        match chosen {
            Ok(card) => card < challenges@.len() && forall|i: int|
                0 <= i < challenges@.len() ==> (#[trigger] holds_credential(challenges@[i]) <==> i
                    == card),
            Err(SelectionError::Missing) => forall|i: int|
                0 <= i < challenges@.len() ==> !#[trigger] holds_credential(challenges@[i]),
            Err(SelectionError::Ambiguous) => exists|i: int, j: int|
                0 <= i < j < challenges@.len() && #[trigger] holds_credential(challenges@[i])
                    && #[trigger] holds_credential(challenges@[j]),
        },
{
    let mut card: Option<usize> = None;
    let mut index: usize = 0;
    while index < challenges.len()
        invariant
            index <= challenges@.len(),
            match card {
                Some(card) => card < index && forall|i: int|
                    0 <= i < index ==> (#[trigger] holds_credential(challenges@[i]) <==> i == card),
                None => forall|i: int|
                    0 <= i < index ==> !#[trigger] holds_credential(challenges@[i]),
            },
        decreases challenges@.len() - index,
    {
        let held: bool = match &challenges[index] {
            Some(challenge) => is_point(challenge),
            None => false,
        };
        assert(held == holds_credential(challenges@[index as int]));
        if held {
            if let Some(first) = card {
                assert(holds_credential(challenges@[first as int]));
                return Err(SelectionError::Ambiguous);
            }
            card = Some(index);
        }
        index = index + 1;
    }
    match card {
        Some(card) => Ok(card),
        None => Err(SelectionError::Missing),
    }
}

/// The data bytes that one command to a card carries at most.
pub const CHUNK_LENGTH: usize = 255;

/// The bytes of one command to a card.
pub open spec fn command_bytes(cla: u8, instruction: u8, p1: u8, p2: u8, data: Seq<u8>) -> Seq<u8> {
    seq![cla, instruction, p1, p2, data.len() as u8] + data
}

/// The commands that carry data to a card: one for each piece of it, each but the
/// last marked as to be continued.
pub open spec fn chained(cla: u8, instruction: u8, p1: u8, p2: u8, data: Seq<u8>) -> Seq<Seq<u8>>
    decreases data.len(),
{
    if data.len() <= CHUNK_LENGTH {
        seq![command_bytes(cla, instruction, p1, p2, data)]
    } else {
        seq![
            command_bytes(cla | 0x10, instruction, p1, p2, data.subrange(0, 255)),
        ] + chained(cla, instruction, p1, p2, data.subrange(255, data.len() as int))
    }
}

/// What commands say.
pub open spec fn command_models(commands: Seq<Vec<u8>>) -> Seq<Seq<u8>> {
    Seq::new(commands.len(), |i: int| commands[i]@)
}

/// Makes the commands that carry data to a card.
pub fn chain(cla: u8, instruction: u8, p1: u8, p2: u8, data: &[u8]) -> (commands: Vec<Vec<u8>>)
    ensures
        command_models(commands@) == chained(cla, instruction, p1, p2, data@),
{
    let mut commands: Vec<Vec<u8>> = Vec::new();
    let mut offset: usize = 0;
    let ghost all = chained(cla, instruction, p1, p2, data@);
    assert(data@.subrange(0, data@.len() as int) =~= data@);
    assert(command_models(commands@) + all =~= all);
    while data.len() - offset > CHUNK_LENGTH
        invariant
            offset <= data@.len(),
            all == chained(cla, instruction, p1, p2, data@),
            all == command_models(commands@) + chained(
                cla,
                instruction,
                p1,
                p2,
                data@.subrange(offset as int, data@.len() as int),
            ),
        decreases data@.len() - offset,
    {
        let ghost before = commands@;
        let ghost rest = data@.subrange(offset as int, data@.len() as int);
        let piece: Vec<u8> = copied_range(data, offset, offset + CHUNK_LENGTH);
        assert(piece@ =~= rest.subrange(0, 255));
        commands.push(command(cla | 0x10, instruction, p1, p2, piece.as_slice()));
        offset = offset + CHUNK_LENGTH;
        assert(rest.subrange(255, rest.len() as int) =~= data@.subrange(
            offset as int,
            data@.len() as int,
        ));
        assert(command_models(commands@) =~= command_models(before).push(commands@.last()@));
        assert(all =~= command_models(commands@) + chained(
            cla,
            instruction,
            p1,
            p2,
            data@.subrange(offset as int, data@.len() as int),
        ));
    }
    let ghost before = commands@;
    let piece: Vec<u8> = copied_range(data, offset, data.len());
    commands.push(command(cla, instruction, p1, p2, piece.as_slice()));
    assert(command_models(commands@) =~= command_models(before).push(commands@.last()@));
    assert(command_models(commands@) =~= all);
    commands
}

/// Writes one command to a card.
fn command(cla: u8, instruction: u8, p1: u8, p2: u8, data: &[u8]) -> (bytes: Vec<u8>)
    requires
        data@.len() <= CHUNK_LENGTH,
    ensures
        bytes@ == command_bytes(cla, instruction, p1, p2, data@),
{
    let mut bytes: Vec<u8> = vec![cla, instruction, p1, p2, data.len() as u8];
    append(&mut bytes, data);
    assert(bytes@ =~= command_bytes(cla, instruction, p1, p2, data@));
    bytes
}

/// Splits what a card returned into data and status, which is the last two bytes;
/// nothing where there is no status.
pub fn split_response(response: &[u8]) -> (split: Option<(Vec<u8>, u16)>)
    ensures
        match split {
            Some((data, status)) => response@.len() >= 2 && data@ == response@.subrange(
                0,
                response@.len() - 2,
            ) && status == u16_at(response@, response@.len() - 2),
            None => response@.len() < 2,
        },
{
    if response.len() < 2 {
        return None;
    }
    let end: usize = response.len() - 2;
    Some((copied_range(response, 0, end), read_u16(response, end)))
}

/// Tells whether a card takes the next command of a chain: it returned no data,
/// and success as the status.
pub fn continues(data: &[u8], status: u16) -> (goes_on: bool)
    ensures
        goes_on == (status == 0x9000 && data@.len() == 0),
{
    status == 0x9000 && data.len() == 0
}

/// The data that commands carry, one after the other.
pub open spec fn carried(commands: Seq<Seq<u8>>) -> Seq<u8>
    decreases commands.len(),
{
    if commands.len() == 0 {
        Seq::empty()
    } else {
        commands[0].subrange(5, commands[0].len() as int) + carried(
            commands.subrange(1, commands.len() as int),
        )
    }
}

/// The commands of a chain carry the data, whole and in order, and only the last
/// one is not marked as to be continued.
pub proof fn chains_carry_the_data(cla: u8, instruction: u8, p1: u8, p2: u8, data: Seq<u8>)
    ensures
        carried(chained(cla, instruction, p1, p2, data)) == data,
        chained(cla, instruction, p1, p2, data).len() > 0,
        chained(cla, instruction, p1, p2, data).last()[0] == cla,
        forall|i: int|
            0 <= i < chained(cla, instruction, p1, p2, data).len() - 1 ==> (#[trigger] chained(
                cla,
                instruction,
                p1,
                p2,
                data,
            )[i])[0] == cla | 0x10,
    decreases data.len(),
{
    let commands = chained(cla, instruction, p1, p2, data);
    let rest = data.subrange(
        if data.len() <= 255 { data.len() as int } else { 255 },
        data.len() as int,
    );
    if data.len() <= CHUNK_LENGTH {
        assert(commands[0].subrange(5, commands[0].len() as int) =~= data);
        assert(commands.subrange(1, 1) =~= Seq::<Seq<u8>>::empty());
        reveal_with_fuel(carried, 2);
        assert(carried(commands) =~= data);
    } else {
        chains_carry_the_data(cla, instruction, p1, p2, rest);
        assert(commands.subrange(1, commands.len() as int) =~= chained(
            cla,
            instruction,
            p1,
            p2,
            rest,
        ));
        assert(commands[0].subrange(5, commands[0].len() as int) =~= data.subrange(0, 255));
        assert(carried(commands) =~= data);
    }
}

} // verus!
