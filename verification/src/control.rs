//! The records that a worker and its supervisor exchange, and the tables in
//! them: resource names and USB endpoints, each beside a file descriptor.
use crate::bytes::{
    append, copied_range, equal, read_u16, read_u32, u16_at, u16_be, u32_at, u32_be, u32_round_trip,
    write_u16, write_u32,
};
use crate::outside::utf8_text;
use crate::usb::{BULK_IN, BULK_OUT, MAX_PACKET_SIZE};
use vstd::prelude::*;
use vstd::string::*;
use vstd::utf8::*;

verus! {

/// The version of the records.
pub const VERSION: u8 = 1;

/// The bytes before a record's body.
pub const HEADER_LENGTH: usize = 20;

/// The bytes that a record's body may have.
pub const MAX_BODY_LENGTH: usize = 1_048_576;

/// The file descriptors that may come with a record.
pub const MAX_DESCRIPTORS: usize = 32;

/// What every record starts with.
pub open spec fn magic() -> Seq<u8> {
    seq![0x55u8, 0x47, 0x53, 0x50]
}

/// What a record is about.
#[derive(Clone, Copy, Debug, PartialEq, Eq, Structural)]
pub enum Kind {
    InitialResources,
    UsbEndpoints,
    UsbBusEvent,
    UsbControlRequest,
    Quiesce,
    ConfigurationRejected,
    Configure,
    UsbControlResponse,
    Serving,
    Quiesced,
}

impl Kind {
    /// The byte of a kind.
    pub open spec fn byte(self) -> u8 {
        match self {
            Kind::InitialResources => 0x01,
            Kind::UsbEndpoints => 0x02,
            Kind::UsbBusEvent => 0x03,
            Kind::UsbControlRequest => 0x04,
            Kind::Quiesce => 0x11,
            Kind::ConfigurationRejected => 0x12,
            Kind::Configure => 0x80,
            Kind::UsbControlResponse => 0x81,
            Kind::Serving => 0x82,
            Kind::Quiesced => 0x84,
        }
    }

    /// The kind of a byte.
    pub open spec fn of_byte(value: u8) -> Option<Kind> {
        if value == 0x01 {
            Some(Kind::InitialResources)
        } else if value == 0x02 {
            Some(Kind::UsbEndpoints)
        } else if value == 0x03 {
            Some(Kind::UsbBusEvent)
        } else if value == 0x04 {
            Some(Kind::UsbControlRequest)
        } else if value == 0x11 {
            Some(Kind::Quiesce)
        } else if value == 0x12 {
            Some(Kind::ConfigurationRejected)
        } else if value == 0x80 {
            Some(Kind::Configure)
        } else if value == 0x81 {
            Some(Kind::UsbControlResponse)
        } else if value == 0x82 {
            Some(Kind::Serving)
        } else if value == 0x84 {
            Some(Kind::Quiesced)
        } else {
            None
        }
    }

    /// Returns the byte of the kind.
    pub fn to_byte(self) -> (value: u8)
        ensures
            value == self.byte(),
    {
        match self {
            Kind::InitialResources => 0x01,
            Kind::UsbEndpoints => 0x02,
            Kind::UsbBusEvent => 0x03,
            Kind::UsbControlRequest => 0x04,
            Kind::Quiesce => 0x11,
            Kind::ConfigurationRejected => 0x12,
            Kind::Configure => 0x80,
            Kind::UsbControlResponse => 0x81,
            Kind::Serving => 0x82,
            Kind::Quiesced => 0x84,
        }
    }

    /// Returns the kind of a byte.
    pub fn from_byte(value: u8) -> (kind: Option<Kind>)
        ensures
            kind == Kind::of_byte(value),
    {
        match value {
            0x01 => Some(Kind::InitialResources),
            0x02 => Some(Kind::UsbEndpoints),
            0x03 => Some(Kind::UsbBusEvent),
            0x04 => Some(Kind::UsbControlRequest),
            0x11 => Some(Kind::Quiesce),
            0x12 => Some(Kind::ConfigurationRejected),
            0x80 => Some(Kind::Configure),
            0x81 => Some(Kind::UsbControlResponse),
            0x82 => Some(Kind::Serving),
            0x84 => Some(Kind::Quiesced),
            _ => None,
        }
    }
}

/// A record; the file descriptors that came with it are counted here and kept by
/// whoever received it.
#[derive(Clone, Debug, PartialEq, Eq)]
pub struct Record {
    pub kind: Kind,
    pub generation: u32,
    pub request_id: u32,
    pub body: Vec<u8>,
    pub files: usize,
}

/// What a record says.
#[verifier::ext_equal]
pub struct ControlModel {
    pub kind: Kind,
    pub generation: u32,
    pub request_id: u32,
    pub body: Seq<u8>,
    pub files: nat,
}

impl View for Record {
    type V = ControlModel;

    open spec fn view(&self) -> ControlModel {
        ControlModel {
            kind: self.kind,
            generation: self.generation,
            request_id: self.request_id,
            body: self.body@,
            files: self.files as nat,
        }
    }
}

/// Why a record was not sent or not understood.
#[derive(Clone, Copy, Debug, PartialEq, Eq, Structural)]
pub enum RecordError {
    /// A record to be sent that has descriptors or too long a body.
    Outbound,
    Truncated,
    Header,
    UnknownKind(u8),
    BodyLength,
    Descriptors,
}

impl ControlModel {
    /// A record without descriptors.
    pub open spec fn plain(
        kind: Kind,
        generation: u32,
        request_id: u32,
        body: Seq<u8>,
    ) -> ControlModel {
        ControlModel { kind, generation, request_id, body, files: 0 }
    }

    /// Whether a record may be sent.
    pub open spec fn sendable(self) -> bool {
        self.files == 0 && self.body.len() <= MAX_BODY_LENGTH
    }

    /// The bytes of a record.
    pub open spec fn encoded(self) -> Seq<u8> {
        magic() + seq![VERSION, self.kind.byte()] + u16_be(0) + u32_be(self.generation) + u32_be(
            self.request_id,
        ) + u32_be(self.body.len() as u32) + self.body
    }

    /// The record that a packet holds, with the descriptors that came with it.
    pub open spec fn received(
        packet: Seq<u8>,
        truncated: bool,
        descriptors: nat,
    ) -> core::result::Result<ControlModel, RecordError> {
        if truncated || packet.len() < HEADER_LENGTH {
            Err(RecordError::Truncated)
        } else if packet.subrange(0, 4) != magic() || packet[4] != VERSION {
            Err(RecordError::Header)
        } else {
            match Kind::of_byte(packet[5]) {
                None => Err(RecordError::UnknownKind(packet[5])),
                Some(kind) => if u32_at(packet, 16) > MAX_BODY_LENGTH || packet.len()
                    != HEADER_LENGTH + u32_at(packet, 16) {
                    Err(RecordError::BodyLength)
                } else if descriptors != u16_at(packet, 6) || descriptors > MAX_DESCRIPTORS {
                    Err(RecordError::Descriptors)
                } else {
                    Ok(
                        ControlModel {
                            kind,
                            generation: u32_at(packet, 8),
                            request_id: u32_at(packet, 12),
                            body: packet.subrange(20, packet.len() as int),
                            files: descriptors,
                        },
                    )
                },
            }
        }
    }
}

impl Record {
    /// Makes a record without descriptors.
    pub fn new(kind: Kind, generation: u32, request_id: u32, body: Vec<u8>) -> (record: Record)
        ensures
            record@ == ControlModel::plain(kind, generation, request_id, body@),
    {
        Record { kind, generation, request_id, body, files: 0 }
    }

    /// Writes the record as the packet to send.
    pub fn encode(&self) -> (packet: core::result::Result<Vec<u8>, RecordError>)
        ensures
            match packet {
                Ok(packet) => self@.sendable() && packet@ == self@.encoded(),
                Err(error) => !self@.sendable() && error == RecordError::Outbound,
            },
    {
        if self.files != 0 || self.body.len() > MAX_BODY_LENGTH {
            return Err(RecordError::Outbound);
        }
        let mut packet: Vec<u8> = vec![0x55, 0x47, 0x53, 0x50];
        assert(packet@ =~= magic());
        packet.push(VERSION);
        packet.push(self.kind.to_byte());
        assert(packet@ =~= magic() + seq![VERSION, self.kind.byte()]);
        write_u16(&mut packet, 0);
        write_u32(&mut packet, self.generation);
        write_u32(&mut packet, self.request_id);
        write_u32(&mut packet, self.body.len() as u32);
        append(&mut packet, self.body.as_slice());
        Ok(packet)
    }

    /// Reads a received packet, of which the system tells whether it was cut
    /// short and how many descriptors came with it.
    pub fn parse(
        packet: &[u8],
        truncated: bool,
        descriptors: usize,
    ) -> (record: core::result::Result<
        Record,
        RecordError,
    >)
        ensures
            match record {
                Ok(record) => ControlModel::received(
                    packet@,
                    truncated,
                    descriptors as nat,
                ) == Ok::<
                    ControlModel,
                    RecordError,
                >(record@),
                Err(error) => ControlModel::received(packet@, truncated, descriptors as nat)
                    == Err::<ControlModel, RecordError>(error),
            },
    {
        if truncated || packet.len() < HEADER_LENGTH {
            return Err(RecordError::Truncated);
        }
        let start: Vec<u8> = copied_range(packet, 0, 4);
        let expected: Vec<u8> = vec![0x55, 0x47, 0x53, 0x50];
        assert(expected@ =~= magic());
        if !equal(start.as_slice(), expected.as_slice()) || packet[4] != VERSION {
            return Err(RecordError::Header);
        }
        let kind: Kind = match Kind::from_byte(packet[5]) {
            Some(kind) => kind,
            None => return Err(RecordError::UnknownKind(packet[5])),
        };
        let body_length: usize = read_u32(packet, 16) as usize;
        if body_length > MAX_BODY_LENGTH || packet.len() != HEADER_LENGTH + body_length {
            return Err(RecordError::BodyLength);
        }
        if descriptors != read_u16(packet, 6) as usize || descriptors > MAX_DESCRIPTORS {
            return Err(RecordError::Descriptors);
        }
        Ok(
            Record {
                kind,
                generation: read_u32(packet, 8),
                request_id: read_u32(packet, 12),
                body: copied_range(packet, HEADER_LENGTH, packet.len()),
                files: descriptors,
            },
        )
    }
}

/// Why the first record of a worker was not understood.
#[derive(Clone, Debug, PartialEq, Eq)]
pub enum ResourceError {
    /// Not the record of the initial resources.
    Unexpected,
    /// No room for the number of names.
    Table,
    /// As many names as descriptors were not to be had.
    Differ,
    Truncated,
    NotText,
    Trailing,
    UnknownName(String),
    DuplicateName(String),
    MissingDisplay,
    MissingControl,
    MissingButton,
}

/// What the error of a first record says.
#[verifier::ext_equal]
pub enum ResourceErrorModel {
    Unexpected,
    Table,
    Differ,
    Truncated,
    NotText,
    Trailing,
    UnknownName(Seq<char>),
    DuplicateName(Seq<char>),
    MissingDisplay,
    MissingControl,
    MissingButton,
}

impl View for ResourceError {
    type V = ResourceErrorModel;

    open spec fn view(&self) -> ResourceErrorModel {
        match *self {
            ResourceError::Unexpected => ResourceErrorModel::Unexpected,
            ResourceError::Table => ResourceErrorModel::Table,
            ResourceError::Differ => ResourceErrorModel::Differ,
            ResourceError::Truncated => ResourceErrorModel::Truncated,
            ResourceError::NotText => ResourceErrorModel::NotText,
            ResourceError::Trailing => ResourceErrorModel::Trailing,
            ResourceError::UnknownName(name) => ResourceErrorModel::UnknownName(name@),
            ResourceError::DuplicateName(name) => ResourceErrorModel::DuplicateName(name@),
            ResourceError::MissingDisplay => ResourceErrorModel::MissingDisplay,
            ResourceError::MissingControl => ResourceErrorModel::MissingControl,
            ResourceError::MissingButton => ResourceErrorModel::MissingButton,
        }
    }
}

/// The first names of a table, each after its length, and where the next one
/// starts.
pub open spec fn names_of(body: Seq<u8>, count: nat) -> core::result::Result<
    (Seq<Seq<char>>, int),
    ResourceErrorModel,
>
    decreases count,
{
    if count == 0 {
        Ok((Seq::empty(), 2))
    } else {
        match names_of(body, (count - 1) as nat) {
            Err(error) => Err(error),
            Ok((names, at)) => if at + 2 > body.len() || at + 2 + u16_at(body, at) > body.len() {
                Err(ResourceErrorModel::Truncated)
            } else {
                let name = body.subrange(at + 2, at + 2 + u16_at(body, at));
                if !valid_utf8(name) {
                    Err(ResourceErrorModel::NotText)
                } else {
                    Ok((names.push(decode_utf8(name)), at + 2 + u16_at(body, at)))
                }
            },
        }
    }
}

/// What names say.
pub open spec fn name_models(names: Seq<String>) -> Seq<Seq<char>> {
    Seq::new(names.len(), |i: int| names[i]@)
}

/// A table that goes wrong stays wrong.
proof fn broken_tables_stay_broken(body: Seq<u8>, count: nat, more: nat)
    requires
        count <= more,
        names_of(body, count) is Err,
    ensures
        names_of(body, more) == names_of(body, count),
    decreases more,
{
    if count < more {
        broken_tables_stay_broken(body, count, (more - 1) as nat);
    }
}

impl ControlModel {
    /// The names of the initial resources, one for each descriptor.
    pub open spec fn resource_names(self) -> core::result::Result<
        Seq<Seq<char>>,
        ResourceErrorModel,
    > {
        if self.kind != Kind::InitialResources || self.generation != 0 || self.request_id != 0 {
            Err(ResourceErrorModel::Unexpected)
        } else if self.body.len() < 2 {
            Err(ResourceErrorModel::Table)
        } else if u16_at(self.body, 0) != self.files {
            Err(ResourceErrorModel::Differ)
        } else {
            match names_of(self.body, u16_at(self.body, 0) as nat) {
                Err(error) => Err(error),
                Ok((names, end)) => if end != self.body.len() {
                    Err(ResourceErrorModel::Trailing)
                } else {
                    Ok(names)
                },
            }
        }
    }
}

/// Reads the names of the initial resources, one for each descriptor.
pub fn validate_initial_resources(record: &Record) -> (names: core::result::Result<
    Vec<String>,
    ResourceError,
>)
    ensures
        match names {
            Ok(names) => record@.resource_names() == Ok::<Seq<Seq<char>>, ResourceErrorModel>(
                name_models(names@),
            ),
            Err(error) => record@.resource_names() == Err::<Seq<Seq<char>>, ResourceErrorModel>(
                error@,
            ),
        },
{
    let body: &[u8] = record.body.as_slice();
    if record.kind != Kind::InitialResources || record.generation != 0 || record.request_id != 0 {
        return Err(ResourceError::Unexpected);
    }
    if body.len() < 2 {
        return Err(ResourceError::Table);
    }
    let count: usize = read_u16(body, 0) as usize;
    if count != record.files {
        return Err(ResourceError::Differ);
    }
    let mut names: Vec<String> = Vec::new();
    let mut offset: usize = 2;
    let mut index: usize = 0;
    assert(name_models(names@) =~= Seq::<Seq<char>>::empty());
    while index < count
        invariant
            body@ == record@.body,
            count == u16_at(body@, 0),
            count == record@.files,
            record@.kind == Kind::InitialResources,
            record@.generation == 0,
            record@.request_id == 0,
            index <= count,
            2 <= offset <= body@.len(),
            names_of(body@, index as nat) == Ok::<(Seq<Seq<char>>, int), ResourceErrorModel>(
                (name_models(names@), offset as int),
            ),
        decreases count - index,
    {
        let ghost before = names@;
        proof {
            if names_of(body@, (index + 1) as nat) is Err {
                broken_tables_stay_broken(body@, (index + 1) as nat, count as nat);
            }
        }
        if body.len() - offset < 2 {
            return Err(ResourceError::Truncated);
        }
        let length: usize = read_u16(body, offset) as usize;
        if body.len() - offset - 2 < length {
            return Err(ResourceError::Truncated);
        }
        let bytes: Vec<u8> = copied_range(body, offset + 2, offset + 2 + length);
        match utf8_text(bytes.as_slice()) {
            None => return Err(ResourceError::NotText),
            Some(name) => names.push(name),
        }
        assert(name_models(names@) =~= name_models(before).push(names@.last()@));
        offset = offset + 2 + length;
        index = index + 1;
    }
    if offset != body.len() {
        return Err(ResourceError::Trailing);
    }
    Ok(names)
}

/// Which descriptors are which resources.
#[derive(Clone, Copy, Debug, PartialEq, Eq, Structural)]
pub struct ResourcePlaces {
    pub display_spi: usize,
    pub display_control: usize,
    pub reconnect_button: usize,
}

/// Whether a resource is one that a worker knows.
pub open spec fn known_resource(name: Seq<char>) -> bool {
    name == "display-spi"@ || name == "display-control"@ || name == "reconnect-button"@
}

/// The first name that is unknown or came before, and its error.
pub open spec fn first_bad_name(names: Seq<Seq<char>>, from: int) -> Option<ResourceErrorModel>
    decreases names.len() - from,
{
    if from >= names.len() {
        None
    } else if !known_resource(names[from]) {
        Some(ResourceErrorModel::UnknownName(names[from]))
    } else if names.subrange(0, from).contains(names[from]) {
        Some(ResourceErrorModel::DuplicateName(names[from]))
    } else {
        first_bad_name(names, from + 1)
    }
}

/// Which descriptors are which resources, by the names: each known resource once
/// and nothing else.
pub open spec fn resource_check(
    names: Seq<Seq<char>>,
    places: core::result::Result<ResourcePlaces, ResourceErrorModel>,
) -> bool {
    if let Some(error) = first_bad_name(names, 0) {
        places == Err::<ResourcePlaces, ResourceErrorModel>(error)
    } else if !names.contains("display-spi"@) {
        places == Err::<ResourcePlaces, ResourceErrorModel>(ResourceErrorModel::MissingDisplay)
    } else if !names.contains("display-control"@) {
        places == Err::<ResourcePlaces, ResourceErrorModel>(ResourceErrorModel::MissingControl)
    } else if !names.contains("reconnect-button"@) {
        places == Err::<ResourcePlaces, ResourceErrorModel>(ResourceErrorModel::MissingButton)
    } else {
        places matches Ok(places) && places.display_spi < names.len()
            && names[places.display_spi as int]
            == "display-spi"@ && places.display_control < names.len()
            && names[places.display_control as int] == "display-control"@ && places.reconnect_button
            < names.len() && names[places.reconnect_button as int] == "reconnect-button"@
    }
}

/// What placed resources say.
pub open spec fn places_of(
    places: core::result::Result<ResourcePlaces, ResourceError>,
) -> core::result::Result<
    ResourcePlaces,
    ResourceErrorModel,
> {
    match places {
        Ok(places) => Ok(places),
        Err(error) => Err(error@),
    }
}

/// Whether a place is where a name stands, and whether there is none.
pub open spec fn stands_at(
    names: Seq<Seq<char>>,
    count: int,
    name: Seq<char>,
    place: Option<usize>,
) -> bool {
    match place {
        Some(place) => place < count && names[place as int] == name,
        None => !names.subrange(0, count).contains(name),
    }
}

/// Where a name stands goes on, and another name does not change it.
proof fn places_go_on(names: Seq<Seq<char>>, count: int, name: Seq<char>, place: Option<usize>)
    requires
        0 <= count < names.len(),
        stands_at(names, count, name, place),
        names[count] != name,
    ensures
        stands_at(names, count + 1, name, place),
{
    if place is None {
        let longer = names.subrange(0, count + 1);
        if longer.contains(name) {
            let at = choose|at: int| 0 <= at < longer.len() && longer[at] == name;
            assert(names.subrange(0, count)[at] == name);
        }
    }
}

/// Finds which descriptors are which resources.
pub fn place_resources(names: &[String]) -> (places: core::result::Result<
    ResourcePlaces,
    ResourceError,
>)
    ensures
        resource_check(name_models(names@), places_of(places)),
{
    let ghost all = name_models(names@);
    let mut display_spi: Option<usize> = None;
    let mut display_control: Option<usize> = None;
    let mut reconnect_button: Option<usize> = None;
    let mut index: usize = 0;
    while index < names.len()
        invariant
            all == name_models(names@),
            index <= names@.len(),
            first_bad_name(all, 0) == first_bad_name(all, index as int),
            stands_at(all, index as int, "display-spi"@, display_spi),
            stands_at(all, index as int, "display-control"@, display_control),
            stands_at(all, index as int, "reconnect-button"@, reconnect_button),
        decreases names@.len() - index,
    {
        proof {
            resource_names_differ();
        }
        let name: &String = &names[index];
        let ghost earlier = all.subrange(0, index as int);
        assert(all[index as int] == name@);
        if *name == "display-spi".to_owned() {
            if let Some(place) = display_spi {
                assert(earlier[place as int] == name@);
                return Err(ResourceError::DuplicateName(name.as_str().to_owned()));
            }
            display_spi = Some(index);
            proof {
                places_go_on(all, index as int, "display-control"@, display_control);
                places_go_on(all, index as int, "reconnect-button"@, reconnect_button);
            }
        } else if *name == "display-control".to_owned() {
            if let Some(place) = display_control {
                assert(earlier[place as int] == name@);
                return Err(ResourceError::DuplicateName(name.as_str().to_owned()));
            }
            display_control = Some(index);
            proof {
                places_go_on(all, index as int, "display-spi"@, display_spi);
                places_go_on(all, index as int, "reconnect-button"@, reconnect_button);
            }
        } else if *name == "reconnect-button".to_owned() {
            if let Some(place) = reconnect_button {
                assert(earlier[place as int] == name@);
                return Err(ResourceError::DuplicateName(name.as_str().to_owned()));
            }
            reconnect_button = Some(index);
            proof {
                places_go_on(all, index as int, "display-spi"@, display_spi);
                places_go_on(all, index as int, "display-control"@, display_control);
            }
        } else {
            return Err(ResourceError::UnknownName(name.as_str().to_owned()));
        }
        index = index + 1;
    }
    assert(all.subrange(0, index as int) =~= all);
    let display_spi: usize = match display_spi {
        Some(place) => {
            assert(all[place as int] == "display-spi"@);
            place
        },
        None => return Err(ResourceError::MissingDisplay),
    };
    let display_control: usize = match display_control {
        Some(place) => {
            assert(all[place as int] == "display-control"@);
            place
        },
        None => return Err(ResourceError::MissingControl),
    };
    let reconnect_button: usize = match reconnect_button {
        Some(place) => {
            assert(all[place as int] == "reconnect-button"@);
            place
        },
        None => return Err(ResourceError::MissingButton),
    };
    Ok(ResourcePlaces { display_spi, display_control, reconnect_button })
}

/// No two resources have the same name.
proof fn resource_names_differ()
    ensures
        "display-spi"@ != "display-control"@,
        "display-spi"@ != "reconnect-button"@,
        "display-control"@ != "reconnect-button"@,
{
    reveal_strlit("display-spi");
    reveal_strlit("display-control");
    reveal_strlit("reconnect-button");
    assert("display-spi"@.len() == 11);
    assert("display-control"@.len() == 15);
    assert("reconnect-button"@.len() == 16);
}

/// Which descriptors are which endpoints.
#[derive(Clone, Copy, Debug, PartialEq, Eq, Structural)]
pub struct EndpointPlaces {
    pub output: usize,
    pub input: usize,
}

/// Why a table of endpoints was not understood.
#[derive(Clone, Copy, Debug, PartialEq, Eq, Structural)]
pub enum EndpointError {
    Truncated,
    /// As many entries as descriptors were not to be had.
    Differ,
    /// An endpoint that is not a bulk endpoint of the expected packet size.
    NotBulk,
    UnknownAddress(u8),
    DuplicateAddress(u8),
    MissingOutput,
    MissingInput,
}

/// The endpoints that the first entries of a table give: for each direction,
/// which entry, if any.
pub open spec fn endpoints_of(body: Seq<u8>, count: nat) -> core::result::Result<
    (Option<usize>, Option<usize>),
    EndpointError,
>
    decreases count,
{
    if count == 0 {
        Ok((None, None))
    } else {
        let entry = 2 + 4 * (count - 1);
        match endpoints_of(body, (count - 1) as nat) {
            Err(error) => Err(error),
            Ok((output, input)) => if body[entry + 1] != 2 || u16_at(body, entry + 2)
                != MAX_PACKET_SIZE {
                Err(EndpointError::NotBulk)
            } else if body[entry] == BULK_OUT {
                if output is Some {
                    Err(EndpointError::DuplicateAddress(BULK_OUT))
                } else {
                    Ok((Some((count - 1) as usize), input))
                }
            } else if body[entry] == BULK_IN {
                if input is Some {
                    Err(EndpointError::DuplicateAddress(BULK_IN))
                } else {
                    Ok((output, Some((count - 1) as usize)))
                }
            } else {
                Err(EndpointError::UnknownAddress(body[entry]))
            },
        }
    }
}

/// Which descriptors are which endpoints, by a table with an entry for each.
pub open spec fn endpoint_map(body: Seq<u8>, files: nat) -> core::result::Result<
    EndpointPlaces,
    EndpointError,
> {
    if body.len() < 2 {
        Err(EndpointError::Truncated)
    } else if body.len() != 2 + 4 * u16_at(body, 0) || files != u16_at(body, 0) {
        Err(EndpointError::Differ)
    } else {
        match endpoints_of(body, files) {
            Err(error) => Err(error),
            Ok((None, _)) => Err(EndpointError::MissingOutput),
            Ok((_, None)) => Err(EndpointError::MissingInput),
            Ok((Some(output), Some(input))) => Ok(EndpointPlaces { output, input }),
        }
    }
}

/// A table of endpoints that goes wrong stays wrong.
proof fn broken_endpoints_stay_broken(body: Seq<u8>, count: nat, more: nat)
    requires
        count <= more,
        endpoints_of(body, count) is Err,
    ensures
        endpoints_of(body, more) == endpoints_of(body, count),
    decreases more,
{
    if count < more {
        broken_endpoints_stay_broken(body, count, (more - 1) as nat);
    }
}

/// Finds which descriptors are which endpoints.
pub fn place_endpoints(body: &[u8], files: usize) -> (places: core::result::Result<
    EndpointPlaces,
    EndpointError,
>)
    ensures
        places == endpoint_map(body@, files as nat),
{
    if body.len() < 2 {
        return Err(EndpointError::Truncated);
    }
    let count: usize = read_u16(body, 0) as usize;
    if body.len() != 2 + 4 * count || files != count {
        return Err(EndpointError::Differ);
    }
    let mut output: Option<usize> = None;
    let mut input: Option<usize> = None;
    let mut index: usize = 0;
    while index < count
        invariant
            body@.len() == 2 + 4 * count,
            count == u16_at(body@, 0),
            files == count,
            index <= count,
            endpoints_of(body@, index as nat) == Ok::<
                (Option<usize>, Option<usize>),
                EndpointError,
            >((output, input)),
        decreases count - index,
    {
        proof {
            if endpoints_of(body@, (index + 1) as nat) is Err {
                broken_endpoints_stay_broken(body@, (index + 1) as nat, count as nat);
            }
        }
        let entry: usize = 2 + 4 * index;
        if body[entry + 1] != 2 || read_u16(body, entry + 2) != MAX_PACKET_SIZE {
            return Err(EndpointError::NotBulk);
        }
        let address: u8 = body[entry];
        if address == BULK_OUT {
            if output.is_some() {
                return Err(EndpointError::DuplicateAddress(address));
            }
            output = Some(index);
        } else if address == BULK_IN {
            if input.is_some() {
                return Err(EndpointError::DuplicateAddress(address));
            }
            input = Some(index);
        } else {
            return Err(EndpointError::UnknownAddress(address));
        }
        index = index + 1;
    }
    match (output, input) {
        (None, _) => Err(EndpointError::MissingOutput),
        (_, None) => Err(EndpointError::MissingInput),
        (Some(output), Some(input)) => Ok(EndpointPlaces { output, input }),
    }
}

/// A record that may be sent is read back as it was.
pub proof fn sent_records_read_back(record: ControlModel)
    requires
        record.sendable(),
    ensures
        ControlModel::received(record.encoded(), false, 0) == Ok::<ControlModel, RecordError>(
            record,
        ),
        record.encoded().len() == HEADER_LENGTH + record.body.len(),
{
    let packet = record.encoded();
    assert(packet.subrange(0, 4) =~= magic());
    u32_round_trip(record.generation);
    u32_round_trip(record.request_id);
    u32_round_trip(record.body.len() as u32);
    assert(packet.subrange(8, 12) =~= u32_be(record.generation));
    assert(packet.subrange(12, 16) =~= u32_be(record.request_id));
    assert(packet.subrange(16, 20) =~= u32_be(record.body.len() as u32));
    assert(packet.subrange(20, packet.len() as int) =~= record.body);
    assert(packet.subrange(6, 8) =~= u16_be(0));
    assert(forall|i: int| 0 <= i < 4 ==> packet[8 + i] == packet.subrange(8, 12)[i]);
    assert(forall|i: int| 0 <= i < 4 ==> packet[12 + i] == packet.subrange(12, 16)[i]);
    assert(forall|i: int| 0 <= i < 4 ==> packet[16 + i] == packet.subrange(16, 20)[i]);
}

/// A kind is the kind of its byte, and no other byte is.
pub proof fn kind_byte_round_trip(kind: Kind, value: u8)
    ensures
        Kind::of_byte(value) == Some(kind) <==> kind.byte() == value,
{
}

/// Where a table gives endpoints, it gives each direction once and nothing else:
/// two descriptors, of which one is the output and the other the input.
pub proof fn endpoint_maps_are_pairs(body: Seq<u8>, files: nat)
    requires
        endpoint_map(body, files) is Ok,
    ensures
        files == 2,
        endpoint_map(body, files)->Ok_0.output + endpoint_map(body, files)->Ok_0.input == 1,
{
    reveal_with_fuel(endpoints_of, 4);
    if files > 2 {
        assert(endpoints_of(body, 3) is Err);
        broken_endpoints_stay_broken(body, 3, files);
    }
}

} // verus!
