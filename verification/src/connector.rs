//! Connectors: what carries frames to a device, the address of one that speaks
//! HTTP, and its responses.
use crate::bytes::{append, copied_range, equal, find_pattern, place_in};
use crate::outside::{lossy, lossy_text, text_of, utf8_text};
use crate::text::{
    append_number, begins_with, characters, find, number_of, numeral, part, place_of, read_number,
    same, split_words, starts_with, trim, trimmed, word_models, words,
};
use vstd::prelude::*;
use vstd::string::*;
use vstd::utf8::*;

verus! {

/// What kind of failure a transport met.
#[derive(Clone, Copy, Debug, PartialEq, Eq, Structural)]
pub enum TransportErrorKind {
    Other,
    /// The connector itself refused a message that is no frame.
    InvalidCommandFrame,
}

/// Why a transport did not carry a message.
#[derive(Clone, Debug)]
pub struct TransportError {
    kind: TransportErrorKind,
    message: String,
}

/// The contents of a transport's failure.
#[verifier::ext_equal]
pub struct TransportErrorModel {
    pub kind: TransportErrorKind,
    pub message: Seq<char>,
}

impl View for TransportError {
    type V = TransportErrorModel;

    closed spec fn view(&self) -> TransportErrorModel {
        TransportErrorModel { kind: self.kind, message: self.message@ }
    }
}

/// A failure of the common kind.
pub open spec fn other_error(message: Seq<char>) -> TransportErrorModel {
    TransportErrorModel { kind: TransportErrorKind::Other, message }
}

impl TransportError {
    /// Makes a failure of the common kind.
    pub fn new(message: String) -> (error: TransportError)
        ensures
            error@ == other_error(message@),
    {
        TransportError { kind: TransportErrorKind::Other, message }
    }

    /// Makes the failure of a connector that refused a message that is no frame.
    fn invalid_command_frame(message: String) -> (error: TransportError)
        ensures
            error@ == (TransportErrorModel {
                kind: TransportErrorKind::InvalidCommandFrame,
                message: message@,
            }),
    {
        TransportError { kind: TransportErrorKind::InvalidCommandFrame, message }
    }

    /// Returns the kind of the failure.
    pub fn kind(&self) -> (kind: TransportErrorKind)
        ensures
            kind == self@.kind,
    {
        self.kind
    }

    /// Returns the failure in words.
    pub fn message(&self) -> (message: &str)
        ensures
            message@ == self@.message,
    {
        self.message.as_str()
    }

    /// Copies the failure.
    pub fn copied(&self) -> (error: TransportError)
        ensures
            error@ == self@,
    {
        TransportError { kind: self.kind, message: self.message.clone() }
    }
}

/// A transport that can exchange one complete frame for another.
pub trait FrameTransport {
    /// Sends an encoded frame and returns the response to it.
    fn exchange(&mut self, request: &[u8]) -> core::result::Result<Vec<u8>, TransportError>;

    /// Says in words where the frames go.
    fn description(&self) -> String;
}

/// Fails with words.
fn refuse<T>(message: &str) -> (result: core::result::Result<T, TransportError>)
    ensures
        result matches Err(error) && error@ == other_error(message@),
{
    Err(TransportError::new(message.to_owned()))
}

/// The last place of a character; nothing where there is none.
pub open spec fn last_place_of(text: Seq<char>, wanted: char) -> Option<int>
    decreases text.len(),
{
    if text.len() == 0 {
        None
    } else if text.last() == wanted {
        Some(text.len() - 1)
    } else {
        last_place_of(text.drop_last(), wanted)
    }
}

/// Finds the last character of its kind.
fn find_last(text: &[char], wanted: char) -> (place: Option<usize>)
    ensures
        match place {
            Some(place) => last_place_of(text@, wanted) == Some(place as int) && place
                < text@.len(),
            None => last_place_of(text@, wanted) is None,
        },
{
    let mut end: usize = text.len();
    assert(text@.subrange(0, text@.len() as int) =~= text@);
    while end > 0
        invariant
            end <= text@.len(),
            last_place_of(text@, wanted) == last_place_of(text@.subrange(0, end as int), wanted),
        decreases end,
    {
        let ghost seen = text@.subrange(0, end as int);
        assert(seen.drop_last() =~= text@.subrange(0, end - 1));
        if text[end - 1] == wanted {
            return Some(end - 1);
        }
        end = end - 1;
    }
    None
}

/// A host and a port.
#[verifier::ext_equal]
pub struct AuthorityModel {
    pub host: Seq<char>,
    pub port: u16,
}

/// A host and a port.
struct Authority {
    host: Vec<char>,
    port: u16,
}

/// The port of a text.
pub open spec fn port_of(text: Seq<char>) -> core::result::Result<u16, TransportErrorModel> {
    match number_of(text, 10, 0xffff) {
        Some(port) => Ok(port as u16),
        None => Err(other_error("invalid connector port"@)),
    }
}

/// The host and the port of an authority. A host in brackets may hold colons;
/// one without brackets that holds more than one has no port behind it.
pub open spec fn authority_of(authority: Seq<char>) -> core::result::Result<
    AuthorityModel,
    TransportErrorModel,
> {
    if authority.len() > 0 && authority[0] == '[' {
        let rest = authority.subrange(1, authority.len() as int);
        let end = place_of(rest, ']');
        if end == rest.len() {
            Err(other_error("invalid bracketed IPv6 connector host"@))
        } else {
            let host = rest.subrange(0, end);
            let suffix = rest.subrange(end + 1, rest.len() as int);
            if suffix.len() == 0 {
                Ok(AuthorityModel { host, port: 80 })
            } else if suffix[0] == ':' {
                match port_of(suffix.subrange(1, suffix.len() as int)) {
                    Ok(port) => Ok(AuthorityModel { host, port }),
                    Err(error) => Err(error),
                }
            } else {
                Err(other_error("invalid connector authority"@))
            }
        }
    } else {
        match last_place_of(authority, ':') {
            Some(place) => if !authority.subrange(0, place).contains(':') {
                match port_of(authority.subrange(place + 1, authority.len() as int)) {
                    Ok(port) => Ok(
                        AuthorityModel { host: authority.subrange(0, place), port },
                    ),
                    Err(error) => Err(error),
                }
            } else {
                Ok(AuthorityModel { host: authority, port: 80 })
            },
            None => Ok(AuthorityModel { host: authority, port: 80 }),
        }
    }
}

/// Reads a port.
fn read_port(text: &[char]) -> (port: core::result::Result<u16, TransportError>)
    ensures
        match port {
            Ok(port) => port_of(text@) == Ok::<u16, TransportErrorModel>(port),
            Err(error) => port_of(text@) == Err::<u16, TransportErrorModel>(error@),
        },
{
    match read_number(text, 10, 0xffff) {
        Some(port) => Ok(port as u16),
        None => refuse("invalid connector port"),
    }
}

/// Reads the host and the port of an authority.
fn parse_authority(authority: &[char]) -> (parsed: core::result::Result<Authority, TransportError>)
    ensures
        match parsed {
            Ok(parsed) => authority_of(authority@) == Ok::<AuthorityModel, TransportErrorModel>(
                AuthorityModel { host: parsed.host@, port: parsed.port },
            ),
            Err(error) => authority_of(authority@) == Err::<AuthorityModel, TransportErrorModel>(
                error@,
            ),
        },
{
    if authority.len() > 0 && authority[0] == '[' {
        let rest: Vec<char> = part(authority, 1, authority.len());
        let end: usize = find(&rest, ']');
        if end == rest.len() {
            return refuse("invalid bracketed IPv6 connector host");
        }
        let host: Vec<char> = part(&rest, 0, end);
        let suffix: Vec<char> = part(&rest, end + 1, rest.len());
        if suffix.len() == 0 {
            return Ok(Authority { host, port: 80 });
        }
        if suffix[0] != ':' {
            return refuse("invalid connector authority");
        }
        let port: u16 = read_port(&part(&suffix, 1, suffix.len()))?;
        return Ok(Authority { host, port });
    }
    if let Some(place) = find_last(authority, ':') {
        let host: Vec<char> = part(authority, 0, place);
        let colon: usize = find(&host, ':');
        proof {
            crate::text::places_are_the_first(host@, ':');
        }
        if colon == host.len() {
            assert(!host@.contains(':'));
            let port: u16 = read_port(&part(authority, place + 1, authority.len()))?;
            return Ok(Authority { host, port });
        }
        assert(host@[colon as int] == ':');
    }
    assert(authority@.subrange(0, authority@.len() as int) =~= authority@);
    Ok(Authority { host: part(authority, 0, authority.len()), port: 80 })
}

/// A text without the slashes around it.
pub open spec fn without_slashes(text: Seq<char>) -> Seq<char>
    decreases text.len(),
{
    if text.len() == 0 {
        text
    } else if text[0] == '/' {
        without_slashes(text.subrange(1, text.len() as int))
    } else if text.last() == '/' {
        without_slashes(text.drop_last())
    } else {
        text
    }
}

/// A letter or a digit of ASCII.
pub open spec fn is_alphanumeric(character: char) -> bool {
    let code = character as u32;
    0x30 <= code <= 0x39 || 0x41 <= code <= 0x5a || 0x61 <= code <= 0x7a
}

/// The place of a connector's endpoint for the commands of one device.
#[derive(Clone, Debug)]
pub struct ConnectorHttpTransport {
    pub host: String,
    pub port: u16,
    pub path: String,
    pub serial: String,
    /// How long to wait, in milliseconds.
    pub timeout: u64,
}

/// The contents of a connector's place.
#[verifier::ext_equal]
pub struct ConnectorModel {
    pub host: Seq<char>,
    pub port: u16,
    pub path: Seq<char>,
    pub serial: Seq<char>,
    pub timeout: u64,
}

impl View for ConnectorHttpTransport {
    type V = ConnectorModel;

    open spec fn view(&self) -> ConnectorModel {
        ConnectorModel {
            host: self.host@,
            port: self.port,
            path: self.path@,
            serial: self.serial@,
            timeout: self.timeout,
        }
    }
}

/// The connector that an address and a serial number name.
pub open spec fn connector_of(base_url: Seq<char>, serial: Seq<char>) -> core::result::Result<
    ConnectorModel,
    TransportErrorModel,
> {
    if !begins_with(base_url, "http://"@) {
        Err(other_error("connector URL must start with http://"@))
    } else {
        let rest = base_url.subrange("http://"@.len() as int, base_url.len() as int);
        let slash = place_of(rest, '/');
        let authority = rest.subrange(0, slash);
        let base_path = if slash == rest.len() {
            Seq::empty()
        } else {
            without_slashes(rest.subrange(slash + 1, rest.len() as int))
        };
        if authority.len() == 0 {
            Err(other_error("connector URL has no host"@))
        } else {
            match authority_of(authority) {
                Err(error) => Err(error),
                Ok(place) => if serial.len() == 0 || !(forall|i: int|
                    0 <= i < serial.len() ==> is_alphanumeric(#[trigger] serial[i])) {
                    Err(other_error("serial must contain only ASCII letters and digits"@))
                } else {
                    let prefix = if base_path.len() == 0 {
                        Seq::empty()
                    } else {
                        "/"@ + base_path
                    };
                    Ok(
                        ConnectorModel {
                            host: place.host,
                            port: place.port,
                            path: prefix + "/v1/devices/"@ + serial + "/commands"@,
                            serial,
                            timeout: 120_000,
                        },
                    )
                },
            }
        }
    }
}

/// Takes away the slashes around a text.
fn trim_slashes(text: &[char]) -> (clear: Vec<char>)
    ensures
        clear@ == without_slashes(text@),
{
    let mut from: usize = 0;
    let mut to: usize = text.len();
    assert(text@.subrange(0, text@.len() as int) =~= text@);
    while from < to && text[from] == '/'
        invariant
            from <= to == text@.len(),
            without_slashes(text@) == without_slashes(text@.subrange(from as int, to as int)),
        decreases to - from,
    {
        let ghost rest = text@.subrange(from as int, to as int);
        assert(rest.subrange(1, rest.len() as int) =~= text@.subrange(from + 1, to as int));
        from = from + 1;
    }
    while from < to && text[to - 1] == '/'
        invariant
            from <= to <= text@.len(),
            from < to ==> text@[from as int] != '/',
            without_slashes(text@) == without_slashes(text@.subrange(from as int, to as int)),
        decreases to - from,
    {
        let ghost rest = text@.subrange(from as int, to as int);
        assert(rest.drop_last() =~= text@.subrange(from as int, to - 1));
        to = to - 1;
    }
    part(text, from, to)
}

/// Tells whether a serial number holds only letters and digits of ASCII.
fn serial_is_plain(serial: &[char]) -> (plain: bool)
    ensures
        plain == (serial@.len() > 0 && forall|i: int|
            0 <= i < serial@.len() ==> is_alphanumeric(#[trigger] serial@[i])),
{
    let mut index: usize = 0;
    while index < serial.len()
        invariant
            index <= serial@.len(),
            forall|i: int| 0 <= i < index ==> is_alphanumeric(#[trigger] serial@[i]),
        decreases serial@.len() - index,
    {
        let code: u32 = serial[index] as u32;
        let plain: bool = 0x30 <= code && code <= 0x39 || 0x41 <= code && code <= 0x5a || 0x61
            <= code && code <= 0x7a;
        assert(plain == is_alphanumeric(serial@[index as int]));
        if !plain {
            return false;
        }
        index = index + 1;
    }
    serial.len() > 0
}

impl ConnectorHttpTransport {
    /// Finds the connector of an address, for the device of a serial number.
    /// Only addresses of plain HTTP are known.
    pub fn new(base_url: &str, serial: &str) -> (connector: core::result::Result<
        ConnectorHttpTransport,
        TransportError,
    >)
        ensures
            match connector {
                Ok(connector) => connector_of(base_url@, serial@) == Ok::<
                    ConnectorModel,
                    TransportErrorModel,
                >(connector@),
                Err(error) => connector_of(base_url@, serial@) == Err::<
                    ConnectorModel,
                    TransportErrorModel,
                >(error@),
            },
    {
        let url: Vec<char> = characters(base_url);
        if !starts_with(&url, "http://") {
            return refuse("connector URL must start with http://");
        }
        let scheme: Vec<char> = characters("http://");
        let rest: Vec<char> = part(&url, scheme.len(), url.len());
        let slash: usize = find(&rest, '/');
        let authority: Vec<char> = part(&rest, 0, slash);
        let base_path: Vec<char> = if slash == rest.len() {
            Vec::new()
        } else {
            trim_slashes(&part(&rest, slash + 1, rest.len()))
        };
        if authority.len() == 0 {
            return refuse("connector URL has no host");
        }
        let place = parse_authority(&authority)?;
        let plain: Vec<char> = characters(serial);
        if !serial_is_plain(&plain) {
            return refuse("serial must contain only ASCII letters and digits");
        }
        let mut path: String = String::new();
        if base_path.len() > 0 {
            path.append("/");
            path.append(text_of(&base_path).as_str());
        }
        path.append("/v1/devices/");
        path.append(serial);
        path.append("/commands");
        let ghost prefix = if base_path@.len() == 0 {
            Seq::empty()
        } else {
            "/"@ + base_path@
        };
        assert(path@ =~= prefix + "/v1/devices/"@ + serial@ + "/commands"@);
        assert(base_path@.len() == 0 ==> base_path@ =~= Seq::<char>::empty());
        Ok(
            ConnectorHttpTransport {
                host: text_of(&place.host),
                port: place.port,
                path,
                serial: serial.to_owned(),
                timeout: 120_000,
            },
        )
    }

    /// Sets how long to wait, in milliseconds.
    pub fn with_timeout(self, timeout: u64) -> (connector: ConnectorHttpTransport)
        ensures
            connector@ == (ConnectorModel { timeout, ..self@ }),
    {
        ConnectorHttpTransport {
            host: self.host,
            port: self.port,
            path: self.path,
            serial: self.serial,
            timeout,
        }
    }

    /// Writes the head of the request that carries a frame of some length.
    pub fn request_head(&self, length: usize) -> (head: String)
        ensures
            head@ == head_of(self@, length as nat),
    {
        let mut head: String = "POST ".to_owned();
        head.append(self.path.as_str());
        head.append(" HTTP/1.1\r\nHost: ");
        head.append(self.host.as_str());
        head.append(":");
        append_number(&mut head, self.port as usize);
        head.append("\r\nContent-Type: application/octet-stream\r\nContent-Length: ");
        append_number(&mut head, length);
        head.append("\r\nConnection: close\r\n\r\n");
        head
    }

    /// Says in words where the frames go.
    pub fn description(&self) -> (text: String)
        ensures
            text@ == "connector http://"@ + self@.host + ":"@ + numeral(self@.port as nat)
                + " serial "@ + self@.serial,
    {
        let mut text: String = "connector http://".to_owned();
        text.append(self.host.as_str());
        text.append(":");
        append_number(&mut text, self.port as usize);
        text.append(" serial ");
        text.append(self.serial.as_str());
        text
    }
}

/// The head of the request that carries a frame of some length.
pub open spec fn head_of(connector: ConnectorModel, length: nat) -> Seq<char> {
    "POST "@ + connector.path + " HTTP/1.1\r\nHost: "@ + connector.host + ":"@ + numeral(
        connector.port as nat,
    ) + "\r\nContent-Type: application/octet-stream\r\nContent-Length: "@ + numeral(length)
        + "\r\nConnection: close\r\n\r\n"@
}

/// The end of a line.
pub open spec fn line_end() -> Seq<char> {
    seq!['\r', '\n']
}

/// The lines of a text.
pub open spec fn lines(text: Seq<char>) -> Seq<Seq<char>>
    decreases text.len(),
{
    match place_in(text, line_end(), 0) {
        Some(place) => if 0 <= place && place + 2 <= text.len() {
            seq![text.subrange(0, place)] + lines(text.subrange(place + 2, text.len() as int))
        } else {
            seq![text]
        },
        None => seq![text],
    }
}

/// Finds the end of the first line.
fn find_line_end(text: &[char]) -> (place: Option<usize>)
    ensures
        match place {
            Some(place) => place_in(text@, line_end(), 0) == Some(place as int) && place + 2
                <= text@.len(),
            None => place_in(text@, line_end(), 0) is None,
        },
{
    if text.len() < 2 {
        return None;
    }
    let mut place: usize = 0;
    while place <= text.len() - 2
        invariant
            2 <= text@.len(),
            place <= text@.len() - 1,
            place_in(text@, line_end(), 0) == place_in(text@, line_end(), place as int),
        decreases text@.len() - 1 - place,
    {
        assert((text@[place as int] == '\r' && text@[place + 1] == '\n') == (text@.subrange(
            place as int,
            place + 2,
        ) == line_end())) by {
            if text@[place as int] == '\r' && text@[place + 1] == '\n' {
                assert(text@.subrange(place as int, place + 2) =~= line_end());
            }
            assert(text@.subrange(place as int, place + 2)[0] == text@[place as int]);
            assert(text@.subrange(place as int, place + 2)[1] == text@[place + 1]);
            assert(line_end()[0] == '\r' && line_end()[1] == '\n');
        }
        if text[place] == '\r' && text[place + 1] == '\n' {
            return Some(place);
        }
        place = place + 1;
    }
    None
}

/// Divides a text into its lines.
fn split_lines(text: &[char]) -> (found: Vec<Vec<char>>)
    ensures
        word_models(found@) == lines(text@),
        found@.len() > 0,
    decreases text@.len(),
{
    let length: usize = text.len();
    match find_line_end(text) {
        Some(place) => {
            let first: Vec<char> = part(text, 0, place);
            let rest: Vec<char> = part(text, place + 2, length);
            let mut found: Vec<Vec<char>> = Vec::new();
            found.push(first);
            let mut others: Vec<Vec<char>> = split_lines(&rest);
            let ghost models = word_models(others@);
            found.append(&mut others);
            assert(word_models(found@) =~= seq![first@] + models);
            found
        },
        None => {
            let mut found: Vec<Vec<char>> = Vec::new();
            found.push(part(text, 0, text.len()));
            assert(text@.subrange(0, text@.len() as int) =~= text@);
            assert(word_models(found@) =~= seq![text@]);
            found
        },
    }
}

/// A letter of ASCII in its small form, and every other character as it is.
pub open spec fn small(character: char) -> char {
    let code = character as u32;
    if 0x41 <= code <= 0x5a {
        (code + 32) as char
    } else {
        character
    }
}

/// A text with the letters of ASCII in their small form.
pub open spec fn lowered(text: Seq<char>) -> Seq<char> {
    text.map_values(|character: char| small(character))
}

/// Writes the letters of ASCII in their small form.
fn lower(text: &[char]) -> (small_text: Vec<char>)
    ensures
        small_text@ == lowered(text@),
{
    let mut small_text: Vec<char> = Vec::new();
    let mut index: usize = 0;
    while index < text.len()
        invariant
            index <= text@.len(),
            small_text@ == lowered(text@.subrange(0, index as int)),
        decreases text@.len() - index,
    {
        let code: u32 = text[index] as u32;
        if 0x41 <= code && code <= 0x5a {
            small_text.push((code + 32) as u8 as char);
        } else {
            small_text.push(text[index]);
        }
        index = index + 1;
        assert(small_text@ =~= lowered(text@.subrange(0, index as int)));
    }
    assert(text@.subrange(0, text@.len() as int) =~= text@);
    small_text
}

/// A header's name and value.
#[verifier::ext_equal]
pub struct HeaderModel {
    pub name: Seq<char>,
    pub value: Seq<char>,
}

/// A header's name and value.
struct Header {
    name: Vec<char>,
    value: Vec<char>,
}

/// The header of a line; nothing where the line has no colon.
pub open spec fn header_of(line: Seq<char>) -> Option<HeaderModel> {
    let colon = place_of(line, ':');
    if colon == line.len() {
        None
    } else {
        Some(
            HeaderModel {
                name: lowered(trimmed(line.subrange(0, colon))),
                value: trimmed(line.subrange(colon + 1, line.len() as int)),
            },
        )
    }
}

/// Reads the header of a line.
fn read_header(line: &[char]) -> (header: Option<Header>)
    ensures
        match header {
            Some(header) => header_of(line@) == Some(
                HeaderModel { name: header.name@, value: header.value@ },
            ),
            None => header_of(line@) is None,
        },
{
    let colon: usize = find(line, ':');
    if colon == line.len() {
        return None;
    }
    Some(
        Header {
            name: lower(&trim(&part(line, 0, colon))),
            value: trim(&part(line, colon + 1, line.len())),
        },
    )
}

/// Whether a response comes in chunks.
pub open spec fn is_chunked(head: Seq<Seq<char>>) -> bool {
    exists|i: int|
        1 <= i < head.len() && ((#[trigger] header_of(head[i])) matches Some(header) && header.name
            == "transfer-encoding"@ && lowered(header.value) == "chunked"@)
}

/// The value of the first header, from a line on, that gives the length.
pub open spec fn length_header(head: Seq<Seq<char>>, from: int) -> Option<Seq<char>>
    decreases head.len() - from,
{
    if from < 0 || from >= head.len() {
        None
    } else {
        match header_of(head[from]) {
            Some(header) => if header.name == "content-length"@ {
                Some(header.value)
            } else {
                length_header(head, from + 1)
            },
            None => length_header(head, from + 1),
        }
    }
}

/// The status of a response.
pub open spec fn status_of(head: Seq<Seq<char>>) -> Option<nat> {
    let first = words(head[0]);
    if first.len() < 2 {
        None
    } else {
        number_of(first[1], 10, 0xffff)
    }
}

/// The bytes in which a connector says that a message is no frame.
pub open spec fn refusal_mark() -> Seq<u8> {
    encode_utf8("\"code\":\"invalid_command_frame\""@)
}

/// The end of a line, in bytes.
pub open spec fn crlf() -> Seq<u8> {
    seq![13, 10]
}

/// The text before the first semicolon.
pub open spec fn before_semicolon(text: Seq<char>) -> Seq<char> {
    text.subrange(0, place_of(text, ';'))
}

/// The length of a chunk: a hexadecimal number, up to a semicolon.
pub open spec fn chunk_length(line: Seq<u8>) -> Option<nat> {
    if valid_utf8(line) {
        number_of(before_semicolon(decode_utf8(line)), 16, usize::MAX as nat)
    } else {
        None
    }
}

/// What chunks hold.
pub open spec fn dechunked(encoded: Seq<u8>) -> core::result::Result<Seq<u8>, TransportErrorModel>
    decreases encoded.len(),
{
    match place_in(encoded, crlf(), 0) {
        None => Err(other_error("invalid chunked connector response"@)),
        Some(end) => if !(0 <= end && end + 2 <= encoded.len()) {
            Err(other_error("invalid chunked connector response"@))
        } else {
            let rest = encoded.subrange(end + 2, encoded.len() as int);
            match chunk_length(encoded.subrange(0, end)) {
                None => Err(other_error("invalid chunk length"@)),
                Some(length) => if length == 0 {
                    Ok(Seq::empty())
                } else if rest.len() < length + 2 || rest.subrange(
                    length as int,
                    length + 2int,
                ) != crlf() {
                    Err(other_error("truncated chunked connector response"@))
                } else {
                    match dechunked(rest.subrange(length + 2int, rest.len() as int)) {
                        Ok(others) => Ok(rest.subrange(0, length as int) + others),
                        Err(error) => Err(error),
                    }
                },
            }
        },
    }
}

/// The frame in a connector's response.
pub open spec fn response_body(encoded: Seq<u8>) -> core::result::Result<
    Seq<u8>,
    TransportErrorModel,
> {
    match place_in(encoded, crlf() + crlf(), 0) {
        None => Err(
            other_error(
                "connector returned an invalid HTTP response ("@ + numeral(encoded.len())
                    + " bytes)"@,
            ),
        ),
        Some(boundary) => if !valid_utf8(encoded.subrange(0, boundary)) {
            Err(other_error("connector returned non-UTF-8 HTTP headers"@))
        } else {
            let head = lines(decode_utf8(encoded.subrange(0, boundary)));
            let body = encoded.subrange(boundary + 4, encoded.len() as int);
            match status_of(head) {
                None => Err(other_error("connector returned an invalid HTTP status"@)),
                Some(status) => if status != 200 {
                    Err(
                        TransportErrorModel {
                            kind: if status == 400 && place_in(body, refusal_mark(), 0) is Some {
                                TransportErrorKind::InvalidCommandFrame
                            } else {
                                TransportErrorKind::Other
                            },
                            message: "connector returned HTTP "@ + numeral(status) + ": "@ + lossy(
                                body,
                            ),
                        },
                    )
                } else if is_chunked(head) {
                    dechunked(body)
                } else {
                    match length_header(head, 1) {
                        None => Ok(body),
                        Some(value) => match number_of(value, 10, usize::MAX as nat) {
                            None => Err(
                                other_error("connector returned invalid Content-Length"@),
                            ),
                            Some(expected) => if expected == body.len() {
                                Ok(body)
                            } else {
                                Err(
                                    other_error(
                                        "connector response body was "@ + numeral(body.len())
                                            + " bytes, expected "@ + numeral(expected),
                                    ),
                                )
                            },
                        },
                    }
                },
            }
        },
    }
}

/// Tells whether a response comes in chunks.
fn comes_in_chunks(head: &Vec<Vec<char>>) -> (chunked: bool)
    ensures
        chunked == is_chunked(word_models(head@)),
{
    let ghost models = word_models(head@);
    let mut index: usize = 1;
    while index < head.len()
        invariant
            1 <= index,
            index <= head@.len() || head@.len() == 0,
            models == word_models(head@),
            forall|i: int|
                1 <= i < index && i < models.len() ==> !((#[trigger] header_of(models[i])) matches Some(
                    header,
                ) && header.name == "transfer-encoding"@ && lowered(header.value) == "chunked"@),
        decreases head@.len() - index,
    {
        assert(models[index as int] == head@[index as int]@);
        if let Some(header) = read_header(&head[index]) {
            let named: bool = same(&header.name, &characters("transfer-encoding"));
            let chunked: bool = same(&lower(&header.value), &characters("chunked"));
            if named && chunked {
                assert(header_of(models[index as int]) is Some);
                return true;
            }
        }
        index = index + 1;
    }
    false
}

/// Finds the header that gives the length.
fn find_length(head: &Vec<Vec<char>>) -> (value: Option<Vec<char>>)
    requires
        head@.len() > 0,
    ensures
        match value {
            Some(value) => length_header(word_models(head@), 1) == Some(value@),
            None => length_header(word_models(head@), 1) is None,
        },
{
    let ghost models = word_models(head@);
    let mut index: usize = 1;
    while index < head.len()
        invariant
            1 <= index <= head@.len(),
            models == word_models(head@),
            length_header(models, 1) == length_header(models, index as int),
        decreases head@.len() - index,
    {
        assert(models[index as int] == head@[index as int]@);
        if let Some(header) = read_header(&head[index]) {
            if same(&header.name, &characters("content-length")) {
                return Some(header.value);
            }
        }
        index = index + 1;
    }
    None
}

/// Reads the length of a chunk.
fn read_chunk_length(line: &[u8]) -> (length: Option<usize>)
    ensures
        match length {
            Some(length) => chunk_length(line@) == Some(length as nat),
            None => chunk_length(line@) is None,
        },
{
    match utf8_text(line) {
        Some(text) => {
            let characters: Vec<char> = characters(text.as_str());
            let end: usize = find(&characters, ';');
            read_number(&part(&characters, 0, end), 16, usize::MAX)
        },
        None => None,
    }
}

/// Makes the end of a line.
fn line_break() -> (bytes: Vec<u8>)
    ensures
        bytes@ == crlf(),
{
    let bytes: Vec<u8> = vec![13, 10];
    assert(bytes@ =~= crlf());
    bytes
}

/// Takes chunks apart.
fn decode_chunked(encoded: &[u8]) -> (decoded: core::result::Result<Vec<u8>, TransportError>)
    ensures
        match decoded {
            Ok(decoded) => dechunked(encoded@) == Ok::<Seq<u8>, TransportErrorModel>(decoded@),
            Err(error) => dechunked(encoded@) == Err::<Seq<u8>, TransportErrorModel>(error@),
        },
    decreases encoded@.len(),
{
    let total: usize = encoded.len();
    let end: usize = match find_pattern(encoded, &line_break()) {
        Some(end) => end,
        None => {
            return refuse("invalid chunked connector response");
        },
    };
    let length: usize = match read_chunk_length(&copied_range(encoded, 0, end)) {
        Some(length) => length,
        None => {
            return refuse("invalid chunk length");
        },
    };
    if length == 0 {
        let none: Vec<u8> = Vec::new();
        assert(none@ =~= Seq::<u8>::empty());
        return Ok(none);
    }
    let rest: Vec<u8> = copied_range(encoded, end + 2, total);
    if rest.len() < 2 || rest.len() - 2 < length {
        return refuse("truncated chunked connector response");
    }
    if !equal(&copied_range(&rest, length, length + 2), &line_break()) {
        return refuse("truncated chunked connector response");
    }
    let others: Vec<u8> = decode_chunked(&copied_range(&rest, length + 2, rest.len()))?;
    let mut decoded: Vec<u8> = copied_range(&rest, 0, length);
    append(&mut decoded, &others);
    Ok(decoded)
}

/// Reads the status of a response.
fn read_status(head: &Vec<Vec<char>>) -> (status: Option<usize>)
    requires
        head@.len() > 0,
    ensures
        match status {
            Some(status) => status_of(word_models(head@)) == Some(status as nat),
            None => status_of(word_models(head@)) is None,
        },
{
    let first: Vec<Vec<char>> = split_words(&head[0]);
    assert(word_models(head@)[0] == head@[0]@);
    assert(word_models(first@) == words(word_models(head@)[0]));
    if first.len() < 2 {
        return None;
    }
    assert(words(word_models(head@)[0])[1] == first@[1]@);
    read_number(&first[1], 10, 0xffff)
}

/// Makes the failure of a connector that did not answer with a frame.
fn refused_response(status: usize, body: &[u8]) -> (error: TransportError)
    ensures
        error@ == (TransportErrorModel {
            kind: if status == 400 && place_in(body@, refusal_mark(), 0) is Some {
                TransportErrorKind::InvalidCommandFrame
            } else {
                TransportErrorKind::Other
            },
            message: "connector returned HTTP "@ + numeral(status as nat) + ": "@ + lossy(body@),
        }),
{
    let mut message: String = "connector returned HTTP ".to_owned();
    append_number(&mut message, status);
    message.append(": ");
    message.append(lossy_text(body).as_str());
    let mark: &[u8] = "\"code\":\"invalid_command_frame\"".as_bytes();
    if status == 400 && find_pattern(body, mark).is_some() {
        TransportError::invalid_command_frame(message)
    } else {
        TransportError::new(message)
    }
}

/// Reads the frame in a connector's response.
pub fn parse_http_response(encoded: &[u8]) -> (body: core::result::Result<Vec<u8>, TransportError>)
    ensures
        match body {
            Ok(body) => response_body(encoded@) == Ok::<Seq<u8>, TransportErrorModel>(body@),
            Err(error) => response_body(encoded@) == Err::<Seq<u8>, TransportErrorModel>(error@),
        },
{
    let total: usize = encoded.len();
    let mut blank: Vec<u8> = line_break();
    append(&mut blank, &line_break());
    let boundary: usize = match find_pattern(encoded, &blank) {
        Some(boundary) => boundary,
        None => {
            let mut message: String = "connector returned an invalid HTTP response (".to_owned();
            append_number(&mut message, total);
            message.append(" bytes)");
            return Err(TransportError::new(message));
        },
    };
    let text: String = match utf8_text(&copied_range(encoded, 0, boundary)) {
        Some(text) => text,
        None => {
            return refuse("connector returned non-UTF-8 HTTP headers");
        },
    };
    let head: Vec<Vec<char>> = split_lines(&characters(text.as_str()));
    let body: Vec<u8> = copied_range(encoded, boundary + 4, total);
    let status: usize = match read_status(&head) {
        Some(status) => status,
        None => {
            return refuse("connector returned an invalid HTTP status");
        },
    };
    if status != 200 {
        return Err(refused_response(status, &body));
    }
    if comes_in_chunks(&head) {
        return decode_chunked(&body);
    }
    if let Some(value) = find_length(&head) {
        match read_number(&value, 10, usize::MAX) {
            None => {
                return refuse("connector returned invalid Content-Length");
            },
            Some(expected) => {
                if expected != body.len() {
                    let mut message: String = "connector response body was ".to_owned();
                    append_number(&mut message, body.len());
                    message.append(" bytes, expected ");
                    append_number(&mut message, expected);
                    return Err(TransportError::new(message));
                }
            },
        }
    }
    Ok(body)
}

/// The first place of a pattern is the one that it stands at where it stands
/// nowhere before.
proof fn first_places_are_found<T>(whole: Seq<T>, pattern: Seq<T>, from: int, place: int)
    requires
        0 <= from <= place,
        place + pattern.len() <= whole.len(),
        whole.subrange(place, place + pattern.len()) == pattern,
        forall|i: int|
            from <= i < place ==> #[trigger] whole.subrange(i, i + pattern.len()) != pattern,
    ensures
        place_in(whole, pattern, from) == Some(place),
    decreases place - from,
{
    if from < place {
        first_places_are_found(whole, pattern, from + 1, place);
    }
}

/// A line without a carriage return ends where its end stands.
proof fn lines_end_at_their_end(line: Seq<u8>, rest: Seq<u8>)
    requires
        forall|i: int| 0 <= i < line.len() ==> #[trigger] line[i] != 13,
    ensures
        place_in(line + crlf() + rest, crlf(), 0) == Some(line.len() as int),
{
    let whole = line + crlf() + rest;
    let place = line.len() as int;
    assert(whole.subrange(place, place + 2) =~= crlf());
    assert forall|i: int| 0 <= i < place implies #[trigger] whole.subrange(i, i + 2) != crlf() by {
        assert(whole.subrange(i, i + 2)[0] == line[i]);
        assert(crlf()[0] == 13);
    }
    first_places_are_found(whole, crlf(), 0, place);
}

/// Chunks are joined: what a chunk carries stands before what the chunks after
/// it carry.
pub proof fn chunks_are_joined(line: Seq<u8>, chunk: Seq<u8>, rest: Seq<u8>)
    requires
        forall|i: int| 0 <= i < line.len() ==> #[trigger] line[i] != 13,
        chunk_length(line) == Some(chunk.len()),
        chunk.len() > 0,
    ensures
        dechunked(line + crlf() + chunk + crlf() + rest) == (match dechunked(rest) {
            Ok(others) => Ok::<Seq<u8>, TransportErrorModel>(chunk + others),
            Err(error) => Err(error),
        }),
{
    let after = chunk + crlf() + rest;
    let whole = line + crlf() + chunk + crlf() + rest;
    let end = line.len() as int;
    assert(whole =~= line + crlf() + after);
    lines_end_at_their_end(line, after);
    assert(whole.subrange(0, end) =~= line);
    assert(whole.subrange(end + 2, whole.len() as int) =~= after);
    assert(after.subrange(chunk.len() as int, chunk.len() + 2int) =~= crlf());
    assert(after.subrange(0, chunk.len() as int) =~= chunk);
    assert(after.subrange(chunk.len() + 2int, after.len() as int) =~= rest);
}

/// A chunk of no length ends the body, whatever follows.
pub proof fn empty_chunks_end_the_body(line: Seq<u8>, rest: Seq<u8>)
    requires
        forall|i: int| 0 <= i < line.len() ==> #[trigger] line[i] != 13,
        chunk_length(line) == Some(0nat),
    ensures
        dechunked(line + crlf() + rest) == Ok::<Seq<u8>, TransportErrorModel>(Seq::empty()),
{
    let whole = line + crlf() + rest;
    lines_end_at_their_end(line, rest);
    assert(whole.subrange(0, line.len() as int) =~= line);
}

/// Under a head that says success and no chunks, the body comes through as it is,
/// unless the head tells another length.
pub proof fn bodies_come_through(head: Seq<u8>, body: Seq<u8>)
    requires
        place_in(head + crlf() + crlf() + body, crlf() + crlf(), 0) == Some(head.len() as int),
        valid_utf8(head),
        status_of(lines(decode_utf8(head))) == Some(200nat),
        !is_chunked(lines(decode_utf8(head))),
        length_header(lines(decode_utf8(head)), 1) matches Some(value) ==> number_of(
            value,
            10,
            usize::MAX as nat,
        ) == Some(body.len()),
    ensures
        response_body(head + crlf() + crlf() + body) == Ok::<Seq<u8>, TransportErrorModel>(body),
{
    let whole = head + crlf() + crlf() + body;
    assert(whole.subrange(0, head.len() as int) =~= head);
    assert(whole.subrange(head.len() + 4int, whole.len() as int) =~= body);
}

} // verus!
