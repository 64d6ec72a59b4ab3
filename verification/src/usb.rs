//! What the device shows of itself on USB.
use crate::bytes::append;
use crate::text::{append_number, characters, numeral};
use vstd::prelude::*;
use vstd::string::*;

verus! {

/// The address of the endpoint that takes requests.
pub const BULK_OUT: u8 = 0x01;

/// The address of the endpoint that gives responses.
pub const BULK_IN: u8 = 0x81;

/// The bytes of a packet on either endpoint.
pub const MAX_PACKET_SIZE: u16 = 64;

/// A string descriptor, of an index and a language.
#[derive(Clone, Debug, PartialEq, Eq)]
pub struct StringDescriptor {
    pub index: u8,
    pub language_id: u16,
    pub descriptor: Vec<u8>,
}

/// What a string descriptor says.
#[verifier::ext_equal]
pub struct StringModel {
    pub index: u8,
    pub language_id: u16,
    pub descriptor: Seq<u8>,
}

impl View for StringDescriptor {
    type V = StringModel;

    open spec fn view(&self) -> StringModel {
        StringModel {
            index: self.index,
            language_id: self.language_id,
            descriptor: self.descriptor@,
        }
    }
}

/// A driver that an interface is compatible with.
#[derive(Clone, Debug, PartialEq, Eq)]
pub struct CompatibleId {
    pub interface: u8,
    pub compatible_id: String,
    pub sub_compatible_id: String,
}

/// What a compatible driver says.
#[verifier::ext_equal]
pub struct CompatibleModel {
    pub interface: u8,
    pub compatible_id: Seq<char>,
    pub sub_compatible_id: Seq<char>,
}

impl View for CompatibleId {
    type V = CompatibleModel;

    open spec fn view(&self) -> CompatibleModel {
        CompatibleModel {
            interface: self.interface,
            compatible_id: self.compatible_id@,
            sub_compatible_id: self.sub_compatible_id@,
        }
    }
}

/// How a full-speed device shows itself: its descriptors, and the request and the
/// driver by which systems of Microsoft find it.
#[derive(Clone, Debug, PartialEq, Eq)]
pub struct Personality {
    pub device_descriptor: Vec<u8>,
    pub configuration_descriptor: Vec<u8>,
    pub strings: Vec<StringDescriptor>,
    pub vendor_code: u8,
    pub compatible_ids: Vec<CompatibleId>,
}

/// What a personality says.
#[verifier::ext_equal]
pub struct PersonalityModel {
    pub device_descriptor: Seq<u8>,
    pub configuration_descriptor: Seq<u8>,
    pub strings: Seq<StringModel>,
    pub vendor_code: u8,
    pub compatible_ids: Seq<CompatibleModel>,
}

impl View for Personality {
    type V = PersonalityModel;

    open spec fn view(&self) -> PersonalityModel {
        PersonalityModel {
            device_descriptor: self.device_descriptor@,
            configuration_descriptor: self.configuration_descriptor@,
            strings: Seq::new(self.strings@.len(), |i: int| self.strings@[i]@),
            vendor_code: self.vendor_code,
            compatible_ids: Seq::new(
                self.compatible_ids@.len(),
                |i: int| self.compatible_ids@[i]@,
            ),
        }
    }
}

/// The descriptor of the device: a full-speed device of vendor 1050 and product
/// 0030, release 2.41, with three strings and one configuration.
pub open spec fn device_bytes() -> Seq<u8> {
    seq![
        18u8, 1, 0x00, 0x02, 0, 0, 0, 64, 0x50, 0x10, 0x30, 0x00, 0x41, 0x02, 1, 2, 3, 1,
    ]
}

/// The descriptor of a bulk endpoint.
pub open spec fn endpoint_bytes(address: u8) -> Seq<u8> {
    seq![7u8, 5, address, 0x02, 64, 0, 0]
}

/// The descriptor of the configuration, of its one interface and of both
/// endpoints.
pub open spec fn configuration_bytes() -> Seq<u8> {
    seq![9u8, 2, 32, 0, 1, 1, 0, 0x80, 15] + seq![9u8, 4, 0, 0, 2, 0xff, 0, 0, 0] + endpoint_bytes(
        BULK_OUT,
    ) + endpoint_bytes(BULK_IN)
}

/// The bytes of a character in UTF-16, the low byte of each word first.
pub open spec fn utf16_bytes(character: char) -> Seq<u8> {
    let code = character as u32 as int;
    if code < 0x1_0000 {
        word_bytes(code)
    } else {
        word_bytes(0xd800 + (code - 0x1_0000) / 0x400) + word_bytes(
            0xdc00 + (code - 0x1_0000) % 0x400,
        )
    }
}

/// A word, the low byte first.
pub open spec fn word_bytes(word: int) -> Seq<u8> {
    seq![(word % 256) as u8, (word / 256) as u8]
}

/// A text in UTF-16.
pub open spec fn utf16_text(text: Seq<char>) -> Seq<u8>
    decreases text.len(),
{
    if text.len() == 0 {
        Seq::empty()
    } else {
        utf16_text(text.drop_last()) + utf16_bytes(text.last())
    }
}

/// The descriptor of a text.
pub open spec fn string_bytes(text: Seq<char>) -> Seq<u8> {
    seq![(2 + utf16_text(text).len()) as u8, 3u8] + utf16_text(text)
}

/// Appends a character in UTF-16.
fn append_character(output: &mut Vec<u8>, character: char)
    ensures
        final(output)@ == old(output)@ + utf16_bytes(character),
{
    let code: u32 = character as u32;
    if code < 0x1_0000 {
        output.push((code % 256) as u8);
        output.push((code / 256) as u8);
    } else {
        let high: u32 = 0xd800 + (code - 0x1_0000) / 0x400;
        let low: u32 = 0xdc00 + (code - 0x1_0000) % 0x400;
        output.push((high % 256) as u8);
        output.push((high / 256) as u8);
        output.push((low % 256) as u8);
        output.push((low / 256) as u8);
    }
    assert(output@ =~= old(output)@ + utf16_bytes(character));
}

/// Writes the descriptor of a text.
pub fn string_descriptor(value: &str) -> (descriptor: Vec<u8>)
    requires
        2 + utf16_text(value@).len() <= 255,
    ensures
        descriptor@ == string_bytes(value@),
{
    let letters: Vec<char> = characters(value);
    let mut words: Vec<u8> = Vec::new();
    let mut index: usize = 0;
    assert(letters@.subrange(0, 0) =~= Seq::<char>::empty());
    while index < letters.len()
        invariant
            letters@ == value@,
            index <= letters@.len(),
            words@ == utf16_text(value@.subrange(0, index as int)),
        decreases letters@.len() - index,
    {
        append_character(&mut words, letters[index]);
        index = index + 1;
        assert(value@.subrange(0, index as int).drop_last() =~= value@.subrange(0, index - 1));
    }
    assert(value@.subrange(0, index as int) =~= value@);
    let mut descriptor: Vec<u8> = vec![(2 + words.len()) as u8, 3];
    append(&mut descriptor, words.as_slice());
    assert(descriptor@ =~= string_bytes(value@));
    descriptor
}

/// Writes the descriptor of a bulk endpoint.
fn endpoint(output: &mut Vec<u8>, address: u8)
    ensures
        final(output)@ == old(output)@ + endpoint_bytes(address),
{
    let bytes: Vec<u8> = vec![7, 5, address, 0x02, 64, 0, 0];
    assert(bytes@ =~= endpoint_bytes(address));
    append(output, bytes.as_slice());
}

/// Writes the descriptor of the configuration.
fn configuration_descriptor() -> (descriptor: Vec<u8>)
    ensures
        descriptor@ == configuration_bytes(),
{
    let mut descriptor: Vec<u8> = vec![
        9, 2, 32, 0, 1, 1, 0, 0x80, 15, 9, 4, 0, 0, 2, 0xff, 0, 0, 0,
    ];
    assert(descriptor@ =~= seq![9u8, 2, 32, 0, 1, 1, 0, 0x80, 15] + seq![
        9u8,
        4,
        0,
        0,
        2,
        0xff,
        0,
        0,
        0,
    ]);
    endpoint(&mut descriptor, BULK_OUT);
    endpoint(&mut descriptor, BULK_IN);
    descriptor
}

/// The descriptor of the language of the texts: English of the United States.
pub open spec fn language_bytes() -> Seq<u8> {
    seq![4u8, 3, 0x09, 0x04]
}

/// A text in the language of the texts.
pub open spec fn english(index: u8, text: Seq<char>) -> StringModel {
    StringModel { index, language_id: 0x0409, descriptor: string_bytes(text) }
}

/// How the device of a serial number shows itself.
pub open spec fn shown(serial: u32) -> PersonalityModel {
    PersonalityModel {
        device_descriptor: device_bytes(),
        configuration_descriptor: configuration_bytes(),
        strings: seq![
            StringModel { index: 0, language_id: 0, descriptor: language_bytes() },
            english(1, "Virtual USB Gadget"@),
            english(2, "Virtual YubiHSM 2"@),
            english(3, numeral(serial as nat)),
        ],
        vendor_code: 0x27,
        compatible_ids: seq![
            CompatibleModel {
                interface: 0,
                compatible_id: "WINUSB"@,
                sub_compatible_id: ""@,
            },
        ],
    }
}

/// Characters of the first 128 take two bytes each in UTF-16.
proof fn ascii_takes_two_bytes(text: Seq<char>)
    requires
        forall|i: int| 0 <= i < text.len() ==> (#[trigger] text[i] as u32) < 128,
    ensures
        utf16_text(text).len() == 2 * text.len(),
    decreases text.len(),
{
    if text.len() > 0 {
        ascii_takes_two_bytes(text.drop_last());
        assert((text[text.len() - 1] as u32) < 128);
    }
}

/// A numeral is made of digits, at most ten of them for a number of 32 bits.
proof fn numerals_are_digits(value: nat, digits: nat, limit: nat)
    requires
        value < limit,
        limit == power_of_ten(digits),
        digits > 0,
    ensures
        numeral(value).len() <= digits,
        forall|i: int| 0 <= i < numeral(value).len()
            ==> (#[trigger] numeral(value)[i] as u32) < 128,
    decreases digits,
{
    if value >= 10 {
        assert(digits > 1) by {
            if digits == 1 {
                reveal_with_fuel(power_of_ten, 2);
            }
        }
        assert(limit == 10 * power_of_ten((digits - 1) as nat));
        numerals_are_digits(value / 10, (digits - 1) as nat, power_of_ten((digits - 1) as nat));
    }
}

/// Ten to a power.
spec fn power_of_ten(exponent: nat) -> nat
    decreases exponent,
{
    if exponent == 0 {
        1
    } else {
        10 * power_of_ten((exponent - 1) as nat)
    }
}

/// Returns how the device of a serial number shows itself.
pub fn personality(serial: u32) -> (personality: Personality)
    ensures
        personality@ == shown(serial),
{
    let device_descriptor: Vec<u8> = vec![
        18, 1, 0x00, 0x02, 0, 0, 0, 64, 0x50, 0x10, 0x30, 0x00, 0x41, 0x02, 1, 2, 3, 1,
    ];
    assert(device_descriptor@ =~= device_bytes());
    let language: Vec<u8> = vec![4, 3, 0x09, 0x04];
    assert(language@ =~= language_bytes());
    let mut number: String = "".to_owned();
    append_number(&mut number, serial as usize);
    proof {
        reveal_strlit("");
        reveal_strlit("Virtual USB Gadget");
        reveal_strlit("Virtual YubiHSM 2");
        assert(number@ =~= numeral(serial as nat));
        reveal_with_fuel(power_of_ten, 11);
        numerals_are_digits(serial as nat, 10, power_of_ten(10));
        ascii_takes_two_bytes(number@);
        ascii_takes_two_bytes("Virtual USB Gadget"@);
        ascii_takes_two_bytes("Virtual YubiHSM 2"@);
    }
    let mut strings: Vec<StringDescriptor> = Vec::new();
    strings.push(StringDescriptor { index: 0, language_id: 0, descriptor: language });
    strings.push(
        StringDescriptor {
            index: 1,
            language_id: 0x0409,
            descriptor: string_descriptor("Virtual USB Gadget"),
        },
    );
    strings.push(
        StringDescriptor {
            index: 2,
            language_id: 0x0409,
            descriptor: string_descriptor("Virtual YubiHSM 2"),
        },
    );
    strings.push(
        StringDescriptor {
            index: 3,
            language_id: 0x0409,
            descriptor: string_descriptor(number.as_str()),
        },
    );
    let mut compatible_ids: Vec<CompatibleId> = Vec::new();
    compatible_ids.push(
        CompatibleId {
            interface: 0,
            compatible_id: "WINUSB".to_owned(),
            sub_compatible_id: "".to_owned(),
        },
    );
    let personality = Personality {
        device_descriptor,
        configuration_descriptor: configuration_descriptor(),
        strings,
        vendor_code: 0x27,
        compatible_ids,
    };
    assert(personality@.strings =~= shown(serial).strings);
    assert(personality@.compatible_ids =~= shown(serial).compatible_ids);
    personality
}

/// The configuration's descriptor tells its own length, and holds the descriptors
/// of both endpoints one after the other at its end.
pub proof fn configurations_tell_their_length()
    ensures
        configuration_bytes().len() == 32,
        configuration_bytes()[2] + 256 * configuration_bytes()[3] == configuration_bytes().len(),
        configuration_bytes().subrange(18, 25) == endpoint_bytes(BULK_OUT),
        configuration_bytes().subrange(25, 32) == endpoint_bytes(BULK_IN),
{
    assert(configuration_bytes().subrange(18, 25) =~= endpoint_bytes(BULK_OUT));
    assert(configuration_bytes().subrange(25, 32) =~= endpoint_bytes(BULK_IN));
}

} // verus!
