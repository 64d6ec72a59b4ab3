//! Capabilities and capability sets.
use crate::bytes::{read_u64, u64_at, u64_be, u64_bytes_round_trip, u64_round_trip};
use crate::firmware::FirmwareProfile;
use vstd::prelude::*;

verus! {

/// Capability bit numbers from the YubiHSM 2 protocol.
#[derive(Clone, Copy, Debug, PartialEq, Eq, Structural)]
pub enum Capability {
    GetOpaque,
    PutOpaque,
    PutAuthenticationKey,
    PutAsymmetricKey,
    GenerateAsymmetricKey,
    SignPkcs,
    SignPss,
    SignEcdsa,
    SignEddsa,
    DecryptPkcs,
    DecryptOaep,
    DeriveEcdh,
    ExportWrapped,
    ImportWrapped,
    PutWrapKey,
    GenerateWrapKey,
    ExportableUnderWrap,
    SetOption,
    GetOption,
    GetPseudoRandom,
    PutMacKey,
    GenerateHmacKey,
    SignHmac,
    VerifyHmac,
    GetLogEntries,
    SignSshCertificate,
    GetTemplate,
    PutTemplate,
    ResetDevice,
    DecryptOtp,
    CreateOtpAead,
    RandomizeOtpAead,
    RewrapFromOtpAeadKey,
    RewrapToOtpAeadKey,
    SignAttestationCertificate,
    PutOtpAeadKey,
    GenerateOtpAeadKey,
    WrapData,
    UnwrapData,
    DeleteOpaque,
    DeleteAuthenticationKey,
    DeleteAsymmetricKey,
    DeleteWrapKey,
    DeleteHmacKey,
    DeleteTemplate,
    DeleteOtpAeadKey,
    ChangeAuthenticationKey,
    PutSymmetricKey,
    GenerateSymmetricKey,
    DeleteSymmetricKey,
    DecryptEcb,
    EncryptEcb,
    DecryptCbc,
    EncryptCbc,
    PutPublicWrapKey,
    DeletePublicWrapKey,
    /// Atomically augment an ECDH secret and pass it through a KDF.
    /// 
    /// This is a virtual-device extension and is intentionally distinct from
    /// `DeriveEcdh`, which returns the raw ECDH result.
    DeriveEcdhKdf,
    /// Derive and hold volatile objects within a session, a virtual-device
    /// extension.
    SessionObjects,
}

impl Capability {
    /// The protocol byte of this capability.
    pub open spec fn byte(self) -> u8 {
        match self {
            Capability::GetOpaque => 0x00,
            Capability::PutOpaque => 0x01,
            Capability::PutAuthenticationKey => 0x02,
            Capability::PutAsymmetricKey => 0x03,
            Capability::GenerateAsymmetricKey => 0x04,
            Capability::SignPkcs => 0x05,
            Capability::SignPss => 0x06,
            Capability::SignEcdsa => 0x07,
            Capability::SignEddsa => 0x08,
            Capability::DecryptPkcs => 0x09,
            Capability::DecryptOaep => 0x0a,
            Capability::DeriveEcdh => 0x0b,
            Capability::ExportWrapped => 0x0c,
            Capability::ImportWrapped => 0x0d,
            Capability::PutWrapKey => 0x0e,
            Capability::GenerateWrapKey => 0x0f,
            Capability::ExportableUnderWrap => 0x10,
            Capability::SetOption => 0x11,
            Capability::GetOption => 0x12,
            Capability::GetPseudoRandom => 0x13,
            Capability::PutMacKey => 0x14,
            Capability::GenerateHmacKey => 0x15,
            Capability::SignHmac => 0x16,
            Capability::VerifyHmac => 0x17,
            Capability::GetLogEntries => 0x18,
            Capability::SignSshCertificate => 0x19,
            Capability::GetTemplate => 0x1a,
            Capability::PutTemplate => 0x1b,
            Capability::ResetDevice => 0x1c,
            Capability::DecryptOtp => 0x1d,
            Capability::CreateOtpAead => 0x1e,
            Capability::RandomizeOtpAead => 0x1f,
            Capability::RewrapFromOtpAeadKey => 0x20,
            Capability::RewrapToOtpAeadKey => 0x21,
            Capability::SignAttestationCertificate => 0x22,
            Capability::PutOtpAeadKey => 0x23,
            Capability::GenerateOtpAeadKey => 0x24,
            Capability::WrapData => 0x25,
            Capability::UnwrapData => 0x26,
            Capability::DeleteOpaque => 0x27,
            Capability::DeleteAuthenticationKey => 0x28,
            Capability::DeleteAsymmetricKey => 0x29,
            Capability::DeleteWrapKey => 0x2a,
            Capability::DeleteHmacKey => 0x2b,
            Capability::DeleteTemplate => 0x2c,
            Capability::DeleteOtpAeadKey => 0x2d,
            Capability::ChangeAuthenticationKey => 0x2e,
            Capability::PutSymmetricKey => 0x2f,
            Capability::GenerateSymmetricKey => 0x30,
            Capability::DeleteSymmetricKey => 0x31,
            Capability::DecryptEcb => 0x32,
            Capability::EncryptEcb => 0x33,
            Capability::DecryptCbc => 0x34,
            Capability::EncryptCbc => 0x35,
            Capability::PutPublicWrapKey => 0x36,
            Capability::DeletePublicWrapKey => 0x37,
            Capability::DeriveEcdhKdf => 0x38,
            Capability::SessionObjects => 0x39,
        }
    }

    /// The capability that a protocol byte stands for.
    pub open spec fn of_byte(value: u8) -> Option<Capability> {
        match value {
            0x00 => Some(Capability::GetOpaque),
            0x01 => Some(Capability::PutOpaque),
            0x02 => Some(Capability::PutAuthenticationKey),
            0x03 => Some(Capability::PutAsymmetricKey),
            0x04 => Some(Capability::GenerateAsymmetricKey),
            0x05 => Some(Capability::SignPkcs),
            0x06 => Some(Capability::SignPss),
            0x07 => Some(Capability::SignEcdsa),
            0x08 => Some(Capability::SignEddsa),
            0x09 => Some(Capability::DecryptPkcs),
            0x0a => Some(Capability::DecryptOaep),
            0x0b => Some(Capability::DeriveEcdh),
            0x0c => Some(Capability::ExportWrapped),
            0x0d => Some(Capability::ImportWrapped),
            0x0e => Some(Capability::PutWrapKey),
            0x0f => Some(Capability::GenerateWrapKey),
            0x10 => Some(Capability::ExportableUnderWrap),
            0x11 => Some(Capability::SetOption),
            0x12 => Some(Capability::GetOption),
            0x13 => Some(Capability::GetPseudoRandom),
            0x14 => Some(Capability::PutMacKey),
            0x15 => Some(Capability::GenerateHmacKey),
            0x16 => Some(Capability::SignHmac),
            0x17 => Some(Capability::VerifyHmac),
            0x18 => Some(Capability::GetLogEntries),
            0x19 => Some(Capability::SignSshCertificate),
            0x1a => Some(Capability::GetTemplate),
            0x1b => Some(Capability::PutTemplate),
            0x1c => Some(Capability::ResetDevice),
            0x1d => Some(Capability::DecryptOtp),
            0x1e => Some(Capability::CreateOtpAead),
            0x1f => Some(Capability::RandomizeOtpAead),
            0x20 => Some(Capability::RewrapFromOtpAeadKey),
            0x21 => Some(Capability::RewrapToOtpAeadKey),
            0x22 => Some(Capability::SignAttestationCertificate),
            0x23 => Some(Capability::PutOtpAeadKey),
            0x24 => Some(Capability::GenerateOtpAeadKey),
            0x25 => Some(Capability::WrapData),
            0x26 => Some(Capability::UnwrapData),
            0x27 => Some(Capability::DeleteOpaque),
            0x28 => Some(Capability::DeleteAuthenticationKey),
            0x29 => Some(Capability::DeleteAsymmetricKey),
            0x2a => Some(Capability::DeleteWrapKey),
            0x2b => Some(Capability::DeleteHmacKey),
            0x2c => Some(Capability::DeleteTemplate),
            0x2d => Some(Capability::DeleteOtpAeadKey),
            0x2e => Some(Capability::ChangeAuthenticationKey),
            0x2f => Some(Capability::PutSymmetricKey),
            0x30 => Some(Capability::GenerateSymmetricKey),
            0x31 => Some(Capability::DeleteSymmetricKey),
            0x32 => Some(Capability::DecryptEcb),
            0x33 => Some(Capability::EncryptEcb),
            0x34 => Some(Capability::DecryptCbc),
            0x35 => Some(Capability::EncryptCbc),
            0x36 => Some(Capability::PutPublicWrapKey),
            0x37 => Some(Capability::DeletePublicWrapKey),
            0x38 => Some(Capability::DeriveEcdhKdf),
            0x39 => Some(Capability::SessionObjects),
            _ => None,
        }
    }

    /// Returns the protocol byte.
    pub fn to_byte(self) -> (value: u8)
        ensures
            value == self.byte(),
    {
        match self {
            Capability::GetOpaque => 0x00,
            Capability::PutOpaque => 0x01,
            Capability::PutAuthenticationKey => 0x02,
            Capability::PutAsymmetricKey => 0x03,
            Capability::GenerateAsymmetricKey => 0x04,
            Capability::SignPkcs => 0x05,
            Capability::SignPss => 0x06,
            Capability::SignEcdsa => 0x07,
            Capability::SignEddsa => 0x08,
            Capability::DecryptPkcs => 0x09,
            Capability::DecryptOaep => 0x0a,
            Capability::DeriveEcdh => 0x0b,
            Capability::ExportWrapped => 0x0c,
            Capability::ImportWrapped => 0x0d,
            Capability::PutWrapKey => 0x0e,
            Capability::GenerateWrapKey => 0x0f,
            Capability::ExportableUnderWrap => 0x10,
            Capability::SetOption => 0x11,
            Capability::GetOption => 0x12,
            Capability::GetPseudoRandom => 0x13,
            Capability::PutMacKey => 0x14,
            Capability::GenerateHmacKey => 0x15,
            Capability::SignHmac => 0x16,
            Capability::VerifyHmac => 0x17,
            Capability::GetLogEntries => 0x18,
            Capability::SignSshCertificate => 0x19,
            Capability::GetTemplate => 0x1a,
            Capability::PutTemplate => 0x1b,
            Capability::ResetDevice => 0x1c,
            Capability::DecryptOtp => 0x1d,
            Capability::CreateOtpAead => 0x1e,
            Capability::RandomizeOtpAead => 0x1f,
            Capability::RewrapFromOtpAeadKey => 0x20,
            Capability::RewrapToOtpAeadKey => 0x21,
            Capability::SignAttestationCertificate => 0x22,
            Capability::PutOtpAeadKey => 0x23,
            Capability::GenerateOtpAeadKey => 0x24,
            Capability::WrapData => 0x25,
            Capability::UnwrapData => 0x26,
            Capability::DeleteOpaque => 0x27,
            Capability::DeleteAuthenticationKey => 0x28,
            Capability::DeleteAsymmetricKey => 0x29,
            Capability::DeleteWrapKey => 0x2a,
            Capability::DeleteHmacKey => 0x2b,
            Capability::DeleteTemplate => 0x2c,
            Capability::DeleteOtpAeadKey => 0x2d,
            Capability::ChangeAuthenticationKey => 0x2e,
            Capability::PutSymmetricKey => 0x2f,
            Capability::GenerateSymmetricKey => 0x30,
            Capability::DeleteSymmetricKey => 0x31,
            Capability::DecryptEcb => 0x32,
            Capability::EncryptEcb => 0x33,
            Capability::DecryptCbc => 0x34,
            Capability::EncryptCbc => 0x35,
            Capability::PutPublicWrapKey => 0x36,
            Capability::DeletePublicWrapKey => 0x37,
            Capability::DeriveEcdhKdf => 0x38,
            Capability::SessionObjects => 0x39,
        }
    }

    /// Decodes a protocol byte.
    pub fn from_byte(value: u8) -> (decoded: Option<Capability>)
        ensures
            decoded == Capability::of_byte(value),
    {
        match value {
            0x00 => Some(Capability::GetOpaque),
            0x01 => Some(Capability::PutOpaque),
            0x02 => Some(Capability::PutAuthenticationKey),
            0x03 => Some(Capability::PutAsymmetricKey),
            0x04 => Some(Capability::GenerateAsymmetricKey),
            0x05 => Some(Capability::SignPkcs),
            0x06 => Some(Capability::SignPss),
            0x07 => Some(Capability::SignEcdsa),
            0x08 => Some(Capability::SignEddsa),
            0x09 => Some(Capability::DecryptPkcs),
            0x0a => Some(Capability::DecryptOaep),
            0x0b => Some(Capability::DeriveEcdh),
            0x0c => Some(Capability::ExportWrapped),
            0x0d => Some(Capability::ImportWrapped),
            0x0e => Some(Capability::PutWrapKey),
            0x0f => Some(Capability::GenerateWrapKey),
            0x10 => Some(Capability::ExportableUnderWrap),
            0x11 => Some(Capability::SetOption),
            0x12 => Some(Capability::GetOption),
            0x13 => Some(Capability::GetPseudoRandom),
            0x14 => Some(Capability::PutMacKey),
            0x15 => Some(Capability::GenerateHmacKey),
            0x16 => Some(Capability::SignHmac),
            0x17 => Some(Capability::VerifyHmac),
            0x18 => Some(Capability::GetLogEntries),
            0x19 => Some(Capability::SignSshCertificate),
            0x1a => Some(Capability::GetTemplate),
            0x1b => Some(Capability::PutTemplate),
            0x1c => Some(Capability::ResetDevice),
            0x1d => Some(Capability::DecryptOtp),
            0x1e => Some(Capability::CreateOtpAead),
            0x1f => Some(Capability::RandomizeOtpAead),
            0x20 => Some(Capability::RewrapFromOtpAeadKey),
            0x21 => Some(Capability::RewrapToOtpAeadKey),
            0x22 => Some(Capability::SignAttestationCertificate),
            0x23 => Some(Capability::PutOtpAeadKey),
            0x24 => Some(Capability::GenerateOtpAeadKey),
            0x25 => Some(Capability::WrapData),
            0x26 => Some(Capability::UnwrapData),
            0x27 => Some(Capability::DeleteOpaque),
            0x28 => Some(Capability::DeleteAuthenticationKey),
            0x29 => Some(Capability::DeleteAsymmetricKey),
            0x2a => Some(Capability::DeleteWrapKey),
            0x2b => Some(Capability::DeleteHmacKey),
            0x2c => Some(Capability::DeleteTemplate),
            0x2d => Some(Capability::DeleteOtpAeadKey),
            0x2e => Some(Capability::ChangeAuthenticationKey),
            0x2f => Some(Capability::PutSymmetricKey),
            0x30 => Some(Capability::GenerateSymmetricKey),
            0x31 => Some(Capability::DeleteSymmetricKey),
            0x32 => Some(Capability::DecryptEcb),
            0x33 => Some(Capability::EncryptEcb),
            0x34 => Some(Capability::DecryptCbc),
            0x35 => Some(Capability::EncryptCbc),
            0x36 => Some(Capability::PutPublicWrapKey),
            0x37 => Some(Capability::DeletePublicWrapKey),
            0x38 => Some(Capability::DeriveEcdhKdf),
            0x39 => Some(Capability::SessionObjects),
            _ => None,
        }
    }
}

/// A capability and its protocol byte determine each other: the byte decodes to
/// the capability it came from, and nothing else decodes to it.
pub proof fn capability_byte_round_trip(item: Capability, value: u8)
    ensures
        Capability::of_byte(item.byte()) == Some(item),
        Capability::of_byte(value) == Some(item) <==> item.byte() == value,
{
}

/// The protocol's big-endian eight-byte capability bitmap.
#[derive(Clone, Copy, Debug, PartialEq, Eq, Hash, Structural)]
pub struct CapabilitySet {
    bits: u64,
}

/// A bit of a word.
pub open spec fn bit(word: u64, number: u8) -> bool {
    (word >> (number as u64)) & 1 == 1
}

impl CapabilitySet {
    /// The bitmap as a number.
    pub closed spec fn word(self) -> u64 {
        self.bits
    }

    /// Whether the set holds the capability with a bit number.
    pub open spec fn has(self, number: u8) -> bool {
        bit(self.word(), number)
    }

    /// Whether every bit of one set is in the other.
    pub open spec fn covers(self, required: CapabilitySet) -> bool {
        forall|number: u8| number < 64 && required.has(number) ==> self.has(number)
    }

    /// The set whose bitmap is a number.
    pub closed spec fn of_word(word: u64) -> CapabilitySet {
        CapabilitySet { bits: word }
    }
}


/// A word other than zero has a bit that is set.
proof fn nonzero_word_has_a_bit(word: u64)
    requires
        word != 0,
    ensures
        exists|number: u8| number < 64 && bit(word, number),
{
    if forall|number: u8| number < 64 ==> !bit(word, number) {
        no_bit_below(word, 64);
        assert(word << 0 == word) by (bit_vector);
    }
}

/// Where the lowest bits of a word are clear, so is what they amount to.
proof fn no_bit_below(word: u64, count: u64)
    requires
        0 < count <= 64,
        forall|number: u8| number < 64 ==> !bit(word, number),
    ensures
        word << ((64 - count) as u64) == 0,
    decreases count,
{
    let last = (count - 1) as u64;
    assert(!bit(word, last as u8));
    let keep = (64 - count) as u64;
    if count == 1 {
        assert((word >> 0) & 1 != 1 ==> word << 63 == 0) by (bit_vector);
    } else {
        no_bit_below(word, last);
        let more = (65 - count) as u64;
        assert(word << more == 0 && (word >> last) & 1 != 1 ==> word << keep == 0) by (bit_vector)
            requires
                keep < 63,
                last == 63 - keep,
                more == keep + 1,
        ;
    }
}

impl CapabilitySet {
    /// The empty set.
    pub closed spec fn empty() -> CapabilitySet {
        CapabilitySet { bits: 0 }
    }

    /// The set of every bit.
    pub closed spec fn full() -> CapabilitySet {
        CapabilitySet { bits: 0xffff_ffff_ffff_ffff }
    }

    /// Returns the empty set.
    pub fn none() -> (set: CapabilitySet)
        ensures
            set == CapabilitySet::empty(),
    {
        CapabilitySet { bits: 0 }
    }

    /// Returns the set of every bit.
    pub fn all() -> (set: CapabilitySet)
        ensures
            set == CapabilitySet::full(),
    {
        CapabilitySet { bits: 0xffff_ffff_ffff_ffff }
    }

    /// Reads the protocol's bitmap.
    pub fn from_bytes(bytes: [u8; 8]) -> (set: CapabilitySet)
        ensures
            set == CapabilitySet::of_word(u64_at(bytes@, 0)),
    {
        CapabilitySet { bits: read_u64(&bytes, 0) }
    }

    /// Takes the bitmap as a number.
    pub fn from_bits(bits: u64) -> (set: CapabilitySet)
        ensures
            set == CapabilitySet::of_word(bits),
    {
        CapabilitySet { bits }
    }

    /// Returns the protocol's bitmap.
    pub fn to_bytes(self) -> (bytes: [u8; 8])
        ensures
            bytes@ == u64_be(self.word()),
    {
        let value: u64 = self.bits;
        let bytes: [u8; 8] = [
            (value / 0x100_0000_0000_0000) as u8,
            ((value / 0x1_0000_0000_0000) % 256) as u8,
            ((value / 0x100_0000_0000) % 256) as u8,
            ((value / 0x1_0000_0000) % 256) as u8,
            ((value / 0x100_0000) % 256) as u8,
            ((value / 0x1_0000) % 256) as u8,
            ((value / 0x100) % 256) as u8,
            (value % 256) as u8,
        ];
        assert(bytes@ =~= u64_be(self.word()));
        bytes
    }

    /// Whether the set's members are these, and no others.
    pub open spec fn is_of(self, values: Seq<Capability>) -> bool {
        forall|number: u8|
            number < 64 ==> (self.has(number) <==> exists|i: int|
                0 <= i < values.len() && (#[trigger] values[i]).byte() == number)
    }

    /// The set with these members.
    pub open spec fn holding(values: Seq<Capability>) -> CapabilitySet {
        choose|set: CapabilitySet| set.is_of(values)
    }

    /// Builds a set from its members.
    pub fn from_capabilities<const N: usize>(values: [Capability; N]) -> (set: CapabilitySet)
        ensures
            set.is_of(values@),
            set == CapabilitySet::holding(values@),
    {
        let mut set = CapabilitySet { bits: 0 };
        let mut index: usize = 0;
        assert forall|number: u8| number < 64 implies !set.has(number) by {
            let wide = number as u64;
            assert(wide < 64 ==> (0u64 >> wide) & 1 != 1) by (bit_vector);
        }
        while index < N
            invariant
                index <= N,
                values@.len() == N,
                forall|number: u8|
                    number < 64 ==> (set.has(number) <==> exists|i: int|
                        0 <= i < index && (#[trigger] values@[i]).byte() == number),
            decreases N - index,
        {
            let ghost before = set;
            set.insert(values[index]);
            assert forall|number: u8| number < 64 implies (set.has(number) <==> exists|i: int|
                0 <= i < index + 1 && (#[trigger] values@[i]).byte() == number) by {
                if set.has(number) {
                    if before.has(number) {
                        let i = choose|i: int|
                            0 <= i < index && (#[trigger] values@[i]).byte() == number;
                        assert(values@[i].byte() == number);
                    } else {
                        assert(values@[index as int].byte() == number);
                    }
                }
                if exists|i: int| 0 <= i < index + 1 && (#[trigger] values@[i]).byte() == number {
                    let i = choose|i: int|
                        0 <= i < index + 1 && (#[trigger] values@[i]).byte() == number;
                    if i < index {
                        assert(values@[i].byte() == number);
                        assert(before.has(number));
                    }
                }
            }
            index = index + 1;
        }
        assert(set.is_of(values@));
        proof {
            capability_sets_are_their_members(set, CapabilitySet::holding(values@));
        }
        set
    }

    /// Tells whether a capability is in the set.
    pub fn contains(self, capability: Capability) -> (found: bool)
        ensures
            found == self.has(capability.byte()),
    {
        (self.bits >> (capability.to_byte() as u64)) & 1 == 1
    }

    /// Tells whether all of another set is in this one.
    pub fn contains_all(self, required: CapabilitySet) -> (found: bool)
        ensures
            found == self.covers(required),
    {
        let (have, want) = (self.bits, required.bits);
        proof {
            if have & want == want {
                assert forall|number: u8| number < 64 && required.has(number) implies self.has(
                    number,
                ) by {
                    let wide = number as u64;
                    assert(wide < 64 && have & want == want && (want >> wide) & 1 == 1 ==> (have
                        >> wide) & 1 == 1) by (bit_vector);
                }
            } else {
                let missing = want & !have;
                assert(have & want != want ==> want & !have != 0) by (bit_vector);
                nonzero_word_has_a_bit(missing);
                let number = choose|number: u8| number < 64 && bit(missing, number);
                let wide = number as u64;
                assert(((want & !have) >> wide) & 1 == 1 && wide < 64 ==> (want >> wide) & 1 == 1
                    && (have >> wide) & 1 != 1) by (bit_vector);
                assert(required.has(number) && !self.has(number));
            }
        }
        have & want == want
    }

    /// Tells whether all of this set is in another one.
    pub fn is_subset_of(self, available: CapabilitySet) -> (subset: bool)
        ensures
            subset == available.covers(self),
    {
        available.contains_all(self)
    }

    /// Adds a capability, and nothing else.
    pub fn insert(&mut self, capability: Capability)
        ensures
            forall|number: u8|
                number < 64 ==> (final(self).has(number) <==> old(self).has(number) || number
                    == capability.byte()),
    {
        let before: u64 = self.bits;
        let place: u64 = capability.to_byte() as u64;
        self.bits = before | (1u64 << place);
        let after: u64 = self.bits;
        proof {
            assert forall|number: u8| number < 64 implies (self.has(number) <==> old(self).has(
                number,
            ) || number == capability.byte()) by {
                let wide = number as u64;
                assert(wide < 64 && place < 64 ==> ((((before | (1u64 << place)) >> wide) & 1 == 1)
                    <==> ((before >> wide) & 1 == 1 || wide == place))) by (bit_vector);
            }
        }
    }

    /// The capabilities that two sets share.
    pub fn intersection(self, other: CapabilitySet) -> (shared: CapabilitySet)
        ensures
            forall|number: u8|
                number < 64 ==> (shared.has(number) <==> self.has(number) && other.has(number)),
    {
        let (left, right) = (self.bits, other.bits);
        proof {
            assert forall|number: u8| number < 64 implies (bit(left & right, number) <==> bit(
                left,
                number,
            ) && bit(right, number)) by {
                let wide = number as u64;
                assert(wide < 64 ==> ((((left & right) >> wide) & 1 == 1) <==> ((left >> wide) & 1
                    == 1 && (right >> wide) & 1 == 1))) by (bit_vector);
            }
        }
        CapabilitySet { bits: left & right }
    }

    /// The set without the extensions that a firmware profile lacks.
    pub open spec fn retained(self, firmware: FirmwareProfile) -> CapabilitySet {
        let first = if firmware.has_prefixed_ecdh() {
            self.word()
        } else {
            self.word() & !(1u64 << 0x38)
        };
        CapabilitySet::of_word(
            if firmware.has_session_objects() {
                first
            } else {
                first & !(1u64 << 0x39)
            },
        )
    }

    /// Drops the extensions that a firmware profile lacks.
    pub fn retain_firmware_supported(&mut self, firmware: FirmwareProfile)
        ensures
            *final(self) == old(self).retained(firmware),
    {
        if !firmware.prefixed_ecdh() {
            self.bits = self.bits & !(1u64 << 0x38);
        }
        if !firmware.session_objects() {
            self.bits = self.bits & !(1u64 << 0x39);
        }
    }
}

/// A bitmap and its eight bytes determine each other.
pub proof fn capability_bytes_round_trip(set: CapabilitySet, bytes: Seq<u8>)
    ensures
        CapabilitySet::of_word(u64_at(u64_be(set.word()), 0)) == set,
        bytes.len() == 8 ==> u64_be(CapabilitySet::of_word(u64_at(bytes, 0)).word()) == bytes,
{
    u64_round_trip(set.word());
    if bytes.len() == 8 {
        u64_bytes_round_trip(bytes);
    }
}

/// The bitmap of a set is the number that the set was made of.
pub proof fn capability_words_round_trip(word: u64)
    ensures
        CapabilitySet::of_word(word).word() == word,
{
}

/// Two sets that hold the same bits are the same set.
pub proof fn capability_sets_are_their_members(first: CapabilitySet, second: CapabilitySet)
    requires
        forall|number: u8| number < 64 ==> (first.has(number) <==> second.has(number)),
    ensures
        first == second,
{
    let (left, right) = (first.bits, second.bits);
    if left != right {
        let differing = left ^ right;
        assert(left != right ==> left ^ right != 0) by (bit_vector);
        nonzero_word_has_a_bit(differing);
        let number = choose|number: u8| number < 64 && bit(differing, number);
        let wide = number as u64;
        assert(((left ^ right) >> wide) & 1 == 1 && wide < 64 ==> ((left >> wide) & 1 == 1) != ((
        right >> wide) & 1 == 1)) by (bit_vector);
        assert(first.has(number) != second.has(number));
    }
}

/// What a firmware profile retains is what it supports of the set: every bit
/// but those of the extensions that it lacks.
pub proof fn retained_capabilities(set: CapabilitySet, firmware: FirmwareProfile, number: u8)
    requires
        number < 64,
    ensures
        set.retained(firmware).has(number) <==> set.has(number) && (number
            == Capability::DeriveEcdhKdf.byte() ==> firmware.has_prefixed_ecdh()) && (number
            == Capability::SessionObjects.byte() ==> firmware.has_session_objects()),
{
    let word = set.bits;
    let wide = number as u64;
    assert(wide < 64 ==> ((((word & !(1u64 << 0x38)) >> wide) & 1 == 1) <==> ((word >> wide) & 1
        == 1 && wide != 0x38))) by (bit_vector);
    assert(wide < 64 ==> ((((word & !(1u64 << 0x39)) >> wide) & 1 == 1) <==> ((word >> wide) & 1
        == 1 && wide != 0x39))) by (bit_vector);
    let first = word & !(1u64 << 0x38);
    assert(wide < 64 ==> ((((first & !(1u64 << 0x39)) >> wide) & 1 == 1) <==> ((first >> wide) & 1
        == 1 && wide != 0x39))) by (bit_vector);
}

/// The empty set holds nothing and lies in every set; the full set holds every
/// bit and contains every set.
pub proof fn empty_and_full_sets(set: CapabilitySet, number: u8)
    requires
        number < 64,
    ensures
        !CapabilitySet::empty().has(number),
        CapabilitySet::full().has(number),
        set.covers(CapabilitySet::empty()),
        CapabilitySet::full().covers(set),
{
    assert forall|n: u8| n < 64 implies !CapabilitySet::empty().has(n) && CapabilitySet::full().has(
        n,
    ) by {
        let wide = n as u64;
        assert(wide < 64 ==> (0u64 >> wide) & 1 != 1 && (0xffff_ffff_ffff_ffffu64 >> wide) & 1
            == 1) by (bit_vector);
    }
}

/// Containment is transitive.
pub proof fn containment_is_transitive(
    outer: CapabilitySet,
    middle: CapabilitySet,
    inner: CapabilitySet,
)
    requires
        outer.covers(middle),
        middle.covers(inner),
    ensures
        outer.covers(inner),
{
}

} // verus!
