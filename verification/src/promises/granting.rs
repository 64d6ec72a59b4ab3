//! What is granted: requests that nothing stands against are carried out.
use crate::authorization::SessionAuthorization;
use crate::bytes::{before_zero, before_zero_is_the_longest_prefix_without_zero, u16_at, u64_at};
use crate::capability::{
    bit, capability_words_round_trip, empty_and_full_sets, Capability, CapabilitySet,
};
use crate::device::DeviceModel;
use crate::engine::EngineReply;
use crate::error::DeviceError;
use crate::object::{InfoModel, MaterialModel, ObjectType, RecordModel};
use crate::promises::computing::place;
use crate::promises::refusing::new_objects_are_allowed;
use crate::promises::storing::private_length;
use crate::request::{DelegatedObjectRequest, ObjectRequest, OtpAeadKeyRequest};
use crate::store::described;
use crate::wire::decoded;
use vstd::prelude::*;

verus! {

/// How the length of an object is counted: private keys by their algorithm, HMAC
/// keys by the block of their hash function, what hands capabilities on with eight
/// bytes more, keys for one-time passwords with four more, and all else as it is.
pub proof fn lengths_are_counted(object: RecordModel)
    ensures
        ({
            let size = object.material.size();
            let algorithm = object.info.algorithm;
            let counted = object.expected_length();
            &&& size + 8 <= usize::MAX ==> match object.info.object_type {
                ObjectType::AuthenticationKey | ObjectType::PublicWrapKey => counted == Ok::<
                    int,
                    DeviceError,
                >(size + 8),
                ObjectType::OtpAeadKey => counted == Ok::<int, DeviceError>(size + 4),
                ObjectType::Opaque | ObjectType::Template | ObjectType::SymmetricKey => counted
                    == Ok::<int, DeviceError>(size),
                ObjectType::HmacKey => 19 <= algorithm <= 22 ==> counted == Ok::<int, DeviceError>(
                    if algorithm <= 20 {
                        128
                    } else {
                        256
                    },
                ),
                ObjectType::AsymmetricKey => 9 <= algorithm <= 18 || algorithm == 46 || algorithm
                    == 47 || algorithm == 56 ==> counted == Ok::<int, DeviceError>(
                    private_length(algorithm),
                ),
                ObjectType::WrapKey => {
                    &&& 9 <= algorithm <= 11 ==> counted == Ok::<int, DeviceError>(
                        private_length(algorithm) + 8,
                    )
                    &&& algorithm == 29 || algorithm == 41 || algorithm == 42 ==> counted == Ok::<
                        int,
                        DeviceError,
                    >(size + 8)
                },
            }
        }),
{
}

/// Whether a session may make what a request describes: with a number that no
/// object of the type has, in domains of its own, and with capabilities that it
/// hands on.
pub open spec fn may_have(
    device: DeviceModel,
    authorization: SessionAuthorization,
    data: Seq<u8>,
    object_type: int,
    capability: u8,
) -> bool {
    &&& data.len() >= 53
    &&& device.enabled(data[52])
    &&& bit(authorization.capabilities.word(), capability)
    &&& u16_at(data, 0) != 0 && u16_at(data, 0) != 0xffff
    &&& !device.objects.contains_key(place(object_type, u16_at(data, 0)))
    &&& u16_at(data, 42) != 0 && u16_at(data, 42) & !authorization.domains == 0
    &&& forall|number: u8|
        number < 64 && #[trigger] bit(u64_at(data, 44), number) ==> bit(
            authorization.delegated_capabilities.word(),
            number,
        )
}

/// Whether a session may hand on what a request asks for besides.
pub open spec fn may_hand_on(authorization: SessionAuthorization, data: Seq<u8>) -> bool {
    &&& data.len() >= 61
    &&& forall|number: u8|
        number < 64 && #[trigger] bit(u64_at(data, 53), number) ==> bit(
            authorization.delegated_capabilities.word(),
            number,
        )
}

proof fn lemma_allowed(
    device: DeviceModel,
    authorization: SessionAuthorization,
    data: Seq<u8>,
    object_type: int,
    capability: Capability,
    object: InfoModel,
    hands_on: bool,
)
    requires
        may_have(device, authorization, data, object_type, capability.byte()),
        hands_on ==> may_hand_on(authorization, data),
        object.id == u16_at(data, 0),
        object.domains == u16_at(data, 42),
        object.label == before_zero(data.subrange(2, 42)),
        object.capabilities == CapabilitySet::of_word(u64_at(data, 44)),
        object.delegated_capabilities == (if hands_on {
            CapabilitySet::of_word(u64_at(data, 53))
        } else {
            CapabilitySet::empty()
        }),
    ensures
        authorization.may_create(object, capability) is Ok,
        object.label.len() <= 40,
{
    capability_words_round_trip(u64_at(data, 44));
    capability_words_round_trip(u64_at(data, 53));
    before_zero_is_the_longest_prefix_without_zero(data.subrange(2, 42));
    assert forall|number: u8|
        number < 64 && (#[trigger] bit(object.capabilities.word(), number) || bit(
            object.delegated_capabilities.word(),
            number,
        )) implies bit(authorization.delegated_capabilities.word(), number) by {
        if !bit(u64_at(data, 44), number) {
            if !hands_on {
                empty_and_full_sets(CapabilitySet::empty(), number);
                assert(!CapabilitySet::empty().has(number));
            }
            assert(bit(u64_at(data, 53), number));
        }
    }
    new_objects_are_allowed(authorization, object, capability);
}

/// Symmetric keys, HMAC keys and templates are stored where the session may have
/// them and what is sent is as long as it should be.
pub proof fn permitted_secrets_are_stored(
    device: DeviceModel,
    authorization: SessionAuthorization,
    data: Seq<u8>,
    replies: Seq<EngineReply>,
    used: nat,
)
    ensures
        may_have(device, authorization, data, 8, 0x2f) && 50 <= data[52] <= 52 && data.len() - 53
            == (match data[52] {
            50 => 16int,
            51 => 24,
            _ => 32,
        }) ==> device.puts_symmetric_key(authorization, data, false, replies, used) is Ok,
        may_have(device, authorization, data, 5, 0x14) && 19 <= data[52] <= 22 && 1 <= data.len()
            - 53 <= 128 ==> device.puts_hmac_key(authorization, data, false, replies, used) is Ok,
        may_have(device, authorization, data, 6, 0x1b) && data[52] == 36 && 1 <= data.len() - 53
            <= 0xffff ==> device.puts_template(authorization, data, replies, used) is Ok,
{
    let request = decoded::<ObjectRequest>(data);
    if may_have(device, authorization, data, 8, 0x2f) {
        let info = described(
            request->Ok_0.header,
            ObjectType::SymmetricKey,
            (data.len() - 53) as u16,
            2,
            CapabilitySet::empty(),
            MaterialModel::Secret(request->Ok_0.material),
        ).info;
        lemma_allowed(
            device,
            authorization,
            data,
            8,
            Capability::PutSymmetricKey,
            info,
            false,
        );
    }
    if may_have(device, authorization, data, 5, 0x14) {
        let info = described(
            request->Ok_0.header,
            ObjectType::HmacKey,
            if data[52] <= 20 {
                128
            } else {
                256
            },
            2,
            CapabilitySet::empty(),
            MaterialModel::Secret(request->Ok_0.material),
        ).info;
        lemma_allowed(device, authorization, data, 5, Capability::PutMacKey, info, false);
    }
    if may_have(device, authorization, data, 6, 0x1b) {
        let info = described(
            request->Ok_0.header,
            ObjectType::Template,
            (data.len() - 53) as u16,
            2,
            CapabilitySet::empty(),
            MaterialModel::Opaque(request->Ok_0.material),
        ).info;
        lemma_allowed(device, authorization, data, 6, Capability::PutTemplate, info, false);
    }
}

/// Keys for one-time passwords are stored in the same way.
pub proof fn permitted_otp_keys_are_stored(
    device: DeviceModel,
    authorization: SessionAuthorization,
    data: Seq<u8>,
    replies: Seq<EngineReply>,
    used: nat,
)
    requires
        may_have(device, authorization, data, 7, 0x23),
        data[52] == 37 || data[52] == 39 || data[52] == 40,
        data.len() - 57 == (match data[52] {
            37 => 16int,
            39 => 24,
            _ => 32,
        }),
    ensures
        device.puts_otp_aead_key(authorization, data, false, replies, used) is Ok,
{
    let request = decoded::<OtpAeadKeyRequest>(data)->Ok_0;
    let info = described(
        request.header,
        ObjectType::OtpAeadKey,
        (data.len() - 53) as u16,
        2,
        CapabilitySet::empty(),
        MaterialModel::OtpAeadKey { nonce_id: request.nonce_id, key: request.material },
    ).info;
    lemma_allowed(device, authorization, data, 7, Capability::PutOtpAeadKey, info, false);
}

/// AES wrap keys, public wrap keys and pairs of keys for authentication are stored
/// where the session may hand on what they hand on, too.
pub proof fn permitted_wrap_keys_are_stored(
    device: DeviceModel,
    authorization: SessionAuthorization,
    data: Seq<u8>,
    replies: Seq<EngineReply>,
    used: nat,
)
    requires
        may_hand_on(authorization, data),
    ensures
        may_have(device, authorization, data, 4, 0x0e) && ((data[52] == 29 && data.len() == 77) || (
        data[52] == 41 && data.len() == 85) || (data[52] == 42 && data.len() == 93))
            ==> device.puts_wrap_key(authorization, data, false, replies, used) is Ok,
        may_have(device, authorization, data, 9, 0x36) && ((data[52] == 9 && data.len() == 317) || (
        data[52] == 10 && data.len() == 445) || (data[52] == 11 && data.len() == 573))
            ==> device.puts_public_wrap_key(authorization, data, replies, used) is Ok,
        may_have(device, authorization, data, 2, 0x02) && data[52] == 38 && data.len() == 93
            ==> device.puts_authentication_key(authorization, data, replies, used) is Ok,
{
    let request = decoded::<DelegatedObjectRequest>(data)->Ok_0;
    if may_have(device, authorization, data, 4, 0x0e) {
        let info = described(
            request.header,
            ObjectType::WrapKey,
            (data.len() - 53) as u16,
            2,
            request.delegated_capabilities,
            MaterialModel::Secret(request.material),
        ).info;
        lemma_allowed(device, authorization, data, 4, Capability::PutWrapKey, info, true);
    }
    if may_have(device, authorization, data, 9, 0x36) {
        let info = described(
            request.header,
            ObjectType::PublicWrapKey,
            (data.len() - 53) as u16,
            2,
            request.delegated_capabilities,
            MaterialModel::Public(request.material),
        ).info;
        lemma_allowed(device, authorization, data, 9, Capability::PutPublicWrapKey, info, true);
    }
    if may_have(device, authorization, data, 2, 0x02) && data[52] == 38 && data.len() == 93 {
        let info = described(
            request.header,
            ObjectType::AuthenticationKey,
            40,
            2,
            request.delegated_capabilities,
            MaterialModel::Symmetric(request.material),
        ).info;
        lemma_allowed(
            device,
            authorization,
            data,
            2,
            Capability::PutAuthenticationKey,
            info,
            true,
        );
    }
}

/// Opaque contents are stored under a new number where the session may have them.
pub proof fn permitted_contents_are_stored(
    device: DeviceModel,
    authorization: SessionAuthorization,
    data: Seq<u8>,
    replies: Seq<EngineReply>,
    used: nat,
)
    requires
        may_have(device, authorization, data, 1, 0x01),
        data[52] == 30 || data.len() > 53,
        data.len() - 53 <= 0xffff,
    ensures
        device.puts_opaque(authorization, data, replies, used) is Ok,
{
    let request = decoded::<ObjectRequest>(data)->Ok_0;
    let info = described(
        request.header,
        ObjectType::Opaque,
        (data.len() - 53) as u16,
        2,
        CapabilitySet::empty(),
        MaterialModel::Opaque(request.material),
    ).info;
    lemma_allowed(device, authorization, data, 1, Capability::PutOpaque, info, false);
}

} // verus!
