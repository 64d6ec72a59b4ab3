//! The cases of a qualification, each as a table of its steps.
use crate::algorithm::Algorithm;
use crate::audit::first_sixteen;
use crate::bytes::{append, copied, copied_range, u16_be, u64_be, write_u16};
use crate::capability::{Capability, CapabilitySet};
use crate::error::DeviceError;
use crate::host::{
    check_model, first_counter, Credentials, CredentialsModel, Failure, FailureModel, Oracle,
};
use crate::keys::{EcCurve, HashAlgorithm};
use crate::object::ObjectType;
use crate::options::{
    OPTION_ALGORITHM_TOGGLE, OPTION_COMMAND_AUDIT, OPTION_FIPS_MODE, OPTION_FORCE_AUDIT, OPTION_ON,
};
use crate::outside::{p256_agreement, p256_public, p256_public_key, p256_shared};
use crate::protocol::CommandCode;
use crate::qualification::Case;
use crate::scenario::{
    close_step, command_step, compute_step, data_models, delete_step, head, list_step, make_close,
    make_command, make_compute, make_delete, make_head, make_list, make_plain, plain_step, resize,
    resized, tail, tail_of, unused, unused_id, unused_ids, unused_numbers, Expectation,
    ExpectationModel, Step, StepModel, Wanted, WantedModel,
};
use crate::session::{SecureModel, SecureSession};
use vstd::prelude::*;
use vstd::utf8::encode_utf8;

verus! {

/// The set of the capability Get Opaque alone.
pub open spec fn can_get_opaque() -> CapabilitySet {
    CapabilitySet::holding(seq![Capability::GetOpaque])
}

/// Makes the set of [`can_get_opaque`].
fn make_can_get_opaque() -> (set: CapabilitySet)
    ensures
        set == can_get_opaque(),
{
    let members: [Capability; 1] = [Capability::GetOpaque];
    assert(members@ =~= seq![Capability::GetOpaque]);
    CapabilitySet::from_capabilities(members)
}

/// The set of the capabilities Get Opaque and Put Opaque.
pub open spec fn can_get_and_put_opaque() -> CapabilitySet {
    CapabilitySet::holding(seq![Capability::GetOpaque, Capability::PutOpaque])
}

/// Makes the set of [`can_get_and_put_opaque`].
fn make_can_get_and_put_opaque() -> (set: CapabilitySet)
    ensures
        set == can_get_and_put_opaque(),
{
    let members: [Capability; 2] = [Capability::GetOpaque, Capability::PutOpaque];
    assert(members@ =~= seq![Capability::GetOpaque, Capability::PutOpaque]);
    CapabilitySet::from_capabilities(members)
}

/// The set of the capability Sign Hmac alone.
pub open spec fn can_sign_hmac() -> CapabilitySet {
    CapabilitySet::holding(seq![Capability::SignHmac])
}

/// Makes the set of [`can_sign_hmac`].
fn make_can_sign_hmac() -> (set: CapabilitySet)
    ensures
        set == can_sign_hmac(),
{
    let members: [Capability; 1] = [Capability::SignHmac];
    assert(members@ =~= seq![Capability::SignHmac]);
    CapabilitySet::from_capabilities(members)
}

/// The set of the capabilities Sign Hmac and Verify Hmac.
pub open spec fn can_use_hmac() -> CapabilitySet {
    CapabilitySet::holding(seq![Capability::SignHmac, Capability::VerifyHmac])
}

/// Makes the set of [`can_use_hmac`].
fn make_can_use_hmac() -> (set: CapabilitySet)
    ensures
        set == can_use_hmac(),
{
    let members: [Capability; 2] = [Capability::SignHmac, Capability::VerifyHmac];
    assert(members@ =~= seq![Capability::SignHmac, Capability::VerifyHmac]);
    CapabilitySet::from_capabilities(members)
}

/// The set of the capabilities Get Opaque and Exportable Under Wrap.
pub open spec fn can_travel_opaque() -> CapabilitySet {
    CapabilitySet::holding(seq![Capability::GetOpaque, Capability::ExportableUnderWrap])
}

/// Makes the set of [`can_travel_opaque`].
fn make_can_travel_opaque() -> (set: CapabilitySet)
    ensures
        set == can_travel_opaque(),
{
    let members: [Capability; 2] = [Capability::GetOpaque, Capability::ExportableUnderWrap];
    assert(members@ =~= seq![Capability::GetOpaque, Capability::ExportableUnderWrap]);
    CapabilitySet::from_capabilities(members)
}

/// The set of the capabilities Wrap Data, Unwrap Data, Export Wrapped and Import
/// Wrapped.
pub open spec fn can_wrap() -> CapabilitySet {
    CapabilitySet::holding(
        seq![
            Capability::WrapData,
            Capability::UnwrapData,
            Capability::ExportWrapped,
            Capability::ImportWrapped,
        ],
    )
}

/// Makes the set of [`can_wrap`].
fn make_can_wrap() -> (set: CapabilitySet)
    ensures
        set == can_wrap(),
{
    let members: [Capability; 4] = [
        Capability::WrapData,
        Capability::UnwrapData,
        Capability::ExportWrapped,
        Capability::ImportWrapped,
    ];
    assert(members@ =~= seq![
        Capability::WrapData,
        Capability::UnwrapData,
        Capability::ExportWrapped,
        Capability::ImportWrapped,
    ]);
    CapabilitySet::from_capabilities(members)
}

/// The set of the capabilities Sign Pkcs, Sign Pss, Decrypt Pkcs and Decrypt Oaep.
pub open spec fn can_use_rsa() -> CapabilitySet {
    CapabilitySet::holding(
        seq![
            Capability::SignPkcs,
            Capability::SignPss,
            Capability::DecryptPkcs,
            Capability::DecryptOaep,
        ],
    )
}

/// Makes the set of [`can_use_rsa`].
fn make_can_use_rsa() -> (set: CapabilitySet)
    ensures
        set == can_use_rsa(),
{
    let members: [Capability; 4] = [
        Capability::SignPkcs,
        Capability::SignPss,
        Capability::DecryptPkcs,
        Capability::DecryptOaep,
    ];
    assert(members@ =~= seq![
        Capability::SignPkcs,
        Capability::SignPss,
        Capability::DecryptPkcs,
        Capability::DecryptOaep,
    ]);
    CapabilitySet::from_capabilities(members)
}

/// The set of the capability Import Wrapped alone.
pub open spec fn can_import() -> CapabilitySet {
    CapabilitySet::holding(seq![Capability::ImportWrapped])
}

/// Makes the set of [`can_import`].
fn make_can_import() -> (set: CapabilitySet)
    ensures
        set == can_import(),
{
    let members: [Capability; 1] = [Capability::ImportWrapped];
    assert(members@ =~= seq![Capability::ImportWrapped]);
    CapabilitySet::from_capabilities(members)
}

/// The set of the capability Export Wrapped alone.
pub open spec fn can_export() -> CapabilitySet {
    CapabilitySet::holding(seq![Capability::ExportWrapped])
}

/// Makes the set of [`can_export`].
fn make_can_export() -> (set: CapabilitySet)
    ensures
        set == can_export(),
{
    let members: [Capability; 1] = [Capability::ExportWrapped];
    assert(members@ =~= seq![Capability::ExportWrapped]);
    CapabilitySet::from_capabilities(members)
}

/// The set of the capabilities Sign Ecdsa and Exportable Under Wrap.
pub open spec fn can_travel_ec() -> CapabilitySet {
    CapabilitySet::holding(seq![Capability::SignEcdsa, Capability::ExportableUnderWrap])
}

/// Makes the set of [`can_travel_ec`].
fn make_can_travel_ec() -> (set: CapabilitySet)
    ensures
        set == can_travel_ec(),
{
    let members: [Capability; 2] = [Capability::SignEcdsa, Capability::ExportableUnderWrap];
    assert(members@ =~= seq![Capability::SignEcdsa, Capability::ExportableUnderWrap]);
    CapabilitySet::from_capabilities(members)
}

/// The set of the capabilities Get Opaque, Sign Ecdsa and Exportable Under Wrap.
pub open spec fn can_travel() -> CapabilitySet {
    CapabilitySet::holding(
        seq![Capability::GetOpaque, Capability::SignEcdsa, Capability::ExportableUnderWrap],
    )
}

/// Makes the set of [`can_travel`].
fn make_can_travel() -> (set: CapabilitySet)
    ensures
        set == can_travel(),
{
    let members: [Capability; 3] = [
        Capability::GetOpaque,
        Capability::SignEcdsa,
        Capability::ExportableUnderWrap,
    ];
    assert(members@ =~= seq![
        Capability::GetOpaque,
        Capability::SignEcdsa,
        Capability::ExportableUnderWrap,
    ]);
    CapabilitySet::from_capabilities(members)
}

/// The set of the capabilities Create Otp Aead, Randomize Otp Aead, Decrypt Otp,
/// Rewrap From Otp Aead Key and Rewrap To Otp Aead Key.
pub open spec fn can_use_otp() -> CapabilitySet {
    CapabilitySet::holding(
        seq![
            Capability::CreateOtpAead,
            Capability::RandomizeOtpAead,
            Capability::DecryptOtp,
            Capability::RewrapFromOtpAeadKey,
            Capability::RewrapToOtpAeadKey,
        ],
    )
}

/// Makes the set of [`can_use_otp`].
fn make_can_use_otp() -> (set: CapabilitySet)
    ensures
        set == can_use_otp(),
{
    let members: [Capability; 5] = [
        Capability::CreateOtpAead,
        Capability::RandomizeOtpAead,
        Capability::DecryptOtp,
        Capability::RewrapFromOtpAeadKey,
        Capability::RewrapToOtpAeadKey,
    ];
    assert(members@ =~= seq![
        Capability::CreateOtpAead,
        Capability::RandomizeOtpAead,
        Capability::DecryptOtp,
        Capability::RewrapFromOtpAeadKey,
        Capability::RewrapToOtpAeadKey,
    ]);
    CapabilitySet::from_capabilities(members)
}

/// The set of the capability Sign Ecdsa alone.
pub open spec fn can_sign_ecdsa() -> CapabilitySet {
    CapabilitySet::holding(seq![Capability::SignEcdsa])
}

/// Makes the set of [`can_sign_ecdsa`].
fn make_can_sign_ecdsa() -> (set: CapabilitySet)
    ensures
        set == can_sign_ecdsa(),
{
    let members: [Capability; 1] = [Capability::SignEcdsa];
    assert(members@ =~= seq![Capability::SignEcdsa]);
    CapabilitySet::from_capabilities(members)
}

/// The set of the capability Derive Ecdh alone.
pub open spec fn can_derive() -> CapabilitySet {
    CapabilitySet::holding(seq![Capability::DeriveEcdh])
}

/// Makes the set of [`can_derive`].
fn make_can_derive() -> (set: CapabilitySet)
    ensures
        set == can_derive(),
{
    let members: [Capability; 1] = [Capability::DeriveEcdh];
    assert(members@ =~= seq![Capability::DeriveEcdh]);
    CapabilitySet::from_capabilities(members)
}

/// The static keys of a restricted host.
pub open spec fn restricted_keys() -> Seq<u8> {
    seq![
        0x42, 0x42, 0x42, 0x42, 0x42, 0x42, 0x42, 0x42, 0x42, 0x42, 0x42, 0x42, 0x42, 0x42, 0x42,
        0x42, 0x42, 0x42, 0x42, 0x42, 0x42, 0x42, 0x42, 0x42, 0x42, 0x42, 0x42, 0x42, 0x42, 0x42,
        0x42, 0x42,
    ]
}

/// Makes the static keys of a restricted host.
fn make_restricted_keys() -> (bytes: Vec<u8>)
    ensures
        bytes@ == restricted_keys(),
{
    let bytes: Vec<u8> = vec![
        0x42, 0x42, 0x42, 0x42, 0x42, 0x42, 0x42, 0x42, 0x42, 0x42, 0x42, 0x42, 0x42, 0x42, 0x42,
        0x42, 0x42, 0x42, 0x42, 0x42, 0x42, 0x42, 0x42, 0x42, 0x42, 0x42, 0x42, 0x42, 0x42, 0x42,
        0x42, 0x42,
    ];
    assert(bytes@ =~= restricted_keys());
    bytes
}

/// The key of a known HMAC.
pub open spec fn hmac_key() -> Seq<u8> {
    seq![
        0x0b, 0x0b, 0x0b, 0x0b, 0x0b, 0x0b, 0x0b, 0x0b, 0x0b, 0x0b, 0x0b, 0x0b, 0x0b, 0x0b, 0x0b,
        0x0b, 0x0b, 0x0b, 0x0b, 0x0b,
    ]
}

/// Makes the key of a known HMAC.
fn make_hmac_key() -> (bytes: Vec<u8>)
    ensures
        bytes@ == hmac_key(),
{
    let bytes: Vec<u8> = vec![
        0x0b, 0x0b, 0x0b, 0x0b, 0x0b, 0x0b, 0x0b, 0x0b, 0x0b, 0x0b, 0x0b, 0x0b, 0x0b, 0x0b, 0x0b,
        0x0b, 0x0b, 0x0b, 0x0b, 0x0b,
    ];
    assert(bytes@ =~= hmac_key());
    bytes
}

/// A wrap key.
pub open spec fn wrap_key() -> Seq<u8> {
    seq![
        0x6d, 0x6d, 0x6d, 0x6d, 0x6d, 0x6d, 0x6d, 0x6d, 0x6d, 0x6d, 0x6d, 0x6d, 0x6d, 0x6d, 0x6d,
        0x6d, 0x6d, 0x6d, 0x6d, 0x6d, 0x6d, 0x6d, 0x6d, 0x6d, 0x6d, 0x6d, 0x6d, 0x6d, 0x6d, 0x6d,
        0x6d, 0x6d,
    ]
}

/// Makes a wrap key.
fn make_wrap_key() -> (bytes: Vec<u8>)
    ensures
        bytes@ == wrap_key(),
{
    let bytes: Vec<u8> = vec![
        0x6d, 0x6d, 0x6d, 0x6d, 0x6d, 0x6d, 0x6d, 0x6d, 0x6d, 0x6d, 0x6d, 0x6d, 0x6d, 0x6d, 0x6d,
        0x6d, 0x6d, 0x6d, 0x6d, 0x6d, 0x6d, 0x6d, 0x6d, 0x6d, 0x6d, 0x6d, 0x6d, 0x6d, 0x6d, 0x6d,
        0x6d, 0x6d,
    ];
    assert(bytes@ =~= wrap_key());
    bytes
}

/// The key of an OTP AEAD key.
pub open spec fn otp_master_key() -> Seq<u8> {
    seq![
        0x80, 0x81, 0x82, 0x83, 0x84, 0x85, 0x86, 0x87, 0x88, 0x89, 0x8a, 0x8b, 0x8c, 0x8d, 0x8e,
        0x8f,
    ]
}

/// Makes the key of an OTP AEAD key.
fn make_otp_master_key() -> (bytes: Vec<u8>)
    ensures
        bytes@ == otp_master_key(),
{
    let bytes: Vec<u8> = vec![
        0x80, 0x81, 0x82, 0x83, 0x84, 0x85, 0x86, 0x87, 0x88, 0x89, 0x8a, 0x8b, 0x8c, 0x8d, 0x8e,
        0x8f,
    ];
    assert(bytes@ =~= otp_master_key());
    bytes
}

/// The key of an OTP credential.
pub open spec fn otp_credential_key() -> Seq<u8> {
    seq![0, 1, 2, 3, 4, 5, 6, 7, 8, 9, 10, 11, 12, 13, 14, 15]
}

/// Makes the key of an OTP credential.
fn make_otp_credential_key() -> (bytes: Vec<u8>)
    ensures
        bytes@ == otp_credential_key(),
{
    let bytes: Vec<u8> = vec![0, 1, 2, 3, 4, 5, 6, 7, 8, 9, 10, 11, 12, 13, 14, 15];
    assert(bytes@ =~= otp_credential_key());
    bytes
}

/// An OTP of that credential.
pub open spec fn known_otp() -> Seq<u8> {
    seq![
        0x2f, 0x5d, 0x71, 0xa4, 0x91, 0x5d, 0xec, 0x30, 0x4a, 0xa1, 0x3c, 0xcf, 0x97, 0xbb, 0x0d,
        0xbb,
    ]
}

/// Makes an OTP of that credential.
fn make_known_otp() -> (bytes: Vec<u8>)
    ensures
        bytes@ == known_otp(),
{
    let bytes: Vec<u8> = vec![
        0x2f, 0x5d, 0x71, 0xa4, 0x91, 0x5d, 0xec, 0x30, 0x4a, 0xa1, 0x3c, 0xcf, 0x97, 0xbb, 0x0d,
        0xbb,
    ];
    assert(bytes@ =~= known_otp());
    bytes
}

/// The private key of an X25519 peer.
pub open spec fn x25519_peer() -> Seq<u8> {
    seq![
        0x33, 0x33, 0x33, 0x33, 0x33, 0x33, 0x33, 0x33, 0x33, 0x33, 0x33, 0x33, 0x33, 0x33, 0x33,
        0x33, 0x33, 0x33, 0x33, 0x33, 0x33, 0x33, 0x33, 0x33, 0x33, 0x33, 0x33, 0x33, 0x33, 0x33,
        0x33, 0x33,
    ]
}

/// Makes the private key of an X25519 peer.
fn make_x25519_peer() -> (bytes: Vec<u8>)
    ensures
        bytes@ == x25519_peer(),
{
    let bytes: Vec<u8> = vec![
        0x33, 0x33, 0x33, 0x33, 0x33, 0x33, 0x33, 0x33, 0x33, 0x33, 0x33, 0x33, 0x33, 0x33, 0x33,
        0x33, 0x33, 0x33, 0x33, 0x33, 0x33, 0x33, 0x33, 0x33, 0x33, 0x33, 0x33, 0x33, 0x33, 0x33,
        0x33, 0x33,
    ];
    assert(bytes@ =~= x25519_peer());
    bytes
}

/// Makes the static keys of a restricted host as an array.
fn make_restricted_array() -> (keys: [u8; 32])
    ensures
        keys@ == restricted_keys(),
{
    let keys: [u8; 32] = [0x42u8; 32];
    assert(keys@ =~= restricted_keys());
    keys
}

/// Bytes with another last one.
pub open spec fn tampered(bytes: Seq<u8>) -> Seq<u8> {
    if bytes.len() == 0 {
        bytes
    } else {
        bytes.drop_last().push(bytes.last() ^ 1)
    }
}

/// Changes the last byte.
fn tamper(bytes: &[u8]) -> (changed: Vec<u8>)
    ensures
        changed@ == tampered(bytes@),
{
    if bytes.len() == 0 {
        return copied(bytes);
    }
    let mut changed: Vec<u8> = copied_range(bytes, 0, bytes.len() - 1);
    changed.push(bytes[bytes.len() - 1] ^ 1);
    assert(changed@ =~= tampered(bytes@));
    changed
}

/// The number so many places beyond another; behind the last one comes zero.
pub open spec fn beyond(id: u16, count: u16) -> u16 {
    if id + count > 0xffff {
        (id + count - 0x1_0000) as u16
    } else {
        (id + count) as u16
    }
}

/// Counts so many places beyond a number.
fn count_beyond(id: u16, count: u16) -> (number: u16)
    ensures
        number == beyond(id, count),
{
    id.wrapping_add(count)
}

/// The step of a case after what the steps before it brought.
pub open spec fn case_steps(
    case: Case,
    credentials: Option<CredentialsModel>,
    responses: Seq<Seq<u8>>,
) -> core::result::Result<StepModel, FailureModel> {
    match case {
        Case::Malformed => malformed_steps(responses),
        Case::Echo => echo_steps(responses),
        Case::Identity => identity_steps(responses),
        Case::PublicKey => public_key_steps(responses),
        Case::Boundary => boundary_steps(responses),
        _ => match credentials {
            Some(credentials) => managed_steps(case, credentials, responses),
            None => Err(FailureModel::Unmet("managed profiles require credentials"@)),
        },
    }
}

/// The step of a case that needs credentials.
pub open spec fn managed_steps(
    case: Case,
    credentials: CredentialsModel,
    responses: Seq<Seq<u8>>,
) -> core::result::Result<StepModel, FailureModel> {
    match case {
        Case::Session => session_steps(credentials, responses),
        Case::Opaque => opaque_steps(credentials, responses),
        Case::Authorization => authorization_steps(credentials, responses),
        Case::Asymmetric => asymmetric_steps(credentials, responses),
        Case::Options => option_steps(credentials, responses),
        Case::Negative => negative_steps(credentials, responses),
        Case::Hmac => hmac_steps(credentials, responses),
        Case::Aes => aes_steps(credentials, responses),
        Case::Wrapping => wrapping_steps(credentials, responses),
        Case::EcSigning => ec_signing_steps(credentials, responses),
        Case::Rsa => rsa_steps(credentials, responses),
        Case::RsaWrapping => rsa_wrapping_steps(credentials, responses),
        Case::Agreement => agreement_steps(credentials, responses),
        Case::Otp => otp_steps(credentials, responses),
        Case::Attestation => attestation_steps(credentials, responses),
        Case::X25519 => x25519_steps(credentials, responses),
        Case::Prefixed => prefixed_steps(credentials, responses),
        Case::Audit => audit_steps(credentials, responses),
        Case::ForceAudit => force_steps(credentials, responses),
        _ => Ok(StepModel::Done),
    }
}

/// Makes the step of a case after what the steps before it brought.
pub fn case_step(
    case: Case,
    credentials: Option<&Credentials>,
    responses: &Vec<Vec<u8>>,
) -> (step: core::result::Result<
    Step,
    Failure,
>)
    ensures
        check_model(step) == case_steps(
            case,
            match credentials {
                Some(credentials) => Some(credentials@),
                None => None,
            },
            data_models(responses@),
        ),
{
    match case {
        Case::Malformed => malformed_frame_scenario(responses),
        Case::Echo => echo_scenario(responses),
        Case::Identity => device_identity_scenario(responses),
        Case::PublicKey => device_public_key_scenario(responses),
        Case::Boundary => plain_boundary_scenario(responses),
        _ => match credentials {
            Some(credentials) => managed_scenario(case, credentials, responses),
            None => Err(Failure::Unmet("managed profiles require credentials")),
        },
    }
}

/// Makes the step of a case that needs credentials.
fn managed_scenario(
    case: Case,
    credentials: &Credentials,
    responses: &Vec<Vec<u8>>,
) -> (step: core::result::Result<
    Step,
    Failure,
>)
    ensures
        check_model(step) == managed_steps(case, credentials@, data_models(responses@)),
{
    match case {
        Case::Session => secure_session_scenario(credentials, responses),
        Case::Opaque => opaque_scenario(credentials, responses),
        Case::Authorization => authorization_scenario(credentials, responses),
        Case::Asymmetric => asymmetric_authentication_scenario(credentials, responses),
        Case::Options => option_scenario(credentials, responses),
        Case::Negative => negative_command_scenario(credentials, responses),
        Case::Hmac => hmac_scenario(credentials, responses),
        Case::Aes => aes_scenario(credentials, responses),
        Case::Wrapping => wrapping_scenario(credentials, responses),
        Case::EcSigning => ec_signing_scenario(credentials, responses),
        Case::Rsa => rsa_scenario(credentials, responses),
        Case::RsaWrapping => rsa_wrapping_scenario(credentials, responses),
        Case::Agreement => ed25519_and_ecdh_scenario(credentials, responses),
        Case::Otp => otp_aead_scenario(credentials, responses),
        Case::Attestation => attestation_scenario(credentials, responses),
        Case::X25519 => x25519_scenario(credentials, responses),
        Case::Prefixed => prefixed_ecdh_kdf_scenario(credentials, responses),
        Case::Audit => audit_scenario(credentials, responses),
        Case::ForceAudit => force_audit_scenario(credentials, responses),
        _ => Ok(Step::Done),
    }
}

/// The plaintext of the AES known answers.
pub open spec fn aes_plaintext() -> Seq<u8> {
    seq![
        0x00, 0x11, 0x22, 0x33, 0x44, 0x55, 0x66, 0x77, 0x88, 0x99, 0xaa, 0xbb, 0xcc, 0xdd, 0xee,
        0xff,
    ]
}

/// Makes the plaintext of the AES known answers.
fn make_aes_plaintext() -> (bytes: Vec<u8>)
    ensures
        bytes@ == aes_plaintext(),
{
    let bytes: Vec<u8> = vec![
        0x00, 0x11, 0x22, 0x33, 0x44, 0x55, 0x66, 0x77, 0x88, 0x99, 0xaa, 0xbb, 0xcc, 0xdd, 0xee,
        0xff,
    ];
    assert(bytes@ =~= aes_plaintext());
    bytes
}

/// The initial vector of the AES round trips.
pub open spec fn aes_iv() -> Seq<u8> {
    seq![
        0x0f, 0x0e, 0x0d, 0x0c, 0x0b, 0x0a, 0x09, 0x08, 0x07, 0x06, 0x05, 0x04, 0x03, 0x02, 0x01,
        0x00,
    ]
}

/// Makes the initial vector of the AES round trips.
fn make_aes_iv() -> (bytes: Vec<u8>)
    ensures
        bytes@ == aes_iv(),
{
    let bytes: Vec<u8> = vec![
        0x0f, 0x0e, 0x0d, 0x0c, 0x0b, 0x0a, 0x09, 0x08, 0x07, 0x06, 0x05, 0x04, 0x03, 0x02, 0x01,
        0x00,
    ];
    assert(bytes@ =~= aes_iv());
    bytes
}

/// The known answer of AES-128.
pub open spec fn aes128_answer() -> Seq<u8> {
    seq![
        0x69, 0xc4, 0xe0, 0xd8, 0x6a, 0x7b, 0x04, 0x30, 0xd8, 0xcd, 0xb7, 0x80, 0x70, 0xb4, 0xc5,
        0x5a,
    ]
}

/// Makes the known answer of AES-128.
fn make_aes128_answer() -> (bytes: Vec<u8>)
    ensures
        bytes@ == aes128_answer(),
{
    let bytes: Vec<u8> = vec![
        0x69, 0xc4, 0xe0, 0xd8, 0x6a, 0x7b, 0x04, 0x30, 0xd8, 0xcd, 0xb7, 0x80, 0x70, 0xb4, 0xc5,
        0x5a,
    ];
    assert(bytes@ =~= aes128_answer());
    bytes
}

/// The known answer of AES-192.
pub open spec fn aes192_answer() -> Seq<u8> {
    seq![
        0xdd, 0xa9, 0x7c, 0xa4, 0x86, 0x4c, 0xdf, 0xe0, 0x6e, 0xaf, 0x70, 0xa0, 0xec, 0x0d, 0x71,
        0x91,
    ]
}

/// Makes the known answer of AES-192.
fn make_aes192_answer() -> (bytes: Vec<u8>)
    ensures
        bytes@ == aes192_answer(),
{
    let bytes: Vec<u8> = vec![
        0xdd, 0xa9, 0x7c, 0xa4, 0x86, 0x4c, 0xdf, 0xe0, 0x6e, 0xaf, 0x70, 0xa0, 0xec, 0x0d, 0x71,
        0x91,
    ];
    assert(bytes@ =~= aes192_answer());
    bytes
}

/// The known answer of AES-256.
pub open spec fn aes256_answer() -> Seq<u8> {
    seq![
        0x8e, 0xa2, 0xb7, 0xca, 0x51, 0x67, 0x45, 0xbf, 0xea, 0xfc, 0x49, 0x90, 0x4b, 0x49, 0x60,
        0x89,
    ]
}

/// Makes the known answer of AES-256.
fn make_aes256_answer() -> (bytes: Vec<u8>)
    ensures
        bytes@ == aes256_answer(),
{
    let bytes: Vec<u8> = vec![
        0x8e, 0xa2, 0xb7, 0xca, 0x51, 0x67, 0x45, 0xbf, 0xea, 0xfc, 0x49, 0x90, 0x4b, 0x49, 0x60,
        0x89,
    ];
    assert(bytes@ =~= aes256_answer());
    bytes
}

/// The set of the capabilities Encrypt Ecb, Decrypt Ecb, Encrypt Cbc and Decrypt
/// Cbc.
pub open spec fn can_use_aes() -> CapabilitySet {
    CapabilitySet::holding(
        seq![
            Capability::EncryptEcb,
            Capability::DecryptEcb,
            Capability::EncryptCbc,
            Capability::DecryptCbc,
        ],
    )
}

/// Makes the set of [`can_use_aes`].
fn make_can_use_aes() -> (set: CapabilitySet)
    ensures
        set == can_use_aes(),
{
    let members: [Capability; 4] = [
        Capability::EncryptEcb,
        Capability::DecryptEcb,
        Capability::EncryptCbc,
        Capability::DecryptCbc,
    ];
    assert(members@ =~= seq![
        Capability::EncryptEcb,
        Capability::DecryptEcb,
        Capability::EncryptCbc,
        Capability::DecryptCbc,
    ]);
    CapabilitySet::from_capabilities(members)
}

/// The set of the capability Get Pseudo Random alone.
pub open spec fn can_draw() -> CapabilitySet {
    CapabilitySet::holding(seq![Capability::GetPseudoRandom])
}

/// Makes the set of [`can_draw`].
fn make_can_draw() -> (set: CapabilitySet)
    ensures
        set == can_draw(),
{
    let members: [Capability; 1] = [Capability::GetPseudoRandom];
    assert(members@ =~= seq![Capability::GetPseudoRandom]);
    CapabilitySet::from_capabilities(members)
}

/// The set of the capability Put Opaque alone.
pub open spec fn can_put_opaque() -> CapabilitySet {
    CapabilitySet::holding(seq![Capability::PutOpaque])
}

/// Makes the set of [`can_put_opaque`].
fn make_can_put_opaque() -> (set: CapabilitySet)
    ensures
        set == can_put_opaque(),
{
    let members: [Capability; 1] = [Capability::PutOpaque];
    assert(members@ =~= seq![Capability::PutOpaque]);
    CapabilitySet::from_capabilities(members)
}

/// The set of the capability Derive Ecdh Kdf alone.
pub open spec fn can_derive_kdf() -> CapabilitySet {
    CapabilitySet::holding(seq![Capability::DeriveEcdhKdf])
}

/// Makes the set of [`can_derive_kdf`].
fn make_can_derive_kdf() -> (set: CapabilitySet)
    ensures
        set == can_derive_kdf(),
{
    let members: [Capability; 1] = [Capability::DeriveEcdhKdf];
    assert(members@ =~= seq![Capability::DeriveEcdhKdf]);
    CapabilitySet::from_capabilities(members)
}

/// The set of the capability Sign Eddsa alone.
pub open spec fn can_sign_eddsa() -> CapabilitySet {
    CapabilitySet::holding(seq![Capability::SignEddsa])
}

/// Makes the set of [`can_sign_eddsa`].
fn make_can_sign_eddsa() -> (set: CapabilitySet)
    ensures
        set == can_sign_eddsa(),
{
    let members: [Capability; 1] = [Capability::SignEddsa];
    assert(members@ =~= seq![Capability::SignEddsa]);
    CapabilitySet::from_capabilities(members)
}

/// The prefix of a prefixed agreement.
pub open spec fn prefix() -> Seq<u8> {
    seq![
        0x41, 0x41, 0x41, 0x41, 0x41, 0x41, 0x41, 0x41, 0x41, 0x41, 0x41, 0x41, 0x41, 0x41, 0x41,
        0x41, 0x41, 0x41, 0x41, 0x41, 0x41, 0x41, 0x41, 0x41, 0x41, 0x41, 0x41, 0x41, 0x41, 0x41,
        0x41, 0x41,
    ]
}

/// Makes the prefix of a prefixed agreement.
fn make_prefix() -> (bytes: Vec<u8>)
    ensures
        bytes@ == prefix(),
{
    let bytes: Vec<u8> = vec![
        0x41, 0x41, 0x41, 0x41, 0x41, 0x41, 0x41, 0x41, 0x41, 0x41, 0x41, 0x41, 0x41, 0x41, 0x41,
        0x41, 0x41, 0x41, 0x41, 0x41, 0x41, 0x41, 0x41, 0x41, 0x41, 0x41, 0x41, 0x41, 0x41, 0x41,
        0x41, 0x41,
    ];
    assert(bytes@ =~= prefix());
    bytes
}

/// The shared information of the session keys.
pub open spec fn shared_info() -> Seq<u8> {
    seq![0x3c, 0x88, 0x10]
}

/// Makes the shared information of the session keys.
fn make_shared_info() -> (bytes: Vec<u8>)
    ensures
        bytes@ == shared_info(),
{
    let bytes: Vec<u8> = vec![0x3c, 0x88, 0x10];
    assert(bytes@ =~= shared_info());
    bytes
}

/// The static private key of a host.
pub open spec fn host_static_key() -> Seq<u8> {
    seq![
        0x11, 0x11, 0x11, 0x11, 0x11, 0x11, 0x11, 0x11, 0x11, 0x11, 0x11, 0x11, 0x11, 0x11, 0x11,
        0x11, 0x11, 0x11, 0x11, 0x11, 0x11, 0x11, 0x11, 0x11, 0x11, 0x11, 0x11, 0x11, 0x11, 0x11,
        0x11, 0x11,
    ]
}

/// Makes the static private key of a host.
fn make_host_static_key() -> (bytes: Vec<u8>)
    ensures
        bytes@ == host_static_key(),
{
    let bytes: Vec<u8> = vec![
        0x11, 0x11, 0x11, 0x11, 0x11, 0x11, 0x11, 0x11, 0x11, 0x11, 0x11, 0x11, 0x11, 0x11, 0x11,
        0x11, 0x11, 0x11, 0x11, 0x11, 0x11, 0x11, 0x11, 0x11, 0x11, 0x11, 0x11, 0x11, 0x11, 0x11,
        0x11, 0x11,
    ];
    assert(bytes@ =~= host_static_key());
    bytes
}

/// The ephemeral private key of a host.
pub open spec fn host_ephemeral_key() -> Seq<u8> {
    seq![
        0x22, 0x22, 0x22, 0x22, 0x22, 0x22, 0x22, 0x22, 0x22, 0x22, 0x22, 0x22, 0x22, 0x22, 0x22,
        0x22, 0x22, 0x22, 0x22, 0x22, 0x22, 0x22, 0x22, 0x22, 0x22, 0x22, 0x22, 0x22, 0x22, 0x22,
        0x22, 0x22,
    ]
}

/// Makes the ephemeral private key of a host.
fn make_host_ephemeral_key() -> (bytes: Vec<u8>)
    ensures
        bytes@ == host_ephemeral_key(),
{
    let bytes: Vec<u8> = vec![
        0x22, 0x22, 0x22, 0x22, 0x22, 0x22, 0x22, 0x22, 0x22, 0x22, 0x22, 0x22, 0x22, 0x22, 0x22,
        0x22, 0x22, 0x22, 0x22, 0x22, 0x22, 0x22, 0x22, 0x22, 0x22, 0x22, 0x22, 0x22, 0x22, 0x22,
        0x22, 0x22,
    ];
    assert(bytes@ =~= host_ephemeral_key());
    bytes
}

/// The private key of a peer.
pub open spec fn prefixed_peer() -> Seq<u8> {
    seq![
        0x44, 0x44, 0x44, 0x44, 0x44, 0x44, 0x44, 0x44, 0x44, 0x44, 0x44, 0x44, 0x44, 0x44, 0x44,
        0x44, 0x44, 0x44, 0x44, 0x44, 0x44, 0x44, 0x44, 0x44, 0x44, 0x44, 0x44, 0x44, 0x44, 0x44,
        0x44, 0x44,
    ]
}

/// Makes the private key of a peer.
fn make_prefixed_peer() -> (bytes: Vec<u8>)
    ensures
        bytes@ == prefixed_peer(),
{
    let bytes: Vec<u8> = vec![
        0x44, 0x44, 0x44, 0x44, 0x44, 0x44, 0x44, 0x44, 0x44, 0x44, 0x44, 0x44, 0x44, 0x44, 0x44,
        0x44, 0x44, 0x44, 0x44, 0x44, 0x44, 0x44, 0x44, 0x44, 0x44, 0x44, 0x44, 0x44, 0x44, 0x44,
        0x44, 0x44,
    ];
    assert(bytes@ =~= prefixed_peer());
    bytes
}

/// The algorithm of an AES round.
pub open spec fn aes_algorithm(round: int) -> Algorithm {
    if round == 0 {
        Algorithm::Aes128
    } else if round == 1 {
        Algorithm::Aes192
    } else {
        Algorithm::Aes256
    }
}

/// The key of an AES round: bytes that count up.
pub open spec fn aes_key(round: int) -> Seq<u8> {
    Seq::new((16 + 8 * round) as nat, |i: int| i as u8)
}

/// The known answer of an AES round.
pub open spec fn aes_answer(round: int) -> Seq<u8> {
    if round == 0 {
        aes128_answer()
    } else if round == 1 {
        aes192_answer()
    } else {
        aes256_answer()
    }
}

/// Makes the key of an AES round.
fn make_aes_key(round: usize) -> (key: Vec<u8>)
    requires
        round <= 2,
    ensures
        key@ == aes_key(round as int),
{
    let mut key: Vec<u8> = Vec::new();
    while key.len() < 16 + 8 * round
        invariant
            round <= 2,
            key@.len() <= 16 + 8 * round,
            key@ == Seq::new(key@.len(), |i: int| i as u8),
        decreases 16 + 8 * round - key@.len(),
    {
        key.push(key.len() as u8);
        assert(key@ =~= Seq::new(key@.len(), |i: int| i as u8));
    }
    key
}

/// Makes the known answer of an AES round.
fn make_aes_answer(round: usize) -> (answer: Vec<u8>)
    requires
        round <= 2,
    ensures
        answer@ == aes_answer(round as int),
{
    if round == 0 {
        make_aes128_answer()
    } else if round == 1 {
        make_aes192_answer()
    } else {
        make_aes256_answer()
    }
}

/// The steps of the case: AES known answers and mode round trips.
pub open spec fn aes_steps(
    credentials: CredentialsModel,
    responses: Seq<Seq<u8>>,
) -> core::result::Result<
    StepModel,
    FailureModel,
> {
    let k = responses.len();
    if k == 0 {
        Ok(StepModel::Open { second: false, credentials })
    } else if k == 1 {
        Ok(list_step())
    } else if k < 20 {
        let round = (k - 2) / 6;
        let base = 2 + 6 * round;
        match unused_numbers(responses[1], ObjectType::SymmetricKey, 0x7d20, (round + 1) as nat) {
            Err(failure) => Err(failure),
            Ok(ids) => {
                let id = ids[round];
                let algorithm = aes_algorithm(round);
                if k == base {
                    Ok(
                        command_step(
                            false,
                            CommandCode::PutSymmetricKey,
                            head(
                                id,
                                encode_utf8("qualification aes"@),
                                1,
                                can_use_aes(),
                                algorithm.byte(),
                            ) + aes_key(round as int),
                            ExpectationModel::Success(CommandCode::PutSymmetricKey),
                        ),
                    )
                } else if k == base + 1 {
                    Ok(
                        command_step(
                            false,
                            CommandCode::EncryptEcb,
                            u16_be(id) + aes_plaintext(),
                            ExpectationModel::AlgorithmData(
                                CommandCode::EncryptEcb,
                                aes_answer(round as int),
                                algorithm,
                                "ECB known answer mismatch"@,
                            ),
                        ),
                    )
                } else if k == base + 2 {
                    Ok(
                        command_step(
                            false,
                            CommandCode::DecryptEcb,
                            u16_be(id) + responses[base + 1],
                            ExpectationModel::AlgorithmData(
                                CommandCode::DecryptEcb,
                                aes_plaintext(),
                                algorithm,
                                "ECB decrypt did not round trip"@,
                            ),
                        ),
                    )
                } else if k == base + 3 {
                    Ok(
                        command_step(
                            false,
                            CommandCode::EncryptCbc,
                            u16_be(id) + aes_iv() + aes_plaintext(),
                            ExpectationModel::Success(CommandCode::EncryptCbc),
                        ),
                    )
                } else if k == base + 4 {
                    Ok(
                        command_step(
                            false,
                            CommandCode::DecryptCbc,
                            u16_be(id) + aes_iv() + responses[base + 3],
                            ExpectationModel::AlgorithmData(
                                CommandCode::DecryptCbc,
                                aes_plaintext(),
                                algorithm,
                                "CBC did not round trip"@,
                            ),
                        ),
                    )
                } else {
                    Ok(delete_step(false, id, ObjectType::SymmetricKey))
                }
            },
        }
    } else if k == 20 {
        Ok(close_step(false))
    } else {
        Ok(StepModel::Done)
    }
}

/// Makes the steps of the case: AES known answers and mode round trips.
fn aes_scenario(
    credentials: &Credentials,
    responses: &Vec<Vec<u8>>,
) -> (step: core::result::Result<Step, Failure>)
    ensures
        check_model(step) == aes_steps(credentials@, data_models(responses@)),
{
    let ghost models = data_models(responses@);
    let k: usize = responses.len();
    if k == 0 {
        Ok(Step::Open { second: false, credentials: credentials.copied() })
    } else if k == 1 {
        Ok(make_list())
    } else if k < 20 {
        let round: usize = (k - 2) / 6;
        let base: usize = 2 + 6 * round;
        let ids: Vec<u16> = unused_ids(&responses[1], ObjectType::SymmetricKey, 0x7d20, round + 1)?;
        let id: u16 = ids[round];
        let algorithm: Algorithm = if round == 0 {
            Algorithm::Aes128
        } else if round == 1 {
            Algorithm::Aes192
        } else {
            Algorithm::Aes256
        };
        assert(algorithm == aes_algorithm(round as int));
        if k == base {
            let mut data: Vec<u8> = Vec::new();
            append(
                &mut data,
                &make_head(
                    id,
                    "qualification aes".as_bytes(),
                    1,
                    make_can_use_aes(),
                    algorithm.to_byte(),
                ),
            );
            append(&mut data, &make_aes_key(round));
            assert(data@ =~= head(
                id,
                encode_utf8("qualification aes"@),
                1,
                can_use_aes(),
                algorithm.byte(),
            ) + aes_key(round as int));
            Ok(
                make_command(
                    false,
                    CommandCode::PutSymmetricKey,
                    data,
                    Expectation::Success(CommandCode::PutSymmetricKey),
                ),
            )
        } else if k == base + 1 {
            let mut data: Vec<u8> = Vec::new();
            write_u16(&mut data, id);
            append(&mut data, &make_aes_plaintext());
            assert(data@ =~= u16_be(id) + aes_plaintext());
            let mut wanted: Vec<u8> = Vec::new();
            append(&mut wanted, &make_aes_answer(round));
            assert(wanted@ =~= aes_answer(round as int));
            Ok(
                make_command(
                    false,
                    CommandCode::EncryptEcb,
                    data,
                    Expectation::AlgorithmData(
                        CommandCode::EncryptEcb,
                        wanted,
                        algorithm,
                        "ECB known answer mismatch",
                    ),
                ),
            )
        } else if k == base + 2 {
            let mut data: Vec<u8> = Vec::new();
            write_u16(&mut data, id);
            append(&mut data, &responses[base + 1]);
            assert(data@ =~= u16_be(id) + models[base + 1]);
            let mut wanted: Vec<u8> = Vec::new();
            append(&mut wanted, &make_aes_plaintext());
            assert(wanted@ =~= aes_plaintext());
            Ok(
                make_command(
                    false,
                    CommandCode::DecryptEcb,
                    data,
                    Expectation::AlgorithmData(
                        CommandCode::DecryptEcb,
                        wanted,
                        algorithm,
                        "ECB decrypt did not round trip",
                    ),
                ),
            )
        } else if k == base + 3 {
            let mut data: Vec<u8> = Vec::new();
            write_u16(&mut data, id);
            append(&mut data, &make_aes_iv());
            append(&mut data, &make_aes_plaintext());
            assert(data@ =~= u16_be(id) + aes_iv() + aes_plaintext());
            Ok(
                make_command(
                    false,
                    CommandCode::EncryptCbc,
                    data,
                    Expectation::Success(CommandCode::EncryptCbc),
                ),
            )
        } else if k == base + 4 {
            let mut data: Vec<u8> = Vec::new();
            write_u16(&mut data, id);
            append(&mut data, &make_aes_iv());
            append(&mut data, &responses[base + 3]);
            assert(data@ =~= u16_be(id) + aes_iv() + models[base + 3]);
            let mut wanted: Vec<u8> = Vec::new();
            append(&mut wanted, &make_aes_plaintext());
            assert(wanted@ =~= aes_plaintext());
            Ok(
                make_command(
                    false,
                    CommandCode::DecryptCbc,
                    data,
                    Expectation::AlgorithmData(
                        CommandCode::DecryptCbc,
                        wanted,
                        algorithm,
                        "CBC did not round trip",
                    ),
                ),
            )
        } else {
            Ok(make_delete(false, id, ObjectType::SymmetricKey))
        }
    } else if k == 20 {
        Ok(make_close(false))
    } else {
        Ok(Step::Done)
    }
}

/// A curve of the signing matrix.
#[derive(Clone, Copy, Debug)]
pub struct CurveCase {
    pub algorithm: Algorithm,
    pub curve: EcCurve,
    pub hash: HashAlgorithm,
    pub coordinate: usize,
}

/// The curves of the signing matrix.
pub open spec fn curve_case(round: int) -> CurveCase {
    if round == 0 {
        CurveCase {
            algorithm: Algorithm::EcP224,
            curve: EcCurve::P224,
            hash: HashAlgorithm::Sha224,
            coordinate: 28,
        }
    } else if round == 1 {
        CurveCase {
            algorithm: Algorithm::EcP256,
            curve: EcCurve::P256,
            hash: HashAlgorithm::Sha256,
            coordinate: 32,
        }
    } else if round == 2 {
        CurveCase {
            algorithm: Algorithm::EcP384,
            curve: EcCurve::P384,
            hash: HashAlgorithm::Sha384,
            coordinate: 48,
        }
    } else if round == 3 {
        CurveCase {
            algorithm: Algorithm::EcP521,
            curve: EcCurve::P521,
            hash: HashAlgorithm::Sha512,
            coordinate: 66,
        }
    } else if round == 4 {
        CurveCase {
            algorithm: Algorithm::EcK256,
            curve: EcCurve::Secp256k1,
            hash: HashAlgorithm::Sha256,
            coordinate: 32,
        }
    } else if round == 5 {
        CurveCase {
            algorithm: Algorithm::EcBrainpoolP256,
            curve: EcCurve::BrainpoolP256,
            hash: HashAlgorithm::Sha256,
            coordinate: 32,
        }
    } else if round == 6 {
        CurveCase {
            algorithm: Algorithm::EcBrainpoolP384,
            curve: EcCurve::BrainpoolP384,
            hash: HashAlgorithm::Sha384,
            coordinate: 48,
        }
    } else {
        CurveCase {
            algorithm: Algorithm::EcBrainpoolP512,
            curve: EcCurve::BrainpoolP512,
            hash: HashAlgorithm::Sha512,
            coordinate: 64,
        }
    }
}

/// Finds a curve of the signing matrix.
fn make_curve_case(round: usize) -> (case: CurveCase)
    ensures
        case == curve_case(round as int),
{
    if round == 0 {
        CurveCase {
            algorithm: Algorithm::EcP224,
            curve: EcCurve::P224,
            hash: HashAlgorithm::Sha224,
            coordinate: 28,
        }
    } else if round == 1 {
        CurveCase {
            algorithm: Algorithm::EcP256,
            curve: EcCurve::P256,
            hash: HashAlgorithm::Sha256,
            coordinate: 32,
        }
    } else if round == 2 {
        CurveCase {
            algorithm: Algorithm::EcP384,
            curve: EcCurve::P384,
            hash: HashAlgorithm::Sha384,
            coordinate: 48,
        }
    } else if round == 3 {
        CurveCase {
            algorithm: Algorithm::EcP521,
            curve: EcCurve::P521,
            hash: HashAlgorithm::Sha512,
            coordinate: 66,
        }
    } else if round == 4 {
        CurveCase {
            algorithm: Algorithm::EcK256,
            curve: EcCurve::Secp256k1,
            hash: HashAlgorithm::Sha256,
            coordinate: 32,
        }
    } else if round == 5 {
        CurveCase {
            algorithm: Algorithm::EcBrainpoolP256,
            curve: EcCurve::BrainpoolP256,
            hash: HashAlgorithm::Sha256,
            coordinate: 32,
        }
    } else if round == 6 {
        CurveCase {
            algorithm: Algorithm::EcBrainpoolP384,
            curve: EcCurve::BrainpoolP384,
            hash: HashAlgorithm::Sha384,
            coordinate: 48,
        }
    } else {
        CurveCase {
            algorithm: Algorithm::EcBrainpoolP512,
            curve: EcCurve::BrainpoolP512,
            hash: HashAlgorithm::Sha512,
            coordinate: 64,
        }
    }
}

/// The steps of the case: official EC curve signing matrix.
pub open spec fn ec_signing_steps(
    credentials: CredentialsModel,
    responses: Seq<Seq<u8>>,
) -> core::result::Result<
    StepModel,
    FailureModel,
> {
    let k = responses.len();
    if k == 0 {
        Ok(StepModel::Open { second: false, credentials })
    } else if k == 1 {
        Ok(list_step())
    } else if k < 58 {
        let round = (k - 2) / 7;
        let base = 2 + 7 * round;
        match unused_numbers(responses[1], ObjectType::AsymmetricKey, 0x7c00, (round + 1) as nat) {
            Err(failure) => Err(failure),
            Ok(ids) => {
                let id = ids[round];
                let case = curve_case(round);
                if k == base {
                    Ok(
                        command_step(
                            false,
                            CommandCode::GenerateAsymmetricKey,
                            head(
                                id,
                                encode_utf8("qualification ec"@),
                                1,
                                can_sign_ecdsa(),
                                case.algorithm.byte(),
                            ),
                            ExpectationModel::Success(CommandCode::GenerateAsymmetricKey),
                        ),
                    )
                } else if k == base + 1 {
                    Ok(
                        command_step(
                            false,
                            CommandCode::GetPublicKey,
                            u16_be(id),
                            ExpectationModel::PublicKey(
                                case.algorithm,
                                (1 + case.coordinate * 2) as usize,
                            ),
                        ),
                    )
                } else if k == base + 2 {
                    Ok(
                        compute_step(
                            Oracle::Digest(case.hash),
                            Seq::<u8>::empty(),
                            Seq::<u8>::empty(),
                            encode_utf8("YubiHSM EC qualification message"@),
                            WantedModel::Anything("local digest failed"@),
                        ),
                    )
                } else if k == base + 3 {
                    Ok(
                        command_step(
                            false,
                            CommandCode::SignEcdsa,
                            u16_be(id) + responses[base + 2],
                            ExpectationModel::Success(CommandCode::SignEcdsa),
                        ),
                    )
                } else if k == base + 4 {
                    Ok(
                        compute_step(
                            Oracle::EcdsaFromDer(case.coordinate),
                            Seq::<u8>::empty(),
                            Seq::<u8>::empty(),
                            responses[base + 3],
                            WantedModel::Of(case.algorithm, "returned invalid DER"@),
                        ),
                    )
                } else if k == base + 5 {
                    Ok(
                        compute_step(
                            Oracle::VerifyEcdsa(case.curve),
                            seq![4u8] + tail(responses[base + 1]),
                            responses[base + 4],
                            responses[base + 2],
                            WantedModel::Of(case.algorithm, "signature did not verify"@),
                        ),
                    )
                } else {
                    Ok(delete_step(false, id, ObjectType::AsymmetricKey))
                }
            },
        }
    } else if k == 58 {
        Ok(close_step(false))
    } else {
        Ok(StepModel::Done)
    }
}

/// Makes the steps of the case: official EC curve signing matrix.
fn ec_signing_scenario(
    credentials: &Credentials,
    responses: &Vec<Vec<u8>>,
) -> (step: core::result::Result<Step, Failure>)
    ensures
        check_model(step) == ec_signing_steps(credentials@, data_models(responses@)),
{
    let ghost models = data_models(responses@);
    let k: usize = responses.len();
    if k == 0 {
        Ok(Step::Open { second: false, credentials: credentials.copied() })
    } else if k == 1 {
        Ok(make_list())
    } else if k < 58 {
        let round: usize = (k - 2) / 7;
        let base: usize = 2 + 7 * round;
        let ids: Vec<u16> = unused_ids(
            &responses[1],
            ObjectType::AsymmetricKey,
            0x7c00,
            round + 1,
        )?;
        let id: u16 = ids[round];
        let case = make_curve_case(round);
        let length: usize = 1 + case.coordinate * 2;
        if k == base {
            let mut data: Vec<u8> = Vec::new();
            append(
                &mut data,
                &make_head(
                    id,
                    "qualification ec".as_bytes(),
                    1,
                    make_can_sign_ecdsa(),
                    case.algorithm.to_byte(),
                ),
            );
            assert(data@ =~= head(
                id,
                encode_utf8("qualification ec"@),
                1,
                can_sign_ecdsa(),
                case.algorithm.byte(),
            ));
            Ok(
                make_command(
                    false,
                    CommandCode::GenerateAsymmetricKey,
                    data,
                    Expectation::Success(CommandCode::GenerateAsymmetricKey),
                ),
            )
        } else if k == base + 1 {
            let mut data: Vec<u8> = Vec::new();
            write_u16(&mut data, id);
            assert(data@ =~= u16_be(id));
            Ok(
                make_command(
                    false,
                    CommandCode::GetPublicKey,
                    data,
                    Expectation::PublicKey(case.algorithm, length),
                ),
            )
        } else if k == base + 2 {
            let key: Vec<u8> = Vec::new();
            assert(key@ =~= Seq::<u8>::empty());
            let parameter: Vec<u8> = Vec::new();
            assert(parameter@ =~= Seq::<u8>::empty());
            let mut data: Vec<u8> = Vec::new();
            append(&mut data, "YubiHSM EC qualification message".as_bytes());
            assert(data@ =~= encode_utf8("YubiHSM EC qualification message"@));
            Ok(
                make_compute(
                    Oracle::Digest(case.hash),
                    key,
                    parameter,
                    data,
                    Wanted::Anything("local digest failed"),
                ),
            )
        } else if k == base + 3 {
            let mut data: Vec<u8> = Vec::new();
            write_u16(&mut data, id);
            append(&mut data, &responses[base + 2]);
            assert(data@ =~= u16_be(id) + models[base + 2]);
            Ok(
                make_command(
                    false,
                    CommandCode::SignEcdsa,
                    data,
                    Expectation::Success(CommandCode::SignEcdsa),
                ),
            )
        } else if k == base + 4 {
            let key: Vec<u8> = Vec::new();
            assert(key@ =~= Seq::<u8>::empty());
            let parameter: Vec<u8> = Vec::new();
            assert(parameter@ =~= Seq::<u8>::empty());
            let mut data: Vec<u8> = Vec::new();
            append(&mut data, &responses[base + 3]);
            assert(data@ =~= models[base + 3]);
            Ok(
                make_compute(
                    Oracle::EcdsaFromDer(case.coordinate),
                    key,
                    parameter,
                    data,
                    Wanted::Of(case.algorithm, "returned invalid DER"),
                ),
            )
        } else if k == base + 5 {
            let mut key: Vec<u8> = Vec::new();
            key.push(4);
            append(&mut key, &tail_of(&responses[base + 1]));
            assert(key@ =~= seq![4u8] + tail(models[base + 1]));
            let mut parameter: Vec<u8> = Vec::new();
            append(&mut parameter, &responses[base + 4]);
            assert(parameter@ =~= models[base + 4]);
            let mut data: Vec<u8> = Vec::new();
            append(&mut data, &responses[base + 2]);
            assert(data@ =~= models[base + 2]);
            Ok(
                make_compute(
                    Oracle::VerifyEcdsa(case.curve),
                    key,
                    parameter,
                    data,
                    Wanted::Of(case.algorithm, "signature did not verify"),
                ),
            )
        } else {
            Ok(make_delete(false, id, ObjectType::AsymmetricKey))
        }
    } else if k == 58 {
        Ok(make_close(false))
    } else {
        Ok(Step::Done)
    }
}

/// The steps of the case: Ed25519 signing and P-256 ECDH.
pub open spec fn agreement_steps(
    credentials: CredentialsModel,
    responses: Seq<Seq<u8>>,
) -> core::result::Result<
    StepModel,
    FailureModel,
> {
    let k = responses.len();
    if k == 0 {
        Ok(StepModel::Open { second: false, credentials })
    } else if k == 1 {
        Ok(list_step())
    } else {
        match unused(responses[1], ObjectType::AsymmetricKey, Seq::empty(), 0x7c80) {
            Err(failure) => Err(failure),
            Ok(ed_id) => {
                match unused(responses[1], ObjectType::AsymmetricKey, seq![ed_id], 0x7c90) {
                    Err(failure) => Err(failure),
                    Ok(first_id) => {
                        match unused(
                            responses[1],
                            ObjectType::AsymmetricKey,
                            seq![ed_id, first_id],
                            0x7c90,
                        ) {
                            Err(failure) => Err(failure),
                            Ok(second_id) => {
                                if k == 2 {
                                    Ok(
                                        command_step(
                                            false,
                                            CommandCode::GenerateAsymmetricKey,
                                            head(
                                                ed_id,
                                                encode_utf8("qualification ed25519"@),
                                                1,
                                                can_sign_eddsa(),
                                                Algorithm::Ed25519.byte(),
                                            ),
                                            ExpectationModel::Success(
                                                CommandCode::GenerateAsymmetricKey,
                                            ),
                                        ),
                                    )
                                } else if k == 3 {
                                    Ok(
                                        command_step(
                                            false,
                                            CommandCode::GetPublicKey,
                                            u16_be(ed_id),
                                            ExpectationModel::Marked(
                                                CommandCode::GetPublicKey,
                                                33,
                                                Algorithm::Ed25519.byte(),
                                                "Ed25519 returned an invalid public key"@,
                                            ),
                                        ),
                                    )
                                } else if k == 4 {
                                    Ok(
                                        command_step(
                                            false,
                                            CommandCode::SignEddsa,
                                            u16_be(ed_id)
                                                + encode_utf8(
                                                    "YubiHSM Ed25519 qualification message"@,
                                                ),
                                            ExpectationModel::Success(CommandCode::SignEddsa),
                                        ),
                                    )
                                } else if k == 5 {
                                    Ok(
                                        compute_step(
                                            Oracle::VerifyEd25519,
                                            tail(responses[3]),
                                            responses[4],
                                            encode_utf8("YubiHSM Ed25519 qualification message"@),
                                            WantedModel::Anything(
                                                "Ed25519 signature did not verify"@,
                                            ),
                                        ),
                                    )
                                } else if k == 6 {
                                    Ok(
                                        command_step(
                                            false,
                                            CommandCode::GenerateAsymmetricKey,
                                            head(
                                                first_id,
                                                encode_utf8("qualification ecdh"@),
                                                1,
                                                can_derive(),
                                                Algorithm::EcP256.byte(),
                                            ),
                                            ExpectationModel::Success(
                                                CommandCode::GenerateAsymmetricKey,
                                            ),
                                        ),
                                    )
                                } else if k == 7 {
                                    Ok(
                                        command_step(
                                            false,
                                            CommandCode::GenerateAsymmetricKey,
                                            head(
                                                second_id,
                                                encode_utf8("qualification ecdh"@),
                                                1,
                                                can_derive(),
                                                Algorithm::EcP256.byte(),
                                            ),
                                            ExpectationModel::Success(
                                                CommandCode::GenerateAsymmetricKey,
                                            ),
                                        ),
                                    )
                                } else if k == 8 {
                                    Ok(
                                        command_step(
                                            false,
                                            CommandCode::GetPublicKey,
                                            u16_be(first_id),
                                            ExpectationModel::Success(CommandCode::GetPublicKey),
                                        ),
                                    )
                                } else if k == 9 {
                                    Ok(
                                        command_step(
                                            false,
                                            CommandCode::GetPublicKey,
                                            u16_be(second_id),
                                            ExpectationModel::Success(CommandCode::GetPublicKey),
                                        ),
                                    )
                                } else if k == 10 {
                                    Ok(
                                        command_step(
                                            false,
                                            CommandCode::DeriveEcdh,
                                            u16_be(first_id) + seq![4u8] + tail(responses[9]),
                                            ExpectationModel::Length(
                                                CommandCode::DeriveEcdh,
                                                32,
                                                "P-256 ECDH peers derived different secrets"@,
                                            ),
                                        ),
                                    )
                                } else if k == 11 {
                                    Ok(
                                        command_step(
                                            false,
                                            CommandCode::DeriveEcdh,
                                            u16_be(second_id) + seq![4u8] + tail(responses[8]),
                                            ExpectationModel::Data(
                                                CommandCode::DeriveEcdh,
                                                responses[10],
                                                "P-256 ECDH peers derived different secrets"@,
                                            ),
                                        ),
                                    )
                                } else if k == 12 {
                                    Ok(delete_step(false, ed_id, ObjectType::AsymmetricKey))
                                } else if k == 13 {
                                    Ok(delete_step(false, first_id, ObjectType::AsymmetricKey))
                                } else if k == 14 {
                                    Ok(delete_step(false, second_id, ObjectType::AsymmetricKey))
                                } else if k == 15 {
                                    Ok(close_step(false))
                                } else {
                                    Ok(StepModel::Done)
                                }
                            },
                        }
                    },
                }
            },
        }
    }
}

/// Makes the steps of the case: Ed25519 signing and P-256 ECDH.
fn ed25519_and_ecdh_scenario(
    credentials: &Credentials,
    responses: &Vec<Vec<u8>>,
) -> (step: core::result::Result<Step, Failure>)
    ensures
        check_model(step) == agreement_steps(credentials@, data_models(responses@)),
{
    let ghost models = data_models(responses@);
    let k: usize = responses.len();
    if k == 0 {
        Ok(Step::Open { second: false, credentials: credentials.copied() })
    } else if k == 1 {
        Ok(make_list())
    } else {
        let taken: Vec<u16> = Vec::new();
        assert(taken@ =~= Seq::<u16>::empty());
        let ed_id: u16 = unused_id(&responses[1], ObjectType::AsymmetricKey, &taken, 0x7c80)?;
        let mut taken: Vec<u16> = Vec::new();
        taken.push(ed_id);
        assert(taken@ =~= seq![ed_id]);
        let first_id: u16 = unused_id(&responses[1], ObjectType::AsymmetricKey, &taken, 0x7c90)?;
        let mut taken: Vec<u16> = Vec::new();
        taken.push(ed_id);
        taken.push(first_id);
        assert(taken@ =~= seq![ed_id, first_id]);
        let second_id: u16 = unused_id(&responses[1], ObjectType::AsymmetricKey, &taken, 0x7c90)?;
        if k == 2 {
            let mut data: Vec<u8> = Vec::new();
            append(
                &mut data,
                &make_head(
                    ed_id,
                    "qualification ed25519".as_bytes(),
                    1,
                    make_can_sign_eddsa(),
                    Algorithm::Ed25519.to_byte(),
                ),
            );
            assert(data@ =~= head(
                ed_id,
                encode_utf8("qualification ed25519"@),
                1,
                can_sign_eddsa(),
                Algorithm::Ed25519.byte(),
            ));
            Ok(
                make_command(
                    false,
                    CommandCode::GenerateAsymmetricKey,
                    data,
                    Expectation::Success(CommandCode::GenerateAsymmetricKey),
                ),
            )
        } else if k == 3 {
            let mut data: Vec<u8> = Vec::new();
            write_u16(&mut data, ed_id);
            assert(data@ =~= u16_be(ed_id));
            Ok(
                make_command(
                    false,
                    CommandCode::GetPublicKey,
                    data,
                    Expectation::Marked(
                        CommandCode::GetPublicKey,
                        33,
                        Algorithm::Ed25519.to_byte(),
                        "Ed25519 returned an invalid public key",
                    ),
                ),
            )
        } else if k == 4 {
            let mut data: Vec<u8> = Vec::new();
            write_u16(&mut data, ed_id);
            append(&mut data, "YubiHSM Ed25519 qualification message".as_bytes());
            assert(data@ =~= u16_be(ed_id) + encode_utf8("YubiHSM Ed25519 qualification message"@));
            Ok(
                make_command(
                    false,
                    CommandCode::SignEddsa,
                    data,
                    Expectation::Success(CommandCode::SignEddsa),
                ),
            )
        } else if k == 5 {
            let mut key: Vec<u8> = Vec::new();
            append(&mut key, &tail_of(&responses[3]));
            assert(key@ =~= tail(models[3]));
            let mut parameter: Vec<u8> = Vec::new();
            append(&mut parameter, &responses[4]);
            assert(parameter@ =~= models[4]);
            let mut data: Vec<u8> = Vec::new();
            append(&mut data, "YubiHSM Ed25519 qualification message".as_bytes());
            assert(data@ =~= encode_utf8("YubiHSM Ed25519 qualification message"@));
            Ok(
                make_compute(
                    Oracle::VerifyEd25519,
                    key,
                    parameter,
                    data,
                    Wanted::Anything("Ed25519 signature did not verify"),
                ),
            )
        } else if k == 6 {
            let mut data: Vec<u8> = Vec::new();
            append(
                &mut data,
                &make_head(
                    first_id,
                    "qualification ecdh".as_bytes(),
                    1,
                    make_can_derive(),
                    Algorithm::EcP256.to_byte(),
                ),
            );
            assert(data@ =~= head(
                first_id,
                encode_utf8("qualification ecdh"@),
                1,
                can_derive(),
                Algorithm::EcP256.byte(),
            ));
            Ok(
                make_command(
                    false,
                    CommandCode::GenerateAsymmetricKey,
                    data,
                    Expectation::Success(CommandCode::GenerateAsymmetricKey),
                ),
            )
        } else if k == 7 {
            let mut data: Vec<u8> = Vec::new();
            append(
                &mut data,
                &make_head(
                    second_id,
                    "qualification ecdh".as_bytes(),
                    1,
                    make_can_derive(),
                    Algorithm::EcP256.to_byte(),
                ),
            );
            assert(data@ =~= head(
                second_id,
                encode_utf8("qualification ecdh"@),
                1,
                can_derive(),
                Algorithm::EcP256.byte(),
            ));
            Ok(
                make_command(
                    false,
                    CommandCode::GenerateAsymmetricKey,
                    data,
                    Expectation::Success(CommandCode::GenerateAsymmetricKey),
                ),
            )
        } else if k == 8 {
            let mut data: Vec<u8> = Vec::new();
            write_u16(&mut data, first_id);
            assert(data@ =~= u16_be(first_id));
            Ok(
                make_command(
                    false,
                    CommandCode::GetPublicKey,
                    data,
                    Expectation::Success(CommandCode::GetPublicKey),
                ),
            )
        } else if k == 9 {
            let mut data: Vec<u8> = Vec::new();
            write_u16(&mut data, second_id);
            assert(data@ =~= u16_be(second_id));
            Ok(
                make_command(
                    false,
                    CommandCode::GetPublicKey,
                    data,
                    Expectation::Success(CommandCode::GetPublicKey),
                ),
            )
        } else if k == 10 {
            let mut data: Vec<u8> = Vec::new();
            write_u16(&mut data, first_id);
            data.push(4);
            append(&mut data, &tail_of(&responses[9]));
            assert(data@ =~= u16_be(first_id) + seq![4u8] + tail(models[9]));
            Ok(
                make_command(
                    false,
                    CommandCode::DeriveEcdh,
                    data,
                    Expectation::Length(
                        CommandCode::DeriveEcdh,
                        32,
                        "P-256 ECDH peers derived different secrets",
                    ),
                ),
            )
        } else if k == 11 {
            let mut data: Vec<u8> = Vec::new();
            write_u16(&mut data, second_id);
            data.push(4);
            append(&mut data, &tail_of(&responses[8]));
            assert(data@ =~= u16_be(second_id) + seq![4u8] + tail(models[8]));
            let mut wanted: Vec<u8> = Vec::new();
            append(&mut wanted, &responses[10]);
            assert(wanted@ =~= models[10]);
            Ok(
                make_command(
                    false,
                    CommandCode::DeriveEcdh,
                    data,
                    Expectation::Data(
                        CommandCode::DeriveEcdh,
                        wanted,
                        "P-256 ECDH peers derived different secrets",
                    ),
                ),
            )
        } else if k == 12 {
            Ok(make_delete(false, ed_id, ObjectType::AsymmetricKey))
        } else if k == 13 {
            Ok(make_delete(false, first_id, ObjectType::AsymmetricKey))
        } else if k == 14 {
            Ok(make_delete(false, second_id, ObjectType::AsymmetricKey))
        } else if k == 15 {
            Ok(make_close(false))
        } else {
            Ok(Step::Done)
        }
    }
}

/// The steps of the case: prefixed ECDH KDF.
pub open spec fn prefixed_steps(
    credentials: CredentialsModel,
    responses: Seq<Seq<u8>>,
) -> core::result::Result<
    StepModel,
    FailureModel,
> {
    let k = responses.len();
    if k == 0 {
        Ok(StepModel::Open { second: false, credentials })
    } else if k == 1 {
        Ok(list_step())
    } else {
        match unused(responses[1], ObjectType::AsymmetricKey, Seq::empty(), 0x79a0) {
            Err(failure) => Err(failure),
            Ok(id) => {
                if k == 2 {
                    Ok(
                        command_step(
                            false,
                            CommandCode::GenerateAsymmetricKey,
                            head(
                                id,
                                encode_utf8("qualification prefixed ecdh"@),
                                1,
                                can_derive_kdf(),
                                Algorithm::EcP256.byte(),
                            ),
                            ExpectationModel::Success(CommandCode::GenerateAsymmetricKey),
                        ),
                    )
                } else if k == 3 {
                    Ok(
                        command_step(
                            false,
                            CommandCode::GetPublicKey,
                            u16_be(id),
                            ExpectationModel::Marked(
                                CommandCode::GetPublicKey,
                                65,
                                Algorithm::EcP256.byte(),
                                "prefixed ECDH key returned an invalid public key"@,
                            ),
                        ),
                    )
                } else {
                    match (
                        p256_public(prefixed_peer()),
                        p256_shared(prefixed_peer(), seq![4u8] + tail(responses[3])),
                    ) {
                        (None, _) => Err(FailureModel::Unmet("invalid prefixed-ECDH peer key"@)),
                        (Some(peer), None) => Err(
                            FailureModel::Unmet("invalid prefixed-ECDH device public key"@),
                        ),
                        (Some(peer), Some(secret)) => if peer.len() > 0xffff {
                            Err(FailureModel::Unmet("prefixed-ECDH input length overflow"@))
                        } else {
                            let peer_length = peer.len() as u16;
                            if k == 4 {
                                Ok(
                                    compute_step(
                                        Oracle::X963Kdf(64),
                                        prefix() + secret,
                                        Seq::<u8>::empty(),
                                        shared_info(),
                                        WantedModel::Anything(
                                            "independent prefixed-ECDH KDF failed"@,
                                        ),
                                    ),
                                )
                            } else if k == 5 {
                                Ok(
                                    command_step(
                                        false,
                                        CommandCode::DeriveEcdhKdf,
                                        u16_be(id) + seq![3u8] + u16_be(64) + u16_be(peer_length)
                                            + u16_be(32) + u16_be(3) + peer + prefix()
                                            + shared_info(),
                                        ExpectationModel::Data(
                                            CommandCode::DeriveEcdhKdf,
                                            responses[4],
                                            "prefixed ECDH returned a different KDF result"@,
                                        ),
                                    ),
                                )
                            } else if k == 6 {
                                Ok(
                                    command_step(
                                        false,
                                        CommandCode::DeriveEcdh,
                                        u16_be(id) + peer,
                                        ExpectationModel::Error(
                                            DeviceError::InsufficientPermissions,
                                        ),
                                    ),
                                )
                            } else if k == 7 {
                                Ok(delete_step(false, id, ObjectType::AsymmetricKey))
                            } else if k == 8 {
                                Ok(close_step(false))
                            } else {
                                Ok(StepModel::Done)
                            }
                        },
                    }
                }
            },
        }
    }
}

/// Makes the steps of the case: prefixed ECDH KDF.
fn prefixed_ecdh_kdf_scenario(
    credentials: &Credentials,
    responses: &Vec<Vec<u8>>,
) -> (step: core::result::Result<Step, Failure>)
    ensures
        check_model(step) == prefixed_steps(credentials@, data_models(responses@)),
{
    let ghost models = data_models(responses@);
    let k: usize = responses.len();
    if k == 0 {
        Ok(Step::Open { second: false, credentials: credentials.copied() })
    } else if k == 1 {
        Ok(make_list())
    } else {
        let taken: Vec<u16> = Vec::new();
        assert(taken@ =~= Seq::<u16>::empty());
        let id: u16 = unused_id(&responses[1], ObjectType::AsymmetricKey, &taken, 0x79a0)?;
        if k == 2 {
            let mut data: Vec<u8> = Vec::new();
            append(
                &mut data,
                &make_head(
                    id,
                    "qualification prefixed ecdh".as_bytes(),
                    1,
                    make_can_derive_kdf(),
                    Algorithm::EcP256.to_byte(),
                ),
            );
            assert(data@ =~= head(
                id,
                encode_utf8("qualification prefixed ecdh"@),
                1,
                can_derive_kdf(),
                Algorithm::EcP256.byte(),
            ));
            Ok(
                make_command(
                    false,
                    CommandCode::GenerateAsymmetricKey,
                    data,
                    Expectation::Success(CommandCode::GenerateAsymmetricKey),
                ),
            )
        } else if k == 3 {
            let mut data: Vec<u8> = Vec::new();
            write_u16(&mut data, id);
            assert(data@ =~= u16_be(id));
            Ok(
                make_command(
                    false,
                    CommandCode::GetPublicKey,
                    data,
                    Expectation::Marked(
                        CommandCode::GetPublicKey,
                        65,
                        Algorithm::EcP256.to_byte(),
                        "prefixed ECDH key returned an invalid public key",
                    ),
                ),
            )
        } else {
            let peer: Vec<u8> = match p256_public_key(&make_prefixed_peer()) {
                Some(peer) => peer,
                None => {
                    return Err(Failure::Unmet("invalid prefixed-ECDH peer key"));
                },
            };
            let mut point: Vec<u8> = Vec::new();
            point.push(4);
            append(&mut point, &tail_of(&responses[3]));
            assert(point@ =~= seq![4u8] + tail(models[3]));
            let secret: Vec<u8> = match p256_agreement(&make_prefixed_peer(), &point) {
                Some(secret) => secret,
                None => {
                    return Err(Failure::Unmet("invalid prefixed-ECDH device public key"));
                },
            };
            if peer.len() > 0xffff {
                return Err(Failure::Unmet("prefixed-ECDH input length overflow"));
            }
            let peer_length: u16 = peer.len() as u16;
            if k == 4 {
                let mut key: Vec<u8> = Vec::new();
                append(&mut key, &make_prefix());
                append(&mut key, &secret);
                assert(key@ =~= prefix() + secret@);
                let parameter: Vec<u8> = Vec::new();
                assert(parameter@ =~= Seq::<u8>::empty());
                let mut data: Vec<u8> = Vec::new();
                append(&mut data, &make_shared_info());
                assert(data@ =~= shared_info());
                Ok(
                    make_compute(
                        Oracle::X963Kdf(64),
                        key,
                        parameter,
                        data,
                        Wanted::Anything("independent prefixed-ECDH KDF failed"),
                    ),
                )
            } else if k == 5 {
                let mut data: Vec<u8> = Vec::new();
                write_u16(&mut data, id);
                data.push(3);
                write_u16(&mut data, 64);
                write_u16(&mut data, peer_length);
                write_u16(&mut data, 32);
                write_u16(&mut data, 3);
                append(&mut data, &peer);
                append(&mut data, &make_prefix());
                append(&mut data, &make_shared_info());
                assert(data@ =~= u16_be(id) + seq![3u8] + u16_be(64) + u16_be(peer_length)
                    + u16_be(32)
                    + u16_be(3) + peer@ + prefix() + shared_info());
                let mut wanted: Vec<u8> = Vec::new();
                append(&mut wanted, &responses[4]);
                assert(wanted@ =~= models[4]);
                Ok(
                    make_command(
                        false,
                        CommandCode::DeriveEcdhKdf,
                        data,
                        Expectation::Data(
                            CommandCode::DeriveEcdhKdf,
                            wanted,
                            "prefixed ECDH returned a different KDF result",
                        ),
                    ),
                )
            } else if k == 6 {
                let mut data: Vec<u8> = Vec::new();
                write_u16(&mut data, id);
                append(&mut data, &peer);
                assert(data@ =~= u16_be(id) + peer@);
                Ok(
                    make_command(
                        false,
                        CommandCode::DeriveEcdh,
                        data,
                        Expectation::Error(DeviceError::InsufficientPermissions),
                    ),
                )
            } else if k == 7 {
                Ok(make_delete(false, id, ObjectType::AsymmetricKey))
            } else if k == 8 {
                Ok(make_close(false))
            } else {
                Ok(Step::Done)
            }
        }
    }
}

/// The steps of the case: asymmetric authentication and session snapshot.
pub open spec fn asymmetric_steps(
    credentials: CredentialsModel,
    responses: Seq<Seq<u8>>,
) -> core::result::Result<
    StepModel,
    FailureModel,
> {
    let k = responses.len();
    if k == 0 {
        Ok(StepModel::Open { second: false, credentials })
    } else if k == 1 {
        Ok(list_step())
    } else {
        match unused(responses[1], ObjectType::AuthenticationKey, Seq::empty(), 0x79c0) {
            Err(failure) => Err(failure),
            Ok(authentication_id) => match (
                p256_public(host_static_key()),
                p256_public(host_ephemeral_key()),
            ) {
                (None, _) => Err(FailureModel::Unmet("invalid static qualification key"@)),
                (Some(static_public), None) => Err(
                    FailureModel::Unmet("invalid ephemeral qualification key"@),
                ),
                (Some(static_public), Some(ephemeral_public)) => if k == 2 {
                    Ok(
                        command_step(
                            false,
                            CommandCode::PutAuthenticationKey,
                            head(
                                authentication_id,
                                encode_utf8("qualification asymmetric auth"@),
                                4,
                                can_draw(),
                                Algorithm::EcP256YubicoAuthentication.byte(),
                            ) + u64_be(can_put_opaque().word()) + tail(static_public),
                            ExpectationModel::Success(CommandCode::PutAuthenticationKey),
                        ),
                    )
                } else if k == 3 {
                    Ok(
                        plain_step(
                            CommandCode::CreateSession.byte(),
                            u16_be(authentication_id) + ephemeral_public,
                            ExpectationModel::Counted(
                                CommandCode::CreateSession,
                                82,
                                "asymmetric Create Session returned"@,
                            ),
                        ),
                    )
                } else if responses[3].len() != 82 {
                    Err(
                        FailureModel::Length(
                            "asymmetric Create Session returned"@,
                            responses[3].len(),
                        ),
                    )
                } else {
                    asymmetric_agreement_steps(authentication_id, ephemeral_public, responses)
                },
            },
        }
    }
}

/// The steps of that case once the device has opened the session.
pub open spec fn asymmetric_agreement_steps(
    authentication_id: u16,
    ephemeral_public: Seq<u8>,
    responses: Seq<Seq<u8>>,
) -> core::result::Result<StepModel, FailureModel> {
    let k = responses.len();
    let create = responses[3];
    match p256_shared(host_ephemeral_key(), create.subrange(1, 66)) {
        None => Err(FailureModel::Unmet("invalid device ephemeral key"@)),
        Some(ephemeral_secret) => if k == 4 {
            Ok(
                plain_step(
                    CommandCode::GetDevicePublicKey.byte(),
                    Seq::<u8>::empty(),
                    ExpectationModel::Success(CommandCode::GetDevicePublicKey),
                ),
            )
        } else {
            match p256_shared(host_static_key(), seq![4u8] + tail(responses[4])) {
                None => Err(FailureModel::Unmet("invalid device static key"@)),
                Some(static_secret) => if k == 5 {
                    Ok(
                        compute_step(
                            Oracle::X963Kdf(64),
                            ephemeral_secret + static_secret,
                            Seq::<u8>::empty(),
                            shared_info(),
                            WantedModel::Anything("asymmetric session KDF failed"@),
                        ),
                    )
                } else if responses[5].len() != 64 {
                    Err(FailureModel::Unmet("asymmetric session KDF failed"@))
                } else {
                    let keys = responses[5];
                    if k == 6 {
                        Ok(
                            compute_step(
                                Oracle::Cmac,
                                keys.subrange(0, 16),
                                Seq::<u8>::empty(),
                                create.subrange(1, 66) + ephemeral_public,
                                WantedModel::Bytes(
                                    create.subrange(66, 82),
                                    "asymmetric session receipt failed"@,
                                    "asymmetric session receipt did not verify"@,
                                ),
                            ),
                        )
                    } else if responses[6].len() != 16 {
                        Err(FailureModel::Unmet("asymmetric session receipt failed"@))
                    } else if k == 7 {
                        Ok(
                            StepModel::Adopt {
                                second: true,
                                session: SecureModel {
                                    sid: create[0],
                                    s_enc: keys.subrange(16, 32),
                                    s_mac: keys.subrange(32, 48),
                                    s_rmac: keys.subrange(48, 64),
                                    counter: first_counter(),
                                    chaining: responses[6],
                                },
                            },
                        )
                    } else {
                        asymmetric_session_steps(authentication_id, ephemeral_public, k)
                    }
                },
            }
        },
    }
}

/// The steps of that case in the session.
pub open spec fn asymmetric_session_steps(
    authentication_id: u16,
    ephemeral_public: Seq<u8>,
    k: nat,
) -> core::result::Result<StepModel, FailureModel> {
    if k == 8 {
        Ok(
            command_step(
                true,
                CommandCode::GetPseudoRandom,
                u16_be(16),
                ExpectationModel::Length(
                    CommandCode::GetPseudoRandom,
                    16,
                    "asymmetric session command returned the wrong length"@,
                ),
            ),
        )
    } else if k == 9 {
        Ok(delete_step(false, authentication_id, ObjectType::AuthenticationKey))
    } else if k == 10 {
        Ok(
            command_step(
                true,
                CommandCode::GetPseudoRandom,
                u16_be(8),
                ExpectationModel::Length(
                    CommandCode::GetPseudoRandom,
                    8,
                    "established asymmetric session lost its authorization snapshot"@,
                ),
            ),
        )
    } else if k == 11 {
        Ok(
            plain_step(
                CommandCode::CreateSession.byte(),
                u16_be(authentication_id) + ephemeral_public,
                ExpectationModel::Error(DeviceError::ObjectNotFound),
            ),
        )
    } else if k == 12 {
        Ok(close_step(true))
    } else if k == 13 {
        Ok(close_step(false))
    } else {
        Ok(StepModel::Done)
    }
}

/// Makes the steps of the case: asymmetric authentication and session snapshot.
fn asymmetric_authentication_scenario(
    credentials: &Credentials,
    responses: &Vec<Vec<u8>>,
) -> (step: core::result::Result<Step, Failure>)
    ensures
        check_model(step) == asymmetric_steps(credentials@, data_models(responses@)),
{
    let ghost models = data_models(responses@);
    let k: usize = responses.len();
    if k == 0 {
        return Ok(Step::Open { second: false, credentials: credentials.copied() });
    }
    if k == 1 {
        return Ok(make_list());
    }
    let taken: Vec<u16> = Vec::new();
    assert(taken@ =~= Seq::<u16>::empty());
    let authentication_id: u16 = unused_id(
        &responses[1],
        ObjectType::AuthenticationKey,
        &taken,
        0x79c0,
    )?;
    let static_public: Vec<u8> = match p256_public_key(&make_host_static_key()) {
        Some(public) => public,
        None => {
            return Err(Failure::Unmet("invalid static qualification key"));
        },
    };
    let ephemeral_public: Vec<u8> = match p256_public_key(&make_host_ephemeral_key()) {
        Some(public) => public,
        None => {
            return Err(Failure::Unmet("invalid ephemeral qualification key"));
        },
    };
    if k == 2 {
        let mut data: Vec<u8> = Vec::new();
        append(
            &mut data,
            &make_head(
                authentication_id,
                "qualification asymmetric auth".as_bytes(),
                4,
                make_can_draw(),
                Algorithm::EcP256YubicoAuthentication.to_byte(),
            ),
        );
        append(&mut data, &make_can_put_opaque().to_bytes());
        append(&mut data, &tail_of(&static_public));
        assert(data@ =~= head(
            authentication_id,
            encode_utf8("qualification asymmetric auth"@),
            4,
            can_draw(),
            Algorithm::EcP256YubicoAuthentication.byte(),
        ) + u64_be(can_put_opaque().word()) + tail(static_public@));
        Ok(
            make_command(
                false,
                CommandCode::PutAuthenticationKey,
                data,
                Expectation::Success(CommandCode::PutAuthenticationKey),
            ),
        )
    } else if k == 3 {
        let mut data: Vec<u8> = Vec::new();
        write_u16(&mut data, authentication_id);
        append(&mut data, &ephemeral_public);
        assert(data@ =~= u16_be(authentication_id) + ephemeral_public@);
        Ok(
            make_plain(
                CommandCode::CreateSession.to_byte(),
                data,
                Expectation::Counted(
                    CommandCode::CreateSession,
                    82,
                    "asymmetric Create Session returned",
                ),
            ),
        )
    } else if responses[3].len() != 82 {
        Err(Failure::Length("asymmetric Create Session returned", responses[3].len()))
    } else {
        asymmetric_agreement_step(authentication_id, &ephemeral_public, responses)
    }
}

/// Makes the steps of that case once the device has opened the session.
fn asymmetric_agreement_step(
    authentication_id: u16,
    ephemeral_public: &Vec<u8>,
    responses: &Vec<Vec<u8>>,
) -> (step: core::result::Result<Step, Failure>)
    requires
        responses@.len() >= 4,
        responses@[3]@.len() == 82,
    ensures
        check_model(step) == asymmetric_agreement_steps(
            authentication_id,
            ephemeral_public@,
            data_models(responses@),
        ),
{
    let ghost models = data_models(responses@);
    let k: usize = responses.len();
    let create: &Vec<u8> = &responses[3];
    let ephemeral_secret: Vec<u8> = match p256_agreement(
        &make_host_ephemeral_key(),
        &copied_range(create, 1, 66),
    ) {
        Some(secret) => secret,
        None => {
            return Err(Failure::Unmet("invalid device ephemeral key"));
        },
    };
    if k == 4 {
        let data: Vec<u8> = Vec::new();
        assert(data@ =~= Seq::<u8>::empty());
        Ok(
            make_plain(
                CommandCode::GetDevicePublicKey.to_byte(),
                data,
                Expectation::Success(CommandCode::GetDevicePublicKey),
            ),
        )
    } else {
        let mut point: Vec<u8> = Vec::new();
        point.push(4);
        append(&mut point, &tail_of(&responses[4]));
        assert(point@ =~= seq![4u8] + tail(models[4]));
        let static_secret: Vec<u8> = match p256_agreement(&make_host_static_key(), &point) {
            Some(secret) => secret,
            None => {
                return Err(Failure::Unmet("invalid device static key"));
            },
        };
        if k == 5 {
            let mut key: Vec<u8> = Vec::new();
            append(&mut key, &ephemeral_secret);
            append(&mut key, &static_secret);
            assert(key@ =~= ephemeral_secret@ + static_secret@);
            let parameter: Vec<u8> = Vec::new();
            assert(parameter@ =~= Seq::<u8>::empty());
            let mut data: Vec<u8> = Vec::new();
            append(&mut data, &make_shared_info());
            assert(data@ =~= shared_info());
            Ok(
                make_compute(
                    Oracle::X963Kdf(64),
                    key,
                    parameter,
                    data,
                    Wanted::Anything("asymmetric session KDF failed"),
                ),
            )
        } else if responses[5].len() != 64 {
            Err(Failure::Unmet("asymmetric session KDF failed"))
        } else {
            let keys: &Vec<u8> = &responses[5];
            if k == 6 {
                let mut key: Vec<u8> = Vec::new();
                append(&mut key, &copied_range(keys, 0, 16));
                assert(key@ =~= keys@.subrange(0, 16));
                let parameter: Vec<u8> = Vec::new();
                assert(parameter@ =~= Seq::<u8>::empty());
                let mut data: Vec<u8> = Vec::new();
                append(&mut data, &copied_range(create, 1, 66));
                append(&mut data, &ephemeral_public);
                assert(data@ =~= create@.subrange(1, 66) + ephemeral_public@);
                let mut wanted: Vec<u8> = Vec::new();
                append(&mut wanted, &copied_range(create, 66, 82));
                assert(wanted@ =~= create@.subrange(66, 82));
                Ok(
                    make_compute(
                        Oracle::Cmac,
                        key,
                        parameter,
                        data,
                        Wanted::Bytes(
                            wanted,
                            "asymmetric session receipt failed",
                            "asymmetric session receipt did not verify",
                        ),
                    ),
                )
            } else if responses[6].len() != 16 {
                Err(Failure::Unmet("asymmetric session receipt failed"))
            } else if k == 7 {
                let counter: [u8; 16] = [0, 0, 0, 0, 0, 0, 0, 0, 0, 0, 0, 0, 0, 0, 0, 1];
                assert(counter@ =~= first_counter());
                let session = SecureSession {
                    sid: create[0],
                    s_enc: first_sixteen(&copied_range(keys, 16, 32)),
                    s_mac: first_sixteen(&copied_range(keys, 32, 48)),
                    s_rmac: first_sixteen(&copied_range(keys, 48, 64)),
                    counter,
                    mac_chaining_value: first_sixteen(&responses[6]),
                };
                assert(session@.s_enc =~= keys@.subrange(16, 32));
                assert(session@.s_mac =~= keys@.subrange(32, 48));
                assert(session@.s_rmac =~= keys@.subrange(48, 64));
                assert(session@.chaining =~= models[6]);
                Ok(Step::Adopt { second: true, session })
            } else {
                asymmetric_session_step(authentication_id, ephemeral_public, k)
            }
        }
    }
}

/// Makes the steps of that case in the session.
fn asymmetric_session_step(
    authentication_id: u16,
    ephemeral_public: &Vec<u8>,
    k: usize,
) -> (step: core::result::Result<
    Step,
    Failure,
>)
    ensures
        check_model(step) == asymmetric_session_steps(
            authentication_id,
            ephemeral_public@,
            k as nat,
        ),
{
    if k == 8 {
        let mut data: Vec<u8> = Vec::new();
        write_u16(&mut data, 16);
        assert(data@ =~= u16_be(16));
        Ok(
            make_command(
                true,
                CommandCode::GetPseudoRandom,
                data,
                Expectation::Length(
                    CommandCode::GetPseudoRandom,
                    16,
                    "asymmetric session command returned the wrong length",
                ),
            ),
        )
    } else if k == 9 {
        Ok(make_delete(false, authentication_id, ObjectType::AuthenticationKey))
    } else if k == 10 {
        let mut data: Vec<u8> = Vec::new();
        write_u16(&mut data, 8);
        assert(data@ =~= u16_be(8));
        Ok(
            make_command(
                true,
                CommandCode::GetPseudoRandom,
                data,
                Expectation::Length(
                    CommandCode::GetPseudoRandom,
                    8,
                    "established asymmetric session lost its authorization snapshot",
                ),
            ),
        )
    } else if k == 11 {
        let mut data: Vec<u8> = Vec::new();
        write_u16(&mut data, authentication_id);
        append(&mut data, &ephemeral_public);
        assert(data@ =~= u16_be(authentication_id) + ephemeral_public@);
        Ok(
            make_plain(
                CommandCode::CreateSession.to_byte(),
                data,
                Expectation::Error(DeviceError::ObjectNotFound),
            ),
        )
    } else if k == 12 {
        Ok(make_close(true))
    } else if k == 13 {
        Ok(make_close(false))
    } else {
        Ok(Step::Done)
    }
}

/// The steps of the case: force audit rejects commands when the log is full.
pub open spec fn force_steps(
    credentials: CredentialsModel,
    responses: Seq<Seq<u8>>,
) -> core::result::Result<
    StepModel,
    FailureModel,
> {
    let k = responses.len();
    if k == 0 {
        Ok(StepModel::Open { second: false, credentials })
    } else if k == 1 {
        Ok(
            command_step(
                false,
                CommandCode::SetOption,
                seq![OPTION_COMMAND_AUDIT] + u16_be(2) + seq![CommandCode::GetPseudoRandom.byte()]
                    + seq![OPTION_ON],
                ExpectationModel::Success(CommandCode::SetOption),
            ),
        )
    } else if k == 2 {
        Ok(
            command_step(
                false,
                CommandCode::SetOption,
                seq![OPTION_FORCE_AUDIT] + u16_be(1) + seq![OPTION_ON],
                ExpectationModel::Success(CommandCode::SetOption),
            ),
        )
    } else if k == 3 {
        Ok(
            command_step(
                false,
                CommandCode::GetDeviceInfo,
                Seq::<u8>::empty(),
                ExpectationModel::Room,
            ),
        )
    } else if responses[3].len() < 9 || responses[3][7] <= responses[3][8] {
        Err(FailureModel::Unmet("audit log was already full"@))
    } else {
        let room = responses[3][7] - responses[3][8];
        if k < 4 + room {
            Ok(
                command_step(
                    false,
                    CommandCode::GetPseudoRandom,
                    u16_be(1),
                    ExpectationModel::Length(
                        CommandCode::GetPseudoRandom,
                        1,
                        "audited random command returned the wrong length"@,
                    ),
                ),
            )
        } else if k == 4 + room {
            Ok(
                command_step(
                    false,
                    CommandCode::GetPseudoRandom,
                    u16_be(1),
                    ExpectationModel::Error(DeviceError::LogFull),
                ),
            )
        } else if k == 5 + room {
            Ok(close_step(false))
        } else {
            Ok(StepModel::Done)
        }
    }
}

/// Makes the steps of the case: force audit rejects commands when the log is full.
fn force_audit_scenario(
    credentials: &Credentials,
    responses: &Vec<Vec<u8>>,
) -> (step: core::result::Result<Step, Failure>)
    ensures
        check_model(step) == force_steps(credentials@, data_models(responses@)),
{
    let ghost models = data_models(responses@);
    let k: usize = responses.len();
    if k == 0 {
        Ok(Step::Open { second: false, credentials: credentials.copied() })
    } else if k == 1 {
        let mut data: Vec<u8> = Vec::new();
        data.push(OPTION_COMMAND_AUDIT);
        write_u16(&mut data, 2);
        data.push(CommandCode::GetPseudoRandom.to_byte());
        data.push(OPTION_ON);
        assert(data@ =~= seq![OPTION_COMMAND_AUDIT] + u16_be(2)
            + seq![CommandCode::GetPseudoRandom.byte()]
            + seq![OPTION_ON]);
        Ok(
            make_command(
                false,
                CommandCode::SetOption,
                data,
                Expectation::Success(CommandCode::SetOption),
            ),
        )
    } else if k == 2 {
        let mut data: Vec<u8> = Vec::new();
        data.push(OPTION_FORCE_AUDIT);
        write_u16(&mut data, 1);
        data.push(OPTION_ON);
        assert(data@ =~= seq![OPTION_FORCE_AUDIT] + u16_be(1) + seq![OPTION_ON]);
        Ok(
            make_command(
                false,
                CommandCode::SetOption,
                data,
                Expectation::Success(CommandCode::SetOption),
            ),
        )
    } else if k == 3 {
        let data: Vec<u8> = Vec::new();
        assert(data@ =~= Seq::<u8>::empty());
        Ok(make_command(false, CommandCode::GetDeviceInfo, data, Expectation::Room))
    } else if responses[3].len() < 9 || responses[3][7] <= responses[3][8] {
        Err(Failure::Unmet("audit log was already full"))
    } else {
        let room: usize = (responses[3][7] - responses[3][8]) as usize;
        if k < 4 + room {
            let mut data: Vec<u8> = Vec::new();
            write_u16(&mut data, 1);
            assert(data@ =~= u16_be(1));
            Ok(
                make_command(
                    false,
                    CommandCode::GetPseudoRandom,
                    data,
                    Expectation::Length(
                        CommandCode::GetPseudoRandom,
                        1,
                        "audited random command returned the wrong length",
                    ),
                ),
            )
        } else if k == 4 + room {
            let mut data: Vec<u8> = Vec::new();
            write_u16(&mut data, 1);
            assert(data@ =~= u16_be(1));
            Ok(
                make_command(
                    false,
                    CommandCode::GetPseudoRandom,
                    data,
                    Expectation::Error(DeviceError::LogFull),
                ),
            )
        } else if k == 5 + room {
            Ok(make_close(false))
        } else {
            Ok(Step::Done)
        }
    }
}


/// The steps of the case: malformed and unknown frames.
pub open spec fn malformed_steps(responses: Seq<Seq<u8>>) -> core::result::Result<
    StepModel,
    FailureModel,
> {
    let k = responses.len();
    if k == 0 {
        Ok(
            StepModel::Raw {
                request: seq![CommandCode::Echo.byte()] + seq![0u8, 1],
                expected: DeviceError::WrongLength,
            },
        )
    } else if k == 1 {
        Ok(plain_step(2, Seq::<u8>::empty(), ExpectationModel::Error(DeviceError::InvalidCommand)))
    } else {
        Ok(StepModel::Done)
    }
}

/// Makes the steps of the case: malformed and unknown frames.
fn malformed_frame_scenario(responses: &Vec<Vec<u8>>) -> (step: core::result::Result<Step, Failure>)
    ensures
        check_model(step) == malformed_steps(data_models(responses@)),
{
    let ghost models = data_models(responses@);
    let k: usize = responses.len();
    if k == 0 {
        let mut data: Vec<u8> = Vec::new();
        data.push(CommandCode::Echo.to_byte());
        data.push(0);
        data.push(1);
        assert(data@ =~= seq![CommandCode::Echo.byte()] + seq![0u8, 1]);
        Ok(Step::Raw { request: data, expected: DeviceError::WrongLength })
    } else if k == 1 {
        let data: Vec<u8> = Vec::new();
        assert(data@ =~= Seq::<u8>::empty());
        Ok(make_plain(2, data, Expectation::Error(DeviceError::InvalidCommand)))
    } else {
        Ok(Step::Done)
    }
}

/// The steps of the case: plain echo.
pub open spec fn echo_steps(responses: Seq<Seq<u8>>) -> core::result::Result<
    StepModel,
    FailureModel,
> {
    let k = responses.len();
    if k == 0 {
        Ok(
            plain_step(
                CommandCode::Echo.byte(),
                encode_utf8("yubihsm qualification echo"@),
                ExpectationModel::Data(
                    CommandCode::Echo,
                    encode_utf8("yubihsm qualification echo"@),
                    "echo payload changed"@,
                ),
            ),
        )
    } else {
        Ok(StepModel::Done)
    }
}

/// Makes the steps of the case: plain echo.
fn echo_scenario(responses: &Vec<Vec<u8>>) -> (step: core::result::Result<Step, Failure>)
    ensures
        check_model(step) == echo_steps(data_models(responses@)),
{
    let ghost models = data_models(responses@);
    let k: usize = responses.len();
    if k == 0 {
        let mut data: Vec<u8> = Vec::new();
        append(&mut data, "yubihsm qualification echo".as_bytes());
        assert(data@ =~= encode_utf8("yubihsm qualification echo"@));
        let mut wanted: Vec<u8> = Vec::new();
        append(&mut wanted, "yubihsm qualification echo".as_bytes());
        assert(wanted@ =~= encode_utf8("yubihsm qualification echo"@));
        Ok(
            make_plain(
                CommandCode::Echo.to_byte(),
                data,
                Expectation::Data(CommandCode::Echo, wanted, "echo payload changed"),
            ),
        )
    } else {
        Ok(Step::Done)
    }
}

/// The steps of the case: device identity.
pub open spec fn identity_steps(responses: Seq<Seq<u8>>) -> core::result::Result<
    StepModel,
    FailureModel,
> {
    let k = responses.len();
    if k == 0 {
        Ok(
            plain_step(
                CommandCode::GetDeviceInfo.byte(),
                Seq::<u8>::empty(),
                ExpectationModel::Information,
            ),
        )
    } else {
        Ok(StepModel::Done)
    }
}

/// Makes the steps of the case: device identity.
fn device_identity_scenario(responses: &Vec<Vec<u8>>) -> (step: core::result::Result<Step, Failure>)
    ensures
        check_model(step) == identity_steps(data_models(responses@)),
{
    let ghost models = data_models(responses@);
    let k: usize = responses.len();
    if k == 0 {
        let data: Vec<u8> = Vec::new();
        assert(data@ =~= Seq::<u8>::empty());
        Ok(
            make_plain(
                CommandCode::GetDeviceInfo.to_byte(),
                data,
                Expectation::Information,
            ),
        )
    } else {
        Ok(Step::Done)
    }
}

/// The steps of the case: device public key.
pub open spec fn public_key_steps(responses: Seq<Seq<u8>>) -> core::result::Result<
    StepModel,
    FailureModel,
> {
    let k = responses.len();
    if k == 0 {
        Ok(
            plain_step(
                CommandCode::GetDevicePublicKey.byte(),
                Seq::<u8>::empty(),
                ExpectationModel::DeviceKey,
            ),
        )
    } else {
        Ok(StepModel::Done)
    }
}

/// Makes the steps of the case: device public key.
fn device_public_key_scenario(
    responses: &Vec<Vec<u8>>,
) -> (step: core::result::Result<Step, Failure>)
    ensures
        check_model(step) == public_key_steps(data_models(responses@)),
{
    let ghost models = data_models(responses@);
    let k: usize = responses.len();
    if k == 0 {
        let data: Vec<u8> = Vec::new();
        assert(data@ =~= Seq::<u8>::empty());
        Ok(
            make_plain(
                CommandCode::GetDevicePublicKey.to_byte(),
                data,
                Expectation::DeviceKey,
            ),
        )
    } else {
        Ok(Step::Done)
    }
}

/// The steps of the case: plain session boundary.
pub open spec fn boundary_steps(responses: Seq<Seq<u8>>) -> core::result::Result<
    StepModel,
    FailureModel,
> {
    let k = responses.len();
    if k == 0 {
        Ok(
            plain_step(
                CommandCode::GetStorageInfo.byte(),
                Seq::<u8>::empty(),
                ExpectationModel::Error(DeviceError::InvalidCommand),
            ),
        )
    } else {
        Ok(StepModel::Done)
    }
}

/// Makes the steps of the case: plain session boundary.
fn plain_boundary_scenario(responses: &Vec<Vec<u8>>) -> (step: core::result::Result<Step, Failure>)
    ensures
        check_model(step) == boundary_steps(data_models(responses@)),
{
    let ghost models = data_models(responses@);
    let k: usize = responses.len();
    if k == 0 {
        let data: Vec<u8> = Vec::new();
        assert(data@ =~= Seq::<u8>::empty());
        Ok(
            make_plain(
                CommandCode::GetStorageInfo.to_byte(),
                data,
                Expectation::Error(DeviceError::InvalidCommand),
            ),
        )
    } else {
        Ok(Step::Done)
    }
}

/// The steps of the case: symmetric authenticated session.
pub open spec fn session_steps(
    credentials: CredentialsModel,
    responses: Seq<Seq<u8>>,
) -> core::result::Result<
    StepModel,
    FailureModel,
> {
    let k = responses.len();
    if k == 0 {
        Ok(StepModel::Open { second: false, credentials })
    } else if k == 1 {
        Ok(
            command_step(
                false,
                CommandCode::Echo,
                encode_utf8("encrypted echo"@),
                ExpectationModel::Data(
                    CommandCode::Echo,
                    encode_utf8("encrypted echo"@),
                    "encrypted echo payload changed"@,
                ),
            ),
        )
    } else if k == 2 {
        Ok(
            command_step(
                false,
                CommandCode::GetPseudoRandom,
                u16_be(32),
                ExpectationModel::Length(
                    CommandCode::GetPseudoRandom,
                    32,
                    "random response has the wrong length"@,
                ),
            ),
        )
    } else if k == 3 {
        Ok(close_step(false))
    } else {
        Ok(StepModel::Done)
    }
}

/// Makes the steps of the case: symmetric authenticated session.
fn secure_session_scenario(
    credentials: &Credentials,
    responses: &Vec<Vec<u8>>,
) -> (step: core::result::Result<Step, Failure>)
    ensures
        check_model(step) == session_steps(credentials@, data_models(responses@)),
{
    let ghost models = data_models(responses@);
    let k: usize = responses.len();
    if k == 0 {
        Ok(Step::Open { second: false, credentials: credentials.copied() })
    } else if k == 1 {
        let mut data: Vec<u8> = Vec::new();
        append(&mut data, "encrypted echo".as_bytes());
        assert(data@ =~= encode_utf8("encrypted echo"@));
        let mut wanted: Vec<u8> = Vec::new();
        append(&mut wanted, "encrypted echo".as_bytes());
        assert(wanted@ =~= encode_utf8("encrypted echo"@));
        Ok(
            make_command(
                false,
                CommandCode::Echo,
                data,
                Expectation::Data(CommandCode::Echo, wanted, "encrypted echo payload changed"),
            ),
        )
    } else if k == 2 {
        let mut data: Vec<u8> = Vec::new();
        write_u16(&mut data, 32);
        assert(data@ =~= u16_be(32));
        Ok(
            make_command(
                false,
                CommandCode::GetPseudoRandom,
                data,
                Expectation::Length(
                    CommandCode::GetPseudoRandom,
                    32,
                    "random response has the wrong length",
                ),
            ),
        )
    } else if k == 3 {
        Ok(make_close(false))
    } else {
        Ok(Step::Done)
    }
}

/// The steps of the case: opaque object lifecycle.
pub open spec fn opaque_steps(
    credentials: CredentialsModel,
    responses: Seq<Seq<u8>>,
) -> core::result::Result<
    StepModel,
    FailureModel,
> {
    let k = responses.len();
    if k == 0 {
        Ok(StepModel::Open { second: false, credentials })
    } else if k == 1 {
        Ok(list_step())
    } else {
        match unused(responses[1], ObjectType::Opaque, Seq::empty(), 0x7e00) {
            Err(failure) => Err(failure),
            Ok(id) => {
                if k == 2 {
                    Ok(
                        command_step(
                            false,
                            CommandCode::PutOpaque,
                            head(
                                id,
                                encode_utf8("qualification"@),
                                1,
                                can_get_opaque(),
                                Algorithm::OpaqueData.byte(),
                            ) + encode_utf8("temporary qualification object"@),
                            ExpectationModel::Data(
                                CommandCode::PutOpaque,
                                u16_be(id),
                                "Put Opaque returned a different object ID"@,
                            ),
                        ),
                    )
                } else if k == 3 {
                    Ok(
                        command_step(
                            false,
                            CommandCode::GetOpaque,
                            u16_be(id),
                            ExpectationModel::Data(
                                CommandCode::GetOpaque,
                                encode_utf8("temporary qualification object"@),
                                "Get Opaque returned different data"@,
                            ),
                        ),
                    )
                } else if k == 4 {
                    Ok(
                        command_step(
                            false,
                            CommandCode::GetObjectInfo,
                            u16_be(id) + seq![ObjectType::Opaque.byte()],
                            ExpectationModel::Length(
                                CommandCode::GetObjectInfo,
                                66,
                                "object info is not 66 bytes"@,
                            ),
                        ),
                    )
                } else if k == 5 {
                    Ok(
                        command_step(
                            false,
                            CommandCode::ListObjects,
                            Seq::<u8>::empty(),
                            ExpectationModel::Listed(id, ObjectType::Opaque),
                        ),
                    )
                } else if k == 6 {
                    Ok(delete_step(false, id, ObjectType::Opaque))
                } else if k == 7 {
                    Ok(
                        command_step(
                            false,
                            CommandCode::GetOpaque,
                            u16_be(id),
                            ExpectationModel::Error(DeviceError::ObjectNotFound),
                        ),
                    )
                } else if k == 8 {
                    Ok(close_step(false))
                } else {
                    Ok(StepModel::Done)
                }
            },
        }
    }
}

/// Makes the steps of the case: opaque object lifecycle.
fn opaque_scenario(
    credentials: &Credentials,
    responses: &Vec<Vec<u8>>,
) -> (step: core::result::Result<Step, Failure>)
    ensures
        check_model(step) == opaque_steps(credentials@, data_models(responses@)),
{
    let ghost models = data_models(responses@);
    let k: usize = responses.len();
    if k == 0 {
        Ok(Step::Open { second: false, credentials: credentials.copied() })
    } else if k == 1 {
        Ok(make_list())
    } else {
        let taken: Vec<u16> = Vec::new();
        assert(taken@ =~= Seq::<u16>::empty());
        let id: u16 = unused_id(&responses[1], ObjectType::Opaque, &taken, 0x7e00)?;
        if k == 2 {
            let mut data: Vec<u8> = Vec::new();
            append(
                &mut data,
                &make_head(
                    id,
                    "qualification".as_bytes(),
                    1,
                    make_can_get_opaque(),
                    Algorithm::OpaqueData.to_byte(),
                ),
            );
            append(&mut data, "temporary qualification object".as_bytes());
            assert(data@ =~= head(
                id,
                encode_utf8("qualification"@),
                1,
                can_get_opaque(),
                Algorithm::OpaqueData.byte(),
            ) + encode_utf8("temporary qualification object"@));
            let mut wanted: Vec<u8> = Vec::new();
            write_u16(&mut wanted, id);
            assert(wanted@ =~= u16_be(id));
            Ok(
                make_command(
                    false,
                    CommandCode::PutOpaque,
                    data,
                    Expectation::Data(
                        CommandCode::PutOpaque,
                        wanted,
                        "Put Opaque returned a different object ID",
                    ),
                ),
            )
        } else if k == 3 {
            let mut data: Vec<u8> = Vec::new();
            write_u16(&mut data, id);
            assert(data@ =~= u16_be(id));
            let mut wanted: Vec<u8> = Vec::new();
            append(&mut wanted, "temporary qualification object".as_bytes());
            assert(wanted@ =~= encode_utf8("temporary qualification object"@));
            Ok(
                make_command(
                    false,
                    CommandCode::GetOpaque,
                    data,
                    Expectation::Data(
                        CommandCode::GetOpaque,
                        wanted,
                        "Get Opaque returned different data",
                    ),
                ),
            )
        } else if k == 4 {
            let mut data: Vec<u8> = Vec::new();
            write_u16(&mut data, id);
            data.push(ObjectType::Opaque.to_byte());
            assert(data@ =~= u16_be(id) + seq![ObjectType::Opaque.byte()]);
            Ok(
                make_command(
                    false,
                    CommandCode::GetObjectInfo,
                    data,
                    Expectation::Length(
                        CommandCode::GetObjectInfo,
                        66,
                        "object info is not 66 bytes",
                    ),
                ),
            )
        } else if k == 5 {
            let data: Vec<u8> = Vec::new();
            assert(data@ =~= Seq::<u8>::empty());
            Ok(
                make_command(
                    false,
                    CommandCode::ListObjects,
                    data,
                    Expectation::Listed(id, ObjectType::Opaque),
                ),
            )
        } else if k == 6 {
            Ok(make_delete(false, id, ObjectType::Opaque))
        } else if k == 7 {
            let mut data: Vec<u8> = Vec::new();
            write_u16(&mut data, id);
            assert(data@ =~= u16_be(id));
            Ok(
                make_command(
                    false,
                    CommandCode::GetOpaque,
                    data,
                    Expectation::Error(DeviceError::ObjectNotFound),
                ),
            )
        } else if k == 8 {
            Ok(make_close(false))
        } else {
            Ok(Step::Done)
        }
    }
}

/// The steps of the case: authorization capabilities, delegation, and domains.
pub open spec fn authorization_steps(
    credentials: CredentialsModel,
    responses: Seq<Seq<u8>>,
) -> core::result::Result<
    StepModel,
    FailureModel,
> {
    let k = responses.len();
    if k == 0 {
        Ok(StepModel::Open { second: false, credentials })
    } else if k == 1 {
        Ok(list_step())
    } else {
        match unused(responses[1], ObjectType::AuthenticationKey, Seq::empty(), 0x7e40) {
            Err(failure) => Err(failure),
            Ok(authentication_id) => {
                match unused(responses[1], ObjectType::Opaque, Seq::empty(), 0x7e80) {
                    Err(failure) => Err(failure),
                    Ok(opaque_id) => {
                        let one_beyond = beyond(opaque_id, 1);
                        let two_beyond = beyond(opaque_id, 2);
                        if k == 2 {
                            Ok(
                                command_step(
                                    false,
                                    CommandCode::PutAuthenticationKey,
                                    head(
                                        authentication_id,
                                        encode_utf8("qualification auth"@),
                                        1,
                                        can_get_and_put_opaque(),
                                        Algorithm::Aes128YubicoAuthentication.byte(),
                                    ) + u64_be(can_get_opaque().word()) + restricted_keys(),
                                    ExpectationModel::Success(CommandCode::PutAuthenticationKey),
                                ),
                            )
                        } else if k == 3 {
                            Ok(
                                StepModel::Open {
                                    second: true,
                                    credentials: CredentialsModel {
                                        authentication_key_id: authentication_id,
                                        static_keys: restricted_keys(),
                                    },
                                },
                            )
                        } else if k == 4 {
                            Ok(
                                command_step(
                                    true,
                                    CommandCode::PutOpaque,
                                    head(
                                        opaque_id,
                                        encode_utf8("restricted"@),
                                        1,
                                        can_get_opaque(),
                                        Algorithm::OpaqueData.byte(),
                                    ) + encode_utf8("visible"@),
                                    ExpectationModel::Success(CommandCode::PutOpaque),
                                ),
                            )
                        } else if k == 5 {
                            Ok(
                                command_step(
                                    true,
                                    CommandCode::GetOpaque,
                                    u16_be(opaque_id),
                                    ExpectationModel::Data(
                                        CommandCode::GetOpaque,
                                        encode_utf8("visible"@),
                                        "restricted session could not read its object"@,
                                    ),
                                ),
                            )
                        } else if k == 6 {
                            Ok(
                                command_step(
                                    true,
                                    CommandCode::PutOpaque,
                                    head(
                                        one_beyond,
                                        encode_utf8("wrong-domain"@),
                                        2,
                                        can_get_opaque(),
                                        Algorithm::OpaqueData.byte(),
                                    ) + encode_utf8("hidden"@),
                                    ExpectationModel::Error(DeviceError::InsufficientPermissions),
                                ),
                            )
                        } else if k == 7 {
                            Ok(
                                command_step(
                                    true,
                                    CommandCode::PutOpaque,
                                    head(
                                        two_beyond,
                                        encode_utf8("over-delegated"@),
                                        1,
                                        can_sign_hmac(),
                                        Algorithm::OpaqueData.byte(),
                                    ) + encode_utf8("denied"@),
                                    ExpectationModel::Error(DeviceError::InsufficientPermissions),
                                ),
                            )
                        } else if k == 8 {
                            Ok(close_step(true))
                        } else if k == 9 {
                            Ok(delete_step(false, opaque_id, ObjectType::Opaque))
                        } else if k == 10 {
                            Ok(delete_step(false, authentication_id, ObjectType::AuthenticationKey))
                        } else if k == 11 {
                            Ok(close_step(false))
                        } else {
                            Ok(StepModel::Done)
                        }
                    },
                }
            },
        }
    }
}

/// Makes the steps of the case: authorization capabilities, delegation, and domains.
fn authorization_scenario(
    credentials: &Credentials,
    responses: &Vec<Vec<u8>>,
) -> (step: core::result::Result<Step, Failure>)
    ensures
        check_model(step) == authorization_steps(credentials@, data_models(responses@)),
{
    let ghost models = data_models(responses@);
    let k: usize = responses.len();
    if k == 0 {
        Ok(Step::Open { second: false, credentials: credentials.copied() })
    } else if k == 1 {
        Ok(make_list())
    } else {
        let taken: Vec<u16> = Vec::new();
        assert(taken@ =~= Seq::<u16>::empty());
        let authentication_id: u16 = unused_id(
            &responses[1],
            ObjectType::AuthenticationKey,
            &taken,
            0x7e40,
        )?;
        let taken: Vec<u16> = Vec::new();
        assert(taken@ =~= Seq::<u16>::empty());
        let opaque_id: u16 = unused_id(&responses[1], ObjectType::Opaque, &taken, 0x7e80)?;
        let one_beyond: u16 = count_beyond(opaque_id, 1);
        let two_beyond: u16 = count_beyond(opaque_id, 2);
        if k == 2 {
            let mut data: Vec<u8> = Vec::new();
            append(
                &mut data,
                &make_head(
                    authentication_id,
                    "qualification auth".as_bytes(),
                    1,
                    make_can_get_and_put_opaque(),
                    Algorithm::Aes128YubicoAuthentication.to_byte(),
                ),
            );
            append(&mut data, &make_can_get_opaque().to_bytes());
            append(&mut data, &make_restricted_keys());
            assert(data@ =~= head(
                authentication_id,
                encode_utf8("qualification auth"@),
                1,
                can_get_and_put_opaque(),
                Algorithm::Aes128YubicoAuthentication.byte(),
            ) + u64_be(can_get_opaque().word()) + restricted_keys());
            Ok(
                make_command(
                    false,
                    CommandCode::PutAuthenticationKey,
                    data,
                    Expectation::Success(CommandCode::PutAuthenticationKey),
                ),
            )
        } else if k == 3 {
            Ok(
                Step::Open {
                    second: true,
                    credentials: Credentials::from_static_keys(
                        authentication_id,
                        make_restricted_array(),
                    ),
                },
            )
        } else if k == 4 {
            let mut data: Vec<u8> = Vec::new();
            append(
                &mut data,
                &make_head(
                    opaque_id,
                    "restricted".as_bytes(),
                    1,
                    make_can_get_opaque(),
                    Algorithm::OpaqueData.to_byte(),
                ),
            );
            append(&mut data, "visible".as_bytes());
            assert(data@ =~= head(
                opaque_id,
                encode_utf8("restricted"@),
                1,
                can_get_opaque(),
                Algorithm::OpaqueData.byte(),
            ) + encode_utf8("visible"@));
            Ok(
                make_command(
                    true,
                    CommandCode::PutOpaque,
                    data,
                    Expectation::Success(CommandCode::PutOpaque),
                ),
            )
        } else if k == 5 {
            let mut data: Vec<u8> = Vec::new();
            write_u16(&mut data, opaque_id);
            assert(data@ =~= u16_be(opaque_id));
            let mut wanted: Vec<u8> = Vec::new();
            append(&mut wanted, "visible".as_bytes());
            assert(wanted@ =~= encode_utf8("visible"@));
            Ok(
                make_command(
                    true,
                    CommandCode::GetOpaque,
                    data,
                    Expectation::Data(
                        CommandCode::GetOpaque,
                        wanted,
                        "restricted session could not read its object",
                    ),
                ),
            )
        } else if k == 6 {
            let mut data: Vec<u8> = Vec::new();
            append(
                &mut data,
                &make_head(
                    one_beyond,
                    "wrong-domain".as_bytes(),
                    2,
                    make_can_get_opaque(),
                    Algorithm::OpaqueData.to_byte(),
                ),
            );
            append(&mut data, "hidden".as_bytes());
            assert(data@ =~= head(
                one_beyond,
                encode_utf8("wrong-domain"@),
                2,
                can_get_opaque(),
                Algorithm::OpaqueData.byte(),
            ) + encode_utf8("hidden"@));
            Ok(
                make_command(
                    true,
                    CommandCode::PutOpaque,
                    data,
                    Expectation::Error(DeviceError::InsufficientPermissions),
                ),
            )
        } else if k == 7 {
            let mut data: Vec<u8> = Vec::new();
            append(
                &mut data,
                &make_head(
                    two_beyond,
                    "over-delegated".as_bytes(),
                    1,
                    make_can_sign_hmac(),
                    Algorithm::OpaqueData.to_byte(),
                ),
            );
            append(&mut data, "denied".as_bytes());
            assert(data@ =~= head(
                two_beyond,
                encode_utf8("over-delegated"@),
                1,
                can_sign_hmac(),
                Algorithm::OpaqueData.byte(),
            ) + encode_utf8("denied"@));
            Ok(
                make_command(
                    true,
                    CommandCode::PutOpaque,
                    data,
                    Expectation::Error(DeviceError::InsufficientPermissions),
                ),
            )
        } else if k == 8 {
            Ok(make_close(true))
        } else if k == 9 {
            Ok(make_delete(false, opaque_id, ObjectType::Opaque))
        } else if k == 10 {
            Ok(make_delete(false, authentication_id, ObjectType::AuthenticationKey))
        } else if k == 11 {
            Ok(make_close(false))
        } else {
            Ok(Step::Done)
        }
    }
}

/// The steps of the case: option inventory and validation.
pub open spec fn option_steps(
    credentials: CredentialsModel,
    responses: Seq<Seq<u8>>,
) -> core::result::Result<
    StepModel,
    FailureModel,
> {
    let k = responses.len();
    if k == 0 {
        Ok(StepModel::Open { second: false, credentials })
    } else if k == 1 {
        Ok(
            command_step(
                false,
                CommandCode::GetOption,
                seq![OPTION_FORCE_AUDIT],
                ExpectationModel::Scalar(OPTION_FORCE_AUDIT),
            ),
        )
    } else if k == 2 {
        Ok(
            command_step(
                false,
                CommandCode::GetOption,
                seq![OPTION_COMMAND_AUDIT],
                ExpectationModel::AuditPairs,
            ),
        )
    } else if k == 3 {
        Ok(
            command_step(
                false,
                CommandCode::GetOption,
                seq![OPTION_ALGORITHM_TOGGLE],
                ExpectationModel::Pairs(OPTION_ALGORITHM_TOGGLE),
            ),
        )
    } else if k == 4 {
        Ok(
            command_step(
                false,
                CommandCode::GetOption,
                seq![OPTION_FIPS_MODE],
                ExpectationModel::Scalar(OPTION_FIPS_MODE),
            ),
        )
    } else if k == 5 {
        Ok(
            command_step(
                false,
                CommandCode::GetOption,
                seq![255u8],
                ExpectationModel::Error(DeviceError::InvalidData),
            ),
        )
    } else if k == 6 {
        Ok(close_step(false))
    } else {
        Ok(StepModel::Done)
    }
}

/// Makes the steps of the case: option inventory and validation.
fn option_scenario(
    credentials: &Credentials,
    responses: &Vec<Vec<u8>>,
) -> (step: core::result::Result<Step, Failure>)
    ensures
        check_model(step) == option_steps(credentials@, data_models(responses@)),
{
    let ghost models = data_models(responses@);
    let k: usize = responses.len();
    if k == 0 {
        Ok(Step::Open { second: false, credentials: credentials.copied() })
    } else if k == 1 {
        let mut data: Vec<u8> = Vec::new();
        data.push(OPTION_FORCE_AUDIT);
        assert(data@ =~= seq![OPTION_FORCE_AUDIT]);
        Ok(
            make_command(
                false,
                CommandCode::GetOption,
                data,
                Expectation::Scalar(OPTION_FORCE_AUDIT),
            ),
        )
    } else if k == 2 {
        let mut data: Vec<u8> = Vec::new();
        data.push(OPTION_COMMAND_AUDIT);
        assert(data@ =~= seq![OPTION_COMMAND_AUDIT]);
        Ok(make_command(false, CommandCode::GetOption, data, Expectation::AuditPairs))
    } else if k == 3 {
        let mut data: Vec<u8> = Vec::new();
        data.push(OPTION_ALGORITHM_TOGGLE);
        assert(data@ =~= seq![OPTION_ALGORITHM_TOGGLE]);
        Ok(
            make_command(
                false,
                CommandCode::GetOption,
                data,
                Expectation::Pairs(OPTION_ALGORITHM_TOGGLE),
            ),
        )
    } else if k == 4 {
        let mut data: Vec<u8> = Vec::new();
        data.push(OPTION_FIPS_MODE);
        assert(data@ =~= seq![OPTION_FIPS_MODE]);
        Ok(make_command(false, CommandCode::GetOption, data, Expectation::Scalar(OPTION_FIPS_MODE)))
    } else if k == 5 {
        let mut data: Vec<u8> = Vec::new();
        data.push(255);
        assert(data@ =~= seq![255u8]);
        Ok(
            make_command(
                false,
                CommandCode::GetOption,
                data,
                Expectation::Error(DeviceError::InvalidData),
            ),
        )
    } else if k == 6 {
        Ok(make_close(false))
    } else {
        Ok(Step::Done)
    }
}

/// The steps of the case: authenticated negative command matrix.
pub open spec fn negative_steps(
    credentials: CredentialsModel,
    responses: Seq<Seq<u8>>,
) -> core::result::Result<
    StepModel,
    FailureModel,
> {
    let k = responses.len();
    if k == 0 {
        Ok(StepModel::Open { second: false, credentials })
    } else if k == 1 {
        Ok(
            command_step(
                false,
                CommandCode::GetPseudoRandom,
                Seq::<u8>::empty(),
                ExpectationModel::Error(DeviceError::WrongLength),
            ),
        )
    } else if k == 2 {
        Ok(
            command_step(
                false,
                CommandCode::GetOption,
                Seq::<u8>::empty(),
                ExpectationModel::Error(DeviceError::WrongLength),
            ),
        )
    } else if k == 3 {
        Ok(
            command_step(
                false,
                CommandCode::ListObjects,
                seq![1u8],
                ExpectationModel::Error(DeviceError::WrongLength),
            ),
        )
    } else if k == 4 {
        Ok(
            command_step(
                false,
                CommandCode::GetObjectInfo,
                seq![0u8, 1],
                ExpectationModel::Error(DeviceError::WrongLength),
            ),
        )
    } else if k == 5 {
        Ok(close_step(false))
    } else {
        Ok(StepModel::Done)
    }
}

/// Makes the steps of the case: authenticated negative command matrix.
fn negative_command_scenario(
    credentials: &Credentials,
    responses: &Vec<Vec<u8>>,
) -> (step: core::result::Result<Step, Failure>)
    ensures
        check_model(step) == negative_steps(credentials@, data_models(responses@)),
{
    let ghost models = data_models(responses@);
    let k: usize = responses.len();
    if k == 0 {
        Ok(Step::Open { second: false, credentials: credentials.copied() })
    } else if k == 1 {
        let data: Vec<u8> = Vec::new();
        assert(data@ =~= Seq::<u8>::empty());
        Ok(
            make_command(
                false,
                CommandCode::GetPseudoRandom,
                data,
                Expectation::Error(DeviceError::WrongLength),
            ),
        )
    } else if k == 2 {
        let data: Vec<u8> = Vec::new();
        assert(data@ =~= Seq::<u8>::empty());
        Ok(
            make_command(
                false,
                CommandCode::GetOption,
                data,
                Expectation::Error(DeviceError::WrongLength),
            ),
        )
    } else if k == 3 {
        let mut data: Vec<u8> = Vec::new();
        data.push(1);
        assert(data@ =~= seq![1u8]);
        Ok(
            make_command(
                false,
                CommandCode::ListObjects,
                data,
                Expectation::Error(DeviceError::WrongLength),
            ),
        )
    } else if k == 4 {
        let mut data: Vec<u8> = Vec::new();
        data.push(0);
        data.push(1);
        assert(data@ =~= seq![0u8, 1]);
        Ok(
            make_command(
                false,
                CommandCode::GetObjectInfo,
                data,
                Expectation::Error(DeviceError::WrongLength),
            ),
        )
    } else if k == 5 {
        Ok(make_close(false))
    } else {
        Ok(Step::Done)
    }
}

/// The steps of the case: HMAC-SHA-256 known answer and verification.
pub open spec fn hmac_steps(
    credentials: CredentialsModel,
    responses: Seq<Seq<u8>>,
) -> core::result::Result<
    StepModel,
    FailureModel,
> {
    let k = responses.len();
    if k == 0 {
        Ok(StepModel::Open { second: false, credentials })
    } else if k == 1 {
        Ok(list_step())
    } else {
        match unused(responses[1], ObjectType::HmacKey, Seq::empty(), 0x7d00) {
            Err(failure) => Err(failure),
            Ok(id) => {
                if k == 2 {
                    Ok(
                        command_step(
                            false,
                            CommandCode::PutHmacKey,
                            head(
                                id,
                                encode_utf8("qualification hmac"@),
                                1,
                                can_use_hmac(),
                                Algorithm::HmacSha256.byte(),
                            ) + hmac_key(),
                            ExpectationModel::Success(CommandCode::PutHmacKey),
                        ),
                    )
                } else if k == 3 {
                    Ok(
                        command_step(
                            false,
                            CommandCode::SignHmac,
                            u16_be(id) + encode_utf8("Hi There"@),
                            ExpectationModel::Success(CommandCode::SignHmac),
                        ),
                    )
                } else if k == 4 {
                    Ok(
                        compute_step(
                            Oracle::Hmac(HashAlgorithm::Sha256),
                            hmac_key(),
                            Seq::<u8>::empty(),
                            encode_utf8("Hi There"@),
                            WantedModel::Bytes(
                                responses[3],
                                "local HMAC oracle failed"@,
                                "HMAC-SHA-256 known answer mismatch"@,
                            ),
                        ),
                    )
                } else if k == 5 {
                    Ok(
                        command_step(
                            false,
                            CommandCode::VerifyHmac,
                            u16_be(id) + responses[3] + encode_utf8("Hi There"@),
                            ExpectationModel::Data(
                                CommandCode::VerifyHmac,
                                seq![1u8],
                                "valid HMAC did not verify"@,
                            ),
                        ),
                    )
                } else if k == 6 {
                    Ok(
                        command_step(
                            false,
                            CommandCode::VerifyHmac,
                            u16_be(id) + responses[3] + encode_utf8("Hi Therd"@),
                            ExpectationModel::Data(
                                CommandCode::VerifyHmac,
                                seq![0u8],
                                "tampered HMAC input verified"@,
                            ),
                        ),
                    )
                } else if k == 7 {
                    Ok(delete_step(false, id, ObjectType::HmacKey))
                } else if k == 8 {
                    Ok(close_step(false))
                } else {
                    Ok(StepModel::Done)
                }
            },
        }
    }
}

/// Makes the steps of the case: HMAC-SHA-256 known answer and verification.
fn hmac_scenario(
    credentials: &Credentials,
    responses: &Vec<Vec<u8>>,
) -> (step: core::result::Result<Step, Failure>)
    ensures
        check_model(step) == hmac_steps(credentials@, data_models(responses@)),
{
    let ghost models = data_models(responses@);
    let k: usize = responses.len();
    if k == 0 {
        Ok(Step::Open { second: false, credentials: credentials.copied() })
    } else if k == 1 {
        Ok(make_list())
    } else {
        let taken: Vec<u16> = Vec::new();
        assert(taken@ =~= Seq::<u16>::empty());
        let id: u16 = unused_id(&responses[1], ObjectType::HmacKey, &taken, 0x7d00)?;
        if k == 2 {
            let mut data: Vec<u8> = Vec::new();
            append(
                &mut data,
                &make_head(
                    id,
                    "qualification hmac".as_bytes(),
                    1,
                    make_can_use_hmac(),
                    Algorithm::HmacSha256.to_byte(),
                ),
            );
            append(&mut data, &make_hmac_key());
            assert(data@ =~= head(
                id,
                encode_utf8("qualification hmac"@),
                1,
                can_use_hmac(),
                Algorithm::HmacSha256.byte(),
            ) + hmac_key());
            Ok(
                make_command(
                    false,
                    CommandCode::PutHmacKey,
                    data,
                    Expectation::Success(CommandCode::PutHmacKey),
                ),
            )
        } else if k == 3 {
            let mut data: Vec<u8> = Vec::new();
            write_u16(&mut data, id);
            append(&mut data, "Hi There".as_bytes());
            assert(data@ =~= u16_be(id) + encode_utf8("Hi There"@));
            Ok(
                make_command(
                    false,
                    CommandCode::SignHmac,
                    data,
                    Expectation::Success(CommandCode::SignHmac),
                ),
            )
        } else if k == 4 {
            let mut key: Vec<u8> = Vec::new();
            append(&mut key, &make_hmac_key());
            assert(key@ =~= hmac_key());
            let parameter: Vec<u8> = Vec::new();
            assert(parameter@ =~= Seq::<u8>::empty());
            let mut data: Vec<u8> = Vec::new();
            append(&mut data, "Hi There".as_bytes());
            assert(data@ =~= encode_utf8("Hi There"@));
            let mut wanted: Vec<u8> = Vec::new();
            append(&mut wanted, &responses[3]);
            assert(wanted@ =~= models[3]);
            Ok(
                make_compute(
                    Oracle::Hmac(HashAlgorithm::Sha256),
                    key,
                    parameter,
                    data,
                    Wanted::Bytes(
                        wanted,
                        "local HMAC oracle failed",
                        "HMAC-SHA-256 known answer mismatch",
                    ),
                ),
            )
        } else if k == 5 {
            let mut data: Vec<u8> = Vec::new();
            write_u16(&mut data, id);
            append(&mut data, &responses[3]);
            append(&mut data, "Hi There".as_bytes());
            assert(data@ =~= u16_be(id) + models[3] + encode_utf8("Hi There"@));
            let mut wanted: Vec<u8> = Vec::new();
            wanted.push(1);
            assert(wanted@ =~= seq![1u8]);
            Ok(
                make_command(
                    false,
                    CommandCode::VerifyHmac,
                    data,
                    Expectation::Data(CommandCode::VerifyHmac, wanted, "valid HMAC did not verify"),
                ),
            )
        } else if k == 6 {
            let mut data: Vec<u8> = Vec::new();
            write_u16(&mut data, id);
            append(&mut data, &responses[3]);
            append(&mut data, "Hi Therd".as_bytes());
            assert(data@ =~= u16_be(id) + models[3] + encode_utf8("Hi Therd"@));
            let mut wanted: Vec<u8> = Vec::new();
            wanted.push(0);
            assert(wanted@ =~= seq![0u8]);
            Ok(
                make_command(
                    false,
                    CommandCode::VerifyHmac,
                    data,
                    Expectation::Data(
                        CommandCode::VerifyHmac,
                        wanted,
                        "tampered HMAC input verified",
                    ),
                ),
            )
        } else if k == 7 {
            Ok(make_delete(false, id, ObjectType::HmacKey))
        } else if k == 8 {
            Ok(make_close(false))
        } else {
            Ok(Step::Done)
        }
    }
}

/// The steps of the case: authenticated data and object wrapping.
pub open spec fn wrapping_steps(
    credentials: CredentialsModel,
    responses: Seq<Seq<u8>>,
) -> core::result::Result<
    StepModel,
    FailureModel,
> {
    let k = responses.len();
    if k == 0 {
        Ok(StepModel::Open { second: false, credentials })
    } else if k == 1 {
        Ok(list_step())
    } else {
        match unused(responses[1], ObjectType::WrapKey, Seq::empty(), 0x7d60) {
            Err(failure) => Err(failure),
            Ok(wrap_id) => {
                match unused(responses[1], ObjectType::Opaque, Seq::empty(), 0x7da0) {
                    Err(failure) => Err(failure),
                    Ok(opaque_id) => {
                        if k == 2 {
                            Ok(
                                command_step(
                                    false,
                                    CommandCode::PutWrapKey,
                                    head(
                                        wrap_id,
                                        encode_utf8("qualification wrap"@),
                                        1,
                                        can_wrap(),
                                        Algorithm::Aes256CcmWrap.byte(),
                                    ) + u64_be(can_travel_opaque().word()) + wrap_key(),
                                    ExpectationModel::Success(CommandCode::PutWrapKey),
                                ),
                            )
                        } else if k == 3 {
                            Ok(
                                command_step(
                                    false,
                                    CommandCode::WrapData,
                                    u16_be(wrap_id)
                                        + encode_utf8("qualification authenticated wrap data"@),
                                    ExpectationModel::Length(
                                        CommandCode::WrapData,
                                        67,
                                        "Wrap Data response has the wrong envelope length"@,
                                    ),
                                ),
                            )
                        } else if k == 4 {
                            Ok(
                                command_step(
                                    false,
                                    CommandCode::UnwrapData,
                                    u16_be(wrap_id) + responses[3],
                                    ExpectationModel::Data(
                                        CommandCode::UnwrapData,
                                        encode_utf8("qualification authenticated wrap data"@),
                                        "Unwrap Data did not recover the plaintext"@,
                                    ),
                                ),
                            )
                        } else if k == 5 {
                            Ok(
                                command_step(
                                    false,
                                    CommandCode::UnwrapData,
                                    u16_be(wrap_id) + tampered(responses[3]),
                                    ExpectationModel::Error(DeviceError::InvalidData),
                                ),
                            )
                        } else if k == 6 {
                            Ok(
                                command_step(
                                    false,
                                    CommandCode::PutOpaque,
                                    head(
                                        opaque_id,
                                        encode_utf8("wrapped-object"@),
                                        1,
                                        can_travel_opaque(),
                                        Algorithm::OpaqueData.byte(),
                                    ) + encode_utf8("qualification wrapped object"@),
                                    ExpectationModel::Success(CommandCode::PutOpaque),
                                ),
                            )
                        } else if k == 7 {
                            Ok(
                                command_step(
                                    false,
                                    CommandCode::ExportWrapped,
                                    u16_be(wrap_id) + seq![ObjectType::Opaque.byte()]
                                        + u16_be(opaque_id),
                                    ExpectationModel::Success(CommandCode::ExportWrapped),
                                ),
                            )
                        } else if k == 8 {
                            Ok(delete_step(false, opaque_id, ObjectType::Opaque))
                        } else if k == 9 {
                            Ok(
                                command_step(
                                    false,
                                    CommandCode::ImportWrapped,
                                    u16_be(wrap_id) + responses[7],
                                    ExpectationModel::Data(
                                        CommandCode::ImportWrapped,
                                        seq![ObjectType::Opaque.byte()] + u16_be(opaque_id),
                                        "Import Wrapped returned a different object identity"@,
                                    ),
                                ),
                            )
                        } else if k == 10 {
                            Ok(
                                command_step(
                                    false,
                                    CommandCode::GetOpaque,
                                    u16_be(opaque_id),
                                    ExpectationModel::Data(
                                        CommandCode::GetOpaque,
                                        encode_utf8("qualification wrapped object"@),
                                        "wrapped object material changed across export/import"@,
                                    ),
                                ),
                            )
                        } else if k == 11 {
                            Ok(delete_step(false, opaque_id, ObjectType::Opaque))
                        } else if k == 12 {
                            Ok(delete_step(false, wrap_id, ObjectType::WrapKey))
                        } else if k == 13 {
                            Ok(close_step(false))
                        } else {
                            Ok(StepModel::Done)
                        }
                    },
                }
            },
        }
    }
}

/// Makes the steps of the case: authenticated data and object wrapping.
fn wrapping_scenario(
    credentials: &Credentials,
    responses: &Vec<Vec<u8>>,
) -> (step: core::result::Result<Step, Failure>)
    ensures
        check_model(step) == wrapping_steps(credentials@, data_models(responses@)),
{
    let ghost models = data_models(responses@);
    let k: usize = responses.len();
    if k == 0 {
        Ok(Step::Open { second: false, credentials: credentials.copied() })
    } else if k == 1 {
        Ok(make_list())
    } else {
        let taken: Vec<u16> = Vec::new();
        assert(taken@ =~= Seq::<u16>::empty());
        let wrap_id: u16 = unused_id(&responses[1], ObjectType::WrapKey, &taken, 0x7d60)?;
        let taken: Vec<u16> = Vec::new();
        assert(taken@ =~= Seq::<u16>::empty());
        let opaque_id: u16 = unused_id(&responses[1], ObjectType::Opaque, &taken, 0x7da0)?;
        if k == 2 {
            let mut data: Vec<u8> = Vec::new();
            append(
                &mut data,
                &make_head(
                    wrap_id,
                    "qualification wrap".as_bytes(),
                    1,
                    make_can_wrap(),
                    Algorithm::Aes256CcmWrap.to_byte(),
                ),
            );
            append(&mut data, &make_can_travel_opaque().to_bytes());
            append(&mut data, &make_wrap_key());
            assert(data@ =~= head(
                wrap_id,
                encode_utf8("qualification wrap"@),
                1,
                can_wrap(),
                Algorithm::Aes256CcmWrap.byte(),
            ) + u64_be(can_travel_opaque().word()) + wrap_key());
            Ok(
                make_command(
                    false,
                    CommandCode::PutWrapKey,
                    data,
                    Expectation::Success(CommandCode::PutWrapKey),
                ),
            )
        } else if k == 3 {
            let mut data: Vec<u8> = Vec::new();
            write_u16(&mut data, wrap_id);
            append(&mut data, "qualification authenticated wrap data".as_bytes());
            assert(data@ =~= u16_be(wrap_id) + encode_utf8(
                "qualification authenticated wrap data"@,
            ));
            Ok(
                make_command(
                    false,
                    CommandCode::WrapData,
                    data,
                    Expectation::Length(
                        CommandCode::WrapData,
                        67,
                        "Wrap Data response has the wrong envelope length",
                    ),
                ),
            )
        } else if k == 4 {
            let mut data: Vec<u8> = Vec::new();
            write_u16(&mut data, wrap_id);
            append(&mut data, &responses[3]);
            assert(data@ =~= u16_be(wrap_id) + models[3]);
            let mut wanted: Vec<u8> = Vec::new();
            append(&mut wanted, "qualification authenticated wrap data".as_bytes());
            assert(wanted@ =~= encode_utf8("qualification authenticated wrap data"@));
            Ok(
                make_command(
                    false,
                    CommandCode::UnwrapData,
                    data,
                    Expectation::Data(
                        CommandCode::UnwrapData,
                        wanted,
                        "Unwrap Data did not recover the plaintext",
                    ),
                ),
            )
        } else if k == 5 {
            let mut data: Vec<u8> = Vec::new();
            write_u16(&mut data, wrap_id);
            append(&mut data, &tamper(&responses[3]));
            assert(data@ =~= u16_be(wrap_id) + tampered(models[3]));
            Ok(
                make_command(
                    false,
                    CommandCode::UnwrapData,
                    data,
                    Expectation::Error(DeviceError::InvalidData),
                ),
            )
        } else if k == 6 {
            let mut data: Vec<u8> = Vec::new();
            append(
                &mut data,
                &make_head(
                    opaque_id,
                    "wrapped-object".as_bytes(),
                    1,
                    make_can_travel_opaque(),
                    Algorithm::OpaqueData.to_byte(),
                ),
            );
            append(&mut data, "qualification wrapped object".as_bytes());
            assert(data@ =~= head(
                opaque_id,
                encode_utf8("wrapped-object"@),
                1,
                can_travel_opaque(),
                Algorithm::OpaqueData.byte(),
            ) + encode_utf8("qualification wrapped object"@));
            Ok(
                make_command(
                    false,
                    CommandCode::PutOpaque,
                    data,
                    Expectation::Success(CommandCode::PutOpaque),
                ),
            )
        } else if k == 7 {
            let mut data: Vec<u8> = Vec::new();
            write_u16(&mut data, wrap_id);
            data.push(ObjectType::Opaque.to_byte());
            write_u16(&mut data, opaque_id);
            assert(data@ =~= u16_be(wrap_id) + seq![ObjectType::Opaque.byte()] + u16_be(opaque_id));
            Ok(
                make_command(
                    false,
                    CommandCode::ExportWrapped,
                    data,
                    Expectation::Success(CommandCode::ExportWrapped),
                ),
            )
        } else if k == 8 {
            Ok(make_delete(false, opaque_id, ObjectType::Opaque))
        } else if k == 9 {
            let mut data: Vec<u8> = Vec::new();
            write_u16(&mut data, wrap_id);
            append(&mut data, &responses[7]);
            assert(data@ =~= u16_be(wrap_id) + models[7]);
            let mut wanted: Vec<u8> = Vec::new();
            wanted.push(ObjectType::Opaque.to_byte());
            write_u16(&mut wanted, opaque_id);
            assert(wanted@ =~= seq![ObjectType::Opaque.byte()] + u16_be(opaque_id));
            Ok(
                make_command(
                    false,
                    CommandCode::ImportWrapped,
                    data,
                    Expectation::Data(
                        CommandCode::ImportWrapped,
                        wanted,
                        "Import Wrapped returned a different object identity",
                    ),
                ),
            )
        } else if k == 10 {
            let mut data: Vec<u8> = Vec::new();
            write_u16(&mut data, opaque_id);
            assert(data@ =~= u16_be(opaque_id));
            let mut wanted: Vec<u8> = Vec::new();
            append(&mut wanted, "qualification wrapped object".as_bytes());
            assert(wanted@ =~= encode_utf8("qualification wrapped object"@));
            Ok(
                make_command(
                    false,
                    CommandCode::GetOpaque,
                    data,
                    Expectation::Data(
                        CommandCode::GetOpaque,
                        wanted,
                        "wrapped object material changed across export/import",
                    ),
                ),
            )
        } else if k == 11 {
            Ok(make_delete(false, opaque_id, ObjectType::Opaque))
        } else if k == 12 {
            Ok(make_delete(false, wrap_id, ObjectType::WrapKey))
        } else if k == 13 {
            Ok(make_close(false))
        } else {
            Ok(Step::Done)
        }
    }
}

/// The steps of the case: RSA signing and decryption.
pub open spec fn rsa_steps(
    credentials: CredentialsModel,
    responses: Seq<Seq<u8>>,
) -> core::result::Result<
    StepModel,
    FailureModel,
> {
    let k = responses.len();
    if k == 0 {
        Ok(StepModel::Open { second: false, credentials })
    } else if k == 1 {
        Ok(list_step())
    } else {
        match unused(responses[1], ObjectType::AsymmetricKey, Seq::empty(), 0x7c40) {
            Err(failure) => Err(failure),
            Ok(id) => {
                if k == 2 {
                    Ok(
                        command_step(
                            false,
                            CommandCode::GenerateAsymmetricKey,
                            head(
                                id,
                                encode_utf8("qualification rsa"@),
                                1,
                                can_use_rsa(),
                                Algorithm::Rsa2048.byte(),
                            ),
                            ExpectationModel::Success(CommandCode::GenerateAsymmetricKey),
                        ),
                    )
                } else if k == 3 {
                    Ok(
                        command_step(
                            false,
                            CommandCode::GetPublicKey,
                            u16_be(id),
                            ExpectationModel::Marked(
                                CommandCode::GetPublicKey,
                                257,
                                Algorithm::Rsa2048.byte(),
                                "RSA-2048 returned an invalid public key"@,
                            ),
                        ),
                    )
                } else if k == 4 {
                    Ok(
                        compute_step(
                            Oracle::Digest(HashAlgorithm::Sha256),
                            Seq::<u8>::empty(),
                            Seq::<u8>::empty(),
                            encode_utf8("YubiHSM RSA qualification message"@),
                            WantedModel::Anything("local digest failed"@),
                        ),
                    )
                } else if k == 5 {
                    Ok(
                        command_step(
                            false,
                            CommandCode::SignPkcs1,
                            u16_be(id) + responses[4],
                            ExpectationModel::Success(CommandCode::SignPkcs1),
                        ),
                    )
                } else if k == 6 {
                    Ok(
                        compute_step(
                            Oracle::VerifyPkcs1,
                            tail(responses[3]),
                            responses[5],
                            responses[4],
                            WantedModel::Anything("RSA PKCS#1 signature did not verify"@),
                        ),
                    )
                } else if k == 7 {
                    Ok(
                        command_step(
                            false,
                            CommandCode::SignPss,
                            u16_be(id) + seq![Algorithm::Mgf1Sha256.byte()] + u16_be(32)
                                + responses[4],
                            ExpectationModel::Success(CommandCode::SignPss),
                        ),
                    )
                } else if k == 8 {
                    Ok(
                        compute_step(
                            Oracle::VerifyPss(32),
                            tail(responses[3]),
                            responses[7],
                            responses[4],
                            WantedModel::Anything("RSA-PSS signature did not verify"@),
                        ),
                    )
                } else if k == 9 {
                    Ok(
                        compute_step(
                            Oracle::EncryptPkcs1,
                            tail(responses[3]),
                            Seq::<u8>::empty(),
                            encode_utf8("RSA qualification plaintext"@),
                            WantedModel::Anything("local RSA encryption failed"@),
                        ),
                    )
                } else if k == 10 {
                    Ok(
                        command_step(
                            false,
                            CommandCode::DecryptPkcs1,
                            u16_be(id) + responses[9],
                            ExpectationModel::Data(
                                CommandCode::DecryptPkcs1,
                                encode_utf8("RSA qualification plaintext"@),
                                "RSA PKCS#1 decryption did not recover the plaintext"@,
                            ),
                        ),
                    )
                } else if k == 11 {
                    Ok(
                        compute_step(
                            Oracle::Digest(HashAlgorithm::Sha256),
                            Seq::<u8>::empty(),
                            Seq::<u8>::empty(),
                            encode_utf8("qualification OAEP label"@),
                            WantedModel::Anything("local digest failed"@),
                        ),
                    )
                } else if k == 12 {
                    Ok(
                        compute_step(
                            Oracle::EncryptOaep(HashAlgorithm::Sha384),
                            tail(responses[3]),
                            responses[11],
                            encode_utf8("RSA qualification plaintext"@),
                            WantedModel::Anything("local RSA-OAEP encryption failed"@),
                        ),
                    )
                } else if k == 13 {
                    Ok(
                        command_step(
                            false,
                            CommandCode::DecryptOaep,
                            u16_be(id) + seq![Algorithm::Mgf1Sha384.byte()] + responses[12]
                                + responses[11],
                            ExpectationModel::Data(
                                CommandCode::DecryptOaep,
                                encode_utf8("RSA qualification plaintext"@),
                                "RSA-OAEP decryption did not recover the plaintext"@,
                            ),
                        ),
                    )
                } else if k == 14 {
                    Ok(delete_step(false, id, ObjectType::AsymmetricKey))
                } else if k == 15 {
                    Ok(close_step(false))
                } else {
                    Ok(StepModel::Done)
                }
            },
        }
    }
}

/// Makes the steps of the case: RSA signing and decryption.
fn rsa_scenario(
    credentials: &Credentials,
    responses: &Vec<Vec<u8>>,
) -> (step: core::result::Result<Step, Failure>)
    ensures
        check_model(step) == rsa_steps(credentials@, data_models(responses@)),
{
    let ghost models = data_models(responses@);
    let k: usize = responses.len();
    if k == 0 {
        Ok(Step::Open { second: false, credentials: credentials.copied() })
    } else if k == 1 {
        Ok(make_list())
    } else {
        let taken: Vec<u16> = Vec::new();
        assert(taken@ =~= Seq::<u16>::empty());
        let id: u16 = unused_id(&responses[1], ObjectType::AsymmetricKey, &taken, 0x7c40)?;
        if k == 2 {
            let mut data: Vec<u8> = Vec::new();
            append(
                &mut data,
                &make_head(
                    id,
                    "qualification rsa".as_bytes(),
                    1,
                    make_can_use_rsa(),
                    Algorithm::Rsa2048.to_byte(),
                ),
            );
            assert(data@ =~= head(
                id,
                encode_utf8("qualification rsa"@),
                1,
                can_use_rsa(),
                Algorithm::Rsa2048.byte(),
            ));
            Ok(
                make_command(
                    false,
                    CommandCode::GenerateAsymmetricKey,
                    data,
                    Expectation::Success(CommandCode::GenerateAsymmetricKey),
                ),
            )
        } else if k == 3 {
            let mut data: Vec<u8> = Vec::new();
            write_u16(&mut data, id);
            assert(data@ =~= u16_be(id));
            Ok(
                make_command(
                    false,
                    CommandCode::GetPublicKey,
                    data,
                    Expectation::Marked(
                        CommandCode::GetPublicKey,
                        257,
                        Algorithm::Rsa2048.to_byte(),
                        "RSA-2048 returned an invalid public key",
                    ),
                ),
            )
        } else if k == 4 {
            let key: Vec<u8> = Vec::new();
            assert(key@ =~= Seq::<u8>::empty());
            let parameter: Vec<u8> = Vec::new();
            assert(parameter@ =~= Seq::<u8>::empty());
            let mut data: Vec<u8> = Vec::new();
            append(&mut data, "YubiHSM RSA qualification message".as_bytes());
            assert(data@ =~= encode_utf8("YubiHSM RSA qualification message"@));
            Ok(
                make_compute(
                    Oracle::Digest(HashAlgorithm::Sha256),
                    key,
                    parameter,
                    data,
                    Wanted::Anything("local digest failed"),
                ),
            )
        } else if k == 5 {
            let mut data: Vec<u8> = Vec::new();
            write_u16(&mut data, id);
            append(&mut data, &responses[4]);
            assert(data@ =~= u16_be(id) + models[4]);
            Ok(
                make_command(
                    false,
                    CommandCode::SignPkcs1,
                    data,
                    Expectation::Success(CommandCode::SignPkcs1),
                ),
            )
        } else if k == 6 {
            let mut key: Vec<u8> = Vec::new();
            append(&mut key, &tail_of(&responses[3]));
            assert(key@ =~= tail(models[3]));
            let mut parameter: Vec<u8> = Vec::new();
            append(&mut parameter, &responses[5]);
            assert(parameter@ =~= models[5]);
            let mut data: Vec<u8> = Vec::new();
            append(&mut data, &responses[4]);
            assert(data@ =~= models[4]);
            Ok(
                make_compute(
                    Oracle::VerifyPkcs1,
                    key,
                    parameter,
                    data,
                    Wanted::Anything("RSA PKCS#1 signature did not verify"),
                ),
            )
        } else if k == 7 {
            let mut data: Vec<u8> = Vec::new();
            write_u16(&mut data, id);
            data.push(Algorithm::Mgf1Sha256.to_byte());
            write_u16(&mut data, 32);
            append(&mut data, &responses[4]);
            assert(data@ =~= u16_be(id) + seq![Algorithm::Mgf1Sha256.byte()] + u16_be(32)
                + models[4]);
            Ok(
                make_command(
                    false,
                    CommandCode::SignPss,
                    data,
                    Expectation::Success(CommandCode::SignPss),
                ),
            )
        } else if k == 8 {
            let mut key: Vec<u8> = Vec::new();
            append(&mut key, &tail_of(&responses[3]));
            assert(key@ =~= tail(models[3]));
            let mut parameter: Vec<u8> = Vec::new();
            append(&mut parameter, &responses[7]);
            assert(parameter@ =~= models[7]);
            let mut data: Vec<u8> = Vec::new();
            append(&mut data, &responses[4]);
            assert(data@ =~= models[4]);
            Ok(
                make_compute(
                    Oracle::VerifyPss(32),
                    key,
                    parameter,
                    data,
                    Wanted::Anything("RSA-PSS signature did not verify"),
                ),
            )
        } else if k == 9 {
            let mut key: Vec<u8> = Vec::new();
            append(&mut key, &tail_of(&responses[3]));
            assert(key@ =~= tail(models[3]));
            let parameter: Vec<u8> = Vec::new();
            assert(parameter@ =~= Seq::<u8>::empty());
            let mut data: Vec<u8> = Vec::new();
            append(&mut data, "RSA qualification plaintext".as_bytes());
            assert(data@ =~= encode_utf8("RSA qualification plaintext"@));
            Ok(
                make_compute(
                    Oracle::EncryptPkcs1,
                    key,
                    parameter,
                    data,
                    Wanted::Anything("local RSA encryption failed"),
                ),
            )
        } else if k == 10 {
            let mut data: Vec<u8> = Vec::new();
            write_u16(&mut data, id);
            append(&mut data, &responses[9]);
            assert(data@ =~= u16_be(id) + models[9]);
            let mut wanted: Vec<u8> = Vec::new();
            append(&mut wanted, "RSA qualification plaintext".as_bytes());
            assert(wanted@ =~= encode_utf8("RSA qualification plaintext"@));
            Ok(
                make_command(
                    false,
                    CommandCode::DecryptPkcs1,
                    data,
                    Expectation::Data(
                        CommandCode::DecryptPkcs1,
                        wanted,
                        "RSA PKCS#1 decryption did not recover the plaintext",
                    ),
                ),
            )
        } else if k == 11 {
            let key: Vec<u8> = Vec::new();
            assert(key@ =~= Seq::<u8>::empty());
            let parameter: Vec<u8> = Vec::new();
            assert(parameter@ =~= Seq::<u8>::empty());
            let mut data: Vec<u8> = Vec::new();
            append(&mut data, "qualification OAEP label".as_bytes());
            assert(data@ =~= encode_utf8("qualification OAEP label"@));
            Ok(
                make_compute(
                    Oracle::Digest(HashAlgorithm::Sha256),
                    key,
                    parameter,
                    data,
                    Wanted::Anything("local digest failed"),
                ),
            )
        } else if k == 12 {
            let mut key: Vec<u8> = Vec::new();
            append(&mut key, &tail_of(&responses[3]));
            assert(key@ =~= tail(models[3]));
            let mut parameter: Vec<u8> = Vec::new();
            append(&mut parameter, &responses[11]);
            assert(parameter@ =~= models[11]);
            let mut data: Vec<u8> = Vec::new();
            append(&mut data, "RSA qualification plaintext".as_bytes());
            assert(data@ =~= encode_utf8("RSA qualification plaintext"@));
            Ok(
                make_compute(
                    Oracle::EncryptOaep(HashAlgorithm::Sha384),
                    key,
                    parameter,
                    data,
                    Wanted::Anything("local RSA-OAEP encryption failed"),
                ),
            )
        } else if k == 13 {
            let mut data: Vec<u8> = Vec::new();
            write_u16(&mut data, id);
            data.push(Algorithm::Mgf1Sha384.to_byte());
            append(&mut data, &responses[12]);
            append(&mut data, &responses[11]);
            assert(data@ =~= u16_be(id) + seq![Algorithm::Mgf1Sha384.byte()] + models[12]
                + models[11]);
            let mut wanted: Vec<u8> = Vec::new();
            append(&mut wanted, "RSA qualification plaintext".as_bytes());
            assert(wanted@ =~= encode_utf8("RSA qualification plaintext"@));
            Ok(
                make_command(
                    false,
                    CommandCode::DecryptOaep,
                    data,
                    Expectation::Data(
                        CommandCode::DecryptOaep,
                        wanted,
                        "RSA-OAEP decryption did not recover the plaintext",
                    ),
                ),
            )
        } else if k == 14 {
            Ok(make_delete(false, id, ObjectType::AsymmetricKey))
        } else if k == 15 {
            Ok(make_close(false))
        } else {
            Ok(Step::Done)
        }
    }
}

/// The steps of the case: RSA-AES wrapped objects and key material.
pub open spec fn rsa_wrapping_steps(
    credentials: CredentialsModel,
    responses: Seq<Seq<u8>>,
) -> core::result::Result<
    StepModel,
    FailureModel,
> {
    let k = responses.len();
    if k == 0 {
        Ok(StepModel::Open { second: false, credentials })
    } else if k == 1 {
        Ok(list_step())
    } else {
        match unused(responses[1], ObjectType::WrapKey, Seq::empty(), 0x7a00) {
            Err(failure) => Err(failure),
            Ok(private_wrap_id) => {
                match unused(responses[1], ObjectType::PublicWrapKey, Seq::empty(), 0x7a10) {
                    Err(failure) => Err(failure),
                    Ok(public_wrap_id) => {
                        match unused(responses[1], ObjectType::Opaque, Seq::empty(), 0x7a20) {
                            Err(failure) => Err(failure),
                            Ok(opaque_id) => {
                                match unused(
                                    responses[1],
                                    ObjectType::AsymmetricKey,
                                    Seq::empty(),
                                    0x7a30,
                                ) {
                                    Err(failure) => Err(failure),
                                    Ok(ec_id) => {
                                        if k == 2 {
                                            Ok(
                                                command_step(
                                                    false,
                                                    CommandCode::GenerateWrapKey,
                                                    head(
                                                        private_wrap_id,
                                                        encode_utf8("qualification private wrap"@),
                                                        1,
                                                        can_import(),
                                                        Algorithm::Rsa2048.byte(),
                                                    ) + u64_be(can_travel().word()),
                                                    ExpectationModel::Success(
                                                        CommandCode::GenerateWrapKey,
                                                    ),
                                                ),
                                            )
                                        } else if k == 3 {
                                            Ok(
                                                command_step(
                                                    false,
                                                    CommandCode::GetPublicKey,
                                                    u16_be(private_wrap_id)
                                                        + seq![ObjectType::WrapKey.byte()],
                                                    ExpectationModel::Marked(
                                                        CommandCode::GetPublicKey,
                                                        257,
                                                        Algorithm::Rsa2048.byte(),
                                                        "RSA private wrap key returned an invalid public key"@,
                                                    ),
                                                ),
                                            )
                                        } else if k == 4 {
                                            Ok(
                                                command_step(
                                                    false,
                                                    CommandCode::PutPublicWrapKey,
                                                    head(
                                                        public_wrap_id,
                                                        encode_utf8("qualification public wrap"@),
                                                        1,
                                                        can_export(),
                                                        Algorithm::Rsa2048.byte(),
                                                    ) + u64_be(can_travel().word())
                                                        + tail(responses[3]),
                                                    ExpectationModel::Success(
                                                        CommandCode::PutPublicWrapKey,
                                                    ),
                                                ),
                                            )
                                        } else if k == 5 {
                                            Ok(
                                                command_step(
                                                    false,
                                                    CommandCode::PutOpaque,
                                                    head(
                                                        opaque_id,
                                                        encode_utf8("rsa-wrapped-object"@),
                                                        1,
                                                        can_travel_opaque(),
                                                        Algorithm::OpaqueData.byte(),
                                                    )
                                                        + encode_utf8(
                                                            "RSA wrapped qualification object"@,
                                                        ),
                                                    ExpectationModel::Success(
                                                        CommandCode::PutOpaque,
                                                    ),
                                                ),
                                            )
                                        } else if k == 6 {
                                            Ok(
                                                compute_step(
                                                    Oracle::Digest(HashAlgorithm::Sha256),
                                                    Seq::<u8>::empty(),
                                                    Seq::<u8>::empty(),
                                                    encode_utf8("qualification RSA wrap label"@),
                                                    WantedModel::Anything("local digest failed"@),
                                                ),
                                            )
                                        } else if k == 7 {
                                            Ok(
                                                command_step(
                                                    false,
                                                    CommandCode::ExportRsaWrapped,
                                                    u16_be(public_wrap_id)
                                                        + seq![ObjectType::Opaque.byte()]
                                                        + u16_be(opaque_id)
                                                        + seq![Algorithm::Aes256.byte()]
                                                        + seq![Algorithm::RsaOaepSha256.byte()]
                                                        + seq![Algorithm::Mgf1Sha384.byte()]
                                                        + responses[6],
                                                    ExpectationModel::AtLeast(
                                                        CommandCode::ExportRsaWrapped,
                                                        257,
                                                        "RSA-wrapped object is too short"@,
                                                    ),
                                                ),
                                            )
                                        } else if k == 8 {
                                            Ok(delete_step(false, opaque_id, ObjectType::Opaque))
                                        } else if k == 9 {
                                            Ok(
                                                command_step(
                                                    false,
                                                    CommandCode::ImportRsaWrapped,
                                                    u16_be(private_wrap_id)
                                                        + seq![Algorithm::RsaOaepSha256.byte()]
                                                        + seq![Algorithm::Mgf1Sha384.byte()]
                                                        + responses[7] + responses[6],
                                                    ExpectationModel::Data(
                                                        CommandCode::ImportRsaWrapped,
                                                        seq![ObjectType::Opaque.byte()]
                                                            + u16_be(opaque_id),
                                                        "Import RSA Wrapped returned a different object identity"@,
                                                    ),
                                                ),
                                            )
                                        } else if k == 10 {
                                            Ok(
                                                command_step(
                                                    false,
                                                    CommandCode::GetOpaque,
                                                    u16_be(opaque_id),
                                                    ExpectationModel::Data(
                                                        CommandCode::GetOpaque,
                                                        encode_utf8(
                                                            "RSA wrapped qualification object"@,
                                                        ),
                                                        "RSA-wrapped object material changed"@,
                                                    ),
                                                ),
                                            )
                                        } else if k == 11 {
                                            Ok(
                                                command_step(
                                                    false,
                                                    CommandCode::GenerateAsymmetricKey,
                                                    head(
                                                        ec_id,
                                                        encode_utf8("wrapped ec key"@),
                                                        1,
                                                        can_travel_ec(),
                                                        Algorithm::EcP256.byte(),
                                                    ),
                                                    ExpectationModel::Success(
                                                        CommandCode::GenerateAsymmetricKey,
                                                    ),
                                                ),
                                            )
                                        } else if k == 12 {
                                            Ok(
                                                command_step(
                                                    false,
                                                    CommandCode::GetPublicKey,
                                                    u16_be(ec_id),
                                                    ExpectationModel::Success(
                                                        CommandCode::GetPublicKey,
                                                    ),
                                                ),
                                            )
                                        } else if k == 13 {
                                            Ok(
                                                command_step(
                                                    false,
                                                    CommandCode::GetRsaWrappedKey,
                                                    u16_be(public_wrap_id)
                                                        + seq![ObjectType::AsymmetricKey.byte()]
                                                        + u16_be(ec_id)
                                                        + seq![Algorithm::Aes256.byte()]
                                                        + seq![Algorithm::RsaOaepSha256.byte()]
                                                        + seq![Algorithm::Mgf1Sha384.byte()]
                                                        + responses[6],
                                                    ExpectationModel::Success(
                                                        CommandCode::GetRsaWrappedKey,
                                                    ),
                                                ),
                                            )
                                        } else if k == 14 {
                                            Ok(delete_step(false, ec_id, ObjectType::AsymmetricKey))
                                        } else if k == 15 {
                                            Ok(
                                                command_step(
                                                    false,
                                                    CommandCode::PutRsaWrappedKey,
                                                    u16_be(private_wrap_id)
                                                        + seq![ObjectType::AsymmetricKey.byte()]
                                                        + u16_be(ec_id)
                                                        + resized(
                                                            encode_utf8("wrapped ec key"@),
                                                            40,
                                                        ) + u16_be(1)
                                                        + u64_be(can_travel_ec().word())
                                                        + seq![Algorithm::EcP256.byte()]
                                                        + seq![Algorithm::RsaOaepSha256.byte()]
                                                        + seq![Algorithm::Mgf1Sha384.byte()]
                                                        + responses[13] + responses[6],
                                                    ExpectationModel::Success(
                                                        CommandCode::PutRsaWrappedKey,
                                                    ),
                                                ),
                                            )
                                        } else if k == 16 {
                                            Ok(
                                                compute_step(
                                                    Oracle::Digest(HashAlgorithm::Sha256),
                                                    Seq::<u8>::empty(),
                                                    Seq::<u8>::empty(),
                                                    encode_utf8("restored RSA-wrapped EC key"@),
                                                    WantedModel::Anything("local digest failed"@),
                                                ),
                                            )
                                        } else if k == 17 {
                                            Ok(
                                                command_step(
                                                    false,
                                                    CommandCode::SignEcdsa,
                                                    u16_be(ec_id) + responses[16],
                                                    ExpectationModel::Success(
                                                        CommandCode::SignEcdsa,
                                                    ),
                                                ),
                                            )
                                        } else if k == 18 {
                                            Ok(
                                                compute_step(
                                                    Oracle::EcdsaFromDer(32),
                                                    Seq::<u8>::empty(),
                                                    Seq::<u8>::empty(),
                                                    responses[17],
                                                    WantedModel::Anything(
                                                        "restored EC key returned invalid DER"@,
                                                    ),
                                                ),
                                            )
                                        } else if k == 19 {
                                            Ok(
                                                compute_step(
                                                    Oracle::VerifyEcdsa(EcCurve::P256),
                                                    seq![4u8] + tail(responses[12]),
                                                    responses[18],
                                                    responses[16],
                                                    WantedModel::Anything(
                                                        "restored RSA-wrapped EC key changed"@,
                                                    ),
                                                ),
                                            )
                                        } else if k == 20 {
                                            Ok(delete_step(false, opaque_id, ObjectType::Opaque))
                                        } else if k == 21 {
                                            Ok(delete_step(false, ec_id, ObjectType::AsymmetricKey))
                                        } else if k == 22 {
                                            Ok(
                                                delete_step(
                                                    false,
                                                    public_wrap_id,
                                                    ObjectType::PublicWrapKey,
                                                ),
                                            )
                                        } else if k == 23 {
                                            Ok(
                                                delete_step(
                                                    false,
                                                    private_wrap_id,
                                                    ObjectType::WrapKey,
                                                ),
                                            )
                                        } else if k == 24 {
                                            Ok(close_step(false))
                                        } else {
                                            Ok(StepModel::Done)
                                        }
                                    },
                                }
                            },
                        }
                    },
                }
            },
        }
    }
}

/// Makes the steps of the case: RSA-AES wrapped objects and key material.
fn rsa_wrapping_scenario(
    credentials: &Credentials,
    responses: &Vec<Vec<u8>>,
) -> (step: core::result::Result<Step, Failure>)
    ensures
        check_model(step) == rsa_wrapping_steps(credentials@, data_models(responses@)),
{
    let ghost models = data_models(responses@);
    let k: usize = responses.len();
    if k == 0 {
        Ok(Step::Open { second: false, credentials: credentials.copied() })
    } else if k == 1 {
        Ok(make_list())
    } else {
        let taken: Vec<u16> = Vec::new();
        assert(taken@ =~= Seq::<u16>::empty());
        let private_wrap_id: u16 = unused_id(&responses[1], ObjectType::WrapKey, &taken, 0x7a00)?;
        let taken: Vec<u16> = Vec::new();
        assert(taken@ =~= Seq::<u16>::empty());
        let public_wrap_id: u16 = unused_id(
            &responses[1],
            ObjectType::PublicWrapKey,
            &taken,
            0x7a10,
        )?;
        let taken: Vec<u16> = Vec::new();
        assert(taken@ =~= Seq::<u16>::empty());
        let opaque_id: u16 = unused_id(&responses[1], ObjectType::Opaque, &taken, 0x7a20)?;
        let taken: Vec<u16> = Vec::new();
        assert(taken@ =~= Seq::<u16>::empty());
        let ec_id: u16 = unused_id(&responses[1], ObjectType::AsymmetricKey, &taken, 0x7a30)?;
        if k == 2 {
            let mut data: Vec<u8> = Vec::new();
            append(
                &mut data,
                &make_head(
                    private_wrap_id,
                    "qualification private wrap".as_bytes(),
                    1,
                    make_can_import(),
                    Algorithm::Rsa2048.to_byte(),
                ),
            );
            append(&mut data, &make_can_travel().to_bytes());
            assert(data@ =~= head(
                private_wrap_id,
                encode_utf8("qualification private wrap"@),
                1,
                can_import(),
                Algorithm::Rsa2048.byte(),
            ) + u64_be(can_travel().word()));
            Ok(
                make_command(
                    false,
                    CommandCode::GenerateWrapKey,
                    data,
                    Expectation::Success(CommandCode::GenerateWrapKey),
                ),
            )
        } else if k == 3 {
            let mut data: Vec<u8> = Vec::new();
            write_u16(&mut data, private_wrap_id);
            data.push(ObjectType::WrapKey.to_byte());
            assert(data@ =~= u16_be(private_wrap_id) + seq![ObjectType::WrapKey.byte()]);
            Ok(
                make_command(
                    false,
                    CommandCode::GetPublicKey,
                    data,
                    Expectation::Marked(
                        CommandCode::GetPublicKey,
                        257,
                        Algorithm::Rsa2048.to_byte(),
                        "RSA private wrap key returned an invalid public key",
                    ),
                ),
            )
        } else if k == 4 {
            let mut data: Vec<u8> = Vec::new();
            append(
                &mut data,
                &make_head(
                    public_wrap_id,
                    "qualification public wrap".as_bytes(),
                    1,
                    make_can_export(),
                    Algorithm::Rsa2048.to_byte(),
                ),
            );
            append(&mut data, &make_can_travel().to_bytes());
            append(&mut data, &tail_of(&responses[3]));
            assert(data@ =~= head(
                public_wrap_id,
                encode_utf8("qualification public wrap"@),
                1,
                can_export(),
                Algorithm::Rsa2048.byte(),
            ) + u64_be(can_travel().word()) + tail(models[3]));
            Ok(
                make_command(
                    false,
                    CommandCode::PutPublicWrapKey,
                    data,
                    Expectation::Success(CommandCode::PutPublicWrapKey),
                ),
            )
        } else if k == 5 {
            let mut data: Vec<u8> = Vec::new();
            append(
                &mut data,
                &make_head(
                    opaque_id,
                    "rsa-wrapped-object".as_bytes(),
                    1,
                    make_can_travel_opaque(),
                    Algorithm::OpaqueData.to_byte(),
                ),
            );
            append(&mut data, "RSA wrapped qualification object".as_bytes());
            assert(data@ =~= head(
                opaque_id,
                encode_utf8("rsa-wrapped-object"@),
                1,
                can_travel_opaque(),
                Algorithm::OpaqueData.byte(),
            ) + encode_utf8("RSA wrapped qualification object"@));
            Ok(
                make_command(
                    false,
                    CommandCode::PutOpaque,
                    data,
                    Expectation::Success(CommandCode::PutOpaque),
                ),
            )
        } else if k == 6 {
            let key: Vec<u8> = Vec::new();
            assert(key@ =~= Seq::<u8>::empty());
            let parameter: Vec<u8> = Vec::new();
            assert(parameter@ =~= Seq::<u8>::empty());
            let mut data: Vec<u8> = Vec::new();
            append(&mut data, "qualification RSA wrap label".as_bytes());
            assert(data@ =~= encode_utf8("qualification RSA wrap label"@));
            Ok(
                make_compute(
                    Oracle::Digest(HashAlgorithm::Sha256),
                    key,
                    parameter,
                    data,
                    Wanted::Anything("local digest failed"),
                ),
            )
        } else if k == 7 {
            let mut data: Vec<u8> = Vec::new();
            write_u16(&mut data, public_wrap_id);
            data.push(ObjectType::Opaque.to_byte());
            write_u16(&mut data, opaque_id);
            data.push(Algorithm::Aes256.to_byte());
            data.push(Algorithm::RsaOaepSha256.to_byte());
            data.push(Algorithm::Mgf1Sha384.to_byte());
            append(&mut data, &responses[6]);
            assert(data@ =~= u16_be(public_wrap_id) + seq![ObjectType::Opaque.byte()] + u16_be(opaque_id)
                + seq![Algorithm::Aes256.byte()] + seq![Algorithm::RsaOaepSha256.byte()]
                + seq![Algorithm::Mgf1Sha384.byte()] + models[6]);
            Ok(
                make_command(
                    false,
                    CommandCode::ExportRsaWrapped,
                    data,
                    Expectation::AtLeast(
                        CommandCode::ExportRsaWrapped,
                        257,
                        "RSA-wrapped object is too short",
                    ),
                ),
            )
        } else if k == 8 {
            Ok(make_delete(false, opaque_id, ObjectType::Opaque))
        } else if k == 9 {
            let mut data: Vec<u8> = Vec::new();
            write_u16(&mut data, private_wrap_id);
            data.push(Algorithm::RsaOaepSha256.to_byte());
            data.push(Algorithm::Mgf1Sha384.to_byte());
            append(&mut data, &responses[7]);
            append(&mut data, &responses[6]);
            assert(data@ =~= u16_be(private_wrap_id) + seq![Algorithm::RsaOaepSha256.byte()]
                + seq![Algorithm::Mgf1Sha384.byte()] + models[7] + models[6]);
            let mut wanted: Vec<u8> = Vec::new();
            wanted.push(ObjectType::Opaque.to_byte());
            write_u16(&mut wanted, opaque_id);
            assert(wanted@ =~= seq![ObjectType::Opaque.byte()] + u16_be(opaque_id));
            Ok(
                make_command(
                    false,
                    CommandCode::ImportRsaWrapped,
                    data,
                    Expectation::Data(
                        CommandCode::ImportRsaWrapped,
                        wanted,
                        "Import RSA Wrapped returned a different object identity",
                    ),
                ),
            )
        } else if k == 10 {
            let mut data: Vec<u8> = Vec::new();
            write_u16(&mut data, opaque_id);
            assert(data@ =~= u16_be(opaque_id));
            let mut wanted: Vec<u8> = Vec::new();
            append(&mut wanted, "RSA wrapped qualification object".as_bytes());
            assert(wanted@ =~= encode_utf8("RSA wrapped qualification object"@));
            Ok(
                make_command(
                    false,
                    CommandCode::GetOpaque,
                    data,
                    Expectation::Data(
                        CommandCode::GetOpaque,
                        wanted,
                        "RSA-wrapped object material changed",
                    ),
                ),
            )
        } else if k == 11 {
            let mut data: Vec<u8> = Vec::new();
            append(
                &mut data,
                &make_head(
                    ec_id,
                    "wrapped ec key".as_bytes(),
                    1,
                    make_can_travel_ec(),
                    Algorithm::EcP256.to_byte(),
                ),
            );
            assert(data@ =~= head(
                ec_id,
                encode_utf8("wrapped ec key"@),
                1,
                can_travel_ec(),
                Algorithm::EcP256.byte(),
            ));
            Ok(
                make_command(
                    false,
                    CommandCode::GenerateAsymmetricKey,
                    data,
                    Expectation::Success(CommandCode::GenerateAsymmetricKey),
                ),
            )
        } else if k == 12 {
            let mut data: Vec<u8> = Vec::new();
            write_u16(&mut data, ec_id);
            assert(data@ =~= u16_be(ec_id));
            Ok(
                make_command(
                    false,
                    CommandCode::GetPublicKey,
                    data,
                    Expectation::Success(CommandCode::GetPublicKey),
                ),
            )
        } else if k == 13 {
            let mut data: Vec<u8> = Vec::new();
            write_u16(&mut data, public_wrap_id);
            data.push(ObjectType::AsymmetricKey.to_byte());
            write_u16(&mut data, ec_id);
            data.push(Algorithm::Aes256.to_byte());
            data.push(Algorithm::RsaOaepSha256.to_byte());
            data.push(Algorithm::Mgf1Sha384.to_byte());
            append(&mut data, &responses[6]);
            assert(data@ =~= u16_be(public_wrap_id) + seq![ObjectType::AsymmetricKey.byte()]
                + u16_be(ec_id) + seq![Algorithm::Aes256.byte()]
                + seq![Algorithm::RsaOaepSha256.byte()] + seq![Algorithm::Mgf1Sha384.byte()]
                + models[6]);
            Ok(
                make_command(
                    false,
                    CommandCode::GetRsaWrappedKey,
                    data,
                    Expectation::Success(CommandCode::GetRsaWrappedKey),
                ),
            )
        } else if k == 14 {
            Ok(make_delete(false, ec_id, ObjectType::AsymmetricKey))
        } else if k == 15 {
            let mut data: Vec<u8> = Vec::new();
            write_u16(&mut data, private_wrap_id);
            data.push(ObjectType::AsymmetricKey.to_byte());
            write_u16(&mut data, ec_id);
            append(&mut data, &resize("wrapped ec key".as_bytes(), 40));
            write_u16(&mut data, 1);
            append(&mut data, &make_can_travel_ec().to_bytes());
            data.push(Algorithm::EcP256.to_byte());
            data.push(Algorithm::RsaOaepSha256.to_byte());
            data.push(Algorithm::Mgf1Sha384.to_byte());
            append(&mut data, &responses[13]);
            append(&mut data, &responses[6]);
            assert(data@ =~= u16_be(private_wrap_id) + seq![ObjectType::AsymmetricKey.byte()]
                + u16_be(ec_id) + resized(encode_utf8("wrapped ec key"@), 40) + u16_be(1)
                + u64_be(can_travel_ec().word()) + seq![Algorithm::EcP256.byte()]
                + seq![Algorithm::RsaOaepSha256.byte()] + seq![Algorithm::Mgf1Sha384.byte()]
                + models[13] + models[6]);
            Ok(
                make_command(
                    false,
                    CommandCode::PutRsaWrappedKey,
                    data,
                    Expectation::Success(CommandCode::PutRsaWrappedKey),
                ),
            )
        } else if k == 16 {
            let key: Vec<u8> = Vec::new();
            assert(key@ =~= Seq::<u8>::empty());
            let parameter: Vec<u8> = Vec::new();
            assert(parameter@ =~= Seq::<u8>::empty());
            let mut data: Vec<u8> = Vec::new();
            append(&mut data, "restored RSA-wrapped EC key".as_bytes());
            assert(data@ =~= encode_utf8("restored RSA-wrapped EC key"@));
            Ok(
                make_compute(
                    Oracle::Digest(HashAlgorithm::Sha256),
                    key,
                    parameter,
                    data,
                    Wanted::Anything("local digest failed"),
                ),
            )
        } else if k == 17 {
            let mut data: Vec<u8> = Vec::new();
            write_u16(&mut data, ec_id);
            append(&mut data, &responses[16]);
            assert(data@ =~= u16_be(ec_id) + models[16]);
            Ok(
                make_command(
                    false,
                    CommandCode::SignEcdsa,
                    data,
                    Expectation::Success(CommandCode::SignEcdsa),
                ),
            )
        } else if k == 18 {
            let key: Vec<u8> = Vec::new();
            assert(key@ =~= Seq::<u8>::empty());
            let parameter: Vec<u8> = Vec::new();
            assert(parameter@ =~= Seq::<u8>::empty());
            let mut data: Vec<u8> = Vec::new();
            append(&mut data, &responses[17]);
            assert(data@ =~= models[17]);
            Ok(
                make_compute(
                    Oracle::EcdsaFromDer(32),
                    key,
                    parameter,
                    data,
                    Wanted::Anything("restored EC key returned invalid DER"),
                ),
            )
        } else if k == 19 {
            let mut key: Vec<u8> = Vec::new();
            key.push(4);
            append(&mut key, &tail_of(&responses[12]));
            assert(key@ =~= seq![4u8] + tail(models[12]));
            let mut parameter: Vec<u8> = Vec::new();
            append(&mut parameter, &responses[18]);
            assert(parameter@ =~= models[18]);
            let mut data: Vec<u8> = Vec::new();
            append(&mut data, &responses[16]);
            assert(data@ =~= models[16]);
            Ok(
                make_compute(
                    Oracle::VerifyEcdsa(EcCurve::P256),
                    key,
                    parameter,
                    data,
                    Wanted::Anything("restored RSA-wrapped EC key changed"),
                ),
            )
        } else if k == 20 {
            Ok(make_delete(false, opaque_id, ObjectType::Opaque))
        } else if k == 21 {
            Ok(make_delete(false, ec_id, ObjectType::AsymmetricKey))
        } else if k == 22 {
            Ok(make_delete(false, public_wrap_id, ObjectType::PublicWrapKey))
        } else if k == 23 {
            Ok(make_delete(false, private_wrap_id, ObjectType::WrapKey))
        } else if k == 24 {
            Ok(make_close(false))
        } else {
            Ok(Step::Done)
        }
    }
}

/// The steps of the case: Yubico OTP AEAD known credential.
pub open spec fn otp_steps(
    credentials: CredentialsModel,
    responses: Seq<Seq<u8>>,
) -> core::result::Result<
    StepModel,
    FailureModel,
> {
    let k = responses.len();
    if k == 0 {
        Ok(StepModel::Open { second: false, credentials })
    } else if k == 1 {
        Ok(list_step())
    } else {
        match unused(responses[1], ObjectType::OtpAeadKey, Seq::empty(), 0x7b00) {
            Err(failure) => Err(failure),
            Ok(id) => {
                if k == 2 {
                    Ok(
                        command_step(
                            false,
                            CommandCode::PutOtpAeadKey,
                            head(
                                id,
                                encode_utf8("qualification otp"@),
                                1,
                                can_use_otp(),
                                Algorithm::Aes128YubicoOtp.byte(),
                            ) + seq![120u8, 86, 52, 18] + otp_master_key(),
                            ExpectationModel::Success(CommandCode::PutOtpAeadKey),
                        ),
                    )
                } else if k == 3 {
                    Ok(
                        command_step(
                            false,
                            CommandCode::CreateOtpAead,
                            u16_be(id) + otp_credential_key() + seq![1u8, 2, 3, 4, 5, 6],
                            ExpectationModel::Length(
                                CommandCode::CreateOtpAead,
                                36,
                                "Create OTP AEAD did not return 36 bytes"@,
                            ),
                        ),
                    )
                } else if k == 4 {
                    Ok(
                        command_step(
                            false,
                            CommandCode::DecryptOtp,
                            u16_be(id) + responses[3] + known_otp(),
                            ExpectationModel::Data(
                                CommandCode::DecryptOtp,
                                seq![1u8, 0, 1, 1, 1, 0],
                                "Decrypt OTP returned unexpected counters"@,
                            ),
                        ),
                    )
                } else if k == 5 {
                    Ok(
                        command_step(
                            false,
                            CommandCode::RandomizeOtpAead,
                            u16_be(id),
                            ExpectationModel::Length(
                                CommandCode::RandomizeOtpAead,
                                36,
                                "Randomize OTP AEAD did not return 36 bytes"@,
                            ),
                        ),
                    )
                } else if k == 6 {
                    Ok(delete_step(false, id, ObjectType::OtpAeadKey))
                } else if k == 7 {
                    Ok(close_step(false))
                } else {
                    Ok(StepModel::Done)
                }
            },
        }
    }
}

/// Makes the steps of the case: Yubico OTP AEAD known credential.
fn otp_aead_scenario(
    credentials: &Credentials,
    responses: &Vec<Vec<u8>>,
) -> (step: core::result::Result<Step, Failure>)
    ensures
        check_model(step) == otp_steps(credentials@, data_models(responses@)),
{
    let ghost models = data_models(responses@);
    let k: usize = responses.len();
    if k == 0 {
        Ok(Step::Open { second: false, credentials: credentials.copied() })
    } else if k == 1 {
        Ok(make_list())
    } else {
        let taken: Vec<u16> = Vec::new();
        assert(taken@ =~= Seq::<u16>::empty());
        let id: u16 = unused_id(&responses[1], ObjectType::OtpAeadKey, &taken, 0x7b00)?;
        if k == 2 {
            let mut data: Vec<u8> = Vec::new();
            append(
                &mut data,
                &make_head(
                    id,
                    "qualification otp".as_bytes(),
                    1,
                    make_can_use_otp(),
                    Algorithm::Aes128YubicoOtp.to_byte(),
                ),
            );
            data.push(120);
            data.push(86);
            data.push(52);
            data.push(18);
            append(&mut data, &make_otp_master_key());
            assert(data@ =~= head(
                id,
                encode_utf8("qualification otp"@),
                1,
                can_use_otp(),
                Algorithm::Aes128YubicoOtp.byte(),
            ) + seq![120u8, 86, 52, 18] + otp_master_key());
            Ok(
                make_command(
                    false,
                    CommandCode::PutOtpAeadKey,
                    data,
                    Expectation::Success(CommandCode::PutOtpAeadKey),
                ),
            )
        } else if k == 3 {
            let mut data: Vec<u8> = Vec::new();
            write_u16(&mut data, id);
            append(&mut data, &make_otp_credential_key());
            data.push(1);
            data.push(2);
            data.push(3);
            data.push(4);
            data.push(5);
            data.push(6);
            assert(data@ =~= u16_be(id) + otp_credential_key() + seq![1u8, 2, 3, 4, 5, 6]);
            Ok(
                make_command(
                    false,
                    CommandCode::CreateOtpAead,
                    data,
                    Expectation::Length(
                        CommandCode::CreateOtpAead,
                        36,
                        "Create OTP AEAD did not return 36 bytes",
                    ),
                ),
            )
        } else if k == 4 {
            let mut data: Vec<u8> = Vec::new();
            write_u16(&mut data, id);
            append(&mut data, &responses[3]);
            append(&mut data, &make_known_otp());
            assert(data@ =~= u16_be(id) + models[3] + known_otp());
            let mut wanted: Vec<u8> = Vec::new();
            wanted.push(1);
            wanted.push(0);
            wanted.push(1);
            wanted.push(1);
            wanted.push(1);
            wanted.push(0);
            assert(wanted@ =~= seq![1u8, 0, 1, 1, 1, 0]);
            Ok(
                make_command(
                    false,
                    CommandCode::DecryptOtp,
                    data,
                    Expectation::Data(
                        CommandCode::DecryptOtp,
                        wanted,
                        "Decrypt OTP returned unexpected counters",
                    ),
                ),
            )
        } else if k == 5 {
            let mut data: Vec<u8> = Vec::new();
            write_u16(&mut data, id);
            assert(data@ =~= u16_be(id));
            Ok(
                make_command(
                    false,
                    CommandCode::RandomizeOtpAead,
                    data,
                    Expectation::Length(
                        CommandCode::RandomizeOtpAead,
                        36,
                        "Randomize OTP AEAD did not return 36 bytes",
                    ),
                ),
            )
        } else if k == 6 {
            Ok(make_delete(false, id, ObjectType::OtpAeadKey))
        } else if k == 7 {
            Ok(make_close(false))
        } else {
            Ok(Step::Done)
        }
    }
}

/// The steps of the case: attestation binds the generated public key.
pub open spec fn attestation_steps(
    credentials: CredentialsModel,
    responses: Seq<Seq<u8>>,
) -> core::result::Result<
    StepModel,
    FailureModel,
> {
    let k = responses.len();
    if k == 0 {
        Ok(StepModel::Open { second: false, credentials })
    } else if k == 1 {
        Ok(list_step())
    } else {
        match unused(responses[1], ObjectType::AsymmetricKey, Seq::empty(), 0x7b40) {
            Err(failure) => Err(failure),
            Ok(id) => {
                if k == 2 {
                    Ok(
                        command_step(
                            false,
                            CommandCode::GenerateAsymmetricKey,
                            head(
                                id,
                                encode_utf8("qualification attest"@),
                                1,
                                can_sign_ecdsa(),
                                Algorithm::EcP256.byte(),
                            ),
                            ExpectationModel::Success(CommandCode::GenerateAsymmetricKey),
                        ),
                    )
                } else if k == 3 {
                    Ok(
                        command_step(
                            false,
                            CommandCode::GetPublicKey,
                            u16_be(id),
                            ExpectationModel::Success(CommandCode::GetPublicKey),
                        ),
                    )
                } else if k == 4 {
                    Ok(
                        command_step(
                            false,
                            CommandCode::SignAttestationCertificate,
                            u16_be(id) + u16_be(0),
                            ExpectationModel::Certificate(seq![4u8] + tail(responses[3])),
                        ),
                    )
                } else if k == 5 {
                    Ok(delete_step(false, id, ObjectType::AsymmetricKey))
                } else if k == 6 {
                    Ok(close_step(false))
                } else {
                    Ok(StepModel::Done)
                }
            },
        }
    }
}

/// Makes the steps of the case: attestation binds the generated public key.
fn attestation_scenario(
    credentials: &Credentials,
    responses: &Vec<Vec<u8>>,
) -> (step: core::result::Result<Step, Failure>)
    ensures
        check_model(step) == attestation_steps(credentials@, data_models(responses@)),
{
    let ghost models = data_models(responses@);
    let k: usize = responses.len();
    if k == 0 {
        Ok(Step::Open { second: false, credentials: credentials.copied() })
    } else if k == 1 {
        Ok(make_list())
    } else {
        let taken: Vec<u16> = Vec::new();
        assert(taken@ =~= Seq::<u16>::empty());
        let id: u16 = unused_id(&responses[1], ObjectType::AsymmetricKey, &taken, 0x7b40)?;
        if k == 2 {
            let mut data: Vec<u8> = Vec::new();
            append(
                &mut data,
                &make_head(
                    id,
                    "qualification attest".as_bytes(),
                    1,
                    make_can_sign_ecdsa(),
                    Algorithm::EcP256.to_byte(),
                ),
            );
            assert(data@ =~= head(
                id,
                encode_utf8("qualification attest"@),
                1,
                can_sign_ecdsa(),
                Algorithm::EcP256.byte(),
            ));
            Ok(
                make_command(
                    false,
                    CommandCode::GenerateAsymmetricKey,
                    data,
                    Expectation::Success(CommandCode::GenerateAsymmetricKey),
                ),
            )
        } else if k == 3 {
            let mut data: Vec<u8> = Vec::new();
            write_u16(&mut data, id);
            assert(data@ =~= u16_be(id));
            Ok(
                make_command(
                    false,
                    CommandCode::GetPublicKey,
                    data,
                    Expectation::Success(CommandCode::GetPublicKey),
                ),
            )
        } else if k == 4 {
            let mut data: Vec<u8> = Vec::new();
            write_u16(&mut data, id);
            write_u16(&mut data, 0);
            assert(data@ =~= u16_be(id) + u16_be(0));
            let mut wanted: Vec<u8> = Vec::new();
            wanted.push(4);
            append(&mut wanted, &tail_of(&responses[3]));
            assert(wanted@ =~= seq![4u8] + tail(models[3]));
            Ok(
                make_command(
                    false,
                    CommandCode::SignAttestationCertificate,
                    data,
                    Expectation::Certificate(wanted),
                ),
            )
        } else if k == 5 {
            Ok(make_delete(false, id, ObjectType::AsymmetricKey))
        } else if k == 6 {
            Ok(make_close(false))
        } else {
            Ok(Step::Done)
        }
    }
}

/// The steps of the case: X25519 key agreement.
pub open spec fn x25519_steps(
    credentials: CredentialsModel,
    responses: Seq<Seq<u8>>,
) -> core::result::Result<
    StepModel,
    FailureModel,
> {
    let k = responses.len();
    if k == 0 {
        Ok(StepModel::Open { second: false, credentials })
    } else if k == 1 {
        Ok(list_step())
    } else {
        match unused(responses[1], ObjectType::AsymmetricKey, Seq::empty(), 0x7980) {
            Err(failure) => Err(failure),
            Ok(id) => {
                if k == 2 {
                    Ok(
                        command_step(
                            false,
                            CommandCode::GenerateAsymmetricKey,
                            head(
                                id,
                                encode_utf8("qualification x25519"@),
                                1,
                                can_derive(),
                                Algorithm::X25519.byte(),
                            ),
                            ExpectationModel::Success(CommandCode::GenerateAsymmetricKey),
                        ),
                    )
                } else if k == 3 {
                    Ok(
                        command_step(
                            false,
                            CommandCode::GetPublicKey,
                            u16_be(id),
                            ExpectationModel::Marked(
                                CommandCode::GetPublicKey,
                                33,
                                Algorithm::X25519.byte(),
                                "X25519 returned an invalid public key"@,
                            ),
                        ),
                    )
                } else if k == 4 {
                    Ok(
                        compute_step(
                            Oracle::X25519Public,
                            x25519_peer(),
                            Seq::<u8>::empty(),
                            Seq::<u8>::empty(),
                            WantedModel::Anything("invalid X25519 qualification peer"@),
                        ),
                    )
                } else if k == 5 {
                    Ok(
                        command_step(
                            false,
                            CommandCode::DeriveEcdh,
                            u16_be(id) + responses[4],
                            ExpectationModel::Length(
                                CommandCode::DeriveEcdh,
                                32,
                                "X25519 device and independent peer derived different secrets"@,
                            ),
                        ),
                    )
                } else if k == 6 {
                    Ok(
                        compute_step(
                            Oracle::X25519Agree,
                            x25519_peer(),
                            Seq::<u8>::empty(),
                            tail(responses[3]),
                            WantedModel::Bytes(
                                responses[5],
                                "independent X25519 derivation failed"@,
                                "X25519 device and independent peer derived different secrets"@,
                            ),
                        ),
                    )
                } else if k == 7 {
                    Ok(delete_step(false, id, ObjectType::AsymmetricKey))
                } else if k == 8 {
                    Ok(close_step(false))
                } else {
                    Ok(StepModel::Done)
                }
            },
        }
    }
}

/// Makes the steps of the case: X25519 key agreement.
fn x25519_scenario(
    credentials: &Credentials,
    responses: &Vec<Vec<u8>>,
) -> (step: core::result::Result<Step, Failure>)
    ensures
        check_model(step) == x25519_steps(credentials@, data_models(responses@)),
{
    let ghost models = data_models(responses@);
    let k: usize = responses.len();
    if k == 0 {
        Ok(Step::Open { second: false, credentials: credentials.copied() })
    } else if k == 1 {
        Ok(make_list())
    } else {
        let taken: Vec<u16> = Vec::new();
        assert(taken@ =~= Seq::<u16>::empty());
        let id: u16 = unused_id(&responses[1], ObjectType::AsymmetricKey, &taken, 0x7980)?;
        if k == 2 {
            let mut data: Vec<u8> = Vec::new();
            append(
                &mut data,
                &make_head(
                    id,
                    "qualification x25519".as_bytes(),
                    1,
                    make_can_derive(),
                    Algorithm::X25519.to_byte(),
                ),
            );
            assert(data@ =~= head(
                id,
                encode_utf8("qualification x25519"@),
                1,
                can_derive(),
                Algorithm::X25519.byte(),
            ));
            Ok(
                make_command(
                    false,
                    CommandCode::GenerateAsymmetricKey,
                    data,
                    Expectation::Success(CommandCode::GenerateAsymmetricKey),
                ),
            )
        } else if k == 3 {
            let mut data: Vec<u8> = Vec::new();
            write_u16(&mut data, id);
            assert(data@ =~= u16_be(id));
            Ok(
                make_command(
                    false,
                    CommandCode::GetPublicKey,
                    data,
                    Expectation::Marked(
                        CommandCode::GetPublicKey,
                        33,
                        Algorithm::X25519.to_byte(),
                        "X25519 returned an invalid public key",
                    ),
                ),
            )
        } else if k == 4 {
            let mut key: Vec<u8> = Vec::new();
            append(&mut key, &make_x25519_peer());
            assert(key@ =~= x25519_peer());
            let parameter: Vec<u8> = Vec::new();
            assert(parameter@ =~= Seq::<u8>::empty());
            let data: Vec<u8> = Vec::new();
            assert(data@ =~= Seq::<u8>::empty());
            Ok(
                make_compute(
                    Oracle::X25519Public,
                    key,
                    parameter,
                    data,
                    Wanted::Anything("invalid X25519 qualification peer"),
                ),
            )
        } else if k == 5 {
            let mut data: Vec<u8> = Vec::new();
            write_u16(&mut data, id);
            append(&mut data, &responses[4]);
            assert(data@ =~= u16_be(id) + models[4]);
            Ok(
                make_command(
                    false,
                    CommandCode::DeriveEcdh,
                    data,
                    Expectation::Length(
                        CommandCode::DeriveEcdh,
                        32,
                        "X25519 device and independent peer derived different secrets",
                    ),
                ),
            )
        } else if k == 6 {
            let mut key: Vec<u8> = Vec::new();
            append(&mut key, &make_x25519_peer());
            assert(key@ =~= x25519_peer());
            let parameter: Vec<u8> = Vec::new();
            assert(parameter@ =~= Seq::<u8>::empty());
            let mut data: Vec<u8> = Vec::new();
            append(&mut data, &tail_of(&responses[3]));
            assert(data@ =~= tail(models[3]));
            let mut wanted: Vec<u8> = Vec::new();
            append(&mut wanted, &responses[5]);
            assert(wanted@ =~= models[5]);
            Ok(
                make_compute(
                    Oracle::X25519Agree,
                    key,
                    parameter,
                    data,
                    Wanted::Bytes(
                        wanted,
                        "independent X25519 derivation failed",
                        "X25519 device and independent peer derived different secrets",
                    ),
                ),
            )
        } else if k == 7 {
            Ok(make_delete(false, id, ObjectType::AsymmetricKey))
        } else if k == 8 {
            Ok(make_close(false))
        } else {
            Ok(Step::Done)
        }
    }
}

/// The steps of the case: audit logs inner commands but never Session Message.
pub open spec fn audit_steps(
    credentials: CredentialsModel,
    responses: Seq<Seq<u8>>,
) -> core::result::Result<
    StepModel,
    FailureModel,
> {
    let k = responses.len();
    if k == 0 {
        Ok(StepModel::Open { second: false, credentials })
    } else if k == 1 {
        Ok(
            command_step(
                false,
                CommandCode::SetOption,
                seq![OPTION_COMMAND_AUDIT] + u16_be(4) + seq![CommandCode::CreateSession.byte()]
                    + seq![OPTION_ON] + seq![CommandCode::AuthenticateSession.byte()]
                    + seq![OPTION_ON],
                ExpectationModel::Success(CommandCode::SetOption),
            ),
        )
    } else if k == 2 {
        Ok(StepModel::Open { second: true, credentials })
    } else if k == 3 {
        Ok(
            command_step(
                true,
                CommandCode::Echo,
                encode_utf8("not a meta log entry"@),
                ExpectationModel::Success(CommandCode::Echo),
            ),
        )
    } else if k == 4 {
        Ok(close_step(true))
    } else if k == 5 {
        Ok(
            command_step(
                false,
                CommandCode::GetLogEntries,
                Seq::<u8>::empty(),
                ExpectationModel::Log,
            ),
        )
    } else if k == 6 {
        Ok(
            command_step(
                false,
                CommandCode::SetOption,
                seq![OPTION_COMMAND_AUDIT] + u16_be(2) + seq![CommandCode::SessionMessage.byte()]
                    + seq![OPTION_ON],
                ExpectationModel::Error(DeviceError::InvalidData),
            ),
        )
    } else if k == 7 {
        Ok(close_step(false))
    } else {
        Ok(StepModel::Done)
    }
}

/// Makes the steps of the case: audit logs inner commands but never Session Message.
fn audit_scenario(
    credentials: &Credentials,
    responses: &Vec<Vec<u8>>,
) -> (step: core::result::Result<Step, Failure>)
    ensures
        check_model(step) == audit_steps(credentials@, data_models(responses@)),
{
    let ghost models = data_models(responses@);
    let k: usize = responses.len();
    if k == 0 {
        Ok(Step::Open { second: false, credentials: credentials.copied() })
    } else if k == 1 {
        let mut data: Vec<u8> = Vec::new();
        data.push(OPTION_COMMAND_AUDIT);
        write_u16(&mut data, 4);
        data.push(CommandCode::CreateSession.to_byte());
        data.push(OPTION_ON);
        data.push(CommandCode::AuthenticateSession.to_byte());
        data.push(OPTION_ON);
        assert(data@ =~= seq![OPTION_COMMAND_AUDIT] + u16_be(4) + seq![CommandCode::CreateSession.byte()]
            + seq![OPTION_ON] + seq![CommandCode::AuthenticateSession.byte()] + seq![OPTION_ON]);
        Ok(
            make_command(
                false,
                CommandCode::SetOption,
                data,
                Expectation::Success(CommandCode::SetOption),
            ),
        )
    } else if k == 2 {
        Ok(Step::Open { second: true, credentials: credentials.copied() })
    } else if k == 3 {
        let mut data: Vec<u8> = Vec::new();
        append(&mut data, "not a meta log entry".as_bytes());
        assert(data@ =~= encode_utf8("not a meta log entry"@));
        Ok(make_command(true, CommandCode::Echo, data, Expectation::Success(CommandCode::Echo)))
    } else if k == 4 {
        Ok(make_close(true))
    } else if k == 5 {
        let data: Vec<u8> = Vec::new();
        assert(data@ =~= Seq::<u8>::empty());
        Ok(make_command(false, CommandCode::GetLogEntries, data, Expectation::Log))
    } else if k == 6 {
        let mut data: Vec<u8> = Vec::new();
        data.push(OPTION_COMMAND_AUDIT);
        write_u16(&mut data, 2);
        data.push(CommandCode::SessionMessage.to_byte());
        data.push(OPTION_ON);
        assert(data@ =~= seq![OPTION_COMMAND_AUDIT] + u16_be(2) + seq![CommandCode::SessionMessage.byte()]
            + seq![OPTION_ON]);
        Ok(
            make_command(
                false,
                CommandCode::SetOption,
                data,
                Expectation::Error(DeviceError::InvalidData),
            ),
        )
    } else if k == 7 {
        Ok(make_close(false))
    } else {
        Ok(Step::Done)
    }
}

} // verus!
