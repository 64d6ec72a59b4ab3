//! Certificates about the keys of a device.
use crate::algorithm::Algorithm;
use crate::authorization::SessionAuthorization;
use crate::bytes::{append, copied, u16_be, u16_bytes, u32_be, u64_be, write_u16, write_u32};
use crate::capability::CapabilitySet;
use crate::device::{viewed, ConfigModel, Device, DeviceConfig, DeviceModel};
use crate::engine::{
    certificate_from, extension_models, held_models, lift, run, template_model, Answers,
    Attestation, AttestationModel, AttestedExtension, EngineReply, EngineRequest, ExtensionModel,
    Halt, HaltModel, HeldModel, Metadata, MetadataModel, RequestModel, Run, Template, TemplateModel,
};
use crate::error::{DeviceError, Result};
use crate::keys::{EcCurve, KeyKind, SigningKey, SigningKeyModel};
use crate::object::{InfoModel, MaterialModel, ObjectInfo, ObjectKey, ObjectMaterial, ObjectType};
use crate::outside::{certificate_template, read_template};
use crate::request::SignAttestationCertificateRequest;
use crate::text::{append_number, numeral};
use crate::usage::{is_x25519, signing_key};
use crate::wire::{decode, decoded};
use vstd::prelude::*;
use vstd::utf8::encode_utf8;

verus! {

/// How long an attestation without a template is valid: ten years of 365 days, in
/// seconds.
pub const VALIDITY_SECONDS: u64 = 315_360_000;

impl Metadata {
    /// Returns the identifier of this piece of metadata in dotted numbers.
    pub fn identifier(&self) -> (text: String)
        ensures
            text@ == "1.3.6.1.4.1.41482.4."@ + numeral(self.arc as nat),
    {
        let mut text: String = "1.3.6.1.4.1.41482.4.".to_owned();
        append_number(&mut text, self.arc as usize);
        text
    }
}

/// The digits of a number.
pub open spec fn decimal(value: nat) -> Seq<u8>
    decreases value,
{
    if value < 10 {
        seq![(0x30 + value) as u8]
    } else {
        decimal(value / 10).push((0x30 + value % 10) as u8)
    }
}

/// Writes the digits of a number.
pub fn write_decimal(output: &mut Vec<u8>, value: u32)
    ensures
        final(output)@ == old(output)@ + decimal(value as nat),
    decreases value,
{
    if value >= 10 {
        write_decimal(output, value / 10);
    }
    output.push((0x30 + value % 10) as u8);
    assert(output@ =~= old(output)@ + decimal(value as nat));
}

/// A number's digits stand for the number.
pub open spec fn decimal_value(digits: Seq<u8>) -> nat
    decreases digits.len(),
{
    if digits.len() == 0 {
        0
    } else {
        decimal_value(digits.drop_last()) * 10 + (digits.last() - 0x30) as nat
    }
}

/// The digits of a number stand for it, so that different numbers have different
/// names.
pub proof fn digits_stand_for_their_number(value: nat)
    ensures
        decimal_value(decimal(value)) == value,
        decimal(value).len() > 0,
    decreases value,
{
    let digits = decimal(value);
    if value < 10 {
        assert(digits.drop_last() =~= Seq::<u8>::empty());
        assert(decimal_value(digits.drop_last()) == 0);
    } else {
        digits_stand_for_their_number(value / 10);
        assert(digits.drop_last() =~= decimal(value / 10));
        assert(digits.last() - 0x30 == value % 10);
    }
}

/// The subject of a certificate about a key.
pub open spec fn subject_name(target_id: u16) -> Seq<u8> {
    encode_utf8("CN=Virtual YubiHSM Key "@) + decimal(target_id as nat)
}

/// The issuer of a certificate: the device, or one of its keys.
pub open spec fn issuer_name(serial: u32, attesting_id: u16) -> Seq<u8> {
    if attesting_id == 0 {
        encode_utf8("CN=Virtual YubiHSM "@) + decimal(serial as nat) + encode_utf8(
            " Attestation"@,
        )
    } else {
        encode_utf8("CN=Virtual YubiHSM Attestation Key "@) + decimal(attesting_id as nat)
    }
}

/// Makes the subject of a certificate about a key.
fn make_subject_name(target_id: u16) -> (name: Vec<u8>)
    ensures
        name@ == subject_name(target_id),
{
    let mut name: Vec<u8> = copied("CN=Virtual YubiHSM Key ".as_bytes());
    write_decimal(&mut name, target_id as u32);
    name
}

/// Makes the issuer of a certificate.
fn make_issuer_name(serial: u32, attesting_id: u16) -> (name: Vec<u8>)
    ensures
        name@ == issuer_name(serial, attesting_id),
{
    if attesting_id == 0 {
        let mut name: Vec<u8> = copied("CN=Virtual YubiHSM ".as_bytes());
        write_decimal(&mut name, serial);
        append(&mut name, " Attestation".as_bytes());
        name
    } else {
        let mut name: Vec<u8> = copied("CN=Virtual YubiHSM Attestation Key ".as_bytes());
        write_decimal(&mut name, attesting_id as u32);
        name
    }
}

/// What a certificate says of its key: the device, where the key came from,
/// where it may be used and for what, its number and its label.
pub open spec fn attested_metadata(config: ConfigModel, target: InfoModel) -> Seq<MetadataModel> {
    seq![
        MetadataModel { arc: 1, value: config.version },
        MetadataModel { arc: 2, value: u32_be(config.serial) },
        MetadataModel { arc: 3, value: seq![target.origin] },
        MetadataModel { arc: 4, value: u16_be(target.domains) },
        MetadataModel { arc: 5, value: u64_be(target.capabilities.word()) },
        MetadataModel { arc: 6, value: u16_be(target.id) },
        MetadataModel { arc: 9, value: target.label },
    ]
}

/// Makes what a certificate says of its key.
fn attestation_metadata(config: &DeviceConfig, target: &ObjectInfo) -> (metadata: Vec<Metadata>)
    ensures
        metadata@.len() == attested_metadata(config@, target@).len(),
        forall|i: int|
            0 <= i < metadata@.len() ==> (#[trigger] metadata@[i])@ == attested_metadata(
                config@,
                target@,
            )[i],
{
    let mut serial: Vec<u8> = Vec::new();
    write_u32(&mut serial, config.serial);
    assert(serial@ =~= u32_be(config.serial));
    vec![
        Metadata { arc: 1, value: copied(&config.version) },
        Metadata { arc: 2, value: serial },
        Metadata { arc: 3, value: crate::bytes::single(target.origin) },
        Metadata { arc: 4, value: u16_bytes(target.domains) },
        Metadata { arc: 5, value: copied(&target.capabilities.to_bytes()) },
        Metadata { arc: 6, value: u16_bytes(target.id) },
        Metadata { arc: 9, value: copied(&target.label) },
    ]
}

/// The extensions that a certificate starts with: those of its template, or where
/// there are none, that the key signs no certificates and what it is for.
pub open spec fn leading_extensions(held: Seq<HeldModel>, algorithm: Algorithm) -> Seq<
    ExtensionModel,
> {
    if held.len() > 0 {
        held.map_values(|extension: HeldModel| ExtensionModel::Held(extension))
    } else {
        seq![
            ExtensionModel::EndEntity,
            ExtensionModel::KeyUsage {
                agreement: algorithm == Algorithm::Ecdh || algorithm == Algorithm::X25519
                    || algorithm.is_weierstrass(),
                encipherment: algorithm.is_rsa(),
            },
        ]
    }
}

/// The extensions of a certificate, with what it says of its key after the
/// others.
pub open spec fn attested_extensions(
    held: Seq<HeldModel>,
    algorithm: Algorithm,
    metadata: Seq<MetadataModel>,
) -> Seq<ExtensionModel> {
    leading_extensions(held, algorithm) + metadata.map_values(
        |item: MetadataModel| ExtensionModel::Metadata(item),
    )
}

/// The extensions of a template that may be missing.
pub open spec fn held_of(template: Option<TemplateModel>) -> Seq<HeldModel> {
    match template {
        Some(template) => template.extensions,
        None => Seq::empty(),
    }
}

/// Makes the extensions that a certificate starts with.
fn make_leading_extensions(template: &Option<Template>, algorithm: Algorithm) -> (extensions: Vec<
    AttestedExtension,
>)
    ensures
        extension_models(extensions@) == leading_extensions(
            held_of(template_model(*template)),
            algorithm,
        ),
{
    let mut extensions: Vec<AttestedExtension> = Vec::new();
    let ghost held = held_of(template_model(*template));
    if let Some(template) = template {
        let mut index: usize = 0;
        while index < template.extensions.len()
            invariant
                held == held_models(template.extensions@),
                index <= template.extensions@.len(),
                extensions@.len() == index,
                forall|i: int|
                    0 <= i < index ==> (#[trigger] extensions@[i])@ == ExtensionModel::Held(
                        held[i],
                    ),
            decreases template.extensions@.len() - index,
        {
            extensions.push(AttestedExtension::Held(template.extensions[index].copied()));
            index = index + 1;
        }
    }
    if extensions.len() == 0 {
        extensions.push(AttestedExtension::EndEntity);
        extensions.push(
            AttestedExtension::KeyUsage {
                agreement: matches!(algorithm, Algorithm::Ecdh | Algorithm::X25519)
                    || algorithm.is_weierstrass_key(),
                encipherment: algorithm.is_rsa_key(),
            },
        );
    }
    assert(extension_models(extensions@) =~= leading_extensions(held, algorithm));
    extensions
}

/// Makes the extensions of a certificate.
fn make_extensions(
    template: &Option<Template>,
    algorithm: Algorithm,
    config: &DeviceConfig,
    target: &ObjectInfo,
) -> (extensions: Vec<AttestedExtension>)
    ensures
        extension_models(extensions@) == attested_extensions(
            held_of(template_model(*template)),
            algorithm,
            attested_metadata(config@, target@),
        ),
{
    let mut extensions: Vec<AttestedExtension> = make_leading_extensions(template, algorithm);
    let metadata: Vec<Metadata> = attestation_metadata(config, target);
    let ghost leading = extensions@;
    let ghost said = attested_metadata(config@, target@);
    let mut index: usize = 0;
    while index < metadata.len()
        invariant
            index <= metadata@.len(),
            metadata@.len() == said.len(),
            forall|i: int| 0 <= i < metadata@.len() ==> (#[trigger] metadata@[i])@ == said[i],
            extensions@.len() == leading.len() + index,
            forall|i: int| 0 <= i < leading.len() ==> extensions@[i] == leading[i],
            forall|i: int|
                0 <= i < index ==> (#[trigger] extensions@[leading.len() + i])@
                    == ExtensionModel::Metadata(said[i]),
        decreases metadata@.len() - index,
    {
        extensions.push(
            AttestedExtension::Metadata(
                Metadata { arc: metadata[index].arc, value: copied(&metadata[index].value) },
            ),
        );
        index = index + 1;
    }
    assert(extension_models(extensions@) =~= attested_extensions(
        held_of(template_model(*template)),
        algorithm,
        said,
    )) by {
        assert forall|i: int| 0 <= i < extensions@.len() implies extension_models(extensions@)[i]
            == attested_extensions(held_of(template_model(*template)), algorithm, said)[i] by {
            if i < leading.len() {
                assert(extension_models(leading)[i] == leading[i]@);
            } else {
                assert(extensions@[leading.len() + (i - leading.len())]@
                    == ExtensionModel::Metadata(said[i - leading.len()]));
            }
        }
        assert(extension_models(leading).len() == leading.len());
    }
    extensions
}

/// A key that is attested: what kind of key it is, its public part, and what is
/// known of it. An X25519 key is of no signing kind.
pub struct AttestationTarget {
    pub kind: Option<KeyKind>,
    pub public: Vec<u8>,
    pub info: ObjectInfo,
}

/// What a key that is attested says.
#[verifier::ext_equal]
pub struct TargetModel {
    pub kind: Option<KeyKind>,
    pub public: Seq<u8>,
    pub info: InfoModel,
}

impl View for AttestationTarget {
    type V = TargetModel;

    open spec fn view(&self) -> TargetModel {
        TargetModel { kind: self.kind, public: self.public@, info: self.info@ }
    }
}

/// A template that may be missing.
pub struct AttestationTemplate {
    pub template: Option<Template>,
}

impl View for AttestationTemplate {
    type V = Option<TemplateModel>;

    open spec fn view(&self) -> Option<TemplateModel> {
        template_model(self.template)
    }
}

/// What a certificate says of the device's own key.
pub open spec fn device_key_info() -> InfoModel {
    InfoModel {
        capabilities: CapabilitySet::empty(),
        id: 0,
        length: Algorithm::EcP256.object_length()->0 as u16,
        domains: 0,
        object_type: ObjectType::AsymmetricKey,
        algorithm: Algorithm::EcP256.byte(),
        sequence: 0,
        origin: 0,
        label: encode_utf8("Virtual YubiHSM device key"@),
        delegated_capabilities: CapabilitySet::empty(),
    }
}

impl DeviceModel {
    /// The key that a certificate is about: the device's own, or one that the
    /// device generated.
    pub open spec fn attested(
        self,
        authorization: SessionAuthorization,
        target_id: u16,
    ) -> core::result::Result<
        TargetModel,
        DeviceError,
    > {
        if target_id == 0 {
            if self.key.kind is Ec {
                Ok(
                    TargetModel {
                        kind: Some(KeyKind::Ec(EcCurve::P256)),
                        public: self.key.public,
                        info: device_key_info(),
                    },
                )
            } else {
                Err(DeviceError::StorageFailed)
            }
        } else {
            match self.usable(authorization, ObjectType::AsymmetricKey, target_id) {
                Err(error) => Err(error),
                Ok(record) => if record.info.origin & 1 == 0 {
                    Err(DeviceError::InvalidData)
                } else if record.info.known_algorithm() == Some(Algorithm::X25519) {
                    match record.material {
                        MaterialModel::X25519Key(key) => Ok(
                            TargetModel { kind: None, public: key.public, info: record.info },
                        ),
                        _ => Err(DeviceError::InvalidData),
                    }
                } else {
                    match record.signing() {
                        Ok(key) => Ok(
                            TargetModel {
                                kind: Some(key.kind),
                                public: key.public,
                                info: record.info,
                            },
                        ),
                        Err(error) => Err(error),
                    }
                },
            }
        }
    }

    /// The key that signs a certificate: the device's own, or a P-256 key.
    pub open spec fn attesting(
        self,
        authorization: SessionAuthorization,
        attesting_id: u16,
    ) -> core::result::Result<
        SigningKeyModel,
        DeviceError,
    > {
        if attesting_id == 0 {
            Ok(self.key)
        } else {
            match self.usable(authorization, ObjectType::AsymmetricKey, attesting_id) {
                Err(error) => Err(error),
                Ok(record) => if record.info.algorithm != Algorithm::EcP256.byte() {
                    Err(DeviceError::InvalidData)
                } else {
                    record.signing()
                },
            }
        }
    }

    /// The template of the key that signs a certificate: the certificate in the
    /// opaque object of the same number, where there is one.
    pub open spec fn attestation_template(
        self,
        authorization: SessionAuthorization,
        attesting_id: u16,
    ) -> core::result::Result<Option<TemplateModel>, DeviceError> {
        let key = ObjectKey { object_type: ObjectType::Opaque, id: attesting_id };
        if attesting_id == 0 || !self.objects.contains_key(key.number()) {
            Ok(None)
        } else {
            match self.found(authorization, key) {
                Err(error) => Err(error),
                Ok(record) => if record.info.algorithm != Algorithm::OpaqueX509Certificate.byte() {
                    Err(DeviceError::InvalidData)
                } else {
                    match record.material {
                        MaterialModel::Opaque(encoded) => match certificate_template(encoded) {
                            Some(template) => Ok(Some(template)),
                            None => Err(DeviceError::InvalidData),
                        },
                        _ => Err(DeviceError::InvalidData),
                    }
                },
            }
        }
    }

    /// The certificate to build and sign.
    pub open spec fn attestation(
        self,
        authorization: SessionAuthorization,
        target_id: u16,
        attesting_id: u16,
    ) -> core::result::Result<AttestationModel, DeviceError> {
        match self.attested(authorization, target_id) {
            Err(error) => Err(error),
            Ok(target) => match self.attesting(authorization, attesting_id) {
                Err(error) => Err(error),
                Ok(signer) => match self.attestation_template(authorization, attesting_id) {
                    Err(error) => Err(error),
                    Ok(template) => match target.info.known_algorithm() {
                        None => Err(DeviceError::InvalidData),
                        Some(algorithm) => Ok(
                            AttestationModel {
                                target: target.kind,
                                target_public: target.public,
                                signer,
                                subject: subject_name(target_id),
                                issuer: issuer_name(self.config.serial, attesting_id),
                                template,
                                serial: u32_be(self.config.serial) + u16_be(target_id) + u16_be(
                                    attesting_id,
                                ),
                                extensions: attested_extensions(
                                    held_of(template),
                                    algorithm,
                                    attested_metadata(self.config, target.info),
                                ),
                            },
                        ),
                    },
                },
            },
        }
    }

    /// A signed certificate about a key.
    pub open spec fn signs_attestation(
        self,
        authorization: SessionAuthorization,
        data: Seq<u8>,
        replies: Seq<EngineReply>,
        used: nat,
    ) -> Run<Seq<u8>> {
        match decoded::<SignAttestationCertificateRequest>(data) {
            Err(error) => Err(HaltModel::Error(error, used)),
            Ok(request) => match self.attestation(
                authorization,
                request.target_id,
                request.attesting_id,
            ) {
                Err(error) => Err(HaltModel::Error(error, used)),
                Ok(attestation) => certificate_from(
                    replies,
                    used,
                    RequestModel::Attest(attestation),
                ),
            },
        }
    }
}

impl Device {
    /// Finds the key that a certificate is about.
    fn attestation_target(&self, authorization: SessionAuthorization, target_id: u16) -> (target:
        Result<AttestationTarget>)
        ensures
            viewed(target) == self@.attested(authorization, target_id),
    {
        if target_id == 0 {
            if !matches!(self.device_static_private.kind, KeyKind::Ec(_)) {
                return Err(DeviceError::StorageFailed);
            }
            let length: usize = match Algorithm::EcP256.asymmetric_object_length() {
                Some(length) => length,
                None => 0,
            };
            return Ok(
                AttestationTarget {
                    kind: Some(KeyKind::Ec(EcCurve::P256)),
                    public: copied(&self.device_static_private.public),
                    info: ObjectInfo {
                        capabilities: CapabilitySet::none(),
                        id: 0,
                        length: length as u16,
                        domains: 0,
                        object_type: ObjectType::AsymmetricKey,
                        algorithm: Algorithm::EcP256.to_byte(),
                        sequence: 0,
                        origin: 0,
                        label: copied("Virtual YubiHSM device key".as_bytes()),
                        delegated_capabilities: CapabilitySet::none(),
                    },
                },
            );
        }
        let record = self.find_usable(authorization, ObjectType::AsymmetricKey, target_id)?;
        if record.info.origin & 1 == 0 {
            return Err(DeviceError::InvalidData);
        }
        if is_x25519(record) {
            return match &record.material {
                ObjectMaterial::X25519Key(key) => Ok(
                    AttestationTarget {
                        kind: None,
                        public: copied(&key.public),
                        info: record.info.copied(),
                    },
                ),
                _ => Err(DeviceError::InvalidData),
            };
        }
        let key = signing_key(record)?;
        Ok(
            AttestationTarget {
                kind: Some(key.kind),
                public: copied(&key.public),
                info: record.info.copied(),
            },
        )
    }

    /// Finds the key that signs a certificate.
    fn attestation_signer(&self, authorization: SessionAuthorization, attesting_id: u16) -> (key:
        Result<SigningKey>)
        ensures
            viewed(key) == self@.attesting(authorization, attesting_id),
    {
        if attesting_id == 0 {
            return Ok(self.device_static_private.copied());
        }
        let record = self.find_usable(authorization, ObjectType::AsymmetricKey, attesting_id)?;
        if record.info.algorithm != Algorithm::EcP256.to_byte() {
            return Err(DeviceError::InvalidData);
        }
        let key = signing_key(record)?;
        Ok(key.copied())
    }

    /// Finds the template of the key that signs a certificate.
    fn find_attestation_template(
        &self,
        authorization: SessionAuthorization,
        attesting_id: u16,
    ) -> (template:
        Result<AttestationTemplate>)
        ensures
            viewed(template) == self@.attestation_template(authorization, attesting_id),
    {
        let key = ObjectKey { object_type: ObjectType::Opaque, id: attesting_id };
        if attesting_id == 0 || !self.holds(key) {
            return Ok(AttestationTemplate { template: None });
        }
        let record = self.find_visible(authorization, key)?;
        if record.info.algorithm != Algorithm::OpaqueX509Certificate.to_byte() {
            return Err(DeviceError::InvalidData);
        }
        match &record.material {
            ObjectMaterial::Opaque(encoded) => match read_template(encoded) {
                Some(template) => Ok(AttestationTemplate { template: Some(template) }),
                None => Err(DeviceError::InvalidData),
            },
            _ => Err(DeviceError::InvalidData),
        }
    }

    /// Makes the certificate to build and sign.
    pub fn prepare_attestation(
        &self,
        authorization: SessionAuthorization,
        target_id: u16,
        attesting_id: u16,
    ) -> (attestation: Result<Attestation>)
        ensures
            viewed(attestation) == self@.attestation(authorization, target_id, attesting_id),
    {
        let target = self.attestation_target(authorization, target_id)?;
        let signer = self.attestation_signer(authorization, attesting_id)?;
        let found = self.find_attestation_template(authorization, attesting_id)?;
        let algorithm = match Algorithm::from_byte(target.info.algorithm) {
            Some(algorithm) => algorithm,
            None => {
                return Err(DeviceError::InvalidData);
            },
        };
        let mut serial: Vec<u8> = Vec::new();
        write_u32(&mut serial, self.config.serial);
        write_u16(&mut serial, target_id);
        write_u16(&mut serial, attesting_id);
        assert(serial@ =~= u32_be(self.config.serial) + u16_be(target_id) + u16_be(attesting_id));
        let extensions: Vec<AttestedExtension> = make_extensions(
            &found.template,
            algorithm,
            &self.config,
            &target.info,
        );
        Ok(
            Attestation {
                target: target.kind,
                target_public: target.public,
                signer,
                subject: make_subject_name(target_id),
                issuer: make_issuer_name(self.config.serial, attesting_id),
                template: found.template,
                serial,
                extensions,
            },
        )
    }

    /// Signs a certificate about a key.
    pub fn sign_attestation_certificate(
        &self,
        authorization: SessionAuthorization,
        data: &[u8],
        answers: &mut Answers,
    ) -> (output: core::result::Result<Vec<u8>, Halt>)
        requires
            old(answers).valid(),
        ensures
            final(answers).valid(),
            final(answers).replies == old(answers).replies,
            run(output, final(answers).used) == self@.signs_attestation(
                authorization,
                data@,
                old(answers).replies@,
                old(answers).used as nat,
            ),
    {
        let request = lift(decode::<SignAttestationCertificateRequest>(data))?;
        let attestation = lift(
            self.prepare_attestation(authorization, request.target_id, request.attesting_id),
        )?;
        answers.certificate(EngineRequest::Attest(attestation))
    }
}

/// Every certificate ends in what the device says of the key, whatever its
/// template holds before that.
pub proof fn certificates_end_in_metadata(
    device: DeviceModel,
    authorization: SessionAuthorization,
    target_id: u16,
    attesting_id: u16,
)
    requires
        device.attestation(authorization, target_id, attesting_id) is Ok,
    ensures
        ({
            let extensions = device.attestation(
                authorization,
                target_id,
                attesting_id,
            )->Ok_0.extensions;
            let metadata = attested_metadata(
                device.config,
                device.attested(authorization, target_id)->Ok_0.info,
            );
            extensions.len() > 7 && forall|i: int|
                0 <= i < 7 ==> #[trigger] extensions[extensions.len() - 7 + i]
                    == ExtensionModel::Metadata(metadata[i])
        }),
{
}

/// Only keys that the device made are attested, besides its own: an imported key
/// has no certificate.
pub proof fn only_generated_keys_are_attested(
    device: DeviceModel,
    authorization: SessionAuthorization,
    target_id: u16,
    attesting_id: u16,
)
    requires
        target_id != 0,
        device.attestation(authorization, target_id, attesting_id) is Ok,
    ensures
        device.get(ObjectKey { object_type: ObjectType::AsymmetricKey, id: target_id }) matches Ok(
            record,
        ) && record.info.origin & 1 != 0 && authorization.sees(record.info),
{
}

} // verus!
