//! The chained audit log.
use crate::authorization::SessionAuthorization;
use crate::bytes::{append, u16_at, u16_be, u32_be, write_u16, write_u32};
use crate::engine::{run, sized_from, Answers, EngineReply, EngineRequest, Halt, RequestModel, Run};
use crate::error::DeviceError;
use crate::keys::HashAlgorithm;
use crate::protocol::CommandCode;
use crate::request::{
    ExportRsaWrappedFields, ExportWrappedRequest, RewrapOtpAeadRequest,
    SignAttestationCertificateRequest,
};
use crate::wire::{decode, decoded, Reader};
use vstd::prelude::*;

verus! {

/// One entry of the audit log.
#[derive(Clone, Copy, Debug, PartialEq, Eq)]
pub struct AuditEntry {
    pub number: u16,
    pub command: u8,
    pub length: u16,
    pub session_key: u16,
    pub target_key: u16,
    pub second_key: u16,
    pub result: u8,
    pub systick: u32,
    pub digest: [u8; 16],
}

/// What an entry says.
#[verifier::ext_equal]
pub struct EntryModel {
    pub number: u16,
    pub command: u8,
    pub length: u16,
    pub session_key: u16,
    pub target_key: u16,
    pub second_key: u16,
    pub result: u8,
    pub systick: u32,
    pub digest: Seq<u8>,
}

impl View for AuditEntry {
    type V = EntryModel;

    open spec fn view(&self) -> EntryModel {
        EntryModel {
            number: self.number,
            command: self.command,
            length: self.length,
            session_key: self.session_key,
            target_key: self.target_key,
            second_key: self.second_key,
            result: self.result,
            systick: self.systick,
            digest: self.digest@,
        }
    }
}

impl EntryModel {
    /// The entry on the wire without its digest.
    pub open spec fn head(self) -> Seq<u8> {
        u16_be(self.number) + seq![self.command] + u16_be(self.length) + u16_be(self.session_key)
            + u16_be(self.target_key) + u16_be(self.second_key) + seq![self.result] + u32_be(
            self.systick,
        )
    }

    /// The entry on the wire.
    pub open spec fn encoded(self) -> Seq<u8> {
        self.head() + self.digest
    }
}

/// Entries on the wire, one after the other.
pub open spec fn entries_encoded(entries: Seq<EntryModel>) -> Seq<u8>
    decreases entries.len(),
{
    if entries.len() == 0 {
        Seq::empty()
    } else {
        entries_encoded(entries.drop_last()) + entries.last().encoded()
    }
}

impl AuditEntry {
    /// Writes the entry without its digest.
    fn encode_head(&self, output: &mut Vec<u8>)
        ensures
            final(output)@ == old(output)@ + self@.head(),
    {
        write_u16(output, self.number);
        output.push(self.command);
        write_u16(output, self.length);
        write_u16(output, self.session_key);
        write_u16(output, self.target_key);
        write_u16(output, self.second_key);
        output.push(self.result);
        write_u32(output, self.systick);
        assert(output@ =~= old(output)@ + self@.head());
    }

    /// Writes the entry for the wire, in 32 bytes.
    pub fn encode(&self, output: &mut Vec<u8>)
        ensures
            final(output)@ == old(output)@ + self@.encoded(),
            self@.encoded().len() == 32,
    {
        self.encode_head(output);
        append(output, &self.digest);
        assert(output@ =~= old(output)@ + self@.encoded());
    }
}

/// The audit log of a device.
#[derive(Clone, Debug)]
pub struct AuditState {
    pub entries: Vec<AuditEntry>,
    pub next_number: u16,
    pub systick: u32,
    pub previous_digest: [u8; 16],
    pub unlogged_boot: u16,
    pub unlogged_authentication: u16,
}

/// What an audit log says.
#[verifier::ext_equal]
pub struct AuditModel {
    pub entries: Seq<EntryModel>,
    pub next_number: u16,
    pub systick: u32,
    pub previous_digest: Seq<u8>,
    pub unlogged_boot: u16,
    pub unlogged_authentication: u16,
}

/// What entries say.
pub open spec fn entries_model(entries: Seq<AuditEntry>) -> Seq<EntryModel> {
    Seq::new(entries.len(), |i: int| entries[i]@)
}

impl View for AuditState {
    type V = AuditModel;

    open spec fn view(&self) -> AuditModel {
        AuditModel {
            entries: entries_model(self.entries@),
            next_number: self.next_number,
            systick: self.systick,
            previous_digest: self.previous_digest@,
            unlogged_boot: self.unlogged_boot,
            unlogged_authentication: self.unlogged_authentication,
        }
    }
}

/// An entry that may be missing.
#[derive(Clone, Copy, Debug)]
pub struct PendingEntry {
    pub entry: Option<AuditEntry>,
}

impl View for PendingEntry {
    type V = Option<EntryModel>;

    open spec fn view(&self) -> Option<EntryModel> {
        match self.entry {
            Some(entry) => Some(entry@),
            None => None,
        }
    }
}

/// Whether a command makes up the transport rather than the device's service.
pub open spec fn is_meta(command: CommandCode) -> bool {
    match command {
        CommandCode::Echo
        | CommandCode::CreateSession
        | CommandCode::AuthenticateSession
        | CommandCode::SessionMessage
        | CommandCode::GetDeviceInfo
        | CommandCode::GetDevicePublicKey
        | CommandCode::CloseSession => true,
        _ => false,
    }
}

/// Tells whether a command makes up the transport rather than the device's
/// service.
pub fn command_is_meta(command: CommandCode) -> (meta: bool)
    ensures
        meta == is_meta(command),
{
    matches!(
        command,
        CommandCode::Echo
            | CommandCode::CreateSession
            | CommandCode::AuthenticateSession
            | CommandCode::SessionMessage
            | CommandCode::GetDeviceInfo
            | CommandCode::GetDevicePublicKey
            | CommandCode::CloseSession
    )
}

/// Whether a command can be audited at all: every command of the device's
/// service, and the two that make a session.
pub open spec fn is_auditable(command: CommandCode) -> bool {
    !is_meta(command) || command == CommandCode::CreateSession || command
        == CommandCode::AuthenticateSession
}

/// Tells whether a command can be audited at all.
pub fn command_can_be_audited(command: CommandCode) -> (auditable: bool)
    ensures
        auditable == is_auditable(command),
{
    !command_is_meta(command) || matches!(
        command,
        CommandCode::CreateSession | CommandCode::AuthenticateSession
    )
}

/// Whether a successful command changes what outlives the power supply.
pub open spec fn is_durable(command: CommandCode) -> bool {
    match command {
        CommandCode::PutOpaque
        | CommandCode::PutAuthenticationKey
        | CommandCode::PutAsymmetricKey
        | CommandCode::GenerateAsymmetricKey
        | CommandCode::ImportWrapped
        | CommandCode::PutWrapKey
        | CommandCode::SetOption
        | CommandCode::PutHmacKey
        | CommandCode::GenerateHmacKey
        | CommandCode::GenerateWrapKey
        | CommandCode::DeleteObject
        | CommandCode::PutTemplate
        | CommandCode::PutOtpAeadKey
        | CommandCode::GenerateOtpAeadKey
        | CommandCode::SetLogIndex
        | CommandCode::ChangeAuthenticationKey
        | CommandCode::PutSymmetricKey
        | CommandCode::GenerateSymmetricKey
        | CommandCode::PutPublicWrapKey
        | CommandCode::PutRsaWrappedKey
        | CommandCode::ImportRsaWrapped
        | CommandCode::ResetDevice => true,
        _ => false,
    }
}

/// Tells whether a successful command changes what outlives the power supply.
pub fn command_changes_persistent_state(command: CommandCode) -> (durable: bool)
    ensures
        durable == is_durable(command),
{
    matches!(
        command,
        CommandCode::PutOpaque
            | CommandCode::PutAuthenticationKey
            | CommandCode::PutAsymmetricKey
            | CommandCode::GenerateAsymmetricKey
            | CommandCode::ImportWrapped
            | CommandCode::PutWrapKey
            | CommandCode::SetOption
            | CommandCode::PutHmacKey
            | CommandCode::GenerateHmacKey
            | CommandCode::GenerateWrapKey
            | CommandCode::DeleteObject
            | CommandCode::PutTemplate
            | CommandCode::PutOtpAeadKey
            | CommandCode::GenerateOtpAeadKey
            | CommandCode::SetLogIndex
            | CommandCode::ChangeAuthenticationKey
            | CommandCode::PutSymmetricKey
            | CommandCode::GenerateSymmetricKey
            | CommandCode::PutPublicWrapKey
            | CommandCode::PutRsaWrappedKey
            | CommandCode::ImportRsaWrapped
            | CommandCode::ResetDevice
    )
}

/// The objects that an entry names: the two of a command with two, where its
/// payload is valid, and otherwise the number that the payload starts with.
pub open spec fn key_ids(command: CommandCode, data: Seq<u8>) -> (u16, u16) {
    match command {
        CommandCode::SignAttestationCertificate => match decoded::<
            SignAttestationCertificateRequest,
        >(data) {
            Ok(request) => (request.target_id, request.attesting_id),
            Err(_) => (0, 0),
        },
        CommandCode::RewrapOtpAead => match decoded::<RewrapOtpAeadRequest>(data) {
            Ok(request) => (request.from_id, request.to_id),
            Err(_) => (0, 0),
        },
        CommandCode::ExportWrapped => match decoded::<ExportWrappedRequest>(data) {
            Ok(request) => (request.target.id, request.wrap_id),
            Err(_) => (0, 0),
        },
        CommandCode::ExportRsaWrapped => match decoded::<ExportRsaWrappedFields>(data) {
            Ok(request) => (request.target_id, request.wrap_id),
            Err(_) => (0, 0),
        },
        _ => if data.len() >= 2 {
            (u16_at(data, 0), 0)
        } else {
            (0, 0)
        },
    }
}

/// Returns the objects that an entry names.
pub fn audit_key_ids(command: CommandCode, data: &[u8]) -> (ids: (u16, u16))
    ensures
        ids == key_ids(command, data@),
{
    match command {
        CommandCode::SignAttestationCertificate => match decode::<
            SignAttestationCertificateRequest,
        >(data) {
            Ok(request) => (request.target_id, request.attesting_id),
            Err(_) => (0, 0),
        },
        CommandCode::RewrapOtpAead => match decode::<RewrapOtpAeadRequest>(data) {
            Ok(request) => (request.from_id, request.to_id),
            Err(_) => (0, 0),
        },
        CommandCode::ExportWrapped => match decode::<ExportWrappedRequest>(data) {
            Ok(request) => (request.target.id, request.wrap_id),
            Err(_) => (0, 0),
        },
        CommandCode::ExportRsaWrapped => match decode::<ExportRsaWrappedFields>(data) {
            Ok(request) => (request.target_id, request.wrap_id),
            Err(_) => (0, 0),
        },
        _ => {
            let mut reader = Reader::new(data);
            match reader.read_u16() {
                Ok(id) => (id, 0),
                Err(_) => (0, 0),
            }
        },
    }
}

/// The number that follows: numbers start again at one.
pub open spec fn following(number: u16) -> u16 {
    if number == u16::MAX {
        1
    } else {
        (number + 1) as u16
    }
}

impl AuditModel {
    /// The log of a device that was never used.
    pub open spec fn factory() -> AuditModel {
        AuditModel {
            entries: Seq::empty(),
            next_number: 1,
            systick: 0,
            previous_digest: Seq::new(16, |i: int| 0u8),
            unlogged_boot: 0,
            unlogged_authentication: 0,
        }
    }

    /// Whether the log holds as many entries as it can.
    pub open spec fn full(self, capacity: u8) -> bool {
        self.entries.len() >= capacity
    }

    /// The entry of a command before it is chained to the one before.
    pub open spec fn unchained(
        self,
        authorization: SessionAuthorization,
        command: CommandCode,
        data: Seq<u8>,
        result: u8,
    ) -> EntryModel {
        let keys = if command == CommandCode::AuthenticateSession {
            (authorization.authentication_key_id, 0u16)
        } else {
            key_ids(command, data)
        };
        EntryModel {
            number: self.next_number,
            command: command.byte(),
            length: if data.len() <= 0xffff {
                data.len() as u16
            } else {
                0xffff
            },
            session_key: authorization.authentication_key_id,
            target_key: keys.0,
            second_key: keys.1,
            result,
            systick: self.systick,
            digest: Seq::new(16, |i: int| 0u8),
        }
    }

    /// The entry of a command, unless the log is full: its digest starts that of
    /// the entry followed by the digest before.
    pub open spec fn entry(
        self,
        capacity: u8,
        authorization: SessionAuthorization,
        command: CommandCode,
        data: Seq<u8>,
        result: u8,
        replies: Seq<EngineReply>,
        used: nat,
    ) -> Run<Option<EntryModel>> {
        if self.full(capacity) {
            Ok((None, used))
        } else {
            let entry = self.unchained(authorization, command, data, result);
            match sized_from(
                replies,
                used,
                RequestModel::digest(HashAlgorithm::Sha256, entry.head() + self.previous_digest),
                32,
                DeviceError::StorageFailed,
            ) {
                Ok((digest, used)) => Ok(
                    (Some(EntryModel { digest: digest.subrange(0, 16), ..entry }), used),
                ),
                Err(halt) => Err(halt),
            }
        }
    }

    /// The log with an entry added.
    pub open spec fn appended(self, entry: EntryModel) -> AuditModel {
        AuditModel {
            entries: self.entries.push(entry),
            next_number: following(self.next_number),
            systick: if self.systick == u32::MAX {
                0
            } else {
                (self.systick + 1) as u32
            },
            previous_digest: entry.digest,
            ..self
        }
    }

    /// The log without the entries up to a number.
    pub open spec fn trimmed(self, index: u16) -> AuditModel {
        AuditModel {
            entries: self.entries.filter(|entry: EntryModel| entry.number > index),
            ..self
        }
    }

    /// The log with one more authentication that it does not tell of.
    pub open spec fn with_unlogged_authentication(self) -> AuditModel {
        AuditModel {
            unlogged_authentication: if self.unlogged_authentication == u16::MAX {
                u16::MAX
            } else {
                (self.unlogged_authentication + 1) as u16
            },
            ..self
        }
    }
}

/// Makes an array of the first 16 bytes.
pub fn first_sixteen(bytes: &[u8]) -> (array: [u8; 16])
    requires
        bytes@.len() >= 16,
    ensures
        array@ == bytes@.subrange(0, 16),
{
    let array: [u8; 16] = [
        bytes[0],
        bytes[1],
        bytes[2],
        bytes[3],
        bytes[4],
        bytes[5],
        bytes[6],
        bytes[7],
        bytes[8],
        bytes[9],
        bytes[10],
        bytes[11],
        bytes[12],
        bytes[13],
        bytes[14],
        bytes[15],
    ];
    assert(array@ =~= bytes@.subrange(0, 16));
    array
}

impl AuditState {
    /// Returns the log of a device that was never used.
    pub fn factory() -> (audit: AuditState)
        ensures
            audit@ == AuditModel::factory(),
    {
        let previous_digest: [u8; 16] = [0, 0, 0, 0, 0, 0, 0, 0, 0, 0, 0, 0, 0, 0, 0, 0];
        let audit = AuditState {
            entries: Vec::new(),
            next_number: 1,
            systick: 0,
            previous_digest,
            unlogged_boot: 0,
            unlogged_authentication: 0,
        };
        assert(audit@.entries =~= AuditModel::factory().entries);
        assert(audit@.previous_digest =~= AuditModel::factory().previous_digest);
        audit
    }

    /// Makes the entry of a command, unless the log is full.
    pub fn prepare(
        &self,
        capacity: u8,
        authorization: SessionAuthorization,
        command: CommandCode,
        data: &[u8],
        result: u8,
        answers: &mut Answers,
    ) -> (entry: core::result::Result<PendingEntry, Halt>)
        requires
            old(answers).valid(),
        ensures
            final(answers).valid(),
            final(answers).replies == old(answers).replies,
            run(entry, final(answers).used) == self@.entry(
                capacity,
                authorization,
                command,
                data@,
                result,
                old(answers).replies@,
                old(answers).used as nat,
            ),
    {
        if self.entries.len() >= capacity as usize {
            return Ok(PendingEntry { entry: None });
        }
        let (target_key, second_key): (u16, u16) = if matches!(
            command,
            CommandCode::AuthenticateSession
        ) {
            (authorization.authentication_key_id, 0)
        } else {
            audit_key_ids(command, data)
        };
        let mut entry = AuditEntry {
            number: self.next_number,
            command: command.to_byte(),
            length: if data.len() <= 0xffff {
                data.len() as u16
            } else {
                0xffff
            },
            session_key: authorization.authentication_key_id,
            target_key,
            second_key,
            result,
            systick: self.systick,
            digest: [0, 0, 0, 0, 0, 0, 0, 0, 0, 0, 0, 0, 0, 0, 0, 0],
        };
        let ghost plain = self@.unchained(authorization, command, data@, result);
        assert(entry@.digest =~= plain.digest);
        let mut input: Vec<u8> = Vec::new();
        entry.encode_head(&mut input);
        append(&mut input, &self.previous_digest);
        assert(input@ =~= plain.head() + self@.previous_digest);
        let digest: Vec<u8> = answers.sized(
            EngineRequest::digest(HashAlgorithm::Sha256, &input),
            32,
            DeviceError::StorageFailed,
        )?;
        entry.digest = first_sixteen(&digest);
        Ok(PendingEntry { entry: Some(entry) })
    }

    /// Adds an entry.
    pub fn append(&mut self, entry: AuditEntry)
        ensures
            final(self)@ == old(self)@.appended(entry@),
    {
        self.previous_digest = entry.digest;
        self.next_number = if self.next_number == u16::MAX {
            1
        } else {
            self.next_number + 1
        };
        self.systick = self.systick.wrapping_add(1);
        self.entries.push(entry);
        assert(self@.entries =~= old(self)@.appended(entry@).entries);
    }

    /// Copies the log.
    pub fn copied(&self) -> (audit: AuditState)
        ensures
            audit@ == self@,
    {
        let mut entries: Vec<AuditEntry> = Vec::new();
        let mut position: usize = 0;
        while position < self.entries.len()
            invariant
                position <= self.entries@.len(),
                entries@ == self.entries@.subrange(0, position as int),
            decreases self.entries@.len() - position,
        {
            entries.push(self.entries[position]);
            position = position + 1;
            assert(entries@ =~= self.entries@.subrange(0, position as int));
        }
        assert(entries@ =~= self.entries@);
        AuditState {
            entries,
            next_number: self.next_number,
            systick: self.systick,
            previous_digest: self.previous_digest,
            unlogged_boot: self.unlogged_boot,
            unlogged_authentication: self.unlogged_authentication,
        }
    }

    /// Drops the entries up to a number.
    pub fn trim(&mut self, index: u16)
        ensures
            final(self)@ == old(self)@.trimmed(index),
    {
        let mut kept: Vec<AuditEntry> = Vec::new();
        let ghost keep = |entry: EntryModel| entry.number > index;
        let ghost all = self@.entries;
        let mut position: usize = 0;
        assert(all.subrange(0, 0).filter(keep) =~= Seq::<EntryModel>::empty()) by {
            reveal(Seq::filter);
        }
        assert(entries_model(kept@) =~= Seq::<EntryModel>::empty());
        while position < self.entries.len()
            invariant
                position <= self.entries@.len(),
                *self == *old(self),
                all == self@.entries,
                keep == (|entry: EntryModel| entry.number > index),
                entries_model(kept@) == all.subrange(0, position as int).filter(keep),
            decreases self.entries@.len() - position,
        {
            let entry = self.entries[position];
            let ghost before = entries_model(kept@);
            proof {
                let longer = all.subrange(0, position + 1);
                assert(longer.drop_last() =~= all.subrange(0, position as int));
                assert(longer.last() == entry@);
                reveal(Seq::filter);
            }
            if entry.number > index {
                kept.push(entry);
                assert(entries_model(kept@) =~= before.push(entry@));
            }
            position = position + 1;
        }
        assert(all.subrange(0, all.len() as int) =~= all);
        self.entries = kept;
    }

    /// Counts an authentication that the log does not tell of.
    pub fn count_unlogged_authentication(&mut self)
        ensures
            final(self)@ == old(self)@.with_unlogged_authentication(),
    {
        self.unlogged_authentication = self.unlogged_authentication.saturating_add(1);
    }
}

/// The log never grows beyond its capacity: an entry is made only where there
/// is room for it.
pub proof fn the_log_stays_within_its_capacity(
    audit: AuditModel,
    capacity: u8,
    authorization: SessionAuthorization,
    command: CommandCode,
    data: Seq<u8>,
    result: u8,
    replies: Seq<EngineReply>,
    used: nat,
)
    requires
        audit.entries.len() <= capacity,
    ensures
        match audit.entry(capacity, authorization, command, data, result, replies, used) {
            Ok((Some(entry), _)) => audit.appended(entry).entries.len() <= capacity,
            Ok((None, _)) => audit.entries.len() == capacity,
            Err(_) => true,
        },
{
}

/// An entry carries the log's number and takes 32 bytes, its digest is the next
/// link of the chain, and numbers are never zero.
pub proof fn entries_are_chained(
    audit: AuditModel,
    capacity: u8,
    authorization: SessionAuthorization,
    command: CommandCode,
    data: Seq<u8>,
    result: u8,
    replies: Seq<EngineReply>,
    used: nat,
)
    requires
        audit.next_number != 0,
        audit.entry(capacity, authorization, command, data, result, replies, used) matches Ok(
            (Some(_), _),
        ),
    ensures
        ({
            let entry = audit.entry(
                capacity,
                authorization,
                command,
                data,
                result,
                replies,
                used,
            )->Ok_0.0->0;
            &&& entry.number == audit.next_number
            &&& entry.encoded().len() == 32
            &&& audit.appended(entry).previous_digest == entry.digest
            &&& audit.appended(entry).next_number != 0
            &&& audit.appended(entry).next_number != entry.number
        }),
{
}

/// Trimming keeps the entries after the index, in their order, and drops the
/// rest; the chain and the numbering go on.
pub proof fn trimming_keeps_later_entries(audit: AuditModel, index: u16, entry: EntryModel)
    ensures
        audit.trimmed(index).entries.contains(entry) <==> audit.entries.contains(entry)
            && entry.number > index,
        audit.trimmed(index).entries.len() <= audit.entries.len(),
        audit.trimmed(index).next_number == audit.next_number,
        audit.trimmed(index).previous_digest == audit.previous_digest,
{
    let keep = |entry: EntryModel| entry.number > index;
    audit.entries.lemma_filter_len(keep);
    let kept = audit.entries.filter(keep);
    if kept.contains(entry) {
        let i = choose|i: int| 0 <= i < kept.len() && kept[i] == entry;
        audit.entries.lemma_filter_pred(keep, i);
        audit.entries.lemma_filter_contains_rev(keep, entry);
    }
    if audit.entries.contains(entry) && entry.number > index {
        let i = choose|i: int| 0 <= i < audit.entries.len() && audit.entries[i] == entry;
        audit.entries.lemma_filter_contains(keep, i);
    }
}

/// The session envelope and the other transport commands are never audited;
/// making a session can be.
pub proof fn only_session_making_is_audited_of_the_transport(command: CommandCode)
    ensures
        is_meta(command) && is_auditable(command) <==> command == CommandCode::CreateSession
            || command == CommandCode::AuthenticateSession,
        !is_auditable(CommandCode::SessionMessage),
{
}

} // verus!
