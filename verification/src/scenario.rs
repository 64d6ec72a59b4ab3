//! What a qualification does and expects, step by step.
//!
//! A case is a table of steps. Which step comes next depends only on what the
//! steps before it brought.
use crate::algorithm::Algorithm;
use crate::bytes::{append, copied, copied_range, equal, u16_at, u16_be, u64_be, write_u16};
use crate::capability::CapabilitySet;
use crate::connector::TransportErrorKind;
use crate::error::DeviceError;
use crate::frame::{Frame, FrameModel};
use crate::host::{
    check_model, commanded, computed_from, exchange_from, expect_device_error, expect_response,
    frame_from, host_lift, host_lifted, host_run, open_session, opened, response_data, send_command,
    unmet, unmet_run, CallModel, Credentials, CredentialsModel, Failure, FailureModel, HostAnswers,
    HostHalt, HostHaltModel, HostReply, HostRun, Oracle, OracleCall,
};
use crate::object::ObjectType;
use crate::options::OPTION_COMMAND_AUDIT;
use crate::outside::{certificate_key, read_certificate_key};
use crate::protocol::CommandCode;
use crate::session::{SecureModel, SecureSession};
use vstd::prelude::*;

verus! {

/// What is expected of the response to a command, with the words for where it is
/// not met.
#[derive(Clone, Debug)]
pub enum Expectation {
    Success(CommandCode),
    Data(CommandCode, Vec<u8>, &'static str),
    /// These bytes, under a key of this algorithm.
    AlgorithmData(CommandCode, Vec<u8>, Algorithm, &'static str),
    Length(CommandCode, usize, &'static str),
    /// So many bytes, with the words before the number that there are.
    Counted(CommandCode, usize, &'static str),
    AtLeast(CommandCode, usize, &'static str),
    /// So many bytes, the first of them this.
    Marked(CommandCode, usize, u8, &'static str),
    /// The public key of a key of this algorithm, with so many bytes.
    PublicKey(Algorithm, usize),
    /// Device information.
    Information,
    /// The device's own public key.
    DeviceKey,
    /// A list of objects.
    Listing,
    /// A list with this object in it.
    Listed(u16, ObjectType),
    /// This option, with one value.
    Scalar(u8),
    /// This option, with a value for each of its items.
    Pairs(u8),
    /// The audit of commands, in which that of the session envelope is off.
    AuditPairs,
    /// A log of the opening and the authentication of a session.
    Log,
    /// Device information that leaves room in the audit log.
    Room,
    /// A certificate of this public key.
    Certificate(Vec<u8>),
    Error(DeviceError),
}

/// The contents of an expectation.
#[verifier::ext_equal]
pub enum ExpectationModel {
    Success(CommandCode),
    Data(CommandCode, Seq<u8>, Seq<char>),
    AlgorithmData(CommandCode, Seq<u8>, Algorithm, Seq<char>),
    Length(CommandCode, usize, Seq<char>),
    Counted(CommandCode, usize, Seq<char>),
    AtLeast(CommandCode, usize, Seq<char>),
    Marked(CommandCode, usize, u8, Seq<char>),
    PublicKey(Algorithm, usize),
    Information,
    DeviceKey,
    Listing,
    Listed(u16, ObjectType),
    Scalar(u8),
    Pairs(u8),
    AuditPairs,
    Log,
    Room,
    Certificate(Seq<u8>),
    Error(DeviceError),
}

impl View for Expectation {
    type V = ExpectationModel;

    open spec fn view(&self) -> ExpectationModel {
        match *self {
            Expectation::Success(command) => ExpectationModel::Success(command),
            Expectation::Data(command, data, text) => ExpectationModel::Data(
                command,
                data@,
                text@,
            ),
            Expectation::AlgorithmData(
                command,
                data,
                algorithm,
                text,
            ) => ExpectationModel::AlgorithmData(command, data@, algorithm, text@),
            Expectation::Length(command, length, text) => ExpectationModel::Length(
                command,
                length,
                text@,
            ),
            Expectation::Counted(command, length, text) => ExpectationModel::Counted(
                command,
                length,
                text@,
            ),
            Expectation::AtLeast(command, length, text) => ExpectationModel::AtLeast(
                command,
                length,
                text@,
            ),
            Expectation::Marked(command, length, mark, text) => ExpectationModel::Marked(
                command,
                length,
                mark,
                text@,
            ),
            Expectation::PublicKey(algorithm, length) => ExpectationModel::PublicKey(
                algorithm,
                length,
            ),
            Expectation::Information => ExpectationModel::Information,
            Expectation::DeviceKey => ExpectationModel::DeviceKey,
            Expectation::Listing => ExpectationModel::Listing,
            Expectation::Listed(id, object_type) => ExpectationModel::Listed(id, object_type),
            Expectation::Scalar(option) => ExpectationModel::Scalar(option),
            Expectation::Pairs(option) => ExpectationModel::Pairs(option),
            Expectation::AuditPairs => ExpectationModel::AuditPairs,
            Expectation::Log => ExpectationModel::Log,
            Expectation::Room => ExpectationModel::Room,
            Expectation::Certificate(key) => ExpectationModel::Certificate(key@),
            Expectation::Error(error) => ExpectationModel::Error(error),
        }
    }
}

/// Whether a list of objects, from a place on, holds one.
pub open spec fn lists_object(list: Seq<u8>, at: int, id: u16, object_type: ObjectType) -> bool
    decreases list.len() - at,
{
    if at < 0 || at + 4 > list.len() {
        false
    } else {
        (u16_at(list, at) == id && list[at + 2] == object_type.byte()) || lists_object(
            list,
            at + 4,
            id,
            object_type,
        )
    }
}

/// The first type in a list, from a place on, that is none.
pub open spec fn unknown_type(list: Seq<u8>, at: int) -> Option<u8>
    decreases list.len() - at,
{
    if at < 0 || at + 4 > list.len() {
        None
    } else if ObjectType::of_byte(list[at + 2]) is None {
        Some(list[at + 2])
    } else {
        unknown_type(list, at + 4)
    }
}

/// Whether the values of pairs, from a place on, are all values of options.
pub open spec fn pairs_are_values(data: Seq<u8>, at: int) -> bool
    decreases data.len() - at,
{
    if at < 0 || at + 2 > data.len() {
        true
    } else {
        data[at + 1] <= 2 && pairs_are_values(data, at + 2)
    }
}

/// The value of the first pair, from a place on, of an item.
pub open spec fn pair_value(data: Seq<u8>, at: int, item: u8) -> Option<u8>
    decreases data.len() - at,
{
    if at < 0 || at + 2 > data.len() {
        None
    } else if data[at] == item {
        Some(data[at + 1])
    } else {
        pair_value(data, at + 2, item)
    }
}

/// Whether data is a list of pairs of an option.
pub open spec fn is_pairs(data: Seq<u8>) -> bool {
    data.len() > 0 && data.len() % 2 == 0 && pairs_are_values(data, 0)
}

/// Data that meets a condition, or how it does not.
pub open spec fn ensured_or(
    met: bool,
    data: Seq<u8>,
    failure: FailureModel,
) -> core::result::Result<Seq<u8>, FailureModel> {
    if met {
        Ok(data)
    } else {
        Err(failure)
    }
}

/// Data that meets a condition, or the words for where it does not.
pub open spec fn ensured(met: bool, data: Seq<u8>, text: Seq<char>) -> core::result::Result<
    Seq<u8>,
    FailureModel,
> {
    ensured_or(met, data, FailureModel::Unmet(text))
}

/// The device's own public key: its algorithm before a point.
pub open spec fn good_device_key(data: Seq<u8>) -> core::result::Result<Seq<u8>, FailureModel> {
    if data.len() != 65 {
        Err(FailureModel::Length("device public key is"@, data.len()))
    } else {
        ensured_or(
            data[0] == Algorithm::EcP256YubicoAuthentication.byte(),
            data,
            FailureModel::Byte("unexpected device public-key algorithm"@, data[0]),
        )
    }
}

/// A list of objects in which every type is known.
pub open spec fn good_list(list: Seq<u8>) -> core::result::Result<Seq<u8>, FailureModel> {
    if list.len() % 4 != 0 {
        Err(FailureModel::Unmet("List Objects response is not a multiple of 4 bytes"@))
    } else {
        match unknown_type(list, 0) {
            Some(byte) => Err(FailureModel::UnknownType(byte)),
            None => Ok(list),
        }
    }
}

/// What a log of the opening and the authentication of a session looks like.
pub open spec fn good_log(log: Seq<u8>) -> core::result::Result<Seq<u8>, FailureModel> {
    if log.len() < 5 {
        Err(FailureModel::Unmet("audit response is shorter than its header"@))
    } else if log[4] != 2 {
        Err(FailureModel::Entries(log[4]))
    } else if log.len() != 5 + 2 * 32 {
        Err(FailureModel::Unmet("audit entry length mismatch"@))
    } else if log[7] != CommandCode::CreateSession.byte() || log[39]
        != CommandCode::AuthenticateSession.byte() {
        Err(
            FailureModel::Unmet(
                "audit entries are not Create Session and Authenticate Session"@,
            ),
        )
    } else {
        Ok(log)
    }
}

/// The data of a response that meets an expectation.
pub open spec fn met(expectation: ExpectationModel, response: FrameModel) -> core::result::Result<
    Seq<u8>,
    FailureModel,
> {
    match expectation {
        ExpectationModel::Success(command) => response_data(response, command),
        ExpectationModel::Data(command, wanted, text) => match response_data(response, command) {
            Ok(data) => ensured(data == wanted, data, text),
            Err(failure) => Err(failure),
        },
        ExpectationModel::AlgorithmData(command, wanted, algorithm, text) => match response_data(
            response,
            command,
        ) {
            Ok(data) => ensured_or(
                data == wanted,
                data,
                FailureModel::OfAlgorithm(algorithm, text),
            ),
            Err(failure) => Err(failure),
        },
        ExpectationModel::Length(command, length, text) => match response_data(response, command) {
            Ok(data) => ensured(data.len() == length, data, text),
            Err(failure) => Err(failure),
        },
        ExpectationModel::Counted(command, length, text) => match response_data(
            response,
            command,
        ) {
            Ok(data) => ensured_or(
                data.len() == length,
                data,
                FailureModel::Length(text, data.len()),
            ),
            Err(failure) => Err(failure),
        },
        ExpectationModel::AtLeast(command, length, text) => match response_data(
            response,
            command,
        ) {
            Ok(data) => ensured(data.len() >= length, data, text),
            Err(failure) => Err(failure),
        },
        ExpectationModel::Marked(command, length, mark, text) => match response_data(
            response,
            command,
        ) {
            Ok(data) => ensured(
                data.len() == length && data.len() > 0 && data[0] == mark,
                data,
                text,
            ),
            Err(failure) => Err(failure),
        },
        ExpectationModel::PublicKey(algorithm, length) => match response_data(
            response,
            CommandCode::GetPublicKey,
        ) {
            Ok(data) => ensured_or(
                data.len() == length && data.len() > 0 && data[0] == algorithm.byte(),
                data,
                FailureModel::OfAlgorithm(algorithm, "returned an invalid public key"@),
            ),
            Err(failure) => Err(failure),
        },
        ExpectationModel::Information => match response_data(
            response,
            CommandCode::GetDeviceInfo,
        ) {
            Ok(data) => ensured_or(
                data.len() >= 9,
                data,
                FailureModel::Length("device info is only"@, data.len()),
            ),
            Err(failure) => Err(failure),
        },
        ExpectationModel::DeviceKey => match response_data(
            response,
            CommandCode::GetDevicePublicKey,
        ) {
            Ok(data) => good_device_key(data),
            Err(failure) => Err(failure),
        },
        ExpectationModel::Listing => match response_data(response, CommandCode::ListObjects) {
            Ok(data) => good_list(data),
            Err(failure) => Err(failure),
        },
        ExpectationModel::Listed(id, object_type) => match response_data(
            response,
            CommandCode::ListObjects,
        ) {
            Ok(data) => match good_list(data) {
                Ok(data) => ensured(
                    lists_object(data, 0, id, object_type),
                    data,
                    "new opaque object is missing from List Objects"@,
                ),
                Err(failure) => Err(failure),
            },
            Err(failure) => Err(failure),
        },
        ExpectationModel::Scalar(option) => match response_data(response, CommandCode::GetOption) {
            Ok(data) => ensured_or(
                data.len() == 1 && data[0] <= 2,
                data,
                FailureModel::OfOption(option, "is not a valid scalar"@),
            ),
            Err(failure) => Err(failure),
        },
        ExpectationModel::Pairs(option) => match response_data(response, CommandCode::GetOption) {
            Ok(data) => ensured_or(
                is_pairs(data),
                data,
                FailureModel::OfOption(option, "is not a valid pair list"@),
            ),
            Err(failure) => Err(failure),
        },
        ExpectationModel::AuditPairs => match response_data(response, CommandCode::GetOption) {
            Ok(data) => if !is_pairs(data) {
                Err(FailureModel::OfOption(OPTION_COMMAND_AUDIT, "is not a valid pair list"@))
            } else {
                ensured(
                    pair_value(data, 0, CommandCode::SessionMessage.byte()) matches Some(value)
                        ==> value == 0,
                    data,
                    "Session Message was enabled in the command-audit option"@,
                )
            },
            Err(failure) => Err(failure),
        },
        ExpectationModel::Log => match response_data(response, CommandCode::GetLogEntries) {
            Ok(data) => good_log(data),
            Err(failure) => Err(failure),
        },
        ExpectationModel::Room => match response_data(response, CommandCode::GetDeviceInfo) {
            Ok(data) => if data.len() < 9 {
                Err(FailureModel::Unmet("device info is too short for audit capacity"@))
            } else {
                ensured(data[7] > data[8], data, "audit log was already full"@)
            },
            Err(failure) => Err(failure),
        },
        ExpectationModel::Certificate(wanted) => match response_data(
            response,
            CommandCode::SignAttestationCertificate,
        ) {
            Ok(data) => match certificate_key(data) {
                None => Err(FailureModel::Unmet("attestation is not a DER certificate"@)),
                Some(key) => ensured(
                    key == wanted,
                    data,
                    "attestation certificate contains a different public key"@,
                ),
            },
            Err(failure) => Err(failure),
        },
        ExpectationModel::Error(error) => if response == FrameModel::error(error) {
            Ok(response.data)
        } else {
            Err(FailureModel::Unexpected(error, response))
        },
    }
}

/// Tells whether a list of objects holds one.
pub fn list_holds(list: &[u8], id: u16, object_type: ObjectType) -> (held: bool)
    ensures
        held == lists_object(list@, 0, id, object_type),
{
    let mut at: usize = 0;
    while list.len() - at >= 4
        invariant
            at <= list@.len(),
            lists_object(list@, 0, id, object_type) == lists_object(
                list@,
                at as int,
                id,
                object_type,
            ),
        decreases list@.len() - at,
    {
        if crate::bytes::read_u16(list, at) == id && list[at + 2] == object_type.to_byte() {
            return true;
        }
        at = at + 4;
    }
    false
}

/// Checks a list of objects.
fn check_list(list: Vec<u8>) -> (checked: core::result::Result<Vec<u8>, Failure>)
    ensures
        check_model(checked) == good_list(list@),
{
    if list.len() % 4 != 0 {
        return Err(Failure::Unmet("List Objects response is not a multiple of 4 bytes"));
    }
    let mut at: usize = 0;
    while list.len() - at >= 4
        invariant
            at <= list@.len(),
            unknown_type(list@, 0) == unknown_type(list@, at as int),
            list@.len() % 4 == 0,
        decreases list@.len() - at,
    {
        if ObjectType::from_byte(list[at + 2]).is_none() {
            return Err(Failure::UnknownType(list[at + 2]));
        }
        at = at + 4;
    }
    Ok(list)
}

/// Tells whether data is a list of pairs of an option.
fn check_pairs(data: &[u8]) -> (pairs: bool)
    ensures
        pairs == is_pairs(data@),
{
    if data.len() == 0 || data.len() % 2 != 0 {
        return false;
    }
    let mut at: usize = 0;
    while data.len() - at >= 2
        invariant
            at <= data@.len(),
            pairs_are_values(data@, 0) == pairs_are_values(data@, at as int),
        decreases data@.len() - at,
    {
        if data[at + 1] > 2 {
            return false;
        }
        at = at + 2;
    }
    true
}

/// Finds the value of an item's first pair.
fn find_pair(data: &[u8], item: u8) -> (value: Option<u8>)
    ensures
        value == pair_value(data@, 0, item),
{
    let mut at: usize = 0;
    while data.len() - at >= 2
        invariant
            at <= data@.len(),
            pair_value(data@, 0, item) == pair_value(data@, at as int, item),
        decreases data@.len() - at,
    {
        if data[at] == item {
            return Some(data[at + 1]);
        }
        at = at + 2;
    }
    None
}

/// Returns data that meets a condition, or how it does not.
fn ensure_or(met: bool, data: Vec<u8>, failure: Failure) -> (checked: core::result::Result<
    Vec<u8>,
    Failure,
>)
    ensures
        check_model(checked) == ensured_or(met, data@, failure@),
{
    if met {
        Ok(data)
    } else {
        Err(failure)
    }
}

/// Returns data that meets a condition, or the words for where it does not.
fn ensure(met: bool, data: Vec<u8>, text: &'static str) -> (checked: core::result::Result<
    Vec<u8>,
    Failure,
>)
    ensures
        check_model(checked) == ensured(met, data@, text@),
{
    ensure_or(met, data, Failure::Unmet(text))
}

/// Checks the device's own public key.
fn check_device_key(data: Vec<u8>) -> (checked: core::result::Result<Vec<u8>, Failure>)
    ensures
        check_model(checked) == good_device_key(data@),
{
    if data.len() != 65 {
        return Err(Failure::Length("device public key is", data.len()));
    }
    let mark: u8 = data[0];
    ensure_or(
        mark == Algorithm::EcP256YubicoAuthentication.to_byte(),
        data,
        Failure::Byte("unexpected device public-key algorithm", mark),
    )
}

/// Checks a log of the opening and the authentication of a session.
fn check_log(log: Vec<u8>) -> (checked: core::result::Result<Vec<u8>, Failure>)
    ensures
        check_model(checked) == good_log(log@),
{
    if log.len() < 5 {
        return Err(Failure::Unmet("audit response is shorter than its header"));
    }
    if log[4] != 2 {
        return Err(Failure::Entries(log[4]));
    }
    if log.len() != 5 + 2 * 32 {
        return Err(Failure::Unmet("audit entry length mismatch"));
    }
    if log[7] != CommandCode::CreateSession.to_byte() || log[39]
        != CommandCode::AuthenticateSession.to_byte() {
        return Err(
            Failure::Unmet("audit entries are not Create Session and Authenticate Session"),
        );
    }
    Ok(log)
}

/// Checks a response against an expectation.
pub fn check(expectation: &Expectation, response: &Frame) -> (checked: core::result::Result<
    Vec<u8>,
    Failure,
>)
    ensures
        check_model(checked) == met(expectation@, response@),
{
    match expectation {
        Expectation::Success(command) => expect_response(response, *command),
        Expectation::Data(command, wanted, text) => {
            let data: Vec<u8> = expect_response(response, *command)?;
            ensure(equal(&data, wanted), data, text)
        },
        Expectation::AlgorithmData(command, wanted, algorithm, text) => {
            let data: Vec<u8> = expect_response(response, *command)?;
            ensure_or(equal(&data, wanted), data, Failure::OfAlgorithm(*algorithm, text))
        },
        Expectation::Length(command, length, text) => {
            let data: Vec<u8> = expect_response(response, *command)?;
            ensure(data.len() == *length, data, text)
        },
        Expectation::Counted(command, length, text) => {
            let data: Vec<u8> = expect_response(response, *command)?;
            let count: usize = data.len();
            ensure_or(count == *length, data, Failure::Length(text, count))
        },
        Expectation::AtLeast(command, length, text) => {
            let data: Vec<u8> = expect_response(response, *command)?;
            ensure(data.len() >= *length, data, text)
        },
        Expectation::Marked(command, length, mark, text) => {
            let data: Vec<u8> = expect_response(response, *command)?;
            ensure(data.len() == *length && data.len() > 0 && data[0] == *mark, data, text)
        },
        Expectation::PublicKey(algorithm, length) => {
            let data: Vec<u8> = expect_response(response, CommandCode::GetPublicKey)?;
            ensure_or(
                data.len() == *length && data.len() > 0 && data[0] == algorithm.to_byte(),
                data,
                Failure::OfAlgorithm(*algorithm, "returned an invalid public key"),
            )
        },
        Expectation::Information => {
            let data: Vec<u8> = expect_response(response, CommandCode::GetDeviceInfo)?;
            let count: usize = data.len();
            ensure_or(count >= 9, data, Failure::Length("device info is only", count))
        },
        Expectation::DeviceKey => {
            let data: Vec<u8> = expect_response(response, CommandCode::GetDevicePublicKey)?;
            check_device_key(data)
        },
        Expectation::Listing => {
            let data: Vec<u8> = expect_response(response, CommandCode::ListObjects)?;
            check_list(data)
        },
        Expectation::Listed(id, object_type) => {
            let data: Vec<u8> = expect_response(response, CommandCode::ListObjects)?;
            let data: Vec<u8> = check_list(data)?;
            let held: bool = list_holds(&data, *id, *object_type);
            ensure(held, data, "new opaque object is missing from List Objects")
        },
        Expectation::Scalar(option) => {
            let data: Vec<u8> = expect_response(response, CommandCode::GetOption)?;
            ensure_or(
                data.len() == 1 && data[0] <= 2,
                data,
                Failure::OfOption(*option, "is not a valid scalar"),
            )
        },
        Expectation::Pairs(option) => {
            let data: Vec<u8> = expect_response(response, CommandCode::GetOption)?;
            let pairs: bool = check_pairs(&data);
            ensure_or(pairs, data, Failure::OfOption(*option, "is not a valid pair list"))
        },
        Expectation::AuditPairs => {
            let data: Vec<u8> = expect_response(response, CommandCode::GetOption)?;
            if !check_pairs(&data) {
                return Err(Failure::OfOption(OPTION_COMMAND_AUDIT, "is not a valid pair list"));
            }
            let off: bool = match find_pair(&data, CommandCode::SessionMessage.to_byte()) {
                Some(value) => value == 0,
                None => true,
            };
            ensure(off, data, "Session Message was enabled in the command-audit option")
        },
        Expectation::Log => {
            let data: Vec<u8> = expect_response(response, CommandCode::GetLogEntries)?;
            check_log(data)
        },
        Expectation::Room => {
            let data: Vec<u8> = expect_response(response, CommandCode::GetDeviceInfo)?;
            if data.len() < 9 {
                return Err(Failure::Unmet("device info is too short for audit capacity"));
            }
            ensure(data[7] > data[8], data, "audit log was already full")
        },
        Expectation::Certificate(wanted) => {
            let data: Vec<u8> = expect_response(
                response,
                CommandCode::SignAttestationCertificate,
            )?;
            match read_certificate_key(&data) {
                None => Err(Failure::Unmet("attestation is not a DER certificate")),
                Some(key) => ensure(
                    equal(&key, wanted),
                    data,
                    "attestation certificate contains a different public key",
                ),
            }
        },
        Expectation::Error(error) => {
            expect_device_error(response, *error)?;
            Ok(copied(&response.data))
        },
    }
}

/// What a computation must give, with the words for where it fails.
#[derive(Clone, Debug)]
pub enum Wanted {
    Anything(&'static str),
    /// Anything, about an algorithm.
    Of(Algorithm, &'static str),
    /// These bytes, with the words for where it gives others.
    Bytes(Vec<u8>, &'static str, &'static str),
}

/// The contents of what a computation must give.
#[verifier::ext_equal]
pub enum WantedModel {
    Anything(Seq<char>),
    Of(Algorithm, Seq<char>),
    Bytes(Seq<u8>, Seq<char>, Seq<char>),
}

impl WantedModel {
    /// The algorithm that a computation is about, where there are several.
    pub open spec fn algorithm(self) -> Option<Algorithm> {
        match self {
            WantedModel::Of(algorithm, _) => Some(algorithm),
            _ => None,
        }
    }

    /// The words for where a computation fails.
    pub open spec fn words(self) -> Seq<char> {
        match self {
            WantedModel::Anything(failed) => failed,
            WantedModel::Of(_, failed) => failed,
            WantedModel::Bytes(_, failed, _) => failed,
        }
    }
}

impl View for Wanted {
    type V = WantedModel;

    open spec fn view(&self) -> WantedModel {
        match *self {
            Wanted::Anything(failed) => WantedModel::Anything(failed@),
            Wanted::Of(algorithm, failed) => WantedModel::Of(algorithm, failed@),
            Wanted::Bytes(bytes, failed, text) => WantedModel::Bytes(bytes@, failed@, text@),
        }
    }
}

impl Wanted {
    /// Tells which algorithm a computation is about, where there are several.
    fn algorithm(&self) -> (algorithm: Option<Algorithm>)
        ensures
            algorithm == self@.algorithm(),
    {
        match self {
            Wanted::Of(algorithm, _) => Some(*algorithm),
            _ => None,
        }
    }

    /// Returns the words for where a computation fails.
    fn words(&self) -> (words: &'static str)
        ensures
            words@ == self@.words(),
    {
        match self {
            Wanted::Anything(failed) => failed,
            Wanted::Of(_, failed) => failed,
            Wanted::Bytes(_, failed, _) => failed,
        }
    }
}

/// A step of a case. A case has two places for sessions.
#[derive(Clone, Debug)]
pub enum Step {
    /// Opens a session.
    Open { second: bool, credentials: Credentials },
    /// Goes on with a session that was opened otherwise.
    Adopt { second: bool, session: SecureSession },
    /// Sends a command in a session.
    Command { second: bool, request: Frame, expectation: Expectation },
    /// Sends a command outside every session.
    Plain { request: Frame, expectation: Expectation },
    /// Sends bytes that are no frame. Either the device answers with an error,
    /// or the connector refuses them itself.
    Raw { request: Vec<u8>, expected: DeviceError },
    /// Computes on the host's side.
    Compute { call: OracleCall, wanted: Wanted },
    /// The case is through.
    Done,
}

/// The contents of a step.
#[verifier::ext_equal]
pub enum StepModel {
    Open { second: bool, credentials: CredentialsModel },
    Adopt { second: bool, session: SecureModel },
    Command { second: bool, request: FrameModel, expectation: ExpectationModel },
    Plain { request: FrameModel, expectation: ExpectationModel },
    Raw { request: Seq<u8>, expected: DeviceError },
    Compute { call: CallModel, wanted: WantedModel },
    Done,
}

impl View for Step {
    type V = StepModel;

    open spec fn view(&self) -> StepModel {
        match *self {
            Step::Open { second, credentials } => StepModel::Open {
                second,
                credentials: credentials@,
            },
            Step::Adopt { second, session } => StepModel::Adopt { second, session: session@ },
            Step::Command { second, request, expectation } => StepModel::Command {
                second,
                request: request@,
                expectation: expectation@,
            },
            Step::Plain { request, expectation } => StepModel::Plain {
                request: request@,
                expectation: expectation@,
            },
            Step::Raw { request, expected } => StepModel::Raw { request: request@, expected },
            Step::Compute { call, wanted } => StepModel::Compute { call: call@, wanted: wanted@ },
            Step::Done => StepModel::Done,
        }
    }
}

/// The sessions of a case.
#[derive(Clone, Debug)]
pub struct Sessions {
    pub first: Option<SecureSession>,
    pub second: Option<SecureSession>,
}

/// The contents of the sessions of a case.
#[verifier::ext_equal]
pub struct SessionsModel {
    pub first: Option<SecureModel>,
    pub second: Option<SecureModel>,
}

impl View for Sessions {
    type V = SessionsModel;

    open spec fn view(&self) -> SessionsModel {
        SessionsModel {
            first: match self.first {
                Some(session) => Some(session@),
                None => None,
            },
            second: match self.second {
                Some(session) => Some(session@),
                None => None,
            },
        }
    }
}

impl SessionsModel {
    /// No sessions.
    pub open spec fn none() -> SessionsModel {
        SessionsModel { first: None, second: None }
    }

    /// The session in a place.
    pub open spec fn at(self, second: bool) -> Option<SecureModel> {
        if second {
            self.second
        } else {
            self.first
        }
    }

    /// The sessions with one in a place.
    pub open spec fn with(self, second: bool, session: SecureModel) -> SessionsModel {
        if second {
            SessionsModel { second: Some(session), ..self }
        } else {
            SessionsModel { first: Some(session), ..self }
        }
    }
}

/// What a step brings: the sessions after it, and its data.
pub struct Brought {
    pub sessions: Sessions,
    pub data: Vec<u8>,
}

/// The contents of what a step brings.
#[verifier::ext_equal]
pub struct BroughtModel {
    pub sessions: SessionsModel,
    pub data: Seq<u8>,
}

impl View for Brought {
    type V = BroughtModel;

    open spec fn view(&self) -> BroughtModel {
        BroughtModel { sessions: self.sessions@, data: self.data@ }
    }
}

/// What comes back of bytes that are no frame.
pub open spec fn raw_response(
    replies: Seq<HostReply>,
    used: nat,
    request: Seq<u8>,
    expected: DeviceError,
) -> HostRun<Seq<u8>> {
    if used < replies.len() && (replies[used as int] matches HostReply::Unsent(error) && error@.kind
        == TransportErrorKind::InvalidCommandFrame) {
        Ok((Seq::empty(), used + 1))
    } else {
        match exchange_from(replies, used, request) {
            Err(halt) => Err(halt),
            Ok((encoded, used)) => match FrameModel::parsed(encoded) {
                Err(error) => Err(HostHaltModel::Failed(FailureModel::Response(error))),
                Ok(response) => host_lifted(
                    met(ExpectationModel::Error(expected), response),
                    used,
                ),
            },
        }
    }
}

/// What a step brings.
pub open spec fn performed(
    step: StepModel,
    sessions: SessionsModel,
    replies: Seq<HostReply>,
    used: nat,
) -> HostRun<BroughtModel> {
    match step {
        StepModel::Open { second, credentials } => match opened(credentials, replies, used) {
            Err(halt) => Err(halt),
            Ok((session, used)) => Ok(
                (
                    BroughtModel { sessions: sessions.with(second, session), data: Seq::empty() },
                    used,
                ),
            ),
        },
        StepModel::Adopt { second, session } => Ok(
            (BroughtModel { sessions: sessions.with(second, session), data: Seq::empty() }, used),
        ),
        StepModel::Command { second, request, expectation } => match sessions.at(second) {
            None => unmet_run("a session is missing"@),
            Some(session) => match commanded(session, request, replies, used) {
                Err(halt) => Err(halt),
                Ok((exchange, used)) => match met(expectation, exchange.frame) {
                    Err(failure) => Err(HostHaltModel::Failed(failure)),
                    Ok(data) => Ok(
                        (
                            BroughtModel { sessions: sessions.with(second, exchange.secure), data },
                            used,
                        ),
                    ),
                },
            },
        },
        StepModel::Plain { request, expectation } => match frame_from(replies, used, request) {
            Err(halt) => Err(halt),
            Ok((response, used)) => match met(expectation, response) {
                Err(failure) => Err(HostHaltModel::Failed(failure)),
                Ok(data) => Ok((BroughtModel { sessions, data }, used)),
            },
        },
        StepModel::Raw { request, expected } => match raw_response(
            replies,
            used,
            request,
            expected,
        ) {
            Err(halt) => Err(halt),
            Ok((data, used)) => Ok((BroughtModel { sessions, data }, used)),
        },
        StepModel::Compute { call, wanted } => match computed_from(
            replies,
            used,
            call,
            wanted.algorithm(),
            wanted.words(),
        ) {
            Err(halt) => Err(halt),
            Ok((data, used)) => match wanted {
                WantedModel::Bytes(bytes, _, text) => if data == bytes {
                    Ok((BroughtModel { sessions, data }, used))
                } else {
                    unmet_run(text)
                },
                _ => Ok((BroughtModel { sessions, data }, used)),
            },
        },
        StepModel::Done => Ok((BroughtModel { sessions, data: Seq::empty() }, used)),
    }
}

impl Sessions {
    /// Starts without sessions.
    pub fn none() -> (sessions: Sessions)
        ensures
            sessions@ == SessionsModel::none(),
    {
        Sessions { first: None, second: None }
    }

    /// Copies the sessions, with one in a place.
    fn with(&self, second: bool, session: SecureSession) -> (sessions: Sessions)
        ensures
            sessions@ == self@.with(second, session@),
    {
        let first = match &self.first {
            Some(session) => Some(session.copied()),
            None => None,
        };
        let other = match &self.second {
            Some(session) => Some(session.copied()),
            None => None,
        };
        if second {
            Sessions { first, second: Some(session) }
        } else {
            Sessions { first: Some(session), second: other }
        }
    }

    /// Copies the sessions.
    pub fn copied(&self) -> (sessions: Sessions)
        ensures
            sessions@ == self@,
    {
        let first = match &self.first {
            Some(session) => Some(session.copied()),
            None => None,
        };
        let second = match &self.second {
            Some(session) => Some(session.copied()),
            None => None,
        };
        Sessions { first, second }
    }

    /// Finds the session in a place.
    fn at(&self, second: bool) -> (session: Option<&SecureSession>)
        ensures
            match session {
                Some(session) => self@.at(second) == Some(session@),
                None => self@.at(second) is None,
            },
    {
        if second {
            self.second.as_ref()
        } else {
            self.first.as_ref()
        }
    }
}

/// Sends bytes that are no frame.
fn send_raw(
    request: &[u8],
    expected: DeviceError,
    answers: &mut HostAnswers,
) -> (data: core::result::Result<
    Vec<u8>,
    HostHalt,
>)
    requires
        old(answers).valid(),
    ensures
        final(answers).valid(),
        final(answers).replies == old(answers).replies,
        host_run(data, final(answers).used) == raw_response(
            old(answers).replies@,
            old(answers).used as nat,
            request@,
            expected,
        ),
{
    if answers.used < answers.replies.len() {
        if let HostReply::Unsent(error) = &answers.replies[answers.used] {
            if error.kind() == TransportErrorKind::InvalidCommandFrame {
                answers.used = answers.used + 1;
                let none: Vec<u8> = Vec::new();
                assert(none@ =~= Seq::<u8>::empty());
                return Ok(none);
            }
        }
    }
    let encoded: Vec<u8> = answers.exchange(copied(request))?;
    match Frame::parse(&encoded) {
        Err(error) => Err(HostHalt::Failed(Failure::Response(error))),
        Ok(response) => host_lift(check(&Expectation::Error(expected), &response)),
    }
}

/// Performs a step.
pub fn perform(
    step: &Step,
    sessions: &Sessions,
    answers: &mut HostAnswers,
) -> (brought: core::result::Result<
    Brought,
    HostHalt,
>)
    requires
        old(answers).valid(),
    ensures
        final(answers).valid(),
        final(answers).replies == old(answers).replies,
        host_run(brought, final(answers).used) == performed(
            step@,
            sessions@,
            old(answers).replies@,
            old(answers).used as nat,
        ),
{
    let none: Vec<u8> = Vec::new();
    assert(none@ =~= Seq::<u8>::empty());
    match step {
        Step::Open { second, credentials } => {
            let session = open_session(credentials, answers)?;
            Ok(Brought { sessions: sessions.with(*second, session), data: none })
        },
        Step::Adopt { second, session } => {
            Ok(Brought { sessions: sessions.with(*second, session.copied()), data: none })
        },
        Step::Command { second, request, expectation } => {
            match sessions.at(*second) {
                None => unmet("a session is missing"),
                Some(session) => {
                    let exchange = send_command(session, request, answers)?;
                    let data: Vec<u8> = host_lift(check(expectation, &exchange.frame))?;
                    Ok(Brought { sessions: sessions.with(*second, exchange.secure), data })
                },
            }
        },
        Step::Plain { request, expectation } => {
            let response = answers.exchange_frame(request)?;
            let data: Vec<u8> = host_lift(check(expectation, &response))?;
            Ok(Brought { sessions: sessions.copied(), data })
        },
        Step::Raw { request, expected } => {
            let data: Vec<u8> = send_raw(request, *expected, answers)?;
            Ok(Brought { sessions: sessions.copied(), data })
        },
        Step::Compute { call, wanted } => {
            let data: Vec<u8> = answers.compute(
                OracleCall {
                    oracle: call.oracle,
                    key: copied(&call.key),
                    parameter: copied(&call.parameter),
                    data: copied(&call.data),
                },
                wanted.algorithm(),
                wanted.words(),
            )?;
            if let Wanted::Bytes(bytes, _, text) = wanted {
                if !equal(&data, bytes) {
                    return unmet(text);
                }
            }
            Ok(Brought { sessions: sessions.copied(), data })
        },
        Step::Done => Ok(Brought { sessions: sessions.copied(), data: none }),
    }
}

/// The first number, from one on, that no object of a type in a list has and that
/// is not taken.
pub open spec fn first_unused(
    list: Seq<u8>,
    object_type: ObjectType,
    taken: Seq<u16>,
    from: int,
) -> Option<u16>
    decreases 0xffff - from,
{
    if from < 0 || from >= 0xffff {
        None
    } else if !lists_object(list, 0, from as u16, object_type) && !taken.contains(from as u16) {
        Some(from as u16)
    } else {
        first_unused(list, object_type, taken, from + 1)
    }
}

/// A number that no object has.
pub open spec fn unused(
    list: Seq<u8>,
    object_type: ObjectType,
    taken: Seq<u16>,
    start: u16,
) -> core::result::Result<u16, FailureModel> {
    match first_unused(list, object_type, taken, start as int) {
        Some(id) => Ok(id),
        None => Err(FailureModel::NoNumber(object_type)),
    }
}

/// So many numbers that no object has, each after the one before.
pub open spec fn unused_numbers(
    list: Seq<u8>,
    object_type: ObjectType,
    start: u16,
    count: nat,
) -> core::result::Result<Seq<u16>, FailureModel>
    decreases count,
{
    if count == 0 {
        Ok(Seq::empty())
    } else {
        match unused_numbers(list, object_type, start, (count - 1) as nat) {
            Err(failure) => Err(failure),
            Ok(taken) => match unused(list, object_type, taken, start) {
                Err(failure) => Err(failure),
                Ok(id) => Ok(taken.push(id)),
            },
        }
    }
}

/// Tells whether a number is taken.
fn is_taken(taken: &Vec<u16>, id: u16) -> (found: bool)
    ensures
        found == taken@.contains(id),
{
    let mut index: usize = 0;
    while index < taken.len()
        invariant
            index <= taken@.len(),
            forall|i: int| 0 <= i < index ==> taken@[i] != id,
        decreases taken@.len() - index,
    {
        if taken[index] == id {
            assert(taken@[index as int] == id);
            return true;
        }
        index = index + 1;
    }
    false
}

/// Finds a number that no object of a type has.
pub fn unused_id(
    list: &[u8],
    object_type: ObjectType,
    taken: &Vec<u16>,
    start: u16,
) -> (id: core::result::Result<
    u16,
    Failure,
>)
    ensures
        match id {
            Ok(id) => unused(list@, object_type, taken@, start) == Ok::<u16, FailureModel>(id),
            Err(failure) => unused(list@, object_type, taken@, start) == Err::<u16, FailureModel>(
                failure@,
            ),
        },
{
    let mut id: u16 = start;
    while id < 0xffff
        invariant
            first_unused(list@, object_type, taken@, start as int) == first_unused(
                list@,
                object_type,
                taken@,
                id as int,
            ),
        decreases 0xffff - id,
    {
        if !list_holds(list, id, object_type) && !is_taken(taken, id) {
            return Ok(id);
        }
        id = id + 1;
    }
    Err(Failure::NoNumber(object_type))
}

/// Finds so many numbers that no object of a type has.
pub fn unused_ids(
    list: &[u8],
    object_type: ObjectType,
    start: u16,
    count: usize,
) -> (ids: core::result::Result<
    Vec<u16>,
    Failure,
>)
    ensures
        match ids {
            Ok(ids) => unused_numbers(list@, object_type, start, count as nat) == Ok::<
                Seq<u16>,
                FailureModel,
            >(ids@) && ids@.len() == count,
            Err(failure) => unused_numbers(list@, object_type, start, count as nat) == Err::<
                Seq<u16>,
                FailureModel,
            >(failure@),
        },
    decreases count,
{
    if count == 0 {
        let none: Vec<u16> = Vec::new();
        assert(none@ =~= Seq::<u16>::empty());
        return Ok(none);
    }
    let mut ids: Vec<u16> = unused_ids(list, object_type, start, count - 1)?;
    let id: u16 = unused_id(list, object_type, &ids, start)?;
    ids.push(id);
    Ok(ids)
}

/// A number that is found belongs to no object in the list, and is not taken.
pub proof fn unused_numbers_are_free(
    list: Seq<u8>,
    object_type: ObjectType,
    taken: Seq<u16>,
    from: int,
)
    requires
        0 <= from,
    ensures
        first_unused(list, object_type, taken, from) matches Some(id) ==> from <= id < 0xffff
            && !lists_object(list, 0, id, object_type) && !taken.contains(id),
    decreases 0xffff - from,
{
    if from < 0xffff {
        unused_numbers_are_free(list, object_type, taken, from + 1);
    }
}

/// Bytes at a length: zeros behind them, or no more of them.
pub open spec fn resized(bytes: Seq<u8>, length: nat) -> Seq<u8> {
    if bytes.len() >= length {
        bytes.subrange(0, length as int)
    } else {
        bytes + Seq::new((length - bytes.len()) as nat, |i: int| 0u8)
    }
}

/// How every command that stores an object begins.
pub open spec fn head(
    id: u16,
    label: Seq<u8>,
    domains: u16,
    capabilities: CapabilitySet,
    algorithm: u8,
) -> Seq<u8> {
    u16_be(id) + resized(label, 40) + u16_be(domains) + u64_be(capabilities.word())
        + seq![algorithm]
}

/// Brings bytes to a length.
pub fn resize(bytes: &[u8], length: usize) -> (result: Vec<u8>)
    ensures
        result@ == resized(bytes@, length as nat),
{
    if bytes.len() >= length {
        copied_range(bytes, 0, length)
    } else {
        let mut result: Vec<u8> = copied(bytes);
        append(&mut result, &crate::bytes::zeros(length - bytes.len()));
        result
    }
}

/// Makes the beginning of a command that stores an object.
pub fn make_head(
    id: u16,
    label: &[u8],
    domains: u16,
    capabilities: CapabilitySet,
    algorithm: u8,
) -> (bytes: Vec<u8>)
    ensures
        bytes@ == head(id, label@, domains, capabilities, algorithm),
{
    let mut bytes: Vec<u8> = Vec::new();
    write_u16(&mut bytes, id);
    append(&mut bytes, &resize(label, 40));
    write_u16(&mut bytes, domains);
    append(&mut bytes, &capabilities.to_bytes());
    bytes.push(algorithm);
    assert(bytes@ =~= head(id, label@, domains, capabilities, algorithm));
    bytes
}

/// Bytes without the first.
pub open spec fn tail(bytes: Seq<u8>) -> Seq<u8> {
    if bytes.len() == 0 {
        bytes
    } else {
        bytes.subrange(1, bytes.len() as int)
    }
}

/// Copies bytes without the first.
pub fn tail_of(bytes: &[u8]) -> (rest: Vec<u8>)
    ensures
        rest@ == tail(bytes@),
{
    if bytes.len() == 0 {
        copied(bytes)
    } else {
        copied_range(bytes, 1, bytes.len())
    }
}

/// What steps brought.
pub open spec fn data_models(responses: Seq<Vec<u8>>) -> Seq<Seq<u8>> {
    Seq::new(responses.len(), |i: int| responses[i]@)
}

/// A command in a session.
pub open spec fn command_step(
    second: bool,
    command: CommandCode,
    data: Seq<u8>,
    expectation: ExpectationModel,
) -> StepModel {
    StepModel::Command {
        second,
        request: FrameModel { command: command.byte(), data },
        expectation,
    }
}

/// A command outside every session.
pub open spec fn plain_step(
    command: u8,
    data: Seq<u8>,
    expectation: ExpectationModel,
) -> StepModel {
    StepModel::Plain { request: FrameModel { command, data }, expectation }
}

/// A computation.
pub open spec fn compute_step(
    oracle: Oracle,
    key: Seq<u8>,
    parameter: Seq<u8>,
    data: Seq<u8>,
    wanted: WantedModel,
) -> StepModel {
    StepModel::Compute { call: CallModel { oracle, key, parameter, data }, wanted }
}

/// Makes a command in a session.
pub fn make_command(
    second: bool,
    command: CommandCode,
    data: Vec<u8>,
    expectation: Expectation,
) -> (step: Step)
    ensures
        step@ == command_step(second, command, data@, expectation@),
{
    Step::Command { second, request: Frame { command: command.to_byte(), data }, expectation }
}

/// Makes a command outside every session.
pub fn make_plain(command: u8, data: Vec<u8>, expectation: Expectation) -> (step: Step)
    ensures
        step@ == plain_step(command, data@, expectation@),
{
    Step::Plain { request: Frame { command, data }, expectation }
}

/// Makes a computation.
pub fn make_compute(
    oracle: Oracle,
    key: Vec<u8>,
    parameter: Vec<u8>,
    data: Vec<u8>,
    wanted: Wanted,
) -> (step: Step)
    ensures
        step@ == compute_step(oracle, key@, parameter@, data@, wanted@),
{
    Step::Compute { call: OracleCall { oracle, key, parameter, data }, wanted }
}

/// The deletion of an object.
pub open spec fn delete_step(second: bool, id: u16, object_type: ObjectType) -> StepModel {
    command_step(
        second,
        CommandCode::DeleteObject,
        u16_be(id) + seq![object_type.byte()],
        ExpectationModel::Success(CommandCode::DeleteObject),
    )
}

/// Makes the deletion of an object.
pub fn make_delete(second: bool, id: u16, object_type: ObjectType) -> (step: Step)
    ensures
        step@ == delete_step(second, id, object_type),
{
    let mut data: Vec<u8> = Vec::new();
    write_u16(&mut data, id);
    data.push(object_type.to_byte());
    assert(data@ =~= u16_be(id) + seq![object_type.byte()]);
    make_command(
        second,
        CommandCode::DeleteObject,
        data,
        Expectation::Success(CommandCode::DeleteObject),
    )
}

/// The end of a session.
pub open spec fn close_step(second: bool) -> StepModel {
    command_step(
        second,
        CommandCode::CloseSession,
        Seq::empty(),
        ExpectationModel::Success(CommandCode::CloseSession),
    )
}

/// Makes the end of a session.
pub fn make_close(second: bool) -> (step: Step)
    ensures
        step@ == close_step(second),
{
    let none: Vec<u8> = Vec::new();
    assert(none@ =~= Seq::<u8>::empty());
    make_command(
        second,
        CommandCode::CloseSession,
        none,
        Expectation::Success(CommandCode::CloseSession),
    )
}

/// The list of the objects.
pub open spec fn list_step() -> StepModel {
    command_step(false, CommandCode::ListObjects, Seq::empty(), ExpectationModel::Listing)
}

/// Makes the list of the objects.
pub fn make_list() -> (step: Step)
    ensures
        step@ == list_step(),
{
    let none: Vec<u8> = Vec::new();
    assert(none@ =~= Seq::<u8>::empty());
    make_command(false, CommandCode::ListObjects, none, Expectation::Listing)
}

} // verus!
