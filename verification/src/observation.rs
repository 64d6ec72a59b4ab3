//! What a front end tells of the exchanges that it carries: failures worth a
//! line in the log, and the request to call attention to the device.
use crate::authorization::SessionAuthorization;
use crate::error::DeviceError;
use crate::frame::{Frame, FrameModel, ERROR_COMMAND, RESPONSE_BIT};
use crate::protocol::CommandCode;
use vstd::prelude::*;
use vstd::string::*;

verus! {

/// The session that a request names: its first byte, where the request is about
/// a session.
pub open spec fn session_of(request: FrameModel) -> Option<u8> {
    match CommandCode::of_byte(request.command) {
        Some(CommandCode::AuthenticateSession) | Some(
            CommandCode::SessionMessage,
        ) => if request.data.len()
            > 0 {
            Some(request.data[0])
        } else {
            None
        },
        _ => None,
    }
}

/// Returns the session that a request names.
pub fn session_id(request: &Frame) -> (session: Option<u8>)
    ensures
        session == session_of(request@),
{
    match CommandCode::from_byte(request.command) {
        Some(CommandCode::AuthenticateSession) | Some(CommandCode::SessionMessage) => {
            if request.data.len() > 0 {
                Some(request.data[0])
            } else {
                None
            }
        },
        _ => None,
    }
}

/// The code of the error that a response reports; a response that reports one
/// without saying which has a code of its own.
pub open spec fn reported_code(response: FrameModel) -> Option<u8> {
    if response.command != ERROR_COMMAND {
        None
    } else if response.data.len() > 0 {
        Some(response.data[0])
    } else {
        Some(0xff)
    }
}

/// What the code of an error means, in words.
pub open spec fn code_words(code: u8) -> Seq<char> {
    match DeviceError::of_byte(code) {
        Some(error) => error.words(),
        None => "unknown device error"@,
    }
}

/// Returns the error that a response reports: its code, and what that means in
/// words.
pub fn response_error(response: &Frame) -> (error: Option<(u8, &'static str)>)
    ensures
        match error {
            Some((code, words)) => reported_code(response@) == Some(code) && words@ == code_words(
                code,
            ),
            None => reported_code(response@) is None,
        },
{
    if response.command != ERROR_COMMAND {
        return None;
    }
    let code: u8 = if response.data.len() > 0 {
        response.data[0]
    } else {
        0xff
    };
    match DeviceError::from_byte(code) {
        Some(error) => Some((code, error.describe())),
        None => Some((code, "unknown device error")),
    }
}

/// The name of the command of a byte.
pub open spec fn named_command(command: u8) -> Seq<char> {
    match CommandCode::of_byte(command) {
        Some(command) => command.title(),
        None => "Unknown"@,
    }
}

/// Returns the name of the command of a byte.
pub fn command_name(command: u8) -> (name: &'static str)
    ensures
        name@ == named_command(command),
{
    match CommandCode::from_byte(command) {
        Some(command) => command.name(),
        None => "Unknown",
    }
}

/// A failure worth a line in the log.
#[derive(Clone, Copy, Debug, PartialEq, Eq, Structural)]
pub enum LoggedFailure {
    /// A command inside a session failed.
    Authenticated { command: u8, code: u8, session: Option<u8>, authentication_key_id: u16 },
    /// The response itself is no frame.
    Unreadable,
    /// A message failed before the command in it was reached.
    Envelope { code: u8, session: Option<u8> },
    /// A command outside of a session failed.
    Plain { command: u8, code: u8, session: Option<u8> },
    /// The request itself was no frame.
    Transfer(DeviceError),
}

/// What is logged of a command inside a session.
pub open spec fn inner_failure(
    session: Option<u8>,
    authorization: SessionAuthorization,
    request: FrameModel,
    response: FrameModel,
) -> Option<LoggedFailure> {
    match reported_code(response) {
        None => None,
        Some(code) => Some(
            LoggedFailure::Authenticated {
                command: request.command,
                code,
                session,
                authentication_key_id: authorization.authentication_key_id,
            },
        ),
    }
}

/// Tells what is logged of a command inside a session.
pub fn authenticated_failure(
    session: Option<u8>,
    authorization: SessionAuthorization,
    request: &Frame,
    response: &Frame,
) -> (failure: Option<LoggedFailure>)
    ensures
        failure == inner_failure(session, authorization, request@, response@),
{
    match response_error(response) {
        None => None,
        Some((code, _)) => Some(
            LoggedFailure::Authenticated {
                command: request.command,
                code,
                session,
                authentication_key_id: authorization.authentication_key_id,
            },
        ),
    }
}

/// What is logged of a transfer and its response.
pub open spec fn transfer_failure(request: Seq<u8>, response: Seq<u8>) -> Option<LoggedFailure> {
    match FrameModel::parsed(response) {
        Err(_) => Some(LoggedFailure::Unreadable),
        Ok(response) => match reported_code(response) {
            None => None,
            Some(code) => match FrameModel::parsed(request) {
                Err(error) => Some(LoggedFailure::Transfer(error)),
                Ok(request) => if request.command == CommandCode::SessionMessage.byte() {
                    Some(LoggedFailure::Envelope { code, session: session_of(request) })
                } else {
                    Some(
                        LoggedFailure::Plain {
                            command: request.command,
                            code,
                            session: session_of(request),
                        },
                    )
                },
            },
        },
    }
}

/// Tells what is logged of a transfer and its response.
pub fn outer_failure(request: &[u8], response: &[u8]) -> (failure: Option<LoggedFailure>)
    ensures
        failure == transfer_failure(request@, response@),
{
    let response: Frame = match Frame::parse(response) {
        Ok(response) => response,
        Err(_) => return Some(LoggedFailure::Unreadable),
    };
    let code: u8 = match response_error(&response) {
        Some((code, _)) => code,
        None => return None,
    };
    match Frame::parse(request) {
        Err(error) => Some(LoggedFailure::Transfer(error)),
        Ok(request) => {
            let session: Option<u8> = session_id(&request);
            if request.command == CommandCode::SessionMessage.to_byte() {
                Some(LoggedFailure::Envelope { code, session })
            } else {
                Some(LoggedFailure::Plain { command: request.command, code, session })
            }
        },
    }
}

/// For how many seconds a command asked to call attention to the device, where
/// it did and was carried out.
pub open spec fn attention_asked(request: FrameModel, response: FrameModel) -> Option<u8> {
    if request.command == CommandCode::BlinkDevice.byte() && response.command
        == CommandCode::BlinkDevice.byte() | RESPONSE_BIT && request.data.len() > 0 {
        Some(request.data[0])
    } else {
        None
    }
}

/// Returns for how many seconds a command asked to call attention to the device.
pub fn identification(request: &Frame, response: &Frame) -> (seconds: Option<u8>)
    ensures
        seconds == attention_asked(request@, response@),
{
    let blink: u8 = CommandCode::BlinkDevice.to_byte();
    if request.command == blink && response.command == blink | RESPONSE_BIT && request.data.len()
        > 0 {
        Some(request.data[0])
    } else {
        None
    }
}

/// Tells whether the error of a system call on an endpoint means that the bus took
/// the endpoint away: to be tried again, no such device, a broken pipe, or a
/// transport that was shut down.
pub fn endpoint_is_unavailable(code: i32) -> (unavailable: bool)
    ensures
        unavailable == (code == 11 || code == 19 || code == 32 || code == 108),
{
    code == 11 || code == 19 || code == 32 || code == 108
}

/// Successes are not logged, and whatever a device answers to bytes that are no
/// frame is logged as their error.
pub proof fn only_failures_are_logged(request: Seq<u8>, response: FrameModel)
    requires
        response.data.len() <= crate::frame::MAX_DATA_LENGTH,
    ensures
        response.command != ERROR_COMMAND ==> transfer_failure(request, response.encoded()) is None,
        response.command == ERROR_COMMAND && FrameModel::parsed(
            request,
        ) is Err ==> transfer_failure(
            request,
            response.encoded(),
        ) == Some(LoggedFailure::Transfer(FrameModel::parsed(request)->Err_0)),
{
    crate::frame::written_frames_read_back(response);
}

} // verus!
