//! Protocol frames: a command byte, a big-endian length and the data.
use crate::bytes::{append, copied_range, read_u16, single, u16_at, u16_be, write_u16};
use crate::error::{DeviceError, Result};
use vstd::prelude::*;

verus! {

/// Length of a frame's command byte and data length.
pub const HEADER_LENGTH: usize = 3;

/// Length of the longest data that a frame carries.
pub const MAX_DATA_LENGTH: usize = 3_133;

/// Length of the longest frame.
pub const MAX_FRAME_LENGTH: usize = 3_136;

/// The bit that tells a response from its request.
pub const RESPONSE_BIT: u8 = 0x80;

/// The command byte of an error response.
pub const ERROR_COMMAND: u8 = 0x7f;

/// A protocol frame.
#[derive(Clone, Debug, PartialEq, Eq)]
pub struct Frame {
    pub command: u8,
    pub data: Vec<u8>,
}

/// What a frame says.
#[verifier::ext_equal]
pub struct FrameModel {
    pub command: u8,
    pub data: Seq<u8>,
}

impl View for Frame {
    type V = FrameModel;

    open spec fn view(&self) -> FrameModel {
        FrameModel { command: self.command, data: self.data@ }
    }
}

/// What a frame result says.
pub open spec fn frame_result(result: Result<Frame>) -> core::result::Result<
    FrameModel,
    DeviceError,
> {
    match result {
        Ok(frame) => Ok(frame@),
        Err(error) => Err(error),
    }
}

impl FrameModel {
    /// The frame on the wire.
    pub open spec fn encoded(self) -> Seq<u8> {
        seq![self.command] + u16_be((self.data.len() % 0x1_0000) as u16) + self.data
    }

    /// Reads a frame off the wire: a command byte, the length of the data and
    /// exactly that much data, at most `MAX_DATA_LENGTH` bytes.
    pub open spec fn parsed(encoded: Seq<u8>) -> core::result::Result<FrameModel, DeviceError> {
        if encoded.len() < HEADER_LENGTH || u16_at(encoded, 1) > MAX_DATA_LENGTH || encoded.len()
            != HEADER_LENGTH + u16_at(encoded, 1) {
            Err(DeviceError::WrongLength)
        } else {
            Ok(
                FrameModel {
                    command: encoded[0],
                    data: encoded.subrange(HEADER_LENGTH as int, encoded.len() as int),
                },
            )
        }
    }

    /// The successful response to a command.
    pub open spec fn response(request_command: u8, data: Seq<u8>) -> FrameModel {
        FrameModel { command: request_command | RESPONSE_BIT, data }
    }

    /// The response that reports an error.
    pub open spec fn error(error: DeviceError) -> FrameModel {
        FrameModel { command: ERROR_COMMAND, data: seq![error.byte()] }
    }
}

impl Frame {
    /// Makes a frame, unless the data is too long for one.
    pub fn new(command: u8, data: Vec<u8>) -> (frame: Result<Frame>)
        ensures
            frame_result(frame) == (if data@.len() > MAX_DATA_LENGTH {
                Err(DeviceError::WrongLength)
            } else {
                Ok(FrameModel { command, data: data@ })
            }),
    {
        if data.len() > MAX_DATA_LENGTH {
            return Err(DeviceError::WrongLength);
        }
        Ok(Frame { command, data })
    }

    /// Reads a frame off the wire.
    pub fn parse(encoded: &[u8]) -> (frame: Result<Frame>)
        ensures
            frame_result(frame) == FrameModel::parsed(encoded@),
    {
        if encoded.len() < HEADER_LENGTH {
            return Err(DeviceError::WrongLength);
        }
        let length: usize = read_u16(encoded, 1) as usize;
        if length > MAX_DATA_LENGTH || encoded.len() != HEADER_LENGTH + length {
            return Err(DeviceError::WrongLength);
        }
        Frame::new(encoded[0], copied_range(encoded, HEADER_LENGTH, encoded.len()))
    }

    /// Writes the frame for the wire.
    pub fn encode(&self) -> (encoded: Vec<u8>)
        ensures
            encoded@ == self@.encoded(),
    {
        let mut encoded: Vec<u8> = single(self.command);
        write_u16(&mut encoded, (self.data.len() % 0x1_0000) as u16);
        append(&mut encoded, &self.data);
        encoded
    }

    /// Makes the successful response to a command.
    pub fn response(request_command: u8, data: Vec<u8>) -> (frame: Frame)
        ensures
            frame@ == FrameModel::response(request_command, data@),
    {
        Frame { command: request_command | RESPONSE_BIT, data }
    }

    /// Makes the response that reports an error.
    pub fn error(error: DeviceError) -> (frame: Frame)
        ensures
            frame@ == FrameModel::error(error),
    {
        Frame { command: ERROR_COMMAND, data: single(error.to_byte()) }
    }

    /// Copies the frame.
    pub fn copied(&self) -> (frame: Frame)
        ensures
            frame@ == self@,
    {
        Frame { command: self.command, data: crate::bytes::copied(&self.data) }
    }
}

/// What a frame that fits is written as, is read back as the frame.
pub proof fn written_frames_read_back(frame: FrameModel)
    requires
        frame.data.len() <= MAX_DATA_LENGTH,
    ensures
        FrameModel::parsed(frame.encoded()) == Ok::<FrameModel, DeviceError>(frame),
        frame.encoded().len() == HEADER_LENGTH + frame.data.len(),
{
    let encoded = frame.encoded();
    let length = (frame.data.len() % 0x1_0000) as u16;
    assert(encoded[1] == u16_be(length)[0] && encoded[2] == u16_be(length)[1]);
    assert(u16_at(encoded, 1) == length);
    assert(encoded.subrange(HEADER_LENGTH as int, encoded.len() as int) =~= frame.data);
}

/// What is read as a frame is how that frame is written: every frame has one
/// encoding.
pub proof fn read_frames_write_back(encoded: Seq<u8>)
    requires
        FrameModel::parsed(encoded) is Ok,
    ensures
        FrameModel::parsed(encoded)->Ok_0.encoded() == encoded,
        FrameModel::parsed(encoded)->Ok_0.data.len() <= MAX_DATA_LENGTH,
{
    let frame = FrameModel::parsed(encoded)->Ok_0;
    assert(frame.encoded() =~= encoded);
}

/// An error response is told apart from every successful one.
pub proof fn error_responses_are_distinct(request_command: u8, data: Seq<u8>, error: DeviceError)
    ensures
        FrameModel::response(request_command, data).command != FrameModel::error(error).command,
        DeviceError::of_byte(FrameModel::error(error).data[0]) == Some(error),
{
    assert(request_command | 0x80 != 0x7f) by (bit_vector);
}

} // verus!
