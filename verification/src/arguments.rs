//! What the programs share in reading their command lines.
use crate::text::{characters, number_of, read_number};
use vstd::prelude::*;
use vstd::string::*;

verus! {

/// Why a command line was not understood.
#[derive(Clone, Debug)]
pub enum ArgumentError {
    /// An option that stands last though it needs a value.
    NeedsValue(String),
    /// A serial number that is no number of 32 bits in decimal digits.
    InvalidSerial,
    ZeroSerial,
    InvalidPersistence(String),
    InvalidDisplay(String),
    Unknown(String),
    SerialRequired,
    StateDirectoryRequired,
    RelativeStateDirectory,
    /// A device path beside an inherited device.
    ExclusiveDevices,
    RelativeDevice,
}

/// What the error of a command line says.
#[verifier::ext_equal]
pub enum ArgumentErrorModel {
    NeedsValue(Seq<char>),
    InvalidSerial,
    ZeroSerial,
    InvalidPersistence(Seq<char>),
    InvalidDisplay(Seq<char>),
    Unknown(Seq<char>),
    SerialRequired,
    StateDirectoryRequired,
    RelativeStateDirectory,
    ExclusiveDevices,
    RelativeDevice,
}

impl View for ArgumentError {
    type V = ArgumentErrorModel;

    open spec fn view(&self) -> ArgumentErrorModel {
        match *self {
            ArgumentError::NeedsValue(option) => ArgumentErrorModel::NeedsValue(option@),
            ArgumentError::InvalidSerial => ArgumentErrorModel::InvalidSerial,
            ArgumentError::ZeroSerial => ArgumentErrorModel::ZeroSerial,
            ArgumentError::InvalidPersistence(value) => ArgumentErrorModel::InvalidPersistence(
                value@,
            ),
            ArgumentError::InvalidDisplay(value) => ArgumentErrorModel::InvalidDisplay(value@),
            ArgumentError::Unknown(argument) => ArgumentErrorModel::Unknown(argument@),
            ArgumentError::SerialRequired => ArgumentErrorModel::SerialRequired,
            ArgumentError::StateDirectoryRequired => ArgumentErrorModel::StateDirectoryRequired,
            ArgumentError::RelativeStateDirectory => ArgumentErrorModel::RelativeStateDirectory,
            ArgumentError::ExclusiveDevices => ArgumentErrorModel::ExclusiveDevices,
            ArgumentError::RelativeDevice => ArgumentErrorModel::RelativeDevice,
        }
    }
}

/// The arguments of a command line.
pub open spec fn lines_of(arguments: Seq<String>) -> Seq<Seq<char>> {
    Seq::new(arguments.len(), |i: int| arguments[i]@)
}

/// Whether an argument asks for help.
pub open spec fn asks_help(argument: Seq<char>) -> bool {
    argument == "-h"@ || argument == "--help"@
}

/// Tells whether an argument asks for help.
pub fn is_help(argument: &String) -> (help: bool)
    ensures
        help == asks_help(argument@),
{
    *argument == "-h".to_owned() || *argument == "--help".to_owned()
}

/// The serial number that an argument gives: a nonzero decimal number of 32 bits.
pub open spec fn serial_of(value: Seq<char>) -> core::result::Result<u32, ArgumentErrorModel> {
    match number_of(value, 10, u32::MAX as nat) {
        None => Err(ArgumentErrorModel::InvalidSerial),
        Some(serial) => if serial == 0 {
            Err(ArgumentErrorModel::ZeroSerial)
        } else {
            Ok(serial as u32)
        },
    }
}

/// Reads a serial number.
pub fn read_serial(value: &str) -> (serial: core::result::Result<u32, ArgumentError>)
    ensures
        match serial {
            Ok(serial) => serial_of(value@) == Ok::<u32, ArgumentErrorModel>(serial),
            Err(error) => serial_of(value@) == Err::<u32, ArgumentErrorModel>(error@),
        },
{
    let digits: Vec<char> = characters(value);
    match read_number(digits.as_slice(), 10, 0xffff_ffff) {
        None => Err(ArgumentError::InvalidSerial),
        Some(serial) => if serial == 0 {
            Err(ArgumentError::ZeroSerial)
        } else {
            Ok(serial as u32)
        },
    }
}

/// Whether a path starts at the root.
pub open spec fn is_absolute(path: Seq<char>) -> bool {
    path.len() > 0 && path[0] == '/'
}

/// Tells whether a path starts at the root.
pub fn absolute(path: &str) -> (absolute: bool)
    ensures
        absolute == is_absolute(path@),
{
    path.unicode_len() > 0 && path.get_char(0) == '/'
}

} // verus!
