//! The front end that serves a device as an I2C target: its command line, and
//! what it asks of the target driver and of the state directory.
use crate::arguments::{
    absolute, asks_help, is_absolute, is_help, lines_of, read_serial, serial_of, ArgumentError,
    ArgumentErrorModel,
};
use crate::frame::MAX_FRAME_LENGTH;
use crate::text::{begins_with, characters, starts_with};
use vstd::prelude::*;
use vstd::string::*;

verus! {

/// When changes of a device are written down: some time after the first of them,
/// or each at once.
#[derive(Clone, Copy, Debug, PartialEq, Eq, Structural)]
pub enum Persistence {
    Batched,
    Immediate,
}

/// How long changes are collected, in milliseconds, where they are batched.
pub const PERSISTENCE_BATCH_DELAY: u64 = 500;

/// What the front end is started with.
#[derive(Clone, Debug, PartialEq, Eq)]
pub struct Options {
    pub serial: u32,
    pub state_directory: String,
    pub device: String,
    pub inherited_device: bool,
    pub persistence: Persistence,
}

/// What the options say.
#[verifier::ext_equal]
pub struct OptionsModel {
    pub serial: u32,
    pub state_directory: Seq<char>,
    pub device: Seq<char>,
    pub inherited_device: bool,
    pub persistence: Persistence,
}

impl View for Options {
    type V = OptionsModel;

    open spec fn view(&self) -> OptionsModel {
        OptionsModel {
            serial: self.serial,
            state_directory: self.state_directory@,
            device: self.device@,
            inherited_device: self.inherited_device,
            persistence: self.persistence,
        }
    }
}

/// The device that is served where none is named.
pub open spec fn default_device() -> Seq<char> {
    "/dev/bsc-target0"@
}

/// What the arguments have said so far.
#[verifier::ext_equal]
pub struct Draft {
    pub serial: Option<u32>,
    pub state_directory: Option<Seq<char>>,
    pub device: Option<Seq<char>>,
    pub inherited_device: bool,
    pub persistence: Persistence,
}

/// Nothing said yet.
pub open spec fn nothing_said() -> Draft {
    Draft {
        serial: None,
        state_directory: None,
        device: None,
        inherited_device: false,
        persistence: Persistence::Batched,
    }
}

/// The persistence that a value names.
pub open spec fn persistence_of(value: Seq<char>) -> core::result::Result<
    Persistence,
    ArgumentErrorModel,
> {
    if value == "batched"@ {
        Ok(Persistence::Batched)
    } else if value == "immediate"@ {
        Ok(Persistence::Immediate)
    } else {
        Err(ArgumentErrorModel::InvalidPersistence(value))
    }
}

/// Reads a persistence.
pub fn parse_persistence(value: &str) -> (persistence: core::result::Result<
    Persistence,
    ArgumentError,
>)
    ensures
        match persistence {
            Ok(persistence) => persistence_of(value@) == Ok::<Persistence, ArgumentErrorModel>(
                persistence,
            ),
            Err(error) => persistence_of(value@) == Err::<Persistence, ArgumentErrorModel>(error@),
        },
{
    let value: String = value.to_owned();
    if value == "batched".to_owned() {
        Ok(Persistence::Batched)
    } else if value == "immediate".to_owned() {
        Ok(Persistence::Immediate)
    } else {
        Err(ArgumentError::InvalidPersistence(value))
    }
}

impl Draft {
    /// What the draft becomes with an option and its value.
    pub open spec fn with_value(self, option: Seq<char>, value: Seq<char>) -> core::result::Result<
        Draft,
        ArgumentErrorModel,
    > {
        if option == "--serial"@ {
            match serial_of(value) {
                Err(error) => Err(error),
                Ok(serial) => Ok(Draft { serial: Some(serial), ..self }),
            }
        } else if option == "--state-directory"@ {
            Ok(Draft { state_directory: Some(value), ..self })
        } else if option == "--device"@ {
            Ok(Draft { device: Some(value), ..self })
        } else {
            match persistence_of(value) {
                Err(error) => Err(error),
                Ok(persistence) => Ok(Draft { persistence, ..self }),
            }
        }
    }

    /// The options that the draft amounts to at the end of the command line.
    pub open spec fn concluded(self) -> core::result::Result<OptionsModel, ArgumentErrorModel> {
        if self.serial is None {
            Err(ArgumentErrorModel::SerialRequired)
        } else if self.state_directory is None {
            Err(ArgumentErrorModel::StateDirectoryRequired)
        } else if !is_absolute(self.state_directory->0) {
            Err(ArgumentErrorModel::RelativeStateDirectory)
        } else if self.inherited_device && self.device is Some {
            Err(ArgumentErrorModel::ExclusiveDevices)
        } else if self.device is Some && !is_absolute(self.device->0) {
            Err(ArgumentErrorModel::RelativeDevice)
        } else {
            Ok(
                OptionsModel {
                    serial: self.serial->0,
                    state_directory: self.state_directory->0,
                    device: match self.device {
                        Some(device) => device,
                        None => default_device(),
                    },
                    inherited_device: self.inherited_device,
                    persistence: self.persistence,
                },
            )
        }
    }
}

/// Whether an option takes the argument after it as its value.
pub open spec fn takes_value(option: Seq<char>) -> bool {
    option == "--serial"@ || option == "--state-directory"@ || option == "--device"@ || option
        == "--persistence"@
}

/// What a command line asks for: the options, or nothing but help.
pub open spec fn asked(arguments: Seq<Seq<char>>, draft: Draft) -> core::result::Result<
    Option<OptionsModel>,
    ArgumentErrorModel,
>
    decreases arguments.len(),
{
    if arguments.len() == 0 {
        match draft.concluded() {
            Err(error) => Err(error),
            Ok(options) => Ok(Some(options)),
        }
    } else {
        let argument = arguments[0];
        if asks_help(argument) {
            Ok(None)
        } else if takes_value(argument) {
            if arguments.len() == 1 {
                Err(ArgumentErrorModel::NeedsValue(argument))
            } else {
                match draft.with_value(argument, arguments[1]) {
                    Err(error) => Err(error),
                    Ok(draft) => asked(arguments.subrange(2, arguments.len() as int), draft),
                }
            }
        } else if argument == "--inherited-device"@ {
            asked(
                arguments.subrange(1, arguments.len() as int),
                Draft { inherited_device: true, ..draft },
            )
        } else if begins_with(argument, "--persistence="@) {
            match persistence_of(argument.subrange(14, argument.len() as int)) {
                Err(error) => Err(error),
                Ok(persistence) => asked(
                    arguments.subrange(1, arguments.len() as int),
                    Draft { persistence, ..draft },
                ),
            }
        } else {
            Err(ArgumentErrorModel::Unknown(argument))
        }
    }
}

/// What an optional text says.
pub open spec fn said(text: Option<String>) -> Option<Seq<char>> {
    match text {
        Some(text) => Some(text@),
        None => None,
    }
}

/// What parsed options say.
pub open spec fn answer_of(
    options: core::result::Result<Option<Options>, ArgumentError>,
) -> core::result::Result<Option<OptionsModel>, ArgumentErrorModel> {
    match options {
        Err(error) => Err(error@),
        Ok(None) => Ok(None),
        Ok(Some(options)) => Ok(Some(options@)),
    }
}

/// Reads the command line after the program's name; the help that it may ask for
/// is the caller's to print.
pub fn parse_arguments(arguments: &[String]) -> (options: core::result::Result<
    Option<Options>,
    ArgumentError,
>)
    ensures
        answer_of(options) == asked(lines_of(arguments@), nothing_said()),
{
    let ghost all = lines_of(arguments@);
    let mut serial: Option<u32> = None;
    let mut state_directory: Option<String> = None;
    let mut device: Option<String> = None;
    let mut inherited_device: bool = false;
    let mut persistence: Persistence = Persistence::Batched;
    let mut index: usize = 0;
    assert(all.subrange(0, all.len() as int) =~= all);
    while index < arguments.len()
        invariant
            all == lines_of(arguments@),
            index <= arguments@.len(),
            asked(all, nothing_said()) == asked(
                all.subrange(index as int, all.len() as int),
                Draft {
                    serial,
                    state_directory: said(state_directory),
                    device: said(device),
                    inherited_device,
                    persistence,
                },
            ),
        decreases arguments@.len() - index,
    {
        let argument: &String = &arguments[index];
        let ghost rest = all.subrange(index as int, all.len() as int);
        assert(rest[0] == argument@);
        if is_help(argument) {
            return Ok(None);
        }
        let is_serial: bool = *argument == "--serial".to_owned();
        let is_directory: bool = *argument == "--state-directory".to_owned();
        let is_device: bool = *argument == "--device".to_owned();
        let is_persistence: bool = *argument == "--persistence".to_owned();
        if is_serial || is_directory || is_device || is_persistence {
            if index + 1 == arguments.len() {
                return Err(ArgumentError::NeedsValue(argument.as_str().to_owned()));
            }
            let value: &str = arguments[index + 1].as_str();
            assert(rest[1] == value@);
            assert(rest.subrange(2, rest.len() as int) =~= all.subrange(
                index + 2,
                all.len() as int,
            ));
            if is_serial {
                serial = Some(read_serial(value)?);
            } else if is_directory {
                state_directory = Some(value.to_owned());
            } else if is_device {
                device = Some(value.to_owned());
            } else {
                persistence = parse_persistence(value)?;
            }
            index = index + 2;
        } else {
            assert(rest.subrange(1, rest.len() as int) =~= all.subrange(
                index + 1,
                all.len() as int,
            ));
            let letters: Vec<char> = characters(argument.as_str());
            if *argument == "--inherited-device".to_owned() {
                inherited_device = true;
            } else if starts_with(letters.as_slice(), "--persistence=") {
                proof {
                    reveal_strlit("--persistence=");
                }
                persistence = parse_persistence(
                    argument.as_str().substring_char(14, letters.len()),
                )?;
            } else {
                return Err(ArgumentError::Unknown(argument.as_str().to_owned()));
            }
            index = index + 1;
        }
    }
    assert(all.subrange(index as int, all.len() as int) =~= Seq::<Seq<char>>::empty());
    let serial: u32 = match serial {
        Some(serial) => serial,
        None => return Err(ArgumentError::SerialRequired),
    };
    let state_directory: String = match state_directory {
        Some(path) => path,
        None => return Err(ArgumentError::StateDirectoryRequired),
    };
    if !absolute(state_directory.as_str()) {
        return Err(ArgumentError::RelativeStateDirectory);
    }
    if inherited_device && device.is_some() {
        return Err(ArgumentError::ExclusiveDevices);
    }
    let device: String = match device {
        Some(path) => {
            if !absolute(path.as_str()) {
                return Err(ArgumentError::RelativeDevice);
            }
            path
        },
        None => "/dev/bsc-target0".to_owned(),
    };
    Ok(Some(Options { serial, state_directory, device, inherited_device, persistence }))
}

/// Why a target driver cannot be used.
#[derive(Clone, Copy, Debug, PartialEq, Eq, Structural)]
pub enum TargetError {
    /// The driver speaks another version of its interface, or has no line to
    /// signal a response on.
    Interface,
    /// The driver carries no more than this many bytes, too few for a frame.
    Transfer(u32),
}

/// Whether what a driver says of itself will do: version 3 of its interface, with
/// the line that signals a response, and transfers that hold any frame.
pub open spec fn target_check(info: Seq<u32>) -> core::result::Result<(), TargetError> {
    if info[0] != 3 || info[5] != 1 {
        Err(TargetError::Interface)
    } else if info[3] < MAX_FRAME_LENGTH {
        Err(TargetError::Transfer(info[3]))
    } else {
        Ok(())
    }
}

/// Checks what a driver says of itself.
pub fn validate_target_info(info: &[u32; 8]) -> (valid: core::result::Result<(), TargetError>)
    ensures
        valid == target_check(info@),
{
    if info[0] != 3 || info[5] != 1 {
        return Err(TargetError::Interface);
    }
    if (info[3] as usize) < MAX_FRAME_LENGTH {
        return Err(TargetError::Transfer(info[3]));
    }
    Ok(())
}

/// Why a state directory cannot be used.
#[derive(Clone, Copy, Debug, PartialEq, Eq, Structural)]
pub enum DirectoryError {
    NotADirectory,
    /// The directory, with this mode, is open to others than its owner.
    Shared(u32),
}

/// Whether a path will do as a state directory: a directory that neither its
/// group nor anybody else has access to.
pub open spec fn directory_check(is_directory: bool, mode: u32) -> core::result::Result<
    (),
    DirectoryError,
> {
    if !is_directory {
        Err(DirectoryError::NotADirectory)
    } else if mode & 0o777 & 0o077 != 0 {
        Err(DirectoryError::Shared(mode & 0o777))
    } else {
        Ok(())
    }
}

/// Checks what a state directory is.
pub fn validate_state_directory(is_directory: bool, mode: u32) -> (valid: core::result::Result<
    (),
    DirectoryError,
>)
    ensures
        valid == directory_check(is_directory, mode),
{
    if !is_directory {
        return Err(DirectoryError::NotADirectory);
    }
    let mode: u32 = mode & 0o777;
    if mode & 0o077 != 0 {
        return Err(DirectoryError::Shared(mode));
    }
    Ok(())
}

/// A directory whose mode grants its owner alone something is accepted, and one
/// that grants anything to anybody else is not.
pub proof fn private_directories_are_accepted(mode: u32)
    ensures
        directory_check(true, mode) is Ok <==> mode & 0o077 == 0,
{
    assert(mode & 0o777 & 0o077 == mode & 0o077) by (bit_vector);
}

/// Options that were understood name a serial number other than zero and paths
/// that start at the root.
pub proof fn understood_options_are_complete(arguments: Seq<Seq<char>>, draft: Draft)
    requires
        draft.serial != Some(0u32),
    ensures
        asked(arguments, draft) matches Ok(Some(options)) ==> options.serial != 0 && is_absolute(
            options.state_directory,
        ) && is_absolute(options.device),
    decreases arguments.len(),
{
    reveal_strlit("/dev/bsc-target0");
    if arguments.len() > 0 {
        let argument = arguments[0];
        if asks_help(argument) {
        } else if takes_value(argument) {
            if arguments.len() > 1 {
                if let Ok(next) = draft.with_value(argument, arguments[1]) {
                    understood_options_are_complete(
                        arguments.subrange(2, arguments.len() as int),
                        next,
                    );
                }
            }
        } else if argument == "--inherited-device"@ {
            understood_options_are_complete(
                arguments.subrange(1, arguments.len() as int),
                Draft { inherited_device: true, ..draft },
            );
        } else if begins_with(argument, "--persistence="@) {
            if let Ok(persistence) = persistence_of(
                argument.subrange(14, argument.len() as int),
            ) {
                understood_options_are_complete(
                    arguments.subrange(1, arguments.len() as int),
                    Draft { persistence, ..draft },
                );
            }
        }
    }
}

} // verus!
