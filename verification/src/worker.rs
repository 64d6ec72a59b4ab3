//! The command line of the USB worker.
use crate::arguments::{
    asks_help, is_help, lines_of, read_serial, serial_of, ArgumentError, ArgumentErrorModel,
};
use crate::display::DisplayKind;
use crate::text::{begins_with, characters, starts_with};
use vstd::prelude::*;
use vstd::string::*;

verus! {

/// What the worker is started with.
#[derive(Clone, Copy, Debug, PartialEq, Eq, Structural)]
pub struct Options {
    pub serial: u32,
    pub display: DisplayKind,
}

/// The options where the command line names none.
pub open spec fn defaults() -> Options {
    Options { serial: 12_345_678, display: DisplayKind::St7789Spi }
}

/// The display that a value names.
pub open spec fn display_of(value: Seq<char>) -> core::result::Result<
    DisplayKind,
    ArgumentErrorModel,
> {
    match DisplayKind::named(value) {
        Some(display) => Ok(display),
        None => Err(ArgumentErrorModel::InvalidDisplay(value)),
    }
}

/// Reads the display that a value names.
fn read_display(value: &str) -> (display: core::result::Result<DisplayKind, ArgumentError>)
    ensures
        match display {
            Ok(display) => display_of(value@) == Ok::<DisplayKind, ArgumentErrorModel>(display),
            Err(error) => display_of(value@) == Err::<DisplayKind, ArgumentErrorModel>(error@),
        },
{
    match DisplayKind::parse(value) {
        Some(display) => Ok(display),
        None => Err(ArgumentError::InvalidDisplay(value.to_owned())),
    }
}

/// What a command line asks for: the options, or nothing but help.
pub open spec fn asked(arguments: Seq<Seq<char>>, options: Options) -> core::result::Result<
    Option<Options>,
    ArgumentErrorModel,
>
    decreases arguments.len(),
{
    if arguments.len() == 0 {
        Ok(Some(options))
    } else {
        let argument = arguments[0];
        if asks_help(argument) {
            Ok(None)
        } else if argument == "--serial"@ {
            if arguments.len() == 1 {
                Err(ArgumentErrorModel::NeedsValue(argument))
            } else {
                match serial_of(arguments[1]) {
                    Err(error) => Err(error),
                    Ok(serial) => asked(
                        arguments.subrange(2, arguments.len() as int),
                        Options { serial, ..options },
                    ),
                }
            }
        } else if argument == "--display"@ {
            if arguments.len() == 1 {
                Err(ArgumentErrorModel::NeedsValue(argument))
            } else {
                match display_of(arguments[1]) {
                    Err(error) => Err(error),
                    Ok(display) => asked(
                        arguments.subrange(2, arguments.len() as int),
                        Options { display, ..options },
                    ),
                }
            }
        } else if begins_with(argument, "--display="@) {
            match display_of(argument.subrange(10, argument.len() as int)) {
                Err(error) => Err(error),
                Ok(display) => asked(
                    arguments.subrange(1, arguments.len() as int),
                    Options { display, ..options },
                ),
            }
        } else {
            Err(ArgumentErrorModel::Unknown(argument))
        }
    }
}

/// What parsed options say.
pub open spec fn answer_of(
    options: core::result::Result<Option<Options>, ArgumentError>,
) -> core::result::Result<Option<Options>, ArgumentErrorModel> {
    match options {
        Err(error) => Err(error@),
        Ok(options) => Ok(options),
    }
}

/// Reads the command line after the program's name; the help that it may ask for
/// is the caller's to print.
pub fn parse_arguments(arguments: &[String]) -> (options: core::result::Result<
    Option<Options>,
    ArgumentError,
>)
    ensures
        answer_of(options) == asked(lines_of(arguments@), defaults()),
{
    let ghost all = lines_of(arguments@);
    let mut options: Options = Options { serial: 12_345_678, display: DisplayKind::St7789Spi };
    let mut index: usize = 0;
    assert(all.subrange(0, all.len() as int) =~= all);
    while index < arguments.len()
        invariant
            all == lines_of(arguments@),
            index <= arguments@.len(),
            asked(all, defaults()) == asked(
                all.subrange(index as int, all.len() as int),
                options,
            ),
        decreases arguments@.len() - index,
    {
        let argument: &String = &arguments[index];
        let ghost rest = all.subrange(index as int, all.len() as int);
        assert(rest[0] == argument@);
        if is_help(argument) {
            return Ok(None);
        }
        let is_serial: bool = *argument == "--serial".to_owned();
        let is_display: bool = *argument == "--display".to_owned();
        if is_serial || is_display {
            if index + 1 == arguments.len() {
                return Err(ArgumentError::NeedsValue(argument.as_str().to_owned()));
            }
            let value: &str = arguments[index + 1].as_str();
            assert(rest[1] == value@);
            assert(rest.subrange(2, rest.len() as int) =~= all.subrange(
                index + 2,
                all.len() as int,
            ));
            if is_serial {
                options.serial = read_serial(value)?;
            } else {
                options.display = read_display(value)?;
            }
            index = index + 2;
        } else {
            assert(rest.subrange(1, rest.len() as int) =~= all.subrange(
                index + 1,
                all.len() as int,
            ));
            let letters: Vec<char> = characters(argument.as_str());
            if !starts_with(letters.as_slice(), "--display=") {
                return Err(ArgumentError::Unknown(argument.as_str().to_owned()));
            }
            proof {
                reveal_strlit("--display=");
            }
            options.display = read_display(argument.as_str().substring_char(10, letters.len()))?;
            index = index + 1;
        }
    }
    assert(all.subrange(index as int, all.len() as int) =~= Seq::<Seq<char>>::empty());
    Ok(Some(options))
}

/// Options that were understood name a serial number other than zero.
pub proof fn understood_options_are_complete(arguments: Seq<Seq<char>>, options: Options)
    requires
        options.serial != 0,
    ensures
        asked(arguments, options) matches Ok(Some(options)) ==> options.serial != 0,
    decreases arguments.len(),
{
    if arguments.len() > 0 {
        let argument = arguments[0];
        if asks_help(argument) {
        } else if argument == "--serial"@ {
            if arguments.len() > 1 {
                if let Ok(serial) = serial_of(arguments[1]) {
                    understood_options_are_complete(
                        arguments.subrange(2, arguments.len() as int),
                        Options { serial, ..options },
                    );
                }
            }
        } else if argument == "--display"@ {
            if arguments.len() > 1 {
                if let Ok(display) = display_of(arguments[1]) {
                    understood_options_are_complete(
                        arguments.subrange(2, arguments.len() as int),
                        Options { display, ..options },
                    );
                }
            }
        } else if begins_with(argument, "--display="@) {
            if let Ok(display) = display_of(argument.subrange(10, argument.len() as int)) {
                understood_options_are_complete(
                    arguments.subrange(1, arguments.len() as int),
                    Options { display, ..options },
                );
            }
        }
    }
}

} // verus!
