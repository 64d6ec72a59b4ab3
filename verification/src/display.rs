//! The display that shows the device and its light: what it shows when, and how
//! the light blinks.
use vstd::prelude::*;
use vstd::string::*;

verus! {

/// The bytes of a picture on the color display: 240 by 240 pixels of two bytes.
pub const COLOR_FRAME_SIZE: usize = 115_200;

/// The bytes of a picture on the monochrome display: 128 by 64 pixels of one bit.
pub const OLED_FRAME_SIZE: usize = 1_024;

/// A display that the worker can drive.
#[derive(Clone, Copy, Debug, PartialEq, Eq, Structural)]
pub enum DisplayKind {
    St7789Spi,
    Sh1106Spi,
}

impl DisplayKind {
    /// The display that a name stands for.
    pub open spec fn named(name: Seq<char>) -> Option<DisplayKind> {
        if name == "st7789-spi"@ {
            Some(DisplayKind::St7789Spi)
        } else if name == "sh1106-spi"@ {
            Some(DisplayKind::Sh1106Spi)
        } else {
            None
        }
    }

    /// Reads the name of a display.
    pub fn parse(name: &str) -> (kind: Option<DisplayKind>)
        ensures
            kind == DisplayKind::named(name@),
    {
        let name: String = name.to_owned();
        if name == "st7789-spi".to_owned() {
            Some(DisplayKind::St7789Spi)
        } else if name == "sh1106-spi".to_owned() {
            Some(DisplayKind::Sh1106Spi)
        } else {
            None
        }
    }

    /// The bytes of a picture on the display.
    pub open spec fn size(self) -> usize {
        match self {
            DisplayKind::St7789Spi => COLOR_FRAME_SIZE,
            DisplayKind::Sh1106Spi => OLED_FRAME_SIZE,
        }
    }

    /// Returns the bytes of a picture on the display.
    pub fn frame_size(self) -> (size: usize)
        ensures
            size == self.size(),
    {
        match self {
            DisplayKind::St7789Spi => COLOR_FRAME_SIZE,
            DisplayKind::Sh1106Spi => OLED_FRAME_SIZE,
        }
    }
}

/// How long the light is on and off in turn, in milliseconds.
#[derive(Clone, Copy, Debug, PartialEq, Eq, Structural)]
pub struct Cadence {
    pub on: u64,
    pub off: u64,
}

/// How the light blinks while commands run and while none does, and how long it
/// stays as it is at least, in milliseconds.
#[derive(Clone, Copy, Debug, PartialEq, Eq, Structural)]
pub struct IndicatorPolicy {
    pub busy: Cadence,
    pub idle: Cadence,
    pub minimum_edge: u64,
}

/// Returns how the light of the device blinks.
pub fn indicator_policy() -> (policy: IndicatorPolicy)
    ensures
        policy == (IndicatorPolicy {
            busy: Cadence { on: 67, off: 33 },
            idle: Cadence { on: 1_500, off: 1_500 },
            minimum_edge: 8,
        }),
{
    IndicatorPolicy {
        busy: Cadence { on: 67, off: 33 },
        idle: Cadence { on: 1_500, off: 1_500 },
        minimum_edge: 8,
    }
}

/// What the display is told.
#[derive(Clone, Copy, Debug, PartialEq, Eq, Structural)]
pub enum Command {
    /// To call attention to the device for some seconds.
    Identify(u8),
    PersonalityPresent,
    PersonalityAbsent,
    Bind,
    Unbind,
    Suspend,
    Resume,
    Shutdown,
    /// The time to call attention is over.
    Timeout,
}

/// What becomes of the blinking of the light.
#[derive(Clone, Copy, Debug, PartialEq, Eq, Structural)]
pub enum Blinking {
    Keep,
    Enable,
    Disable,
    End,
}

/// What becomes of the picture.
#[derive(Clone, Copy, Debug, PartialEq, Eq, Structural)]
pub enum Picture {
    Keep,
    /// The device with its light off.
    Dark,
    /// No picture: the display itself goes off.
    Off,
}

/// What becomes of the call for attention.
#[derive(Clone, Copy, Debug, PartialEq, Eq, Structural)]
pub enum Attention {
    Keep,
    /// A new one, for some seconds.
    Begin(u8),
    End,
}

/// What the display does on a command.
#[derive(Clone, Copy, Debug, PartialEq, Eq, Structural)]
pub struct Reaction {
    pub blinking: Blinking,
    pub picture: Picture,
    pub attention: Attention,
}

/// What the display knows of the device on the bus.
#[derive(Clone, Copy, Debug, PartialEq, Eq, Structural)]
pub struct DisplayState {
    pub personality_present: bool,
    pub bound: bool,
    pub suspended: bool,
    /// Whether attention is being called.
    pub identifying: bool,
}

impl DisplayState {
    /// The state at the start: nothing on the bus.
    pub open spec fn initial() -> DisplayState {
        DisplayState {
            personality_present: false,
            bound: false,
            suspended: false,
            identifying: false,
        }
    }

    /// Whether the device is in use on the bus.
    pub open spec fn active(self) -> bool {
        self.personality_present && self.bound && !self.suspended
    }

    /// The picture where the device is on the bus, and no change where it is not.
    pub open spec fn dark_if_present(self) -> Picture {
        if self.personality_present {
            Picture::Dark
        } else {
            Picture::Keep
        }
    }

    /// What a command makes of the state, and what the display does.
    pub open spec fn after(self, command: Command) -> (DisplayState, Reaction) {
        match command {
            Command::Identify(seconds) => if self.active() && seconds != 0 {
                (
                    DisplayState { identifying: true, ..self },
                    Reaction {
                        blinking: Blinking::Keep,
                        picture: Picture::Keep,
                        attention: Attention::Begin(seconds),
                    },
                )
            } else {
                (self, DisplayState::nothing())
            },
            Command::PersonalityPresent => (
                DisplayState { personality_present: true, ..DisplayState::initial() },
                Reaction {
                    blinking: Blinking::Disable,
                    picture: Picture::Dark,
                    attention: Attention::End,
                },
            ),
            Command::PersonalityAbsent => (
                DisplayState::initial(),
                Reaction {
                    blinking: Blinking::Disable,
                    picture: Picture::Off,
                    attention: Attention::End,
                },
            ),
            Command::Bind => (
                DisplayState { bound: true, suspended: false, identifying: false, ..self },
                Reaction {
                    blinking: if self.personality_present {
                        Blinking::Enable
                    } else {
                        Blinking::Keep
                    },
                    picture: self.dark_if_present(),
                    attention: Attention::End,
                },
            ),
            Command::Unbind => (
                DisplayState { bound: false, suspended: false, identifying: false, ..self },
                Reaction {
                    blinking: Blinking::Disable,
                    picture: self.dark_if_present(),
                    attention: Attention::End,
                },
            ),
            Command::Suspend => (
                DisplayState { suspended: true, identifying: false, ..self },
                Reaction {
                    blinking: Blinking::Disable,
                    picture: self.dark_if_present(),
                    attention: Attention::End,
                },
            ),
            Command::Resume => if self.personality_present && self.bound && self.suspended {
                (
                    DisplayState { suspended: false, ..self },
                    Reaction {
                        blinking: Blinking::Enable,
                        picture: Picture::Dark,
                        attention: Attention::Keep,
                    },
                )
            } else {
                (self, DisplayState::nothing())
            },
            Command::Shutdown => (
                DisplayState::initial(),
                Reaction {
                    blinking: Blinking::End,
                    picture: Picture::Off,
                    attention: Attention::End,
                },
            ),
            Command::Timeout => (
                DisplayState { identifying: false, ..self },
                Reaction {
                    blinking: Blinking::Keep,
                    picture: Picture::Keep,
                    attention: Attention::End,
                },
            ),
        }
    }

    /// Nothing to do.
    pub open spec fn nothing() -> Reaction {
        Reaction {
            blinking: Blinking::Keep,
            picture: Picture::Keep,
            attention: Attention::Keep,
        }
    }

    /// Returns the state at the start.
    pub fn new() -> (state: DisplayState)
        ensures
            state == DisplayState::initial(),
    {
        DisplayState {
            personality_present: false,
            bound: false,
            suspended: false,
            identifying: false,
        }
    }

    /// Takes a command, and tells what the display does.
    pub fn react(&mut self, command: Command) -> (reaction: Reaction)
        ensures
            (*final(self), reaction) == old(self).after(command),
    {
        let present: bool = self.personality_present;
        match command {
            Command::Identify(seconds) => {
                if present && self.bound && !self.suspended && seconds != 0 {
                    self.identifying = true;
                    return Reaction {
                        blinking: Blinking::Keep,
                        picture: Picture::Keep,
                        attention: Attention::Begin(seconds),
                    };
                }
                return Reaction {
                    blinking: Blinking::Keep,
                    picture: Picture::Keep,
                    attention: Attention::Keep,
                };
            },
            Command::Resume => {
                if present && self.bound && self.suspended {
                    self.suspended = false;
                    return Reaction {
                        blinking: Blinking::Enable,
                        picture: Picture::Dark,
                        attention: Attention::Keep,
                    };
                }
                return Reaction {
                    blinking: Blinking::Keep,
                    picture: Picture::Keep,
                    attention: Attention::Keep,
                };
            },
            _ => {},
        }
        self.identifying = false;
        let dark: Picture = if present {
            Picture::Dark
        } else {
            Picture::Keep
        };
        let (blinking, picture): (Blinking, Picture) = match command {
            Command::PersonalityPresent => {
                self.personality_present = true;
                self.bound = false;
                self.suspended = false;
                (Blinking::Disable, Picture::Dark)
            },
            Command::PersonalityAbsent => {
                self.personality_present = false;
                self.bound = false;
                self.suspended = false;
                (Blinking::Disable, Picture::Off)
            },
            Command::Bind => {
                self.bound = true;
                self.suspended = false;
                if present {
                    (Blinking::Enable, dark)
                } else {
                    (Blinking::Keep, dark)
                }
            },
            Command::Unbind => {
                self.bound = false;
                self.suspended = false;
                (Blinking::Disable, dark)
            },
            Command::Suspend => {
                self.suspended = true;
                (Blinking::Disable, dark)
            },
            Command::Shutdown => {
                self.personality_present = false;
                self.bound = false;
                self.suspended = false;
                (Blinking::End, Picture::Off)
            },
            _ => (Blinking::Keep, Picture::Keep),
        };
        Reaction { blinking, picture, attention: Attention::End }
    }
}

/// What is known of the panel behind the display: whether it is open, and whether
/// its failure was reported.
#[derive(Clone, Copy, Debug, PartialEq, Eq, Structural)]
pub struct Panel {
    pub open: bool,
    pub error_reported: bool,
}

impl Panel {
    /// Returns a panel that was not opened yet.
    pub fn new() -> (panel: Panel)
        ensures
            panel == (Panel { open: false, error_reported: false }),
    {
        Panel { open: false, error_reported: false }
    }

    /// Notes that the panel was opened, after which a failure is news again.
    pub fn opened(&mut self)
        ensures
            *final(self) == (Panel { open: true, error_reported: false }),
    {
        self.open = true;
        self.error_reported = false;
    }

    /// Notes a failure, and tells whether it is the first since the panel was
    /// opened; the panel is opened anew before it is used again.
    pub fn failed(&mut self) -> (report: bool)
        ensures
            report == !old(self).error_reported,
            *final(self) == (Panel { open: false, error_reported: true }),
    {
        let report: bool = !self.error_reported;
        self.error_reported = true;
        self.open = false;
        report
    }

    /// Notes that the panel is to go off, and tells whether it was open.
    pub fn closed(&mut self) -> (was_open: bool)
        ensures
            was_open == old(self).open,
            *final(self) == (Panel { open: false, ..*old(self) }),
    {
        let was_open: bool = self.open;
        self.open = false;
        was_open
    }
}

/// Attention is called, and the light blinks, for a device in use alone; whatever
/// takes the device out of use ends both.
pub proof fn attention_needs_a_device_in_use(state: DisplayState, command: Command)
    requires
        state.identifying ==> state.active(),
    ensures
        state.after(command).0.identifying ==> state.after(command).0.active(),
        state.after(command).1.attention is Begin ==> state.active(),
        state.after(command).1.blinking is Enable ==> state.after(command).0.active(),
        state.active() && !state.after(command).0.active() ==> state.after(command).1.attention
            is End,
{
}

/// A device that was suspended and resumed is in use as before, and so is one
/// that was unbound and bound again.
pub proof fn resuming_undoes_suspending(state: DisplayState)
    requires
        state.active(),
    ensures
        state.after(Command::Suspend).0.after(Command::Resume).0 == (DisplayState {
            identifying: false,
            ..state
        }),
        state.after(Command::Unbind).0.after(Command::Bind).0 == (DisplayState {
            identifying: false,
            ..state
        }),
{
}

} // verus!
