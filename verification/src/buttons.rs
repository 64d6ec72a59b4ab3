//! The button that ejects the device: what its edges say, and when a change of it
//! is told.
use vstd::prelude::*;

verus! {

/// The bytes of an event of a line.
pub const LINE_EVENT_SIZE: usize = 48;

/// Where the number of an event's kind stands in it.
pub const LINE_EVENT_ID_OFFSET: usize = 8;

/// What reading an event came to.
#[derive(Clone, Copy, Debug, PartialEq, Eq, Structural)]
pub enum ButtonError {
    /// The line is gone.
    Closed,
    /// An event that is not whole: this many bytes of it.
    Partial(usize),
    /// A notice of another form than one zero byte: this many bytes.
    Notice(usize),
}

/// Whether the number of an event's kind is that of an edge, rising or falling.
pub open spec fn is_edge(id: u32) -> bool {
    id == 1 || id == 2
}

/// What reading an event of a length came to: whether it is an edge.
pub open spec fn event_read(length: usize, id: u32) -> core::result::Result<bool, ButtonError> {
    if length == LINE_EVENT_SIZE {
        Ok(is_edge(id))
    } else if length == 0 {
        Err(ButtonError::Closed)
    } else {
        Err(ButtonError::Partial(length))
    }
}

/// Tells what reading an event of a length came to, with the number of its kind.
pub fn read_event(length: usize, id: u32) -> (edge: core::result::Result<bool, ButtonError>)
    ensures
        edge == event_read(length, id),
{
    if length == LINE_EVENT_SIZE {
        Ok(id == 1 || id == 2)
    } else if length == 0 {
        Err(ButtonError::Closed)
    } else {
        Err(ButtonError::Partial(length))
    }
}

/// The button: whether it is held.
#[derive(Clone, Copy, Debug, PartialEq, Eq, Structural)]
pub struct Button {
    pub pressed: bool,
}

impl Button {
    /// Takes the level of the line after an edge, and tells whether the button
    /// changed, which is to be told.
    pub fn observe(&mut self, current: bool) -> (changed: bool)
        ensures
            final(self).pressed == current,
            changed == (old(self).pressed != current),
    {
        let changed: bool = self.pressed != current;
        self.pressed = current;
        changed
    }
}

/// Checks a notice that the button changed: one zero byte.
pub fn check_notice(length: usize, first: u8) -> (valid: core::result::Result<(), ButtonError>)
    ensures
        valid == (if length == 1 && first == 0 {
            Ok::<(), ButtonError>(())
        } else {
            Err::<(), ButtonError>(ButtonError::Notice(length))
        }),
{
    if length == 1 && first == 0 {
        Ok(())
    } else {
        Err(ButtonError::Notice(length))
    }
}

} // verus!
