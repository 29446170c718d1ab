//! Commands that the controlling side may request of the device.
use vstd::prelude::*;

verus! {

/// A recognised command.
#[derive(Clone, Copy, Debug, PartialEq, Eq, Structural)]
pub enum Command {
    /// Request a change of attitude.
    SetAttitude,
}

impl Command {
    /// Recognises `0x01` as a set-attitude request and rejects any other byte.
    pub fn from(command_number: u8) -> (r: Result<Self, ()>)
        ensures
            command_number == 0x01 ==> r == Ok::<Command, ()>(Command::SetAttitude),
            command_number != 0x01 ==> r == Err::<Command, ()>(()),
    {
        match command_number {
            0x01 => Ok(Self::SetAttitude),
            _ => Err(()),
        }
    }
}

} // verus!
