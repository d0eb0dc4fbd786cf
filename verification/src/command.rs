//! What the program was asked to do.

use vstd::prelude::*;

verus! {

/// The commands of the program.
#[derive(Clone, Copy, Debug, PartialEq, Eq, Structural)]
pub enum Command {
    /// Open the terminal user interface.
    Tui,
}

/// The arguments of the program.
#[derive(Clone, Copy, Debug, PartialEq, Eq, Structural)]
pub struct Args {
    pub cmd: Option<Command>,
}

impl Args {
    /// The command to run: the one that was given, and the terminal user
    /// interface when none was.
    pub fn command(&self) -> (c: Command)
        ensures
            c == match self.cmd {
                Some(given) => given,
                None => Command::Tui,
            },
    {
        match self.cmd {
            Some(given) => given,
            None => Command::Tui,
        }
    }
}

} // verus!
