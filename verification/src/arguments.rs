//! The arguments of the command line, once they have been read.

use vstd::prelude::*;

verus! {

/// The arguments for the part of the tool that deals with Magic cards.
#[derive(Clone, Copy, Debug, PartialEq, Eq, Structural)]
pub struct Magic {
    /// Launches the graphical user interface.
    gui: bool,
}

impl Magic {
    /// Whether the graphical user interface is asked for.
    pub closed spec fn wants_gui(&self) -> bool {
        self.gui
    }

    /// Creates the arguments, with the graphical user interface asked for
    /// or not.
    pub fn new(gui: bool) -> (magic: Self)
        ensures
            magic.wants_gui() == gui,
    {
        Magic { gui }
    }

    /// Returns whether the graphical user interface is to be launched.
    pub fn gui(&self) -> (gui: bool)
        ensures
            gui == self.wants_gui(),
    {
        self.gui
    }
}

/// The parts of the tool, each with its arguments.
#[derive(Clone, Copy, Debug, PartialEq, Eq, Structural)]
pub enum SubCommand {
    /// The part that deals with Magic cards.
    Magic(Magic),
}

/// The arguments of the tool for organising trading card collections.
#[derive(Clone, Copy, Debug, PartialEq, Eq, Structural)]
pub struct CommandLineArguments {
    sub_command: SubCommand,
}

impl CommandLineArguments {
    /// The part of the tool that was chosen.
    pub closed spec fn chosen(&self) -> SubCommand {
        self.sub_command
    }

    /// Creates the arguments that choose the given part of the tool.
    pub fn new(sub_command: SubCommand) -> (arguments: Self)
        ensures
            arguments.chosen() == sub_command,
    {
        CommandLineArguments { sub_command }
    }

    /// Returns the part of the tool that was chosen, with its arguments.
    pub fn sub_command(&self) -> (sub_command: &SubCommand)
        ensures
            *sub_command == self.chosen(),
    {
        &self.sub_command
    }
}

} // verus!
