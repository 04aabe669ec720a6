//! Actions held as values: a remote control with one button runs whatever
//! command it was last given.

use vstd::prelude::*;

verus! {

/// An action that can be run and says what it did.
pub trait Command {
    /// What running the command says.
    spec fn spec_execute(&self) -> Seq<char>;

    /// Runs the command.
    fn execute(&self) -> (said: String)
        ensures
            said@ == self.spec_execute(),
    ;
}

/// The command that does nothing.
pub struct NullCommand;

impl NullCommand {
    /// The command that does nothing.
    pub fn new() -> (command: NullCommand)
        ensures
            command.spec_execute() == "Nothing to do!"@,
    {
        NullCommand
    }
}

impl Command for NullCommand {
    open spec fn spec_execute(&self) -> Seq<char> {
        "Nothing to do!"@
    }

    fn execute(&self) -> (said: String) {
        "Nothing to do!".to_owned()
    }
}

/// A light.
#[derive(Clone, Copy)]
pub struct Light;

impl Light {
    /// A light.
    pub fn new() -> (light: Light) {
        Light
    }

    /// Switches the light on.
    pub fn on(&self) -> (said: String)
        ensures
            said@ == "Light is on"@,
    {
        "Light is on".to_owned()
    }

    /// Switches the light off.
    pub fn off(&self) -> (said: String)
        ensures
            said@ == "Light is off"@,
    {
        "Light is off".to_owned()
    }
}

/// The command that switches a light on.
pub struct LightOnCommand {
    light: Light,
}

impl LightOnCommand {
    /// The command that switches `light` on.
    pub fn new(light: Light) -> (command: LightOnCommand)
        ensures
            command.spec_execute() == "Light is on"@,
    {
        LightOnCommand { light }
    }
}

impl Command for LightOnCommand {
    open spec fn spec_execute(&self) -> Seq<char> {
        "Light is on"@
    }

    fn execute(&self) -> (said: String) {
        self.light.on()
    }
}

/// The command that switches a light off.
pub struct LightOffCommand {
    light: Light,
}

impl LightOffCommand {
    /// The command that switches `light` off.
    pub fn new(light: Light) -> (command: LightOffCommand)
        ensures
            command.spec_execute() == "Light is off"@,
    {
        LightOffCommand { light }
    }
}

impl Command for LightOffCommand {
    open spec fn spec_execute(&self) -> Seq<char> {
        "Light is off"@
    }

    fn execute(&self) -> (said: String) {
        self.light.off()
    }
}

/// A remote control with one button.
pub struct SimpleRemoteControl {
    command: Box<dyn Command>,
}

impl SimpleRemoteControl {
    /// What pressing the button says now.
    pub closed spec fn spec_pressed(&self) -> Seq<char> {
        (*self.command).spec_execute()
    }

    /// A remote control whose button does nothing yet.
    pub fn new() -> (remote: SimpleRemoteControl)
        ensures
            remote.spec_pressed() == "Nothing to do!"@,
    {
        SimpleRemoteControl { command: Box::new(NullCommand::new()) }
    }

    /// Puts `cmd` on the button.
    pub fn set_command(&mut self, mut cmd: Box<dyn Command>)
        ensures
            final(self).spec_pressed() == (*cmd).spec_execute(),
    {
        std::mem::swap(&mut self.command, &mut cmd);
    }

    /// Presses the button: runs the command that is on it.
    pub fn button_was_pressed(&self) -> (said: String)
        ensures
            said@ == self.spec_pressed(),
    {
        self.command.execute()
    }
}

} // verus!
