//! The `vibe` command: the keyboard's vibration motor.

use vstd::prelude::*;
use crate::shell::text::{first_token, same_text, spec_first_token};

verus! {

/// The `vibe` shell command.
#[derive(Debug)]
pub struct Vibe {}

/// What a `vibe` command line asks for.
#[derive(Clone, Copy, Debug, PartialEq, Eq, Structural)]
pub enum VibeCommand {
    /// Vibrate on key presses.
    On,
    /// Do not vibrate on key presses.
    Off,
    /// One long pulse.
    Long,
    /// Two short pulses.
    Double,
    /// Anything else: print the usage.
    Help,
}

/// The command that the first word of `args` names.
pub open spec fn spec_vibe_command(args: Seq<char>) -> VibeCommand {
    let word = spec_first_token(args);
    if word == "on"@ {
        VibeCommand::On
    } else if word == "off"@ {
        VibeCommand::Off
    } else if word == "long"@ {
        VibeCommand::Long
    } else if word == "double"@ {
        VibeCommand::Double
    } else {
        VibeCommand::Help
    }
}

/// What the shell prints once `command` was carried out.
pub open spec fn spec_vibe_response(command: VibeCommand) -> Seq<char> {
    match command {
        VibeCommand::On => "Keyboard vibrate on"@,
        VibeCommand::Off => "Keyboard vibrate off"@,
        VibeCommand::Long => "Long vibe"@,
        VibeCommand::Double => "Double vibe"@,
        VibeCommand::Help => "vibe [on] [off] [long] [double]"@,
    }
}

impl Vibe {
    pub fn new() -> Self {
        Vibe {  }
    }

    /// The word that selects this command.
    pub fn verb(&self) -> (verb: &'static str)
        ensures
            verb@ == "vibe"@,
    {
        "vibe"
    }

    /// Whether `verb` selects this command.
    pub fn matches(&self, verb: &str) -> (matches: bool)
        ensures
            matches == (verb@ == "vibe"@),
    {
        same_text(verb, "vibe")
    }

    /// Reads the command line behind the verb: what to do, and what to
    /// print when it is done.
    pub fn process(&mut self, args: &str) -> (result: (VibeCommand, &'static str))
        ensures
            result.0 == spec_vibe_command(args@),
            result.1@ == spec_vibe_response(result.0),
    {
        let word = first_token(args);
        if same_text(word, "on") {
            (VibeCommand::On, "Keyboard vibrate on")
        } else if same_text(word, "off") {
            (VibeCommand::Off, "Keyboard vibrate off")
        } else if same_text(word, "long") {
            (VibeCommand::Long, "Long vibe")
        } else if same_text(word, "double") {
            (VibeCommand::Double, "Double vibe")
        } else {
            (VibeCommand::Help, "vibe [on] [off] [long] [double]")
        }
    }
}

} // verus!
