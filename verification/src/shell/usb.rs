//! The `usb` command.

use vstd::prelude::*;
use vstd::string::{StrSliceExecFns, StringExecFns};
use crate::shell::text::{
    first_token,
    first_token_len,
    lemma_first_token,
    same_text,
    spec_after_first_token,
    spec_first_token,
};

verus! {

/// The cores that the USB port can be switched to.
#[derive(Clone, Copy, Debug, PartialEq, Eq, Structural)]
pub enum UsbCore {
    Debug,
    FidoKbd,
    Fido,
    MassStorage,
    Serial,
}

/// The states of a USB device that the shell tells apart.
#[derive(Clone, Copy, Debug, PartialEq, Eq, Structural)]
pub enum UsbState {
    Configured,
    Suspend,
    Other,
}

/// What the entropy source sends over the serial port for testing.
#[derive(Clone, Copy, Debug, PartialEq, Eq, Structural)]
pub enum TrngTestMode {
    Ro,
    Av,
    Both,
    Cprng,
}

/// What a `usb` command line asks for.
#[derive(Clone, Copy, Debug, PartialEq, Eq, Structural)]
pub enum UsbCommand {
    Hid,
    MassStorage,
    Fido,
    Debug,
    Serial,
    Console,
    NoConsole,
    Trng(TrngTestMode),
    NoTrng,
    /// Send the rest of the line as key strokes.
    Send,
    KbdTest,
    Status,
    Leds,
    Lock,
    Unlock,
    Help,
}

/// What to do with a command that depends on the core in use.
#[derive(Clone, Copy, Debug, PartialEq, Eq)]
pub enum UsbStep {
    /// Go on and ask the device.
    Proceed,
    /// Print this and stop.
    Reply(&'static str),
}

/// The `usb` shell command.
#[derive(Debug)]
pub struct Usb {}

/// The test mode that a word names; the mixed mode of normal operation for
/// any other word.
pub open spec fn spec_trng_mode(word: Seq<char>) -> TrngTestMode {
    if word == "ro"@ {
        TrngTestMode::Ro
    } else if word == "av"@ {
        TrngTestMode::Av
    } else if word == "both"@ {
        TrngTestMode::Both
    } else {
        TrngTestMode::Cprng
    }
}

/// The command that the first word of `args` names. The mass storage core
/// is known only where the shell was built with it.
pub open spec fn spec_usb_command(args: Seq<char>, mass_storage: bool) -> UsbCommand {
    let word = spec_first_token(args);
    if word == "hid"@ {
        UsbCommand::Hid
    } else if mass_storage && word == "ms"@ {
        UsbCommand::MassStorage
    } else if word == "fido"@ {
        UsbCommand::Fido
    } else if word == "debug"@ {
        UsbCommand::Debug
    } else if word == "serial"@ {
        UsbCommand::Serial
    } else if word == "console"@ {
        UsbCommand::Console
    } else if word == "noconsole"@ {
        UsbCommand::NoConsole
    } else if word == "trng"@ {
        UsbCommand::Trng(spec_trng_mode(spec_first_token(spec_after_first_token(args))))
    } else if word == "notrng"@ {
        UsbCommand::NoTrng
    } else if word == "send"@ {
        UsbCommand::Send
    } else if word == "kbdtest"@ {
        UsbCommand::KbdTest
    } else if word == "status"@ {
        UsbCommand::Status
    } else if word == "leds"@ {
        UsbCommand::Leds
    } else if word == "lock"@ {
        UsbCommand::Lock
    } else if word == "unlock"@ {
        UsbCommand::Unlock
    } else {
        UsbCommand::Help
    }
}

/// What the shell prints for a command that needs no word from the device;
/// `None` for the commands that do.
pub open spec fn spec_fixed_reply(command: UsbCommand, mass_storage: bool) -> Option<Seq<char>> {
    match command {
        UsbCommand::Hid => Some("USB connected to HID (FIDO + keyboard) core"@),
        UsbCommand::MassStorage => Some("USB connected to mass storage core"@),
        UsbCommand::Fido => Some("USB connected to FIDO-only core"@),
        UsbCommand::Debug => Some("USB connected to Debug core, secrets readable!"@),
        UsbCommand::Serial => Some("USB connected to serial core"@),
        UsbCommand::Console => Some("USB console connected."@),
        UsbCommand::NoConsole => Some("USB console disconnected."@),
        UsbCommand::Trng(_) => Some("USB TRNG serial sending requested"@),
        UsbCommand::NoTrng => Some("USB TRNG serial sending should be stopped."@),
        UsbCommand::Lock => Some(
            "USB debug port locked out; one word at 0x80000000 is disclosable via USB."@,
        ),
        UsbCommand::Unlock => Some(
            "USB debug port unlocked: portions of the device are readable via USB!"@,
        ),
        UsbCommand::Help => Some(
            if mass_storage {
                "usb [hid] [fido] [ms] [debug] [send <string>] [status] [leds] [lock] [unlock] [kbdtest] [console] [noconsole]"@
            } else {
                "usb [hid] [fido] [debug] [send <string>] [status] [leds] [lock] [unlock] [kbdtest]"@
            },
        ),
        _ => None,
    }
}

/// The part of a line behind its first space.
pub fn after_first_token(line: &str) -> (rest: &str)
    ensures
        rest@ == spec_after_first_token(line@),
{
    let total = line.unicode_len();
    let n = first_token_len(line);
    proof {
        lemma_first_token(line@);
    }
    if n < total {
        line.substring_char(n + 1, total)
    } else {
        line.substring_char(total, total)
    }
}

fn trng_mode(word: &str) -> (mode: TrngTestMode)
    ensures
        mode == spec_trng_mode(word@),
{
    if same_text(word, "ro") {
        TrngTestMode::Ro
    } else if same_text(word, "av") {
        TrngTestMode::Av
    } else if same_text(word, "both") {
        TrngTestMode::Both
    } else {
        TrngTestMode::Cprng
    }
}

impl Usb {
    pub fn new() -> Self {
        Usb {  }
    }

    /// The word that selects this command.
    pub fn verb(&self) -> (verb: &'static str)
        ensures
            verb@ == "usb"@,
    {
        "usb"
    }

    /// Whether `verb` selects this command.
    pub fn matches(&self, verb: &str) -> (matches: bool)
        ensures
            matches == (verb@ == "usb"@),
    {
        same_text(verb, "usb")
    }

    /// Reads the command line behind the verb.
    pub fn process(&mut self, args: &str, mass_storage: bool) -> (command: UsbCommand)
        ensures
            command == spec_usb_command(args@, mass_storage),
    {
        let word = first_token(args);
        if same_text(word, "hid") {
            UsbCommand::Hid
        } else if mass_storage && same_text(word, "ms") {
            UsbCommand::MassStorage
        } else if same_text(word, "fido") {
            UsbCommand::Fido
        } else if same_text(word, "debug") {
            UsbCommand::Debug
        } else if same_text(word, "serial") {
            UsbCommand::Serial
        } else if same_text(word, "console") {
            UsbCommand::Console
        } else if same_text(word, "noconsole") {
            UsbCommand::NoConsole
        } else if same_text(word, "trng") {
            UsbCommand::Trng(trng_mode(first_token(after_first_token(args))))
        } else if same_text(word, "notrng") {
            UsbCommand::NoTrng
        } else if same_text(word, "send") {
            UsbCommand::Send
        } else if same_text(word, "kbdtest") {
            UsbCommand::KbdTest
        } else if same_text(word, "status") {
            UsbCommand::Status
        } else if same_text(word, "leds") {
            UsbCommand::Leds
        } else if same_text(word, "lock") {
            UsbCommand::Lock
        } else if same_text(word, "unlock") {
            UsbCommand::Unlock
        } else {
            UsbCommand::Help
        }
    }
}

/// The core that a command switches the port to before it does anything
/// else; `None` for a command that leaves the port as it is.
pub fn required_core(command: UsbCommand) -> (core: Option<UsbCore>)
    ensures
        core == match command {
            UsbCommand::Hid => Some(UsbCore::FidoKbd),
            UsbCommand::MassStorage => Some(UsbCore::MassStorage),
            UsbCommand::Fido => Some(UsbCore::Fido),
            UsbCommand::Debug => Some(UsbCore::Debug),
            UsbCommand::Serial => Some(UsbCore::Serial),
            UsbCommand::Console => Some(UsbCore::Serial),
            UsbCommand::Trng(_) => Some(UsbCore::Serial),
            _ => None,
        },
{
    match command {
        UsbCommand::Hid => Some(UsbCore::FidoKbd),
        UsbCommand::MassStorage => Some(UsbCore::MassStorage),
        UsbCommand::Fido => Some(UsbCore::Fido),
        UsbCommand::Debug => Some(UsbCore::Debug),
        UsbCommand::Serial | UsbCommand::Console | UsbCommand::Trng(_) => Some(UsbCore::Serial),
        _ => None,
    }
}

/// What the shell prints for a command that needs no word from the
/// device.
pub fn fixed_reply(command: UsbCommand, mass_storage: bool) -> (reply: Option<&'static str>)
    ensures
        match reply {
            Some(text) => spec_fixed_reply(command, mass_storage) == Some(text@),
            None => spec_fixed_reply(command, mass_storage).is_none(),
        },
{
    match command {
        UsbCommand::Hid => Some("USB connected to HID (FIDO + keyboard) core"),
        UsbCommand::MassStorage => Some("USB connected to mass storage core"),
        UsbCommand::Fido => Some("USB connected to FIDO-only core"),
        UsbCommand::Debug => Some("USB connected to Debug core, secrets readable!"),
        UsbCommand::Serial => Some("USB connected to serial core"),
        UsbCommand::Console => Some("USB console connected."),
        UsbCommand::NoConsole => Some("USB console disconnected."),
        UsbCommand::Trng(_) => Some("USB TRNG serial sending requested"),
        UsbCommand::NoTrng => Some("USB TRNG serial sending should be stopped."),
        UsbCommand::Lock => Some(
            "USB debug port locked out; one word at 0x80000000 is disclosable via USB.",
        ),
        UsbCommand::Unlock => Some(
            "USB debug port unlocked: portions of the device are readable via USB!",
        ),
        UsbCommand::Help => {
            if mass_storage {
                Some(
                    "usb [hid] [fido] [ms] [debug] [send <string>] [status] [leds] [lock] [unlock] [kbdtest] [console] [noconsole]",
                )
            } else {
                Some(
                    "usb [hid] [fido] [debug] [send <string>] [status] [leds] [lock] [unlock] [kbdtest]",
                )
            }
        },
        _ => None,
    }
}

/// Reply of a command that needs the keyboard core while another core, or
/// none that can be told, is in use.
pub open spec fn spec_wrong_core(core: Option<UsbCore>) -> Seq<char> {
    if core == Some(UsbCore::Debug) {
        "HID core not connected: please issue 'usb hid' first"@
    } else {
        "Invalid response checking status"@
    }
}

fn wrong_core(core: Option<UsbCore>) -> (step: UsbStep)
    ensures
        step matches UsbStep::Reply(text) && text@ == spec_wrong_core(core),
{
    match core {
        Some(UsbCore::Debug) => UsbStep::Reply(
            "HID core not connected: please issue 'usb hid' first",
        ),
        _ => UsbStep::Reply("Invalid response checking status"),
    }
}

/// Whether text can be sent with `core` in use: the keyboard core and the
/// serial core take it.
pub fn send_step(core: Option<UsbCore>) -> (step: UsbStep)
    ensures
        match step {
            UsbStep::Proceed => core == Some(UsbCore::FidoKbd) || core == Some(UsbCore::Serial),
            UsbStep::Reply(text) => core != Some(UsbCore::FidoKbd) && core != Some(
                UsbCore::Serial,
            ) && text@ == spec_wrong_core(core),
        },
{
    match core {
        Some(UsbCore::FidoKbd) | Some(UsbCore::Serial) => UsbStep::Proceed,
        _ => wrong_core(core),
    }
}

/// Whether the keyboard can be tested, or its lights read, with `core` in
/// use: only the keyboard core allows it.
pub fn keyboard_step(core: Option<UsbCore>) -> (step: UsbStep)
    ensures
        match step {
            UsbStep::Proceed => core == Some(UsbCore::FidoKbd),
            UsbStep::Reply(text) => core != Some(UsbCore::FidoKbd) && text@ == spec_wrong_core(
                core,
            ),
        },
{
    match core {
        Some(UsbCore::FidoKbd) => UsbStep::Proceed,
        _ => wrong_core(core),
    }
}

/// What `usb status` prints for the core in use and, with the keyboard
/// core, the state of the device.
pub open spec fn spec_status_reply(
    core: Option<UsbCore>,
    state: UsbState,
    mass_storage: bool,
) -> Seq<char> {
    match core {
        Some(UsbCore::Debug) => "Debug core connected"@,
        Some(UsbCore::FidoKbd) => match state {
            UsbState::Configured => "HID core connected to host"@,
            UsbState::Suspend => "HID in suspend"@,
            UsbState::Other => "HID not connected to USB host"@,
        },
        Some(UsbCore::MassStorage) => if mass_storage {
            "USB mass storage connected"@
        } else {
            "Invalid response checking status"@
        },
        _ => "Invalid response checking status"@,
    }
}

/// What `usb status` prints.
pub fn status_reply(core: Option<UsbCore>, state: UsbState, mass_storage: bool) -> (reply:
    &'static str)
    ensures
        reply@ == spec_status_reply(core, state, mass_storage),
{
    match core {
        Some(UsbCore::Debug) => "Debug core connected",
        Some(UsbCore::FidoKbd) => match state {
            UsbState::Configured => "HID core connected to host",
            UsbState::Suspend => "HID in suspend",
            UsbState::Other => "HID not connected to USB host",
        },
        Some(UsbCore::MassStorage) => {
            if mass_storage {
                "USB mass storage connected"
            } else {
                "Invalid response checking status"
            }
        },
        _ => "Invalid response checking status",
    }
}

/// The tokens joined by single spaces.
pub open spec fn spec_join(tokens: Seq<&str>) -> Seq<char>
    decreases tokens.len(),
{
    if tokens.len() == 0 {
        Seq::empty()
    } else if tokens.len() == 1 {
        tokens[0]@
    } else {
        spec_join(tokens.drop_last()) + seq![' '] + tokens.last()@
    }
}

/// Appends the tokens to `buf`, with one space between each two.
pub fn join_tokens(buf: &mut String, tokens: &[&str])
    ensures
        final(buf)@ == old(buf)@ + spec_join(tokens@),
{
    let mut i: usize = 0;
    while i < tokens.len()
        invariant
            i <= tokens@.len(),
            buf@ == old(buf)@ + spec_join(tokens@.take(i as int)),
        decreases tokens@.len() - i,
    {
        proof {
            reveal_strlit(" ");
            assert(tokens@.take(i + 1).drop_last() =~= tokens@.take(i as int));
            assert(" "@ =~= seq![' ']);
        }
        if i != 0 {
            buf.append(" ");
        }
        buf.append(tokens[i]);
        i = i + 1;
        assert(buf@ =~= old(buf)@ + spec_join(tokens@.take(i as int)));
    }
    assert(tokens@.take(i as int) =~= tokens@);
}

} // verus!
