use std::collections::HashMap;
use xous_core::shell::env::{callback_verb, register_handler};
use xous_core::shell::text::{first_token, first_token_len, same_text, tokenize};
use xous_core::shell::usb::{
    after_first_token, fixed_reply, join_tokens, keyboard_step, required_core, send_step,
    status_reply, TrngTestMode, Usb, UsbCommand, UsbCore, UsbState, UsbStep,
};
use xous_core::shell::vibe::{Vibe, VibeCommand};

#[test]
fn join_tokens_puts_one_space_between() {
    let mut buf = String::new();
    join_tokens(&mut buf, &["hello", "wide", "world"]);
    assert_eq!(buf, "hello wide world");
}

#[test]
fn join_tokens_appends_to_what_is_there() {
    let mut buf = String::from(">");
    join_tokens(&mut buf, &["a"]);
    assert_eq!(buf, ">a");
    join_tokens(&mut buf, &[]);
    assert_eq!(buf, ">a");
    join_tokens(&mut buf, &["", "b", ""]);
    assert_eq!(buf, ">a b ");
}

#[test]
fn first_token_ends_at_the_first_space() {
    assert_eq!(first_token("long now"), "long");
    assert_eq!(first_token("long"), "long");
    assert_eq!(first_token(" long"), "");
    assert_eq!(first_token(""), "");
    assert_eq!(first_token("grüße dich"), "grüße");
    assert_eq!(first_token_len("grüße dich"), 5);
}

#[test]
fn same_text_compares_characters() {
    assert!(same_text("on", "on"));
    assert!(!same_text("on", "off"));
    assert!(!same_text("on", "one"));
    assert!(same_text("", ""));
}

#[test]
fn vibe_is_selected_by_its_verb() {
    let vibe = Vibe::new();
    assert_eq!(vibe.verb(), "vibe");
    assert!(vibe.matches("vibe"));
    assert!(!vibe.matches("vib"));
    assert!(!vibe.matches("usb"));
}

#[test]
fn vibe_reads_its_command() {
    let mut vibe = Vibe::new();
    assert_eq!(vibe.process("on"), (VibeCommand::On, "Keyboard vibrate on"));
    assert_eq!(vibe.process("off"), (VibeCommand::Off, "Keyboard vibrate off"));
    assert_eq!(vibe.process("long"), (VibeCommand::Long, "Long vibe"));
    assert_eq!(vibe.process("double"), (VibeCommand::Double, "Double vibe"));
    assert_eq!(vibe.process("double now"), (VibeCommand::Double, "Double vibe"));
    assert_eq!(vibe.process(""), (VibeCommand::Help, "vibe [on] [off] [long] [double]"));
    assert_eq!(vibe.process("On"), (VibeCommand::Help, "vibe [on] [off] [long] [double]"));
    assert_eq!(vibe.process(" on"), (VibeCommand::Help, "vibe [on] [off] [long] [double]"));
}

#[test]
fn tokenize_takes_the_first_word() {
    let mut line = String::from("usb send  hello world");
    assert_eq!(tokenize(&mut line), Some(String::from("usb")));
    assert_eq!(line, "send  hello world");
    assert_eq!(tokenize(&mut line), Some(String::from("send")));
    assert_eq!(line, "hello world");
    assert_eq!(tokenize(&mut line), Some(String::from("hello")));
    assert_eq!(line, "world");
    assert_eq!(tokenize(&mut line), Some(String::from("world")));
    assert_eq!(line, "");
    assert_eq!(tokenize(&mut line), None);
    assert_eq!(line, "");
}

#[test]
fn tokenize_of_a_line_that_starts_with_a_space_gives_nothing() {
    let mut line = String::from("  vibe on ");
    assert_eq!(tokenize(&mut line), None);
    assert_eq!(line, "vibe on ");
    assert_eq!(tokenize(&mut line), Some(String::from("vibe")));
    assert_eq!(line, "on ");
    assert_eq!(tokenize(&mut line), Some(String::from("on")));
    assert_eq!(line, "");
    let mut spaces = String::from("   ");
    assert_eq!(tokenize(&mut spaces), None);
    assert_eq!(spaces, "");
}

#[test]
fn usb_is_selected_by_its_verb() {
    let usb = Usb::new();
    assert_eq!(usb.verb(), "usb");
    assert!(usb.matches("usb"));
    assert!(!usb.matches("vibe"));
}

#[test]
fn usb_reads_its_command() {
    let mut usb = Usb::new();
    assert_eq!(usb.process("hid", false), UsbCommand::Hid);
    assert_eq!(usb.process("ms", true), UsbCommand::MassStorage);
    assert_eq!(usb.process("ms", false), UsbCommand::Help);
    assert_eq!(usb.process("fido", false), UsbCommand::Fido);
    assert_eq!(usb.process("debug", false), UsbCommand::Debug);
    assert_eq!(usb.process("serial", false), UsbCommand::Serial);
    assert_eq!(usb.process("console", false), UsbCommand::Console);
    assert_eq!(usb.process("noconsole", false), UsbCommand::NoConsole);
    assert_eq!(usb.process("notrng", false), UsbCommand::NoTrng);
    assert_eq!(usb.process("send hello world", false), UsbCommand::Send);
    assert_eq!(usb.process("kbdtest", false), UsbCommand::KbdTest);
    assert_eq!(usb.process("status", false), UsbCommand::Status);
    assert_eq!(usb.process("leds", false), UsbCommand::Leds);
    assert_eq!(usb.process("lock", false), UsbCommand::Lock);
    assert_eq!(usb.process("unlock", false), UsbCommand::Unlock);
    assert_eq!(usb.process("", false), UsbCommand::Help);
    assert_eq!(usb.process("bogus", true), UsbCommand::Help);
    assert_eq!(usb.process(" hid", true), UsbCommand::Help);
}

#[test]
fn usb_trng_reads_its_mode() {
    let mut usb = Usb::new();
    assert_eq!(usb.process("trng ro", false), UsbCommand::Trng(TrngTestMode::Ro));
    assert_eq!(usb.process("trng av", false), UsbCommand::Trng(TrngTestMode::Av));
    assert_eq!(usb.process("trng both", false), UsbCommand::Trng(TrngTestMode::Both));
    assert_eq!(usb.process("trng cprng", false), UsbCommand::Trng(TrngTestMode::Cprng));
    assert_eq!(usb.process("trng", false), UsbCommand::Trng(TrngTestMode::Cprng));
    assert_eq!(usb.process("trng  ro", false), UsbCommand::Trng(TrngTestMode::Cprng));
    assert_eq!(usb.process("trng ro av", false), UsbCommand::Trng(TrngTestMode::Ro));
}

#[test]
fn usb_send_takes_the_rest_of_the_line() {
    assert_eq!(after_first_token("send hello  world "), "hello  world ");
    assert_eq!(after_first_token("send"), "");
    assert_eq!(after_first_token("send "), "");
    assert_eq!(after_first_token(""), "");
    // Splitting at spaces and joining with spaces gives the same.
    let line = "send hello  wide world ";
    let tokens: Vec<&str> = line.split(' ').skip(1).collect();
    let mut joined = String::new();
    join_tokens(&mut joined, &tokens);
    assert_eq!(joined, after_first_token(line));
}

#[test]
fn usb_commands_switch_the_core() {
    assert_eq!(required_core(UsbCommand::Hid), Some(UsbCore::FidoKbd));
    assert_eq!(required_core(UsbCommand::MassStorage), Some(UsbCore::MassStorage));
    assert_eq!(required_core(UsbCommand::Fido), Some(UsbCore::Fido));
    assert_eq!(required_core(UsbCommand::Debug), Some(UsbCore::Debug));
    assert_eq!(required_core(UsbCommand::Serial), Some(UsbCore::Serial));
    assert_eq!(required_core(UsbCommand::Console), Some(UsbCore::Serial));
    assert_eq!(required_core(UsbCommand::Trng(TrngTestMode::Av)), Some(UsbCore::Serial));
    assert_eq!(required_core(UsbCommand::Send), None);
    assert_eq!(required_core(UsbCommand::Lock), None);
}

#[test]
fn usb_fixed_replies() {
    assert_eq!(fixed_reply(UsbCommand::Hid, false), Some("USB connected to HID (FIDO + keyboard) core"));
    assert_eq!(fixed_reply(UsbCommand::Debug, false), Some("USB connected to Debug core, secrets readable!"));
    assert_eq!(fixed_reply(UsbCommand::NoTrng, false), Some("USB TRNG serial sending should be stopped."));
    assert_eq!(
        fixed_reply(UsbCommand::Help, false),
        Some("usb [hid] [fido] [debug] [send <string>] [status] [leds] [lock] [unlock] [kbdtest]")
    );
    assert!(fixed_reply(UsbCommand::Help, true).unwrap().contains("[ms]"));
    assert_eq!(fixed_reply(UsbCommand::Send, false), None);
    assert_eq!(fixed_reply(UsbCommand::KbdTest, false), None);
    assert_eq!(fixed_reply(UsbCommand::Status, false), None);
    assert_eq!(fixed_reply(UsbCommand::Leds, false), None);
}

#[test]
fn usb_steps_depend_on_the_core() {
    assert_eq!(send_step(Some(UsbCore::FidoKbd)), UsbStep::Proceed);
    assert_eq!(send_step(Some(UsbCore::Serial)), UsbStep::Proceed);
    assert_eq!(
        send_step(Some(UsbCore::Debug)),
        UsbStep::Reply("HID core not connected: please issue 'usb hid' first")
    );
    assert_eq!(send_step(Some(UsbCore::Fido)), UsbStep::Reply("Invalid response checking status"));
    assert_eq!(send_step(None), UsbStep::Reply("Invalid response checking status"));
    assert_eq!(keyboard_step(Some(UsbCore::FidoKbd)), UsbStep::Proceed);
    assert_eq!(keyboard_step(Some(UsbCore::Serial)), UsbStep::Reply("Invalid response checking status"));
    assert_eq!(
        keyboard_step(Some(UsbCore::Debug)),
        UsbStep::Reply("HID core not connected: please issue 'usb hid' first")
    );
}

#[test]
fn usb_status_replies() {
    assert_eq!(status_reply(Some(UsbCore::Debug), UsbState::Other, false), "Debug core connected");
    assert_eq!(status_reply(Some(UsbCore::FidoKbd), UsbState::Configured, false), "HID core connected to host");
    assert_eq!(status_reply(Some(UsbCore::FidoKbd), UsbState::Suspend, false), "HID in suspend");
    assert_eq!(status_reply(Some(UsbCore::FidoKbd), UsbState::Other, false), "HID not connected to USB host");
    assert_eq!(status_reply(Some(UsbCore::MassStorage), UsbState::Other, true), "USB mass storage connected");
    assert_eq!(status_reply(Some(UsbCore::MassStorage), UsbState::Other, false), "Invalid response checking status");
    assert_eq!(status_reply(Some(UsbCore::Serial), UsbState::Configured, true), "Invalid response checking status");
    assert_eq!(status_reply(None, UsbState::Configured, true), "Invalid response checking status");
}

#[test]
fn callbacks_are_registered_above_the_reserved_ids() {
    let mut registrations = HashMap::new();
    assert_eq!(register_handler(&mut registrations, String::from("usb"), 1000), Err(String::from("usb")));
    assert_eq!(register_handler(&mut registrations, String::from("usb"), 0), Err(String::from("usb")));
    assert!(registrations.is_empty());
    assert_eq!(register_handler(&mut registrations, String::from("usb"), 1001), Ok(1001));
    assert_eq!(register_handler(&mut registrations, String::from("vibe"), 1001), Err(String::from("vibe")));
    assert_eq!(register_handler(&mut registrations, String::from("vibe"), 0xffff_ffff), Ok(0xffff_ffff));
    assert_eq!(registrations.len(), 2);
    assert_eq!(registrations[&1001], "usb");
    let last = String::from("help");
    assert_eq!(callback_verb(&registrations, &last, 1001), "usb");
    assert_eq!(callback_verb(&registrations, &last, 0xffff_ffff), "vibe");
    assert_eq!(callback_verb(&registrations, &last, 7), "help");
}
