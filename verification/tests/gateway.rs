use kpm::error::KpmError;
use kpm::gateway::{check_out, Arg, Command, Request, KSU_OPTIONS, UNANSWERED};
use kpm::protocol::{
    control_call, info_call, list_call, load_call, num_call, unload_call, version_call,
};

#[test]
fn command_codes_are_the_protocol_numbers() {
    assert_eq!(Command::Load.code(), 28);
    assert_eq!(Command::Unload.code(), 29);
    assert_eq!(Command::Num.code(), 30);
    assert_eq!(Command::List.code(), 31);
    assert_eq!(Command::Info.code(), 32);
    assert_eq!(Command::Control.code(), 33);
    assert_eq!(Command::Version.code(), 34);
}

#[test]
fn magic_option_value() {
    assert_eq!(KSU_OPTIONS, 0xdead_beef);
}

#[test]
fn check_out_passes_non_negative_results_on() {
    assert_eq!(check_out(0), Ok(0));
    assert_eq!(check_out(1), Ok(1));
    assert_eq!(check_out(7), Ok(7));
    assert_eq!(check_out(i32::MAX), Ok(i32::MAX));
}

#[test]
fn check_out_negates_negative_results() {
    assert_eq!(check_out(-1), Err(KpmError::Kernel { errno: 1 }));
    assert_eq!(check_out(-2), Err(KpmError::Kernel { errno: 2 }));
    assert_eq!(check_out(-19), Err(KpmError::Kernel { errno: 19 }));
    assert_eq!(check_out(-22), Err(KpmError::Kernel { errno: 22 }));
}

#[test]
fn check_out_keeps_every_code_apart() {
    for rc in -4096..0 {
        assert_eq!(check_out(rc), Err(KpmError::Kernel { errno: (-rc) as u32 }));
    }
}

#[test]
fn check_out_takes_the_least_result() {
    assert_eq!(check_out(i32::MIN), Err(KpmError::Kernel { errno: 2_147_483_648 }));
}

#[test]
fn an_unanswered_call_reads_as_a_failure() {
    assert_eq!(check_out(UNANSWERED), Err(KpmError::Kernel { errno: 1 }));
}

fn request(command: Command, arg1: Arg, arg2: Arg) -> Request {
    Request { command, arg1, arg2 }
}

fn framed(bytes: &[u8]) -> Arg {
    Arg::Text(bytes.to_vec())
}

#[test]
fn the_calls_of_the_protocol_are_well_formed() {
    assert!(load_call(b"/data/adb/kpm/a.kpm", None).unwrap().is_well_formed());
    assert!(load_call(b"a.kpm", Some(b"x=1")).unwrap().is_well_formed());
    assert!(load_call(b"", Some(b"")).unwrap().is_well_formed());
    assert!(unload_call(b"a").unwrap().is_well_formed());
    assert!(num_call().is_well_formed());
    assert!(list_call().is_well_formed());
    assert!(info_call(b"a").unwrap().is_well_formed());
    assert!(control_call(b"a", b"go").unwrap().is_well_formed());
    assert!(version_call().is_well_formed());
}

#[test]
fn text_must_end_in_its_only_nul() {
    assert!(framed(b"a\0").is_well_formed());
    assert!(!framed(b"a").is_well_formed());
    assert!(!framed(b"").is_well_formed());
    assert!(!framed(b"a\0b\0").is_well_formed());
    assert!(!request(Command::Unload, framed(b"a"), Arg::Zero).is_well_formed());
    assert!(!request(Command::Control, framed(b"a\0"), framed(b"b\0c\0")).is_well_formed());
}

#[test]
fn a_buffer_must_have_room() {
    assert!(Arg::Scratch(1).is_well_formed());
    assert!(!Arg::Scratch(0).is_well_formed());
    assert!(!request(Command::List, Arg::Scratch(0), Arg::Length(0)).is_well_formed());
    assert!(!request(Command::Info, framed(b"a\0"), Arg::Scratch(0)).is_well_formed());
}

#[test]
fn a_length_must_be_that_of_the_buffer() {
    assert!(request(Command::List, Arg::Scratch(16), Arg::Length(16)).is_well_formed());
    assert!(!request(Command::List, Arg::Scratch(16), Arg::Length(17)).is_well_formed());
    assert!(!request(Command::Version, Arg::Scratch(16), Arg::Length(8)).is_well_formed());
    assert!(!request(Command::Version, Arg::Length(16), Arg::Scratch(16)).is_well_formed());
}

#[test]
fn the_arguments_must_be_what_the_command_takes() {
    assert!(!request(Command::Load, Arg::Zero, Arg::Zero).is_well_formed());
    assert!(!request(Command::Load, framed(b"a\0"), Arg::Scratch(8)).is_well_formed());
    assert!(!request(Command::Unload, framed(b"a\0"), framed(b"b\0")).is_well_formed());
    assert!(!request(Command::Num, framed(b"a\0"), Arg::Zero).is_well_formed());
    assert!(!request(Command::Num, Arg::Zero, Arg::Length(1)).is_well_formed());
    assert!(!request(Command::List, Arg::Scratch(8), Arg::Scratch(8)).is_well_formed());
    assert!(!request(Command::Info, Arg::Scratch(8), framed(b"a\0")).is_well_formed());
    assert!(!request(Command::Info, framed(b"a\0"), Arg::Zero).is_well_formed());
    assert!(!request(Command::Control, framed(b"a\0"), Arg::Zero).is_well_formed());
    assert!(!request(Command::Version, Arg::Zero, Arg::Zero).is_well_formed());
}
