//! The control-call gateway: the shape of one privileged call and the reading
//! of its signed result.

use vstd::prelude::*;

use crate::codec::{ends_in_only_nul, is_c_string};
use crate::error::KpmError;

verus! {

/// The option value that marks a control call as addressed to this subsystem.
pub const KSU_OPTIONS: u32 = 0xdeadbeef;

/// The value the result slot holds before the call: the kernel overwrites it,
/// so a call that nobody answered reads as a failure.
pub const UNANSWERED: i32 = -1;

/// The seven commands of the module protocol.
#[derive(Clone, Copy, Debug, PartialEq, Eq, Structural)]
pub enum Command {
    Load,
    Unload,
    Num,
    List,
    Info,
    Control,
    Version,
}

impl Command {
    /// The command's number on the wire.
    pub open spec fn wire_code(self) -> i32 {
        match self {
            Command::Load => 28i32,
            Command::Unload => 29i32,
            Command::Num => 30i32,
            Command::List => 31i32,
            Command::Info => 32i32,
            Command::Control => 33i32,
            Command::Version => 34i32,
        }
    }

    /// The command's number on the wire.
    #[verifier::when_used_as_spec(wire_code)]
    pub fn code(self) -> (c: i32)
        ensures
            c == self.wire_code(),
    {
        match self {
            Command::Load => 28,
            Command::Unload => 29,
            Command::Num => 30,
            Command::List => 31,
            Command::Info => 32,
            Command::Control => 33,
            Command::Version => 34,
        }
    }
}

/// One of the two command-specific arguments of a control call.
#[derive(Debug, PartialEq, Eq)]
pub enum Arg {
    /// Null, or the integer zero.
    Zero,
    /// The address of these bytes, which end in the only NUL they hold.
    Text(Vec<u8>),
    /// The address of a zeroed buffer of this many bytes, for the kernel to
    /// fill.
    Scratch(usize),
    /// A plain length.
    Length(usize),
}

/// What an `Arg` is, with its bytes as a sequence.
pub enum ArgView {
    Zero,
    Text(Seq<u8>),
    Scratch(usize),
    Length(usize),
}

impl ArgView {
    /// A text argument is a NUL-terminated string, and a buffer has room.
    pub open spec fn wf(self) -> bool {
        match self {
            ArgView::Text(bytes) => is_c_string(bytes),
            ArgView::Scratch(capacity) => capacity > 0,
            _ => true,
        }
    }
}

impl View for Arg {
    type V = ArgView;

    open spec fn view(&self) -> ArgView {
        match *self {
            Arg::Zero => ArgView::Zero,
            Arg::Text(bytes) => ArgView::Text(bytes@),
            Arg::Scratch(capacity) => ArgView::Scratch(capacity),
            Arg::Length(length) => ArgView::Length(length),
        }
    }
}

/// One control call: a command and its two arguments.
#[derive(Debug, PartialEq, Eq)]
pub struct Request {
    pub command: Command,
    pub arg1: Arg,
    pub arg2: Arg,
}

pub struct RequestView {
    pub command: Command,
    pub arg1: ArgView,
    pub arg2: ArgView,
}

impl RequestView {
    /// The arguments are what the command takes: text where it takes a
    /// string, a buffer where it answers with text, and beside a buffer in
    /// first place its length.
    pub open spec fn wf(self) -> bool {
        &&& self.arg1.wf()
        &&& self.arg2.wf()
        &&& match self.command {
            Command::Load => self.arg1 is Text && (self.arg2 is Text || self.arg2 is Zero),
            Command::Unload => self.arg1 is Text && self.arg2 is Zero,
            Command::Num => self.arg1 is Zero && self.arg2 is Zero,
            Command::List | Command::Version => self.arg1 matches ArgView::Scratch(capacity)
                && self.arg2 == ArgView::Length(capacity),
            Command::Info => self.arg1 is Text && self.arg2 is Scratch,
            Command::Control => self.arg1 is Text && self.arg2 is Text,
        }
    }
}

impl View for Request {
    type V = RequestView;

    open spec fn view(&self) -> RequestView {
        RequestView { command: self.command, arg1: self.arg1@, arg2: self.arg2@ }
    }
}

impl Arg {
    /// Whether the argument can be handed to the kernel as it is.
    pub fn is_well_formed(&self) -> (r: bool)
        ensures
            r == self@.wf(),
    {
        match self {
            Arg::Text(bytes) => ends_in_only_nul(bytes.as_slice()),
            Arg::Scratch(capacity) => *capacity > 0,
            _ => true,
        }
    }
}

impl Request {
    /// Whether the call can be made as it is: every address in it leads to
    /// what the kernel expects to find there.
    pub fn is_well_formed(&self) -> (r: bool)
        ensures
            r == self@.wf(),
    {
        if !self.arg1.is_well_formed() || !self.arg2.is_well_formed() {
            return false;
        }
        match self.command {
            Command::Load => match (&self.arg1, &self.arg2) {
                (Arg::Text(_), Arg::Text(_)) => true,
                (Arg::Text(_), Arg::Zero) => true,
                _ => false,
            },
            Command::Unload => match (&self.arg1, &self.arg2) {
                (Arg::Text(_), Arg::Zero) => true,
                _ => false,
            },
            Command::Num => match (&self.arg1, &self.arg2) {
                (Arg::Zero, Arg::Zero) => true,
                _ => false,
            },
            Command::List | Command::Version => match (&self.arg1, &self.arg2) {
                (Arg::Scratch(capacity), Arg::Length(length)) => *capacity == *length,
                _ => false,
            },
            Command::Info => match (&self.arg1, &self.arg2) {
                (Arg::Text(_), Arg::Scratch(_)) => true,
                _ => false,
            },
            Command::Control => match (&self.arg1, &self.arg2) {
                (Arg::Text(_), Arg::Text(_)) => true,
                _ => false,
            },
        }
    }
}

/// What came back from one control call: the kernel's signed result, and the
/// scratch buffer as the kernel left it (empty where the request had none).
#[derive(Debug, PartialEq, Eq)]
pub struct Reply {
    pub rc: i32,
    pub buffer: Vec<u8>,
}

/// What `check_out` makes of a result: a negative one is a failure that
/// carries its negation, any other is handed on as it is.
pub open spec fn checked(rc: i32) -> Result<i32, KpmError> {
    if rc < 0 {
        Err(KpmError::Kernel { errno: (-rc) as u32 })
    } else {
        Ok(rc)
    }
}

/// Turns the kernel's signed result into success or a platform error code.
/// No code is swallowed or mapped to another.
pub fn check_out(rc: i32) -> (r: Result<i32, KpmError>)
    ensures
        r == checked(rc),
        rc < 0 ==> r == Err::<i32, KpmError>(KpmError::Kernel { errno: (-rc) as u32 }),
        rc >= 0 ==> r == Ok::<i32, KpmError>(rc),
{
    if rc < 0 {
        let wide: i64 = rc as i64;
        let errno: u32 = (-wide) as u32;
        Err(KpmError::Kernel { errno })
    } else {
        Ok(rc)
    }
}

/// No two commands share a number.
pub proof fn codes_tell_commands_apart(a: Command, b: Command)
    ensures
        a.wire_code() == b.wire_code() ==> a == b,
{
}

/// The reading of a result loses nothing: different results are read
/// differently, so no error code stands for two.
pub proof fn results_are_kept_apart(a: i32, b: i32)
    ensures
        checked(a) == checked(b) ==> a == b,
{
}

} // verus!
