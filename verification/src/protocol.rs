//! The module protocol: the calls that the kernel understands, and the
//! reading of its replies.

use vstd::prelude::*;
use vstd::string::*;

use crate::codec::{
    buf2str, c_string, encode_bytes, framed_is_c_string, has_nul, text_of, until_nul,
};
use crate::error::KpmError;
use crate::gateway::{check_out, Arg, ArgView, Command, Reply, Request, RequestView};

verus! {

/// The size of the buffer that the kernel fills with the list of modules.
pub const LIST_CAPACITY: usize = 1024;

/// The size of the buffer that the kernel fills with one module's
/// description.
pub const INFO_CAPACITY: usize = 256;

/// The size of the buffer that the kernel fills with the version token.
pub const VERSION_CAPACITY: usize = 4096;

/// The platform's code for "no such file or directory" (ENOENT). The kernel
/// answers an unload with its negation where it holds no module of the name.
pub const NOT_FOUND: u32 = 2;

/// The call that loads the module file at `path`, with `args` for the module
/// if there are any.
pub open spec fn load_request(path: Seq<u8>, args: Option<Seq<u8>>) -> RequestView {
    RequestView {
        command: Command::Load,
        arg1: ArgView::Text(c_string(path)),
        arg2: match args {
            Some(bytes) => ArgView::Text(c_string(bytes)),
            None => ArgView::Zero,
        },
    }
}

/// The call that unloads the module `name`.
pub open spec fn unload_request(name: Seq<u8>) -> RequestView {
    RequestView {
        command: Command::Unload,
        arg1: ArgView::Text(c_string(name)),
        arg2: ArgView::Zero,
    }
}

/// The call that asks how many modules are loaded.
pub open spec fn num_request() -> RequestView {
    RequestView { command: Command::Num, arg1: ArgView::Zero, arg2: ArgView::Zero }
}

/// The call that asks for the names of the loaded modules.
pub open spec fn list_request() -> RequestView {
    RequestView {
        command: Command::List,
        arg1: ArgView::Scratch(LIST_CAPACITY),
        arg2: ArgView::Length(LIST_CAPACITY),
    }
}

/// The call that asks for the description of the module `name`.
pub open spec fn info_request(name: Seq<u8>) -> RequestView {
    RequestView {
        command: Command::Info,
        arg1: ArgView::Text(c_string(name)),
        arg2: ArgView::Scratch(INFO_CAPACITY),
    }
}

/// The call that sends `message` to the module `name`.
pub open spec fn control_request(name: Seq<u8>, message: Seq<u8>) -> RequestView {
    RequestView {
        command: Command::Control,
        arg1: ArgView::Text(c_string(name)),
        arg2: ArgView::Text(c_string(message)),
    }
}

/// The call that asks for the version token.
pub open spec fn version_request() -> RequestView {
    RequestView {
        command: Command::Version,
        arg1: ArgView::Scratch(VERSION_CAPACITY),
        arg2: ArgView::Length(VERSION_CAPACITY),
    }
}

/// Whether an optional byte string holds a NUL.
pub open spec fn optional_nul(bytes: Option<Seq<u8>>) -> bool {
    bytes matches Some(b) && has_nul(b)
}

/// An optional byte string as a sequence.
pub open spec fn optional_view(bytes: Option<&[u8]>) -> Option<Seq<u8>> {
    match bytes {
        Some(b) => Some(b@),
        None => None,
    }
}

/// Whether the kernel answered an unload with "not found": it holds no module
/// of the name.
pub open spec fn not_loaded(rc: i32) -> bool {
    rc == -(NOT_FOUND as int)
}

/// What the kernel's answer to an unload comes to. An unload is idempotent:
/// where the kernel holds no module of the name there is nothing left to
/// unload, and that is success, not a failure. So the answer is `Ok(true)`
/// where the kernel unloaded the module, `Ok(false)` where it answered "not
/// found", and the kernel's error for every other negative result.
pub open spec fn unload_outcome(rc: i32) -> Result<bool, KpmError> {
    if not_loaded(rc) {
        Ok(false)
    } else if rc < 0 {
        Err(KpmError::Kernel { errno: (-rc) as u32 })
    } else {
        Ok(true)
    }
}

/// The marker that opens a version token which reports a failure.
pub open spec fn error_marker() -> Seq<char> {
    seq!['E', 'r', 'r', 'o', 'r']
}

/// A version token is valid if it is not empty and does not begin with the
/// error marker.
pub open spec fn version_valid(token: Seq<char>) -> bool {
    token.len() > 0 && !error_marker().is_prefix_of(token)
}

/// The text that the kernel left in the scratch buffer.
pub open spec fn reply_text(reply: Reply) -> Seq<char> {
    text_of(until_nul(reply.buffer@))
}

/// Why the reply to a version call forbids any further use of the protocol,
/// or `None` if it allows it.
pub open spec fn version_refusal(reply: Reply) -> Option<KpmError> {
    if reply.rc < 0 {
        Some(KpmError::Kernel { errno: (-reply.rc) as u32 })
    } else if !version_valid(reply_text(reply)) {
        Some(KpmError::InvalidVersion)
    } else {
        None
    }
}

/// Builds the call that loads a module file. Path and arguments go to the
/// kernel as NUL-terminated strings, so neither may hold a NUL.
pub fn load_call(path: &[u8], args: Option<&[u8]>) -> (r: Result<Request, KpmError>)
    ensures
        has_nul(path@) || optional_nul(optional_view(args)) ==> r == Err::<Request, KpmError>(
            KpmError::Encoding,
        ),
        !has_nul(path@) && !optional_nul(optional_view(args)) ==> (r matches Ok(request)
            && request@ == load_request(path@, optional_view(args))),
{
    let arg1 = match encode_bytes(path) {
        Ok(bytes) => Arg::Text(bytes),
        Err(e) => {
            return Err(e);
        },
    };
    let arg2 = match args {
        None => Arg::Zero,
        Some(text) => match encode_bytes(text) {
            Ok(bytes) => Arg::Text(bytes),
            Err(e) => {
                return Err(e);
            },
        },
    };
    Ok(Request { command: Command::Load, arg1, arg2 })
}

/// Builds the call that unloads the module `name`.
pub fn unload_call(name: &[u8]) -> (r: Result<Request, KpmError>)
    ensures
        has_nul(name@) ==> r == Err::<Request, KpmError>(KpmError::Encoding),
        !has_nul(name@) ==> (r matches Ok(request) && request@ == unload_request(name@)),
{
    match encode_bytes(name) {
        Ok(bytes) => Ok(Request { command: Command::Unload, arg1: Arg::Text(bytes), arg2: Arg::Zero }),
        Err(e) => Err(e),
    }
}

/// Builds the call that asks how many modules are loaded.
pub fn num_call() -> (r: Request)
    ensures
        r@ == num_request(),
{
    Request { command: Command::Num, arg1: Arg::Zero, arg2: Arg::Zero }
}

/// Builds the call that asks for the names of the loaded modules.
pub fn list_call() -> (r: Request)
    ensures
        r@ == list_request(),
{
    Request {
        command: Command::List,
        arg1: Arg::Scratch(LIST_CAPACITY),
        arg2: Arg::Length(LIST_CAPACITY),
    }
}

/// Builds the call that asks for the description of the module `name`.
pub fn info_call(name: &[u8]) -> (r: Result<Request, KpmError>)
    ensures
        has_nul(name@) ==> r == Err::<Request, KpmError>(KpmError::Encoding),
        !has_nul(name@) ==> (r matches Ok(request) && request@ == info_request(name@)),
{
    match encode_bytes(name) {
        Ok(bytes) => Ok(
            Request {
                command: Command::Info,
                arg1: Arg::Text(bytes),
                arg2: Arg::Scratch(INFO_CAPACITY),
            },
        ),
        Err(e) => Err(e),
    }
}

/// Builds the call that sends a control message to the module `name`.
pub fn control_call(name: &[u8], message: &[u8]) -> (r: Result<Request, KpmError>)
    ensures
        has_nul(name@) || has_nul(message@) ==> r == Err::<Request, KpmError>(
            KpmError::Encoding,
        ),
        !has_nul(name@) && !has_nul(message@) ==> (r matches Ok(request) && request@
            == control_request(name@, message@)),
{
    let arg1 = match encode_bytes(name) {
        Ok(bytes) => Arg::Text(bytes),
        Err(e) => {
            return Err(e);
        },
    };
    let arg2 = match encode_bytes(message) {
        Ok(bytes) => Arg::Text(bytes),
        Err(e) => {
            return Err(e);
        },
    };
    Ok(Request { command: Command::Control, arg1, arg2 })
}

/// Builds the call that asks for the version token.
pub fn version_call() -> (r: Request)
    ensures
        r@ == version_request(),
{
    Request {
        command: Command::Version,
        arg1: Arg::Scratch(VERSION_CAPACITY),
        arg2: Arg::Length(VERSION_CAPACITY),
    }
}

/// Reads the kernel's answer to an unload. "Not found" is success with
/// nothing done: `Ok(false)`. Any other negative result is the kernel's
/// error, and any other result means that the module was unloaded:
/// `Ok(true)`.
pub fn read_unload(rc: i32) -> (r: Result<bool, KpmError>)
    ensures
        r == unload_outcome(rc),
        not_loaded(rc) ==> r == Ok::<bool, KpmError>(false),
        rc < 0 && !not_loaded(rc) ==> r == Err::<bool, KpmError>(
            KpmError::Kernel { errno: (-rc) as u32 },
        ),
        rc >= 0 ==> r == Ok::<bool, KpmError>(true),
{
    let not_found: i32 = -(NOT_FOUND as i32);
    if rc == not_found {
        return Ok(false);
    }
    match check_out(rc) {
        Err(error) => Err(error),
        Ok(_) => Ok(true),
    }
}

/// Reads the reply to a call that fills the scratch buffer with text: the
/// kernel's error if the result is negative, else the text up to the first
/// NUL.
pub fn text_reply(reply: &Reply) -> (r: Result<String, KpmError>)
    ensures
        reply.rc < 0 ==> r == Err::<String, KpmError>(
            KpmError::Kernel { errno: (-reply.rc) as u32 },
        ),
        reply.rc >= 0 ==> (r matches Ok(text) && text@ == reply_text(*reply)),
{
    match check_out(reply.rc) {
        Err(e) => Err(e),
        Ok(_) => Ok(buf2str(reply.buffer.as_slice())),
    }
}

/// Judges a version token: an empty one, or one that begins with `Error`, is
/// refused; any other is handed back as it came.
pub fn validate_version(token: String) -> (r: Result<String, KpmError>)
    ensures
        version_valid(token@) ==> r == Ok::<String, KpmError>(token),
        !version_valid(token@) ==> r == Err::<String, KpmError>(KpmError::InvalidVersion),
{
    let text = token.as_str();
    let n = text.unicode_len();
    if n == 0 {
        return Err(KpmError::InvalidVersion);
    }
    if n >= 5 && text.get_char(0) == 'E' && text.get_char(1) == 'r' && text.get_char(2) == 'r'
        && text.get_char(3) == 'o' && text.get_char(4) == 'r' {
        assert(error_marker() =~= token@.subrange(0, 5));
        return Err(KpmError::InvalidVersion);
    }
    proof {
        if error_marker().is_prefix_of(token@) {
            let head = token@.subrange(0, 5);
            assert(error_marker() =~= head);
            assert(head[0] == 'E' && head[1] == 'r' && head[2] == 'r' && head[3] == 'o'
                && head[4] == 'r');
        }
    }
    Ok(token)
}

/// Reads the reply to the version call and judges the token. Every further
/// use of the protocol waits on this check: after a negative result or an
/// invalid token there is none.
pub fn read_version(reply: &Reply) -> (r: Result<String, KpmError>)
    ensures
        version_refusal(*reply) matches Some(e) ==> r == Err::<String, KpmError>(e),
        version_refusal(*reply) is None ==> (r matches Ok(token) && token@ == reply_text(*reply)),
{
    match text_reply(reply) {
        Err(e) => Err(e),
        Ok(token) => validate_version(token),
    }
}

/// Every call of the protocol is well-formed, whatever text without a NUL it
/// carries.
pub proof fn calls_are_well_formed(
    name: Seq<u8>,
    message: Seq<u8>,
    path: Seq<u8>,
    args: Option<Seq<u8>>,
)
    requires
        !has_nul(name),
        !has_nul(message),
        !has_nul(path),
        !optional_nul(args),
    ensures
        load_request(path, args).wf(),
        unload_request(name).wf(),
        num_request().wf(),
        list_request().wf(),
        info_request(name).wf(),
        control_request(name, message).wf(),
        version_request().wf(),
{
    framed_is_c_string(name);
    framed_is_c_string(message);
    framed_is_c_string(path);
    if let Some(bytes) = args {
        framed_is_c_string(bytes);
    }
}

} // verus!
