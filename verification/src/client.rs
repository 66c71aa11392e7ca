//! The operations of the protocol client that take one control call each.

use vstd::prelude::*;
use vstd::string::*;
use vstd::utf8::*;

use crate::codec::{has_nul, utf8_text};
use crate::error::KpmError;
use crate::flow::{single, Effect, Flow, Stage, Step, StepView, Task};
use crate::protocol::{
    control_call, control_request, info_call, info_request, list_call, list_request, load_call,
    load_request, num_call, num_request, optional_nul, unload_call, unload_request, version_call,
    version_request,
};

verus! {

/// The bytes of an optional text.
pub open spec fn optional_bytes(text: Option<&str>) -> Option<Seq<u8>> {
    match text {
        Some(t) => Some(encode_utf8(t@)),
        None => None,
    }
}

/// The step that begins an operation of one call, or ends it where the call
/// could not be built.
fn begin(task: Task, built: Result<crate::gateway::Request, KpmError>) -> (step: Step)
    requires
        task is Status || task is KernelUnload || task is Number || task is Text || task is Check,
    ensures
        step@ == match built {
            Ok(request) => single(task, request@),
            Err(error) => StepView::Finish(Err(error)),
        },
{
    match built {
        Ok(request) => Step::Perform(Flow::begin(task, Stage::Answer), Effect::Invoke(request)),
        Err(error) => Step::Finish(Err(error)),
    }
}

/// Loads a module file into the kernel, with `args` for the module if there
/// are any. Path and arguments go to the kernel as NUL-terminated strings: a
/// NUL in either ends the operation before any call. The load fails if the
/// kernel answers with a negative result. Nothing is deleted.
pub fn kpm_load(path: &str, args: Option<&str>) -> (step: Step)
    ensures
        has_nul(encode_utf8(path@)) || optional_nul(optional_bytes(args)) ==> step@
            == StepView::Finish(Err(KpmError::Encoding)),
        !has_nul(encode_utf8(path@)) && !optional_nul(optional_bytes(args)) ==> step@ == single(
            Task::Status,
            load_request(encode_utf8(path@), optional_bytes(args)),
        ),
{
    let built = match args {
        Some(text) => load_call(path.as_bytes(), Some(text.as_bytes())),
        None => load_call(path.as_bytes(), None),
    };
    begin(Task::Status, built)
}

/// Unloads the module `name` in the kernel, and does no more: the module's
/// file stays where it is. The unload is idempotent: where the kernel answers
/// "not found" there is no such module left to unload, and the operation
/// ends in success. Any other negative result is the kernel's error.
pub fn kpm_unload(name: &str) -> (step: Step)
    ensures
        has_nul(encode_utf8(name@)) ==> step@ == StepView::Finish(Err(KpmError::Encoding)),
        !has_nul(encode_utf8(name@)) ==> step@ == single(
            Task::KernelUnload,
            unload_request(encode_utf8(name@)),
        ),
{
    begin(Task::KernelUnload, unload_call(name.as_bytes()))
}

/// Asks the kernel how many modules are loaded. The count is the kernel's
/// result where that is not negative.
pub fn kpm_num() -> (step: Step)
    ensures
        step@ == single(Task::Number, num_request()),
{
    begin(Task::Number, Ok(num_call()))
}

/// Asks the kernel for the names of the loaded modules. A listing longer
/// than the buffer comes back cut short.
pub fn kpm_list() -> (step: Step)
    ensures
        step@ == single(Task::Text, list_request()),
{
    begin(Task::Text, Ok(list_call()))
}

/// Asks the kernel for the description of the module `name`.
pub fn kpm_info(name: &str) -> (step: Step)
    ensures
        has_nul(encode_utf8(name@)) ==> step@ == StepView::Finish(Err(KpmError::Encoding)),
        !has_nul(encode_utf8(name@)) ==> step@ == single(
            Task::Text,
            info_request(encode_utf8(name@)),
        ),
{
    begin(Task::Text, info_call(name.as_bytes()))
}

/// Sends a control message to the module `name`. The answer is the kernel's
/// result where that is not negative, and means what the module says it
/// means.
pub fn kpm_control(name: &str, args: &str) -> (step: Step)
    ensures
        has_nul(encode_utf8(name@)) || has_nul(encode_utf8(args@)) ==> step@
            == StepView::Finish(Err(KpmError::Encoding)),
        !has_nul(encode_utf8(name@)) && !has_nul(encode_utf8(args@)) ==> step@ == single(
            Task::Number,
            control_request(encode_utf8(name@), encode_utf8(args@)),
        ),
{
    begin(Task::Number, control_call(name.as_bytes(), args.as_bytes()))
}

/// Asks the kernel for the version token, to show it as it is.
pub fn kpm_version_loader() -> (step: Step)
    ensures
        step@ == single(Task::Text, version_request()),
{
    begin(Task::Text, Ok(version_call()))
}

/// Asks the kernel for the version token and judges it: an empty token, or
/// one that begins with `Error`, fails the check; any other is handed back
/// as it came.
pub fn check_kpm_version() -> (step: Step)
    ensures
        step@ == single(Task::Check, version_request()),
{
    begin(Task::Check, Ok(version_call()))
}

/// Loads the module file at `path`, without arguments. The path must be
/// text, and is handed to the kernel as its UTF-8 bytes.
pub fn load_kpm(path: &[u8]) -> (step: Step)
    ensures
        !valid_utf8(path@) ==> step@ == StepView::Finish(Err(KpmError::BadPath)),
        valid_utf8(path@) && has_nul(path@) ==> step@ == StepView::Finish(
            Err(KpmError::Encoding),
        ),
        valid_utf8(path@) && !has_nul(path@) ==> step@ == single(
            Task::Status,
            load_request(path@, None),
        ),
{
    if utf8_text(path).is_none() {
        return Step::Finish(Err(KpmError::BadPath));
    }
    begin(Task::Status, load_call(path, None))
}

} // verus!
