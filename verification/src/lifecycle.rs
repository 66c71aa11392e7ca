//! The operations that take several steps: the directory guardian, the unload
//! with its file, the quarantine sweep, the bulk load and the startup.

use vstd::prelude::*;
use vstd::string::*;
use vstd::utf8::*;

use crate::codec::has_nul;
use crate::error::KpmError;
use crate::flow::{
    fresh, resume_model, unloading, Effect, EffectView, Flow, FlowView, Outcome, OutputView,
    Stage, Step, StepView, Task,
};
use crate::gateway::Reply;
use crate::modfile::{backing_index, backing_index_is_first, backs, byte_views};
use crate::protocol::{
    not_loaded, unload_call, unload_request, version_call, version_request,
};

verus! {

/// Puts the module directory in order: it is created if missing, and its
/// permissions are rewritten unless they already allow everything to
/// everyone. Safe to run again at any time.
pub fn ensure_kpm_dir() -> (step: Step)
    ensures
        step@ == StepView::Perform(fresh(Task::Ensure, Stage::Creating), EffectView::CreateDir),
{
    Step::Perform(Flow::begin(Task::Ensure, Stage::Creating), Effect::CreateDir)
}

/// Unloads the module `name` and deletes its file. The kernel is asked
/// first, whether or not the module has a file; only a name that cannot be
/// sent ends the operation before the call.
///
/// The unload is idempotent. Where the kernel answers "not found"
/// (`NOT_FOUND`), it holds no such module, as after an earlier unload or
/// where the reactor answers the removal of a file whose module is gone
/// already: the operation ends in success at once, and no file is looked for
/// or deleted. Every other negative answer ends it with the kernel's error.
/// Where the kernel unloaded the module, its file is looked for and deleted;
/// that there is none, or that it cannot be deleted, is no failure.
pub fn unload_kpm(name: &str) -> (step: Step)
    ensures
        has_nul(encode_utf8(name@)) ==> step@ == StepView::Finish(Err(KpmError::Encoding)),
        !has_nul(encode_utf8(name@)) ==> step@ == StepView::Perform(
            unloading(encode_utf8(name@)),
            EffectView::Invoke(unload_request(encode_utf8(name@))),
        ),
{
    let bytes = name.as_bytes();
    match unload_call(bytes) {
        Err(error) => Step::Finish(Err(error)),
        Ok(request) => Step::Perform(Flow::begin_unload(bytes), Effect::Invoke(request)),
    }
}

/// The quarantine sweep: every module that has a file in the module
/// directory is unloaded and its file deleted. Each module is unloaded as by
/// `unload_kpm`, but no failure ends the sweep. A module that the kernel
/// does not hold ("not found") counts as done, and its file is left alone.
pub fn remove_all_kpms() -> (step: Step)
    ensures
        step@ == StepView::Perform(fresh(Task::Sweep, Stage::Listing), EffectView::ListDir),
{
    Step::Perform(Flow::begin(Task::Sweep, Stage::Listing), Effect::ListDir)
}

/// The bulk load at boot: once the version check has passed and the
/// directory is in order, every module file is loaded.
pub fn load_kpm_modules() -> (step: Step)
    ensures
        step@ == StepView::Perform(
            fresh(Task::BulkLoad, Stage::Version),
            EffectView::Invoke(version_request()),
        ),
{
    Step::Perform(Flow::begin(Task::BulkLoad, Stage::Version), Effect::Invoke(version_call()))
}

/// The startup: once the version check has passed and the directory is in
/// order, a host in safe mode has its modules swept away, any other gets the
/// watch on the module directory.
pub fn start_kpm_watcher() -> (step: Step)
    ensures
        step@ == StepView::Perform(
            fresh(Task::Startup, Stage::Version),
            EffectView::Invoke(version_request()),
        ),
{
    Step::Perform(Flow::begin(Task::Startup, Stage::Version), Effect::Invoke(version_call()))
}

/// No entry of the directory is the file of the module `name`.
pub open spec fn has_no_file(name: Seq<u8>, listing: Outcome) -> bool {
    match listing {
        Outcome::Absent => true,
        Outcome::Entries(entries) => forall|i: int|
            0 <= i < entries@.len() ==> !backs(name, #[trigger] entries@[i]@),
        _ => false,
    }
}

/// An unload that the kernel accepted ends well where the module has no file:
/// the directory is looked at, nothing is deleted, and nothing fails.
pub proof fn unload_without_file(name: Seq<u8>, reply: Reply, listing: Outcome)
    requires
        reply.rc >= 0,
        has_no_file(name, listing),
    ensures
        resume_model(unloading(name), Outcome::Reply(reply)) == StepView::Perform(
            FlowView { stage: Stage::Locating, ..unloading(name) },
            EffectView::ListDir,
        ),
        resume_model(FlowView { stage: Stage::Locating, ..unloading(name) }, listing)
            == StepView::Finish(Ok(OutputView::Done)),
{
    if let Outcome::Entries(entries) = listing {
        let all = byte_views(entries@);
        backing_index_is_first(name, all, 0);
        if let Some(at) = backing_index(name, all, 0) {
            assert(backs(name, entries@[at]@));
        }
    }
}

/// An unload of a module that the kernel does not hold ends in success, at
/// once: nothing is looked for and nothing deleted.
pub proof fn unload_of_absent_module(name: Seq<u8>, reply: Reply)
    requires
        not_loaded(reply.rc),
    ensures
        resume_model(unloading(name), Outcome::Reply(reply)) == StepView::Finish(
            Ok(OutputView::Done),
        ),
{
}

/// An unload that the kernel refuses for any other reason ends with the
/// kernel's error, and touches no file.
pub proof fn unload_refused(name: Seq<u8>, reply: Reply)
    requires
        reply.rc < 0,
        !not_loaded(reply.rc),
    ensures
        resume_model(unloading(name), Outcome::Reply(reply)) == StepView::Finish(
            Err(KpmError::Kernel { errno: (-reply.rc) as u32 }),
        ),
{
}

} // verus!
