//! Operations as flows. An operation never touches the outside itself: it
//! asks the driver for one effect at a time and decides, on the driver's
//! report, what comes next.

use vstd::prelude::*;
use vstd::slice::*;

use crate::codec::has_nul;
use crate::error::KpmError;
use crate::gateway::{check_out, Reply, Request, RequestView};
use crate::guardian::{mode_fix, required_mode_change};
use crate::modfile::{backing_index, byte_views, find_kpm_file};
use crate::plan::{
    load_plan, load_rejects, loadable, plan_bulk_load, plan_sweep, plans_are_sendable,
    sweep_plan, sweep_rejects,
};
use crate::protocol::{
    load_call, load_request, read_unload, read_version, reply_text, text_reply, unload_call,
    unload_outcome, unload_request, version_refusal,
};

verus! {

/// One thing the driver is asked to do for a flow.
#[derive(Debug, PartialEq, Eq)]
pub enum Effect {
    /// Make this control call. Answered by `Outcome::Reply`.
    Invoke(Request),
    /// Create the module directory and its parents if they are missing.
    /// Answered by `Done` or `Failed`.
    CreateDir,
    /// Read the mode of the module directory. Answered by `Mode` or `Failed`.
    ReadMode,
    /// Set the permissions of the module directory. Answered by `Done` or
    /// `Failed`.
    SetMode(u32),
    /// Enumerate the module directory. Answered by `Entries` with the full
    /// path of each entry, by `Absent` if there is no such directory, or by
    /// `Failed`.
    ListDir,
    /// Delete the file at this path. Answered by `Done` or `Failed`.
    RemoveFile(Vec<u8>),
    /// Ask whether the host runs in safe mode. Answered by `Flag`.
    QuerySafeMode,
    /// Watch the module directory, without its subdirectories, and hand its
    /// events to the reactor. Answered by `Done` or `Failed`.
    Watch,
}

pub enum EffectView {
    Invoke(RequestView),
    CreateDir,
    ReadMode,
    SetMode(u32),
    ListDir,
    RemoveFile(Seq<u8>),
    QuerySafeMode,
    Watch,
}

impl View for Effect {
    type V = EffectView;

    open spec fn view(&self) -> EffectView {
        match *self {
            Effect::Invoke(request) => EffectView::Invoke(request@),
            Effect::CreateDir => EffectView::CreateDir,
            Effect::ReadMode => EffectView::ReadMode,
            Effect::SetMode(mode) => EffectView::SetMode(mode),
            Effect::ListDir => EffectView::ListDir,
            Effect::RemoveFile(path) => EffectView::RemoveFile(path@),
            Effect::QuerySafeMode => EffectView::QuerySafeMode,
            Effect::Watch => EffectView::Watch,
        }
    }
}

/// What the driver reports after it has carried out an effect.
#[derive(Debug, PartialEq, Eq)]
pub enum Outcome {
    Reply(Reply),
    Mode(u32),
    Entries(Vec<Vec<u8>>),
    Absent,
    Flag(bool),
    Done,
    Failed,
}

/// What an operation has achieved when it ends well.
#[derive(Debug, PartialEq, Eq)]
pub enum Output {
    /// The call was accepted, the directory is in order, or the module is
    /// out of the kernel: unloaded, or not loaded to begin with.
    Done,
    /// The number that the kernel answered with.
    Number(i32),
    /// The text that the kernel left in the buffer.
    Text(String),
    /// A bulk load ran to its end: so many loads succeeded, so many failed.
    Loaded { ok: usize, failed: usize },
    /// A quarantine sweep ran to its end: so many modules are out of the
    /// kernel (unloaded, or not loaded to begin with), so many could not be
    /// unloaded.
    Swept { unloaded: usize, failed: usize },
    /// The version check failed, for this reason: nothing was touched, and
    /// module functionality is off.
    Disabled(KpmError),
    /// The watch is registered: the reactor is active.
    Watching,
}

pub enum OutputView {
    Done,
    Number(i32),
    Text(Seq<char>),
    Loaded { ok: usize, failed: usize },
    Swept { unloaded: usize, failed: usize },
    Disabled(KpmError),
    Watching,
}

impl View for Output {
    type V = OutputView;

    open spec fn view(&self) -> OutputView {
        match *self {
            Output::Done => OutputView::Done,
            Output::Number(number) => OutputView::Number(number),
            Output::Text(text) => OutputView::Text(text@),
            Output::Loaded { ok, failed } => OutputView::Loaded { ok, failed },
            Output::Swept { unloaded, failed } => OutputView::Swept { unloaded, failed },
            Output::Disabled(reason) => OutputView::Disabled(reason),
            Output::Watching => OutputView::Watching,
        }
    }
}

/// The kinds of operation.
#[derive(Clone, Copy, Debug, PartialEq, Eq, Structural)]
pub enum Task {
    /// One call that is accepted or not: a load.
    Status,
    /// One call that unloads a module in the kernel and leaves its file
    /// alone.
    KernelUnload,
    /// One call that is answered with a number: the count of loaded modules,
    /// a module's reply to a control message.
    Number,
    /// One call that is answered with text in the buffer: the list of
    /// modules, a module's description, the version.
    Text,
    /// The version call, with the token judged.
    Check,
    /// Put the module directory in order.
    Ensure,
    /// Unload one module and delete its file.
    Unload,
    /// Unload every module that has a file, and delete the files.
    Sweep,
    /// Load every module file.
    BulkLoad,
    /// Start up: quarantine in safe mode, watch otherwise.
    Startup,
}

/// What a flow is waiting for.
#[derive(Clone, Copy, Debug, PartialEq, Eq, Structural)]
pub enum Stage {
    /// The reply to the one call of the operation.
    Answer,
    /// The reply to the version call that comes before everything else.
    Version,
    /// The creation of the module directory.
    Creating,
    /// The mode of the module directory.
    Reading,
    /// The rewriting of the directory's permissions.
    Setting,
    /// The answer on safe mode.
    SafeMode,
    /// The registration of the watch.
    Watching,
    /// The entries from which the work list is made.
    Listing,
    /// The kernel's reply on the current item.
    Calling,
    /// The entries among which the current module's file is sought.
    Locating,
    /// The deletion of the current module's file.
    Removing,
}

/// An operation under way: what it is, what it waits for, and its work list
/// with the tally so far.
#[derive(Debug, PartialEq, Eq)]
pub struct Flow {
    task: Task,
    stage: Stage,
    queue: Vec<Vec<u8>>,
    next: usize,
    ok: usize,
    failed: usize,
}

pub struct FlowView {
    pub task: Task,
    pub stage: Stage,
    /// The paths to load, or the identities to unload.
    pub queue: Seq<Seq<u8>>,
    /// The index of the current item.
    pub next: nat,
    pub ok: nat,
    pub failed: nat,
}

/// The next thing to happen in an operation: an effect for the driver, with
/// the flow to resume once it is carried out, or the end.
#[derive(Debug, PartialEq, Eq)]
pub enum Step {
    Perform(Flow, Effect),
    Finish(Result<Output, KpmError>),
}

pub enum StepView {
    Perform(FlowView, EffectView),
    Finish(Result<OutputView, KpmError>),
}

impl View for Step {
    type V = StepView;

    open spec fn view(&self) -> StepView {
        match *self {
            Step::Perform(flow, effect) => StepView::Perform(flow@, effect@),
            Step::Finish(result) => StepView::Finish(
                match result {
                    Ok(output) => Ok(output@),
                    Err(error) => Err(error),
                },
            ),
        }
    }
}

/// The tasks that work through a list.
pub open spec fn lists(task: Task) -> bool {
    task is Sweep || task is BulkLoad || task is Startup
}

/// The stages in which a flow is at work on an item of its list.
pub open spec fn at_work(stage: Stage) -> bool {
    stage is Calling || stage is Locating || stage is Removing
}

/// The flow of `task` as it begins to wait at `stage`, with nothing on its
/// list.
pub open spec fn fresh(task: Task, stage: Stage) -> FlowView {
    FlowView { task, stage, queue: Seq::empty(), next: 0, ok: 0, failed: 0 }
}

/// The flow of the unload of the module `name`, while the kernel is asked.
pub open spec fn unloading(name: Seq<u8>) -> FlowView {
    FlowView {
        task: Task::Unload,
        stage: Stage::Calling,
        queue: seq![name],
        next: 0,
        ok: 0,
        failed: 0,
    }
}

/// The first step of an operation of one call.
pub open spec fn single(task: Task, request: RequestView) -> StepView {
    StepView::Perform(fresh(task, Stage::Answer), EffectView::Invoke(request))
}

/// The stages that each task passes through.
pub open spec fn stage_fits(task: Task, stage: Stage) -> bool {
    match task {
        Task::Status | Task::KernelUnload | Task::Number | Task::Text | Task::Check => stage
            is Answer,
        Task::Ensure => stage is Creating || stage is Reading || stage is Setting,
        Task::Unload => stage is Calling || stage is Locating || stage is Removing,
        Task::Sweep => stage is Listing || stage is Calling || stage is Locating
            || stage is Removing,
        Task::BulkLoad => stage is Version || stage is Creating || stage is Reading
            || stage is Setting || stage is Listing || stage is Calling,
        Task::Startup => !(stage is Answer),
    }
}

/// An item of the work list can be sent: it holds no NUL, and a path to load
/// is text.
pub open spec fn sendable(task: Task, item: Seq<u8>) -> bool {
    if task == Task::BulkLoad {
        loadable(item)
    } else {
        !has_nul(item)
    }
}

impl FlowView {
    /// While a flow works on an item, the item exists; the tally has room for
    /// every item still to come; every item can be sent.
    pub open spec fn wf(self) -> bool {
        &&& stage_fits(self.task, self.stage)
        &&& self.next <= self.queue.len()
        &&& self.ok + self.failed + (self.queue.len() - self.next) <= usize::MAX
        &&& at_work(self.stage) ==> self.next < self.queue.len()
        &&& forall|i: int|
            0 <= i < self.queue.len() ==> sendable(self.task, #[trigger] self.queue[i])
    }
}

/// The answer does not fit the effect that was asked for.
pub open spec fn out_of_order() -> StepView {
    StepView::Finish(Err(KpmError::OutOfOrder))
}

/// What a flow reports when its work list is done.
pub open spec fn summary(flow: FlowView) -> OutputView {
    match flow.task {
        Task::BulkLoad => OutputView::Loaded {
            ok: flow.ok as usize,
            failed: flow.failed as usize,
        },
        Task::Sweep | Task::Startup => OutputView::Swept {
            unloaded: flow.ok as usize,
            failed: flow.failed as usize,
        },
        _ => OutputView::Done,
    }
}

/// How the one reply of a single call is read: a negative result is the
/// kernel's error; any other gives what the task is after. Two tasks read
/// more into it: the version check refuses an invalid token besides, and an
/// unload takes "not found" for success, since nothing is left to unload.
pub open spec fn answer(task: Task, reply: Reply) -> Result<OutputView, KpmError> {
    if task == Task::Check {
        match version_refusal(reply) {
            Some(reason) => Err(reason),
            None => Ok(OutputView::Text(reply_text(reply))),
        }
    } else if task == Task::KernelUnload {
        match unload_outcome(reply.rc) {
            Ok(_) => Ok(OutputView::Done),
            Err(error) => Err(error),
        }
    } else if reply.rc < 0 {
        Err(KpmError::Kernel { errno: (-reply.rc) as u32 })
    } else {
        match task {
            Task::Number => Ok(OutputView::Number(reply.rc)),
            Task::Text => Ok(OutputView::Text(reply_text(reply))),
            _ => Ok(OutputView::Done),
        }
    }
}

/// The control call for one item of the work list: a load of the path in a
/// bulk load, else an unload of the identity.
pub open spec fn item_request(task: Task, item: Seq<u8>) -> RequestView {
    if task == Task::BulkLoad {
        load_request(item, None)
    } else {
        unload_request(item)
    }
}

/// Turns to the current item of the work list, or ends where the list is
/// done.
pub open spec fn advance(flow: FlowView) -> StepView {
    if flow.next < flow.queue.len() {
        StepView::Perform(
            FlowView { stage: Stage::Calling, ..flow },
            EffectView::Invoke(item_request(flow.task, flow.queue[flow.next as int])),
        )
    } else {
        StepView::Finish(Ok(summary(flow)))
    }
}

/// The current item went well, or there was nothing to do for it: the module
/// is unloaded and its file dealt with, or the kernel held no such module.
/// A single unload ends here in success; a list counts the item as done and
/// goes on.
pub open spec fn item_done(flow: FlowView) -> StepView {
    if flow.task == Task::Unload {
        StepView::Finish(Ok(OutputView::Done))
    } else {
        advance(FlowView { ok: flow.ok + 1, next: flow.next + 1, ..flow })
    }
}

/// The current item failed: the kernel refused the call, or the directory
/// could not be read. A single unload ends with the error; a list counts the
/// item as failed and goes on. An unload that the kernel answers with "not
/// found" does not come here: it is no failure, for a single unload as for an
/// item of a sweep.
pub open spec fn item_failed(flow: FlowView, error: KpmError) -> StepView {
    if flow.task == Task::Unload {
        StepView::Finish(Err(error))
    } else {
        advance(FlowView { failed: flow.failed + 1, next: flow.next + 1, ..flow })
    }
}

/// The module directory is in order: what comes next.
pub open spec fn ensured(flow: FlowView) -> StepView {
    match flow.task {
        Task::Ensure => StepView::Finish(Ok(OutputView::Done)),
        Task::BulkLoad => StepView::Perform(
            FlowView { stage: Stage::Listing, ..flow },
            EffectView::ListDir,
        ),
        _ => StepView::Perform(
            FlowView { stage: Stage::SafeMode, ..flow },
            EffectView::QuerySafeMode,
        ),
    }
}

/// The flow with its work list made from a snapshot of the directory.
pub open spec fn planned(flow: FlowView, entries: Seq<Seq<u8>>) -> FlowView {
    if flow.task == Task::BulkLoad {
        FlowView {
            queue: load_plan(entries),
            next: 0,
            ok: 0,
            failed: load_rejects(entries),
            ..flow
        }
    } else {
        FlowView {
            queue: sweep_plan(entries),
            next: 0,
            ok: 0,
            failed: sweep_rejects(entries),
            ..flow
        }
    }
}

/// The rules of every flow: from what it waits for and what the driver
/// reports to what happens next.
///
/// - An operation of one call ends with the reading of the reply.
/// - The version check comes first in a bulk load and at startup. If it
///   fails, the flow ends at once, with `Disabled` and without an error.
/// - The directory is created, then its mode is read, then rewritten if it
///   does not suffice. Any failure there ends the flow with an error.
/// - At startup, safe mode leads to a sweep, its absence to the watch.
/// - A work list is made from one snapshot of the directory. Each of its
///   items gets one control call. In a list no item's failure ends the flow.
/// - An unload that the kernel accepted is followed by a search for the
///   module's file and, if there is one, its deletion. That the file is
///   missing, or cannot be deleted, is no failure.
/// - An unload is idempotent. Where the kernel answers "not found", it holds
///   no such module: the unload ends in success at once, and no file is
///   looked for or deleted. This holds of a single unload and of each item of
///   a sweep, which counts the item as done. Every other negative answer is a
///   failure.
pub open spec fn resume_model(flow: FlowView, outcome: Outcome) -> StepView {
    match flow.stage {
        Stage::Answer => match outcome {
            Outcome::Reply(reply) => StepView::Finish(answer(flow.task, reply)),
            _ => out_of_order(),
        },
        Stage::Version => match outcome {
            Outcome::Reply(reply) => match version_refusal(reply) {
                Some(reason) => StepView::Finish(Ok(OutputView::Disabled(reason))),
                None => StepView::Perform(
                    FlowView { stage: Stage::Creating, ..flow },
                    EffectView::CreateDir,
                ),
            },
            _ => out_of_order(),
        },
        Stage::Creating => match outcome {
            Outcome::Done => StepView::Perform(
                FlowView { stage: Stage::Reading, ..flow },
                EffectView::ReadMode,
            ),
            Outcome::Failed => StepView::Finish(Err(KpmError::FileSystem)),
            _ => out_of_order(),
        },
        Stage::Reading => match outcome {
            Outcome::Mode(mode) => match mode_fix(mode) {
                Some(fix) => StepView::Perform(
                    FlowView { stage: Stage::Setting, ..flow },
                    EffectView::SetMode(fix),
                ),
                None => ensured(flow),
            },
            Outcome::Failed => StepView::Finish(Err(KpmError::FileSystem)),
            _ => out_of_order(),
        },
        Stage::Setting => match outcome {
            Outcome::Done => ensured(flow),
            Outcome::Failed => StepView::Finish(Err(KpmError::FileSystem)),
            _ => out_of_order(),
        },
        Stage::SafeMode => match outcome {
            Outcome::Flag(safe) => if safe {
                StepView::Perform(FlowView { stage: Stage::Listing, ..flow }, EffectView::ListDir)
            } else {
                StepView::Perform(FlowView { stage: Stage::Watching, ..flow }, EffectView::Watch)
            },
            _ => out_of_order(),
        },
        Stage::Watching => match outcome {
            Outcome::Done => StepView::Finish(Ok(OutputView::Watching)),
            Outcome::Failed => StepView::Finish(Err(KpmError::Watch)),
            _ => out_of_order(),
        },
        Stage::Listing => match outcome {
            Outcome::Entries(entries) => advance(planned(flow, byte_views(entries@))),
            Outcome::Absent => StepView::Finish(Ok(summary(flow))),
            Outcome::Failed => StepView::Finish(Err(KpmError::FileSystem)),
            _ => out_of_order(),
        },
        Stage::Calling => match outcome {
            Outcome::Reply(reply) => if flow.task == Task::BulkLoad {
                if reply.rc < 0 {
                    item_failed(flow, KpmError::Kernel { errno: (-reply.rc) as u32 })
                } else {
                    item_done(flow)
                }
            } else {
                match unload_outcome(reply.rc) {
                    Err(error) => item_failed(flow, error),
                    Ok(false) => item_done(flow),
                    Ok(true) => StepView::Perform(
                        FlowView { stage: Stage::Locating, ..flow },
                        EffectView::ListDir,
                    ),
                }
            },
            _ => out_of_order(),
        },
        Stage::Locating => match outcome {
            Outcome::Entries(entries) => match backing_index(
                flow.queue[flow.next as int],
                byte_views(entries@),
                0,
            ) {
                Some(at) => StepView::Perform(
                    FlowView { stage: Stage::Removing, ..flow },
                    EffectView::RemoveFile(entries@[at]@),
                ),
                None => item_done(flow),
            },
            Outcome::Absent => item_done(flow),
            Outcome::Failed => item_failed(flow, KpmError::FileSystem),
            _ => out_of_order(),
        },
        Stage::Removing => match outcome {
            Outcome::Done => item_done(flow),
            Outcome::Failed => item_done(flow),
            _ => out_of_order(),
        },
    }
}

impl View for Flow {
    type V = FlowView;

    closed spec fn view(&self) -> FlowView {
        FlowView {
            task: self.task,
            stage: self.stage,
            queue: byte_views(self.queue@),
            next: self.next as nat,
            ok: self.ok as nat,
            failed: self.failed as nat,
        }
    }
}

impl Flow {
    #[verifier::type_invariant]
    spec fn inv(self) -> bool {
        self@.wf()
    }

    /// A flow of `task` that begins to wait at `stage`.
    pub(crate) fn begin(task: Task, stage: Stage) -> (flow: Flow)
        requires
            stage_fits(task, stage),
            !at_work(stage),
        ensures
            flow@ == fresh(task, stage),
    {
        let flow = Flow { task, stage, queue: Vec::new(), next: 0, ok: 0, failed: 0 };
        assert(byte_views(flow.queue@) =~= Seq::empty());
        flow
    }

    /// The flow of the unload of the module `name`, as the kernel is asked.
    pub(crate) fn begin_unload(name: &[u8]) -> (flow: Flow)
        requires
            !has_nul(name@),
        ensures
            flow@ == unloading(name@),
    {
        let mut queue: Vec<Vec<u8>> = Vec::new();
        queue.push(slice_to_vec(name));
        assert(byte_views(queue@) =~= seq![name@]);
        assert(unloading(name@).wf());
        Flow { task: Task::Unload, stage: Stage::Calling, queue, next: 0, ok: 0, failed: 0 }
    }

    /// The task that the flow carries out.
    pub fn task(&self) -> (task: Task)
        ensures
            task == self@.task,
    {
        self.task
    }

    /// What the flow is waiting for.
    pub fn stage(&self) -> (stage: Stage)
        ensures
            stage == self@.stage,
    {
        self.stage
    }

    /// The flow at another stage.
    fn at(self, stage: Stage) -> (flow: Flow)
        requires
            stage_fits(self@.task, stage),
            at_work(stage) ==> self@.next < self@.queue.len(),
        ensures
            flow@ == (FlowView { stage, ..self@ }),
    {
        proof {
            use_type_invariant(&self);
        }
        Flow {
            task: self.task,
            stage,
            queue: self.queue,
            next: self.next,
            ok: self.ok,
            failed: self.failed,
        }
    }

    /// Reads the one reply of an operation of one call.
    fn answer(&self, reply: &Reply) -> (result: Result<Output, KpmError>)
        ensures
            match result {
                Ok(output) => answer(self@.task, *reply) == Ok::<OutputView, KpmError>(output@),
                Err(error) => answer(self@.task, *reply) == Err::<OutputView, KpmError>(error),
            },
    {
        match self.task {
            Task::Check => match read_version(reply) {
                Ok(token) => Ok(Output::Text(token)),
                Err(reason) => Err(reason),
            },
            Task::Number => match check_out(reply.rc) {
                Ok(number) => Ok(Output::Number(number)),
                Err(error) => Err(error),
            },
            Task::Text => match text_reply(reply) {
                Ok(text) => Ok(Output::Text(text)),
                Err(error) => Err(error),
            },
            Task::KernelUnload => match read_unload(reply.rc) {
                Ok(_) => Ok(Output::Done),
                Err(error) => Err(error),
            },
            _ => match check_out(reply.rc) {
                Ok(_) => Ok(Output::Done),
                Err(error) => Err(error),
            },
        }
    }

    /// What the flow reports when its work list is done.
    fn summary(&self) -> (output: Output)
        ensures
            output@ == summary(self@),
    {
        match self.task {
            Task::BulkLoad => Output::Loaded { ok: self.ok, failed: self.failed },
            Task::Sweep | Task::Startup => Output::Swept {
                unloaded: self.ok,
                failed: self.failed,
            },
            _ => Output::Done,
        }
    }

    /// Turns to the current item of the work list, or ends where the list is
    /// done. Every item on a list can be sent, so its call is always built.
    fn advance(self) -> (step: Step)
        requires
            lists(self@.task),
        ensures
            step@ == advance(self@),
    {
        proof {
            use_type_invariant(&self);
        }
        if self.next < self.queue.len() {
            let item = self.queue[self.next].as_slice();
            assert(item@ == self@.queue[self@.next as int]);
            let built = if let Task::BulkLoad = self.task {
                load_call(item, None)
            } else {
                unload_call(item)
            };
            match built {
                Ok(request) => Step::Perform(self.at(Stage::Calling), Effect::Invoke(request)),
                Err(error) => Step::Finish(Err(error)),
            }
        } else {
            Step::Finish(Ok(self.summary()))
        }
    }

    /// Counts the current item as done and goes on.
    fn item_done(self) -> (step: Step)
        requires
            at_work(self@.stage),
        ensures
            step@ == item_done(self@),
    {
        proof {
            use_type_invariant(&self);
        }
        if let Task::Unload = self.task {
            Step::Finish(Ok(Output::Done))
        } else {
            let size = self.queue.len();
            assert(self@.queue.len() == size);
            let flow = Flow {
                task: self.task,
                stage: Stage::Listing,
                queue: self.queue,
                next: self.next + 1,
                ok: self.ok + 1,
                failed: self.failed,
            };
            flow.advance()
        }
    }

    /// Counts the current item as failed and goes on.
    fn item_failed(self, error: KpmError) -> (step: Step)
        requires
            at_work(self@.stage),
        ensures
            step@ == item_failed(self@, error),
    {
        proof {
            use_type_invariant(&self);
        }
        if let Task::Unload = self.task {
            Step::Finish(Err(error))
        } else {
            let size = self.queue.len();
            assert(self@.queue.len() == size);
            let flow = Flow {
                task: self.task,
                stage: Stage::Listing,
                queue: self.queue,
                next: self.next + 1,
                ok: self.ok,
                failed: self.failed + 1,
            };
            flow.advance()
        }
    }

    /// Goes on from a directory that is in order.
    fn ensured(self) -> (step: Step)
        requires
            self@.task is Ensure || self@.task is BulkLoad || self@.task is Startup,
        ensures
            step@ == ensured(self@),
    {
        match self.task {
            Task::Ensure => Step::Finish(Ok(Output::Done)),
            Task::BulkLoad => Step::Perform(self.at(Stage::Listing), Effect::ListDir),
            _ => Step::Perform(self.at(Stage::SafeMode), Effect::QuerySafeMode),
        }
    }

    /// Makes the work list from a snapshot of the directory and turns to its
    /// first item.
    fn planned(self, entries: Vec<Vec<u8>>) -> (step: Step)
        requires
            self@.stage is Listing,
        ensures
            step@ == advance(planned(self@, byte_views(entries@))),
    {
        let total = entries.len();
        let (queue, rejected) = if let Task::BulkLoad = self.task {
            plan_bulk_load(entries.as_slice())
        } else {
            plan_sweep(entries.as_slice())
        };
        proof {
            use_type_invariant(&self);
            plans_are_sendable(byte_views(entries@));
            assert(entries@.len() == total);
            assert(byte_views(queue@).len() == queue@.len());
        }
        let flow = Flow {
            task: self.task,
            stage: Stage::Listing,
            queue,
            next: 0,
            ok: 0,
            failed: rejected,
        };
        flow.advance()
    }

    /// Takes the driver's report on the effect that the flow was waiting for
    /// and says what happens next.
    pub fn resume(self, outcome: Outcome) -> (step: Step)
        ensures
            step@ == resume_model(self@, outcome),
    {
        proof {
            use_type_invariant(&self);
        }
        match self.stage {
            Stage::Answer => match outcome {
                Outcome::Reply(reply) => Step::Finish(self.answer(&reply)),
                _ => Step::Finish(Err(KpmError::OutOfOrder)),
            },
            Stage::Version => match outcome {
                Outcome::Reply(reply) => match read_version(&reply) {
                    Err(reason) => Step::Finish(Ok(Output::Disabled(reason))),
                    Ok(_) => Step::Perform(self.at(Stage::Creating), Effect::CreateDir),
                },
                _ => Step::Finish(Err(KpmError::OutOfOrder)),
            },
            Stage::Creating => match outcome {
                Outcome::Done => Step::Perform(self.at(Stage::Reading), Effect::ReadMode),
                Outcome::Failed => Step::Finish(Err(KpmError::FileSystem)),
                _ => Step::Finish(Err(KpmError::OutOfOrder)),
            },
            Stage::Reading => match outcome {
                Outcome::Mode(mode) => match required_mode_change(mode) {
                    Some(fix) => Step::Perform(self.at(Stage::Setting), Effect::SetMode(fix)),
                    None => self.ensured(),
                },
                Outcome::Failed => Step::Finish(Err(KpmError::FileSystem)),
                _ => Step::Finish(Err(KpmError::OutOfOrder)),
            },
            Stage::Setting => match outcome {
                Outcome::Done => self.ensured(),
                Outcome::Failed => Step::Finish(Err(KpmError::FileSystem)),
                _ => Step::Finish(Err(KpmError::OutOfOrder)),
            },
            Stage::SafeMode => match outcome {
                Outcome::Flag(safe) => if safe {
                    Step::Perform(self.at(Stage::Listing), Effect::ListDir)
                } else {
                    Step::Perform(self.at(Stage::Watching), Effect::Watch)
                },
                _ => Step::Finish(Err(KpmError::OutOfOrder)),
            },
            Stage::Watching => match outcome {
                Outcome::Done => Step::Finish(Ok(Output::Watching)),
                Outcome::Failed => Step::Finish(Err(KpmError::Watch)),
                _ => Step::Finish(Err(KpmError::OutOfOrder)),
            },
            Stage::Listing => match outcome {
                Outcome::Entries(entries) => self.planned(entries),
                Outcome::Absent => Step::Finish(Ok(self.summary())),
                Outcome::Failed => Step::Finish(Err(KpmError::FileSystem)),
                _ => Step::Finish(Err(KpmError::OutOfOrder)),
            },
            Stage::Calling => match outcome {
                Outcome::Reply(reply) => if let Task::BulkLoad = self.task {
                    match check_out(reply.rc) {
                        Err(error) => self.item_failed(error),
                        Ok(_) => self.item_done(),
                    }
                } else {
                    match read_unload(reply.rc) {
                        Err(error) => self.item_failed(error),
                        Ok(false) => self.item_done(),
                        Ok(true) => Step::Perform(self.at(Stage::Locating), Effect::ListDir),
                    }
                },
                _ => Step::Finish(Err(KpmError::OutOfOrder)),
            },
            Stage::Locating => match outcome {
                Outcome::Entries(entries) => {
                    let name = self.queue[self.next].as_slice();
                    assert(name@ == self@.queue[self@.next as int]);
                    match find_kpm_file(name, entries.as_slice()) {
                        Some(at) => {
                            let path = slice_to_vec(entries[at].as_slice());
                            Step::Perform(self.at(Stage::Removing), Effect::RemoveFile(path))
                        },
                        None => self.item_done(),
                    }
                },
                Outcome::Absent => self.item_done(),
                Outcome::Failed => self.item_failed(KpmError::FileSystem),
                _ => Step::Finish(Err(KpmError::OutOfOrder)),
            },
            Stage::Removing => match outcome {
                Outcome::Done => self.item_done(),
                Outcome::Failed => self.item_done(),
                _ => Step::Finish(Err(KpmError::OutOfOrder)),
            },
        }
    }
}

} // verus!
