//! What holds of whole runs of flows, whatever the driver reports.

use vstd::prelude::*;

use crate::error::KpmError;
use crate::flow::{
    advance, at_work, fresh, item_request, lists, planned, resume_model, sendable, single,
    unloading, EffectView, FlowView, Outcome, OutputView, Stage, StepView, Task,
};
use crate::gateway::RequestView;
use crate::guardian::{mode_fix, REQUIRED_MODE};
use crate::modfile::{backing_index_is_first, backs, byte_views};
use crate::plan::{load_plan, load_rejects, plans_are_sendable, sweep_plan, sweep_rejects};
use crate::protocol::{
    calls_are_well_formed, unload_request, version_refusal, version_request,
};

verus! {

/// Whether a report is of a kind that can answer the effect a flow waits on
/// at this stage.
pub open spec fn fits(stage: Stage, outcome: Outcome) -> bool {
    match stage {
        Stage::Answer | Stage::Version | Stage::Calling => outcome is Reply,
        Stage::Creating | Stage::Setting | Stage::Watching | Stage::Removing => outcome is Done
            || outcome is Failed,
        Stage::Reading => outcome is Mode || outcome is Failed,
        Stage::SafeMode => outcome is Flag,
        Stage::Listing | Stage::Locating => outcome is Entries || outcome is Absent
            || outcome is Failed,
    }
}

/// Whether `effect` is what a flow asks for when it comes to wait at its
/// stage.
pub open spec fn awaits(flow: FlowView, effect: EffectView) -> bool {
    match flow.stage {
        Stage::Answer => effect is Invoke,
        Stage::Version => effect == EffectView::Invoke(version_request()),
        Stage::Creating => effect is CreateDir,
        Stage::Reading => effect is ReadMode,
        Stage::Setting => effect == EffectView::SetMode(REQUIRED_MODE),
        Stage::SafeMode => effect is QuerySafeMode,
        Stage::Watching => effect is Watch,
        Stage::Listing | Stage::Locating => effect is ListDir,
        Stage::Calling => effect == EffectView::Invoke(
            item_request(flow.task, flow.queue[flow.next as int]),
        ),
        Stage::Removing => effect is RemoveFile,
    }
}

/// A step is in order if its flow is well-formed and waits on the effect
/// that the step asks for.
pub open spec fn in_order(step: StepView) -> bool {
    step matches StepView::Perform(flow, effect) ==> flow.wf() && awaits(flow, effect)
}

/// Whatever the driver reports to a well-formed flow, the next step is in
/// order.
pub proof fn resume_stays_in_order(flow: FlowView, outcome: Outcome)
    requires
        flow.wf(),
    ensures
        in_order(resume_model(flow, outcome)),
{
    if flow.stage is Listing {
        if let Outcome::Entries(entries) = outcome {
            plans_are_sendable(byte_views(entries@));
            assert(entries@.len() == entries.len());
        }
    }
}

/// A flow ends as out of order exactly where the report does not fit.
pub proof fn out_of_order_iff_misfit(flow: FlowView, outcome: Outcome)
    requires
        flow.wf(),
    ensures
        resume_model(flow, outcome) == StepView::Finish(Err(KpmError::OutOfOrder)) <==> !fits(
            flow.stage,
            outcome,
        ),
{
}

/// Where a flow stands after the driver's reports, taken in order. Reports
/// that come after the end are not looked at.
pub open spec fn run(step: StepView, outcomes: Seq<Outcome>) -> StepView
    decreases outcomes.len(),
{
    match step {
        StepView::Perform(flow, _) => if outcomes.len() == 0 {
            step
        } else {
            run(resume_model(flow, outcomes[0]), outcomes.drop_first())
        },
        StepView::Finish(_) => step,
    }
}

/// The control call that an effect makes, if it makes one.
pub open spec fn call_of(effect: EffectView) -> Seq<RequestView> {
    match effect {
        EffectView::Invoke(request) => seq![request],
        _ => Seq::empty(),
    }
}

/// The control calls that a flow asks for in the course of a run, in order,
/// from the one that `step` asks for.
pub open spec fn calls(step: StepView, outcomes: Seq<Outcome>) -> Seq<RequestView>
    decreases outcomes.len(),
{
    match step {
        StepView::Perform(flow, effect) => if outcomes.len() == 0 {
            call_of(effect)
        } else {
            call_of(effect) + calls(resume_model(flow, outcomes[0]), outcomes.drop_first())
        },
        StepView::Finish(_) => Seq::empty(),
    }
}

/// An operation of one call makes that call and no other, and ends on the
/// first report: there is no retry.
pub proof fn one_call_and_no_other(task: Task, request: RequestView, outcomes: Seq<Outcome>)
    ensures
        calls(single(task, request), outcomes) == seq![request],
        outcomes.len() > 0 ==> run(single(task, request), outcomes) == resume_model(
            fresh(task, Stage::Answer),
            outcomes[0],
        ),
        outcomes.len() > 0 ==> run(single(task, request), outcomes) is Finish,
{
    if outcomes.len() > 0 {
        let end = resume_model(fresh(task, Stage::Answer), outcomes[0]);
        let rest = outcomes.drop_first();
        assert(end is Finish);
        assert(run(end, rest) == end);
        assert(calls(end, rest) =~= Seq::empty());
        assert(seq![request] + Seq::<RequestView>::empty() =~= seq![request]);
    }
}

/// Once the kernel has answered an unload, the rest of the operation makes
/// no control call.
pub proof fn unload_calls_no_more(flow: FlowView, effect: EffectView, outcomes: Seq<Outcome>)
    requires
        flow.task is Unload,
        flow.stage is Locating || flow.stage is Removing,
        !(effect is Invoke),
    ensures
        calls(StepView::Perform(flow, effect), outcomes) == Seq::<RequestView>::empty(),
    decreases outcomes.len(),
{
    if outcomes.len() > 0 {
        let next = resume_model(flow, outcomes[0]);
        let rest = outcomes.drop_first();
        if let StepView::Perform(later, asked) = next {
            unload_calls_no_more(later, asked, rest);
        }
        assert(call_of(effect) + calls(next, rest) =~= Seq::empty());
    }
}

/// An unload asks the kernel exactly once, whatever the kernel answers and
/// whatever the directory holds.
pub proof fn unload_is_one_call(name: Seq<u8>, outcomes: Seq<Outcome>)
    ensures
        calls(
            StepView::Perform(unloading(name), EffectView::Invoke(unload_request(name))),
            outcomes,
        ) == seq![unload_request(name)],
{
    let request = unload_request(name);
    if outcomes.len() > 0 {
        let next = resume_model(unloading(name), outcomes[0]);
        let rest = outcomes.drop_first();
        if let StepView::Perform(later, asked) = next {
            unload_calls_no_more(later, asked, rest);
        }
        assert(calls(next, rest) =~= Seq::empty());
        assert(seq![request] + Seq::<RequestView>::empty() =~= seq![request]);
    }
}

/// The first step of a startup.
pub open spec fn startup() -> StepView {
    StepView::Perform(fresh(Task::Startup, Stage::Version), EffectView::Invoke(version_request()))
}

/// The reactor has two states. It is inactive until a startup ends with the
/// watch registered, and active from then on.
pub open spec fn active(step: StepView) -> bool {
    step == StepView::Finish(Ok(OutputView::Watching))
}

/// The reactor becomes active on one road only: the version check passed,
/// the directory was created, its mode was read and, where it did not
/// suffice, rewritten, the host said it was not in safe mode, and the watch
/// was registered.
pub proof fn active_only_after_checks(outcomes: Seq<Outcome>)
    requires
        active(run(startup(), outcomes)),
    ensures
        outcomes.len() >= 5,
        outcomes[0] matches Outcome::Reply(reply) && version_refusal(reply) is None,
        outcomes[1] is Done,
        outcomes[2] matches Outcome::Mode(mode) && (if mode_fix(mode) is None {
            outcomes[3] == Outcome::Flag(false) && outcomes[4] is Done
        } else {
            outcomes.len() >= 6 && outcomes[3] is Done && outcomes[4] == Outcome::Flag(false)
                && outcomes[5] is Done
        }),
{
    let goal = StepView::Finish(Ok(OutputView::Watching));
    let o1 = outcomes.drop_first();
    let o2 = o1.drop_first();
    let o3 = o2.drop_first();
    let o4 = o3.drop_first();
    let o5 = o4.drop_first();
    let s1 = resume_model(fresh(Task::Startup, Stage::Version), outcomes[0]);
    assert(outcomes.len() >= 1 && run(s1, o1) == goal);
    let f1 = s1->Perform_0;
    assert(s1 is Perform && f1.stage is Creating);
    let s2 = resume_model(f1, o1[0]);
    assert(o1.len() >= 1 && run(s2, o2) == goal);
    let f2 = s2->Perform_0;
    assert(s2 is Perform && f2.stage is Reading);
    let s3 = resume_model(f2, o2[0]);
    assert(o2.len() >= 1 && run(s3, o3) == goal);
    let f3 = s3->Perform_0;
    assert(s3 is Perform && (f3.stage is Setting || f3.stage is SafeMode));
    let s4 = resume_model(f3, o3[0]);
    assert(o3.len() >= 1 && run(s4, o4) == goal);
    let f4 = s4->Perform_0;
    assert(s4 is Perform);
    if f3.stage is SafeMode {
        if f4.stage is Listing {
            sweep_never_watches(s4, o4);
        }
        assert(f4.stage is Watching);
        assert(o4.len() >= 1 && run(resume_model(f4, o4[0]), o5) == goal);
    } else {
        assert(f4.stage is SafeMode);
        let s5 = resume_model(f4, o4[0]);
        assert(o4.len() >= 1 && run(s5, o5) == goal);
        let f5 = s5->Perform_0;
        assert(s5 is Perform);
        if f5.stage is Listing {
            sweep_never_watches(s5, o5);
        }
        assert(f5.stage is Watching);
        assert(o5.len() >= 1 && run(resume_model(f5, o5[0]), o5.drop_first()) == goal);
    }
}

/// The stages in which a flow works through its list.
pub open spec fn sweeping(stage: Stage) -> bool {
    stage is Listing || stage is Calling || stage is Locating || stage is Removing
}

/// A flow that has turned to its work list never comes to watch: a host in
/// safe mode keeps its reactor inactive.
pub proof fn sweep_never_watches(step: StepView, outcomes: Seq<Outcome>)
    requires
        step matches StepView::Perform(flow, _) ==> sweeping(flow.stage),
        !active(step),
    ensures
        !active(run(step, outcomes)),
    decreases outcomes.len(),
{
    if let StepView::Perform(flow, _) = step {
        if outcomes.len() > 0 {
            sweep_never_watches(resume_model(flow, outcomes[0]), outcomes.drop_first());
        }
    }
}

/// The control calls for the items of a work list from the index `from` on,
/// one for each, in order.
pub open spec fn item_calls(task: Task, queue: Seq<Seq<u8>>, from: int) -> Seq<RequestView> {
    Seq::new((queue.len() - from) as nat, |k: int| item_request(task, queue[from + k]))
}

/// The index of the first item whose call is still to come or pending.
pub open spec fn uncalled(flow: FlowView) -> int {
    if flow.stage is Calling {
        flow.next as int
    } else {
        flow.next as int + 1
    }
}

/// How many items an output accounts for.
pub open spec fn accounted(output: OutputView) -> int {
    match output {
        OutputView::Loaded { ok, failed } => ok + failed,
        OutputView::Swept { unloaded, failed } => unloaded + failed,
        _ => 0,
    }
}

/// A flow at work on its list asks for the calls of the items still to
/// come, one for each and in order, whatever the kernel and the file system
/// answer. No answer that fits ends the flow early or with an error, and at
/// its end every item is accounted for.
pub proof fn work_list_run(flow: FlowView, effect: EffectView, outcomes: Seq<Outcome>)
    requires
        flow.wf(),
        awaits(flow, effect),
        at_work(flow.stage),
        lists(flow.task),
    ensures
        calls(StepView::Perform(flow, effect), outcomes).is_prefix_of(
            item_calls(flow.task, flow.queue, uncalled(flow)),
        ),
        match run(StepView::Perform(flow, effect), outcomes) {
            StepView::Finish(Ok(output)) => {
                &&& calls(StepView::Perform(flow, effect), outcomes) == item_calls(
                    flow.task,
                    flow.queue,
                    uncalled(flow),
                )
                &&& accounted(output) == flow.ok + flow.failed + (flow.queue.len() - flow.next)
            },
            StepView::Finish(Err(error)) => error == KpmError::OutOfOrder,
            StepView::Perform(later, _) => later.task == flow.task && later.queue == flow.queue,
        },
    decreases outcomes.len(),
{
    let step = StepView::Perform(flow, effect);
    let all = item_calls(flow.task, flow.queue, uncalled(flow));
    let tail = item_calls(flow.task, flow.queue, flow.next as int + 1);
    let head = call_of(effect);
    assert(all =~= head + tail);
    if outcomes.len() == 0 {
        assert(calls(step, outcomes) == head);
        assert(head =~= all.subrange(0, head.len() as int));
    } else {
        let next = resume_model(flow, outcomes[0]);
        let rest = outcomes.drop_first();
        resume_stays_in_order(flow, outcomes[0]);
        assert(calls(step, outcomes) == head + calls(next, rest));
        assert(run(step, outcomes) == run(next, rest));
        match next {
            StepView::Perform(later, asked) => {
                assert(uncalled(later) == flow.next + 1);
                work_list_run(later, asked, rest);
                let more = calls(next, rest);
                assert(more =~= tail.subrange(0, more.len() as int));
                assert(head + more =~= all.subrange(0, (head + more).len() as int));
            },
            StepView::Finish(end) => {
                assert(calls(next, rest) =~= Seq::empty());
                assert(head + Seq::<RequestView>::empty() =~= head);
                if end is Ok {
                    assert(flow.next + 1 == flow.queue.len());
                    assert(tail =~= Seq::empty());
                    assert(head =~= all);
                } else {
                    assert(head =~= all.subrange(0, head.len() as int));
                }
            },
        }
    }
}

/// A flow of `task` that waits for the snapshot of the directory.
pub open spec fn listing(task: Task) -> StepView {
    StepView::Perform(fresh(task, Stage::Listing), EffectView::ListDir)
}

/// The work list that `task` makes of a snapshot.
pub open spec fn plan_of(task: Task, entries: Seq<Seq<u8>>) -> Seq<Seq<u8>> {
    if task == Task::BulkLoad {
        load_plan(entries)
    } else {
        sweep_plan(entries)
    }
}

/// How many module files of a snapshot `task` gives up on without a call.
pub open spec fn rejects_of(task: Task, entries: Seq<Seq<u8>>) -> nat {
    if task == Task::BulkLoad {
        load_rejects(entries)
    } else {
        sweep_rejects(entries)
    }
}

/// From one snapshot of the directory, a bulk load asks for exactly one load
/// of each module file it can send, and a sweep for exactly one unload of
/// each module that has a file: in the order of the snapshot, never another
/// call, and whatever each call's outcome. While the driver's reports fit,
/// the flow goes through the whole list and ends without an error, with
/// every module file of the snapshot accounted for as done or failed.
pub proof fn one_call_for_each_item(task: Task, entries: Vec<Vec<u8>>, outcomes: Seq<Outcome>)
    requires
        lists(task),
    ensures
        ({
            let reports = seq![Outcome::Entries(entries)] + outcomes;
            let plan = plan_of(task, byte_views(entries@));
            let made = calls(listing(task), reports);
            &&& made.is_prefix_of(item_calls(task, plan, 0))
            &&& match run(listing(task), reports) {
                StepView::Finish(Ok(output)) => {
                    &&& made == item_calls(task, plan, 0)
                    &&& accounted(output) == plan.len() + rejects_of(task, byte_views(entries@))
                },
                StepView::Finish(Err(error)) => error == KpmError::OutOfOrder,
                StepView::Perform(_, _) => true,
            }
        }),
{
    let all = byte_views(entries@);
    let reports = seq![Outcome::Entries(entries)] + outcomes;
    let flow = fresh(task, Stage::Listing);
    let plan = plan_of(task, all);
    assert(reports[0] == Outcome::Entries(entries));
    assert(reports.drop_first() =~= outcomes);
    let next = resume_model(flow, reports[0]);
    assert(next == advance(planned(flow, all)));
    assert(calls(listing(task), reports) == call_of(EffectView::ListDir) + calls(next, outcomes));
    assert(call_of(EffectView::ListDir) + calls(next, outcomes) =~= calls(next, outcomes));
    assert(run(listing(task), reports) == run(next, outcomes));
    resume_stays_in_order(flow, reports[0]);
    match next {
        StepView::Perform(later, asked) => {
            work_list_run(later, asked, outcomes);
            assert(later.queue == plan && later.next == 0 && later.stage is Calling);
            assert(later.ok == 0 && later.failed == rejects_of(task, all));
            assert(uncalled(later) == 0);
        },
        StepView::Finish(_) => {
            plans_are_sendable(all);
            assert(entries@.len() == entries.len());
            assert(plan.len() == 0);
            assert(calls(next, outcomes) =~= Seq::empty());
            assert(item_calls(task, plan, 0) =~= Seq::empty());
        },
    }
}

/// A file is deleted for one reason only: it is the module file of a module
/// whose unload is under way, found in the directory after the kernel was
/// asked. No load, no check and no other operation deletes anything.
pub proof fn deletes_only_the_file_of_the_module(flow: FlowView, outcome: Outcome)
    requires
        flow.wf(),
    ensures
        resume_model(flow, outcome) matches StepView::Perform(_, EffectView::RemoveFile(path))
            ==> {
            &&& flow.stage is Locating
            &&& flow.task is Unload || flow.task is Sweep || flow.task is Startup
            &&& backs(flow.queue[flow.next as int], path)
        },
{
    if flow.stage is Locating {
        if let Outcome::Entries(entries) = outcome {
            backing_index_is_first(flow.queue[flow.next as int], byte_views(entries@), 0);
        }
    }
}

/// Every control call that a flow asks for in answer to a report is
/// well-formed: the driver can make it as it stands.
pub proof fn asks_for_well_formed_calls(flow: FlowView, outcome: Outcome)
    requires
        flow.wf(),
    ensures
        resume_model(flow, outcome) matches StepView::Perform(_, EffectView::Invoke(request))
            ==> request.wf(),
{
    resume_stays_in_order(flow, outcome);
    if let StepView::Perform(later, EffectView::Invoke(request)) = resume_model(flow, outcome) {
        let item = later.queue[later.next as int];
        assert(later.stage is Calling);
        assert(sendable(later.task, item));
        calls_are_well_formed(item, item, item, None);
    }
}

} // verus!
