//! Properties of whole runs of the agents, proved over their step functions.
use vstd::prelude::*;
use crate::agent::AgentState;
use crate::analyst::{analyst_next, probe_passed, urls_decided, AgentAnalyst, AnalystResult, AnalystStep, AnalystView};
use crate::context::TaskListView;
use crate::backend::{backend_next, AgentBackend, BackendResult, BackendStep, BackendView};
use crate::protocol::{ActionView, AgentError, BuildOutcomeView, EventView, GenerationTask, ProbeOutcomeView};

verus! {

/// The results of the scoping agent's steps over a sequence of events.
pub open spec fn analyst_trace(a: AnalystView, ctx: TaskListView, events: Seq<EventView>) -> Seq<AnalystResult>
    decreases events.len(),
{
    if events.len() == 0 {
        seq![]
    } else {
        let r = analyst_next(a, ctx, events[0]);
        seq![r] + analyst_trace(r.0, r.1, events.drop_first())
    }
}

/// The scoping agent's state and the context after a sequence of events.
pub open spec fn analyst_run(a: AnalystView, ctx: TaskListView, events: Seq<EventView>) -> (AnalystView, TaskListView)
    decreases events.len(),
{
    if events.len() == 0 {
        (a, ctx)
    } else {
        let r = analyst_next(a, ctx, events[0]);
        analyst_run(r.0, r.1, events.drop_first())
    }
}

/// The probe outcomes as events.
pub open spec fn probe_events(outcomes: Seq<ProbeOutcomeView>) -> Seq<EventView> {
    outcomes.map_values(|o: ProbeOutcomeView| EventView::Probed(o))
}

/// The URLs whose probe passed, in their order; `urls[i]` was probed with
/// outcome `outcomes[i]`.
pub open spec fn surviving_urls(urls: Seq<Seq<char>>, outcomes: Seq<ProbeOutcomeView>) -> Seq<Seq<char>>
    decreases outcomes.len(),
{
    if outcomes.len() == 0 || urls.len() == 0 {
        seq![]
    } else {
        let rest = surviving_urls(urls.drop_last(), outcomes.drop_last());
        if probe_passed(outcomes.last()) {
            rest.push(urls.last())
        } else {
            rest
        }
    }
}

/// A finished scoping agent stays finished and asks for nothing more.
pub proof fn lemma_analyst_done_absorbs(a: AnalystView, ctx: TaskListView, events: Seq<EventView>)
    requires
        a.state == AgentState::Done,
    ensures
        analyst_run(a, ctx, events) == (a, ctx),
        forall|i: int|
            0 <= i < events.len() ==> #[trigger] analyst_trace(a, ctx, events)[i] == (a, ctx, ActionView::Finished),
        analyst_trace(a, ctx, events).len() == events.len(),
    decreases events.len(),
{
    if events.len() > 0 {
        lemma_analyst_done_absorbs(a, ctx, events.drop_first());
        let t = analyst_trace(a, ctx, events);
        let rest = analyst_trace(a, ctx, events.drop_first());
        assert forall|i: int| 0 <= i < events.len() implies #[trigger] t[i] == (a, ctx, ActionView::Finished) by {
            if i > 0 {
                assert(t[i] == rest[i - 1]);
            }
        }
    }
}

/// A scope that needs no external URLs ends the scoping agent: it never
/// enters `Testing` and never asks for an HTTP probe, whatever follows.
pub proof fn lemma_no_urls_no_probe(ctx: TaskListView, events: Seq<EventView>)
    requires
        events.len() >= 3,
        events[1] is Text,
        events[2] matches EventView::Scope(Some(s)) && !s.is_external_urls_required,
    ensures
        analyst_trace(AgentAnalyst::new_view(), ctx, events).len() == events.len(),
        forall|i: int|
            0 <= i < events.len() ==> {
                let r = #[trigger] analyst_trace(AgentAnalyst::new_view(), ctx, events)[i];
                &&& r.0.state != AgentState::Testing
                &&& !(r.2 is Probe)
            },
        analyst_trace(AgentAnalyst::new_view(), ctx, events)[2].0.state == AgentState::Done,
        analyst_trace(AgentAnalyst::new_view(), ctx, events)[2].2 == ActionView::Finished,
{
    let a0 = AgentAnalyst::new_view();
    let r0 = analyst_next(a0, ctx, events[0]);
    let e1 = events.drop_first();
    let r1 = analyst_next(r0.0, r0.1, e1[0]);
    let e2 = e1.drop_first();
    let r2 = analyst_next(r1.0, r1.1, e2[0]);
    let e3 = e2.drop_first();
    assert(e1[0] == events[1]);
    assert(e2[0] == events[2]);
    assert(r2.0.state == AgentState::Done);
    lemma_analyst_done_absorbs(r2.0, r2.1, e3);
    let t = analyst_trace(a0, ctx, events);
    let t3 = analyst_trace(r2.0, r2.1, e3);
    assert(t =~= seq![r0, r1, r2] + t3) by {
        assert(analyst_trace(r1.0, r1.1, e2) == seq![r2] + t3);
        assert(analyst_trace(r0.0, r0.1, e1) == seq![r1] + analyst_trace(r1.0, r1.1, e2));
    }
    assert forall|i: int| 0 <= i < events.len() implies {
        let r = #[trigger] t[i];
        &&& r.0.state != AgentState::Testing
        &&& !(r.2 is Probe)
    } by {
        if i >= 3 {
            assert(t[i] == t3[i - 3]);
        }
    }
}

proof fn lemma_surviving_prefix(urls: Seq<Seq<char>>, outcomes: Seq<ProbeOutcomeView>, k: int)
    requires
        0 <= k < urls.len(),
        urls.len() == outcomes.len(),
    ensures
        surviving_urls(urls.take(k + 1), outcomes.take(k + 1)) == if probe_passed(outcomes[k]) {
            surviving_urls(urls.take(k), outcomes.take(k)).push(urls[k])
        } else {
            surviving_urls(urls.take(k), outcomes.take(k))
        },
{
    assert(urls.take(k + 1).drop_last() =~= urls.take(k));
    assert(outcomes.take(k + 1).drop_last() =~= outcomes.take(k));
}

/// The probing phase, from the probe of `urls[k]` on.
proof fn lemma_probe_phase(
    a: AnalystView,
    ctx: TaskListView,
    urls: Seq<Seq<char>>,
    outcomes: Seq<ProbeOutcomeView>,
    k: nat,
)
    requires
        urls.len() == outcomes.len(),
        k < urls.len(),
        a.state == AgentState::Testing,
        a.step == AnalystStep::AwaitProbe,
        a.candidates == urls,
        a.next_probe == k,
        a.kept == surviving_urls(urls.take(k as int), outcomes.take(k as int)),
    ensures
        analyst_run(a, ctx, probe_events(outcomes.subrange(k as int, outcomes.len() as int))).0.state
            == AgentState::Done,
        analyst_run(a, ctx, probe_events(outcomes.subrange(k as int, outcomes.len() as int))).1.external_urls
            == Some(surviving_urls(urls, outcomes)),
    decreases urls.len() - k,
{
    let events = probe_events(outcomes.subrange(k as int, outcomes.len() as int));
    let rest = probe_events(outcomes.subrange(k + 1int, outcomes.len() as int));
    assert(events[0] == EventView::Probed(outcomes[k as int]));
    assert(events.drop_first() =~= rest);
    lemma_surviving_prefix(urls, outcomes, k as int);
    let r = analyst_next(a, ctx, events[0]);
    assert(events.len() > 0);
    assert(analyst_run(a, ctx, events) == analyst_run(r.0, r.1, rest));
    assert(r.0.kept == surviving_urls(urls.take(k + 1int), outcomes.take(k + 1int)));
    if k + 1 < urls.len() {
        lemma_probe_phase(r.0, r.1, urls, outcomes, k + 1);
    } else {
        assert(urls.take(k + 1int) =~= urls);
        assert(outcomes.take(k + 1int) =~= outcomes);
        assert(rest.len() == 0);
        assert(r.0.state == AgentState::Done);
        assert(analyst_run(r.0, r.1, rest) == (r.0, r.1));
    }
}

/// Once the URL list is recorded and `Testing` entered, probing keeps
/// exactly the URLs whose probe answered 200, in their order (a transport
/// error excludes like any other status), and then the scoping agent is done.
pub proof fn lemma_probe_keeps_passing_urls(
    a: AnalystView,
    ctx: TaskListView,
    urls: Seq<Seq<char>>,
    outcomes: Seq<ProbeOutcomeView>,
)
    requires
        outcomes.len() == urls.len(),
    ensures
        ({
            let entered = urls_decided(a, ctx, urls);
            let end = analyst_run(entered.0, entered.1, seq![EventView::Ack] + probe_events(outcomes));
            &&& entered.0.state == AgentState::Testing
            &&& entered.1.external_urls == Some(urls)
            &&& end.0.state == AgentState::Done
            &&& end.1.external_urls == Some(surviving_urls(urls, outcomes))
        }),
{
    let entered = urls_decided(a, ctx, urls);
    let events = seq![EventView::Ack] + probe_events(outcomes);
    assert(events[0] == EventView::Ack);
    assert(events.drop_first() =~= probe_events(outcomes));
    let r = analyst_next(entered.0, entered.1, events[0]);
    assert(analyst_run(entered.0, entered.1, events) == analyst_run(r.0, r.1, probe_events(outcomes)));
    if urls.len() == 0 {
        assert(probe_events(outcomes).len() == 0);
        assert(r.1.external_urls == Some(surviving_urls(urls, outcomes)));
    } else {
        assert(urls.take(0) =~= seq![]);
        assert(outcomes.take(0) =~= seq![]);
        assert(outcomes.subrange(0, outcomes.len() as int) =~= outcomes);
        lemma_probe_phase(r.0, r.1, urls, outcomes, 0);
    }
}

/// The results of the build agent's steps over a sequence of events.
pub open spec fn backend_trace(b: BackendView, ctx: TaskListView, events: Seq<EventView>) -> Seq<BackendResult>
    decreases events.len(),
{
    if events.len() == 0 {
        seq![]
    } else {
        let r = backend_next(b, ctx, events[0]);
        seq![r] + backend_trace(r.0, r.1, events.drop_first())
    }
}

/// The build agent's state and the context after a sequence of events.
pub open spec fn backend_run(b: BackendView, ctx: TaskListView, events: Seq<EventView>) -> (BackendView, TaskListView)
    decreases events.len(),
{
    if events.len() == 0 {
        (b, ctx)
    } else {
        let r = backend_next(b, ctx, events[0]);
        backend_run(r.0, r.1, events.drop_first())
    }
}

/// The events of one fix cycle: the fixed source arrives, its saving
/// completes, the confirmation notice is shown, the user confirms, and the
/// build notice is shown.
pub open spec fn fix_cycle(fix: Seq<char>) -> Seq<EventView> {
    seq![
        EventView::Text(fix),
        EventView::Ack,
        EventView::Ack,
        EventView::Confirmed(true),
        EventView::Ack,
    ]
}

/// The events of a series of builds: each build outcome, and a fix cycle
/// after each failure.
pub open spec fn build_events(outcomes: Seq<BuildOutcomeView>, fix: Seq<char>) -> Seq<EventView>
    decreases outcomes.len(),
{
    if outcomes.len() == 0 {
        seq![]
    } else {
        seq![EventView::Built(outcomes[0])] + (if outcomes[0] is Failure {
            fix_cycle(fix)
        } else {
            seq![]
        }) + build_events(outcomes.drop_first(), fix)
    }
}

/// How many builds fail before the first one that succeeds.
pub open spec fn leading_failures(outcomes: Seq<BuildOutcomeView>) -> nat
    decreases outcomes.len(),
{
    if outcomes.len() == 0 || outcomes[0] is Success {
        0
    } else {
        1 + leading_failures(outcomes.drop_first())
    }
}

pub open spec fn is_fix_request(a: ActionView) -> bool {
    a matches ActionView::Generate { task, .. } && task == GenerationTask::FixedCode
}

pub open spec fn is_escalation(a: ActionView) -> bool {
    a == ActionView::Abort(AgentError::TooManyBugs)
}

pub open spec fn fix_pred() -> spec_fn(ActionView) -> bool {
    |a: ActionView| is_fix_request(a)
}

pub open spec fn build_pred() -> spec_fn(ActionView) -> bool {
    |a: ActionView| a is Build
}

pub open spec fn escalation_pred() -> spec_fn(ActionView) -> bool {
    |a: ActionView| is_escalation(a)
}

/// How many steps of a trace ask for an action that satisfies `p`.
pub open spec fn count_actions(t: Seq<BackendResult>, p: spec_fn(ActionView) -> bool) -> nat
    decreases t.len(),
{
    if t.len() == 0 {
        0
    } else {
        (if p(t[0].2) {
            1nat
        } else {
            0nat
        }) + count_actions(t.drop_first(), p)
    }
}

/// A finished build agent stays finished and asks for nothing more.
proof fn lemma_backend_done_absorbs(b: BackendView, ctx: TaskListView, events: Seq<EventView>)
    requires
        b.state == AgentState::Done,
    ensures
        backend_run(b, ctx, events) == (b, ctx),
        count_actions(backend_trace(b, ctx, events), fix_pred()) == 0,
        count_actions(backend_trace(b, ctx, events), build_pred()) == 0,
        count_actions(backend_trace(b, ctx, events), escalation_pred()) == 0,
    decreases events.len(),
{
    if events.len() > 0 {
        lemma_backend_done_absorbs(b, ctx, events.drop_first());
        let t = backend_trace(b, ctx, events);
        assert(t.drop_first() =~= backend_trace(b, ctx, events.drop_first()));
    }
}

/// One step of a run: its result opens the trace, and the rest of the run
/// goes on from it.
proof fn lemma_backend_step(b: BackendView, ctx: TaskListView, e: EventView, rest: Seq<EventView>)
    ensures
        ({
            let r = backend_next(b, ctx, e);
            let t = backend_trace(b, ctx, seq![e] + rest);
            let u = backend_trace(r.0, r.1, rest);
            &&& backend_run(b, ctx, seq![e] + rest) == backend_run(r.0, r.1, rest)
            &&& count_actions(t, fix_pred()) == (if is_fix_request(r.2) { 1nat } else { 0nat })
                + count_actions(u, fix_pred())
            &&& count_actions(t, build_pred()) == (if r.2 is Build { 1nat } else { 0nat })
                + count_actions(u, build_pred())
            &&& count_actions(t, escalation_pred()) == (if is_escalation(r.2) { 1nat } else { 0nat })
                + count_actions(u, escalation_pred())
        }),
{
    let r = backend_next(b, ctx, e);
    let ev = seq![e] + rest;
    assert(ev[0] == e);
    assert(ev.drop_first() =~= rest);
    let t = backend_trace(b, ctx, ev);
    assert(t[0] == r);
    assert(t.drop_first() =~= backend_trace(r.0, r.1, rest));
}

/// Build outcomes that arrive after the build agent has moved past building
/// are refused and end the agent: no further fix or build is asked for.
proof fn lemma_after_success(b: BackendView, ctx: TaskListView, outcomes: Seq<BuildOutcomeView>, fix: Seq<char>)
    requires
        b.state == AgentState::Testing,
        b.step == BackendStep::NoticeBuilt,
        !b.server_running,
    ensures
        count_actions(backend_trace(b, ctx, build_events(outcomes, fix)), fix_pred()) == 0,
        count_actions(backend_trace(b, ctx, build_events(outcomes, fix)), build_pred()) == 0,
        count_actions(backend_trace(b, ctx, build_events(outcomes, fix)), escalation_pred()) == 0,
{
    let events = build_events(outcomes, fix);
    if outcomes.len() > 0 {
        let e = EventView::Built(outcomes[0]);
        let rest = events.drop_first();
        assert(events =~= seq![e] + rest);
        lemma_backend_step(b, ctx, e, rest);
        let r = backend_next(b, ctx, e);
        assert(r.0.state == AgentState::Done);
        lemma_backend_done_absorbs(r.0, r.1, rest);
    } else {
        assert(backend_trace(b, ctx, events) =~= seq![]);
    }
}

/// The retry ceiling: from a build awaited after `c` failures (at most two),
/// each further failure is followed by exactly one fix cycle (`Working`, then
/// `Testing` again) until the third consecutive failure, which is reported,
/// escalated once with the count at three, and ends the agent, so no fourth
/// build is asked for. From a fresh count the fix cycles number
/// `min(failures, 2)`. A success within the ceiling resets the count and
/// reports that the server built.
pub proof fn lemma_build_retry_ceiling(
    b: BackendView,
    ctx: TaskListView,
    outcomes: Seq<BuildOutcomeView>,
    fix: Seq<char>,
)
    requires
        b.state == AgentState::Testing,
        b.step == BackendStep::AwaitBuild,
        b.bug_count <= 2,
        !b.server_running,
        ctx.backend_code is Some,
    ensures
        ({
            let t = backend_trace(b, ctx, build_events(outcomes, fix));
            let k = leading_failures(outcomes);
            let left = (2 - b.bug_count) as nat;
            &&& count_actions(t, fix_pred()) == if k < left { k } else { left }
            &&& count_actions(t, build_pred()) == if k < left { k } else { left }
            &&& count_actions(t, escalation_pred()) == if k > left { 1nat } else { 0nat }
        }),
        leading_failures(outcomes) > 2 - b.bug_count ==> {
            let end = backend_run(b, ctx, build_events(outcomes, fix)).0;
            &&& end.state == AgentState::Done
            &&& end.bug_count == 3
        },
        leading_failures(outcomes) <= 2 - b.bug_count && outcomes.len() == leading_failures(outcomes) + 1
            ==> {
            let end = backend_run(b, ctx, build_events(outcomes, fix)).0;
            &&& end.state == AgentState::Testing
            &&& end.step == BackendStep::NoticeBuilt
            &&& end.bug_count == 0
        },
    decreases outcomes.len(),
{
    let events = build_events(outcomes, fix);
    if outcomes.len() == 0 {
        assert(backend_trace(b, ctx, events) =~= seq![]);
        return;
    }
    let o = outcomes[0];
    let e0 = EventView::Built(o);
    let rest = build_events(outcomes.drop_first(), fix);
    let r0 = backend_next(b, ctx, e0);
    match o {
        BuildOutcomeView::Success => {
            assert(events =~= seq![e0] + rest);
            lemma_backend_step(b, ctx, e0, rest);
            lemma_after_success(r0.0, r0.1, outcomes.drop_first(), fix);
            if outcomes.len() == 1 {
                assert(rest =~= seq![]);
            }
        },
        BuildOutcomeView::Failure(_) => {
            let e1 = EventView::Text(fix);
            let e2 = EventView::Ack;
            let e3 = EventView::Ack;
            let e4 = EventView::Confirmed(true);
            let e5 = EventView::Ack;
            let q4 = seq![e5] + rest;
            let q3 = seq![e4] + q4;
            let q2 = seq![e3] + q3;
            let q1 = seq![e2] + q2;
            let q0 = seq![e1] + q1;
            assert(events =~= seq![e0] + q0);
            lemma_backend_step(b, ctx, e0, q0);
            let r1 = backend_next(r0.0, r0.1, e1);
            lemma_backend_step(r0.0, r0.1, e1, q1);
            if b.bug_count == 2 {
                assert(r0.0.step == BackendStep::NoticeFatal && r0.0.bug_count == 3);
                assert(r1.0.state == AgentState::Done && is_escalation(r1.2));
                lemma_backend_done_absorbs(r1.0, r1.1, q1);
            } else {
                let r2 = backend_next(r1.0, r1.1, e2);
                let r3 = backend_next(r2.0, r2.1, e3);
                let r4 = backend_next(r3.0, r3.1, e4);
                let r5 = backend_next(r4.0, r4.1, e5);
                lemma_backend_step(r1.0, r1.1, e2, q2);
                lemma_backend_step(r2.0, r2.1, e3, q3);
                lemma_backend_step(r3.0, r3.1, e4, q4);
                lemma_backend_step(r4.0, r4.1, e5, rest);
                assert(is_fix_request(r0.2));
                assert(r1.0.state == AgentState::Testing && r1.0.step == BackendStep::Begin);
                assert(r2.0.step == BackendStep::NoticeConfirm);
                assert(r3.0.step == BackendStep::AwaitConfirm);
                assert(r4.0.step == BackendStep::NoticeBuild);
                assert(r5.0.step == BackendStep::AwaitBuild && r5.2 is Build);
                lemma_build_retry_ceiling(r5.0, r5.1, outcomes.drop_first(), fix);
            }
        },
    }
}

/// The events that take a fresh build agent to its first build: it starts,
/// the template is read, the generated source is saved, the confirmation
/// notice is shown, the user confirms, and the build notice is shown.
pub open spec fn first_build_events(template: Seq<char>, code: Seq<char>) -> Seq<EventView> {
    seq![
        EventView::Ack,
        EventView::Text(template),
        EventView::Text(code),
        EventView::Ack,
        EventView::Ack,
        EventView::Confirmed(true),
        EventView::Ack,
    ]
}

/// The retry ceiling from a fresh build agent: after `k` leading build
/// failures it goes `Working`, `Testing`, `Working` again exactly
/// `min(k, 2)` times, asks for `1 + min(k, 2)` builds in all, and escalates
/// exactly when `k` reaches three, then with the count at three and the agent
/// done. When a success follows at most two failures, the build has
/// succeeded: the count is back at zero.
pub proof fn lemma_fresh_build_retry_ceiling(
    ctx: TaskListView,
    template: Seq<char>,
    code: Seq<char>,
    outcomes: Seq<BuildOutcomeView>,
    fix: Seq<char>,
)
    ensures
        ({
            let events = first_build_events(template, code) + build_events(outcomes, fix);
            let t = backend_trace(AgentBackend::new_view(), ctx, events);
            let k = leading_failures(outcomes);
            let retries = if k < 2 { k } else { 2 };
            &&& count_actions(t, fix_pred()) == retries
            &&& count_actions(t, build_pred()) == 1 + retries
            &&& count_actions(t, escalation_pred()) == if k > 2 { 1nat } else { 0nat }
        }),
        leading_failures(outcomes) > 2 ==> {
            let events = first_build_events(template, code) + build_events(outcomes, fix);
            let end = backend_run(AgentBackend::new_view(), ctx, events).0;
            &&& end.state == AgentState::Done
            &&& end.bug_count == 3
        },
        leading_failures(outcomes) <= 2 && outcomes.len() == leading_failures(outcomes) + 1 ==> {
            let events = first_build_events(template, code) + build_events(outcomes, fix);
            let end = backend_run(AgentBackend::new_view(), ctx, events).0;
            &&& end.state == AgentState::Testing
            &&& end.step == BackendStep::NoticeBuilt
            &&& end.bug_count == 0
        },
{
    let b0 = AgentBackend::new_view();
    let rest = build_events(outcomes, fix);
    let e0 = EventView::Ack;
    let e1 = EventView::Text(template);
    let e2 = EventView::Text(code);
    let e3 = EventView::Ack;
    let e4 = EventView::Ack;
    let e5 = EventView::Confirmed(true);
    let e6 = EventView::Ack;
    let q5 = seq![e6] + rest;
    let q4 = seq![e5] + q5;
    let q3 = seq![e4] + q4;
    let q2 = seq![e3] + q3;
    let q1 = seq![e2] + q2;
    let q0 = seq![e1] + q1;
    assert(first_build_events(template, code) + rest =~= seq![e0] + q0);
    let r0 = backend_next(b0, ctx, e0);
    let r1 = backend_next(r0.0, r0.1, e1);
    let r2 = backend_next(r1.0, r1.1, e2);
    let r3 = backend_next(r2.0, r2.1, e3);
    let r4 = backend_next(r3.0, r3.1, e4);
    let r5 = backend_next(r4.0, r4.1, e5);
    let r6 = backend_next(r5.0, r5.1, e6);
    lemma_backend_step(b0, ctx, e0, q0);
    lemma_backend_step(r0.0, r0.1, e1, q1);
    lemma_backend_step(r1.0, r1.1, e2, q2);
    lemma_backend_step(r2.0, r2.1, e3, q3);
    lemma_backend_step(r3.0, r3.1, e4, q4);
    lemma_backend_step(r4.0, r4.1, e5, q5);
    lemma_backend_step(r5.0, r5.1, e6, rest);
    assert(r2.0.state == AgentState::Working && r2.0.step == BackendStep::Begin);
    assert(r3.0.step == BackendStep::NoticeConfirm);
    assert(r6.0.state == AgentState::Testing && r6.0.step == BackendStep::AwaitBuild && r6.2 is Build);
    assert(r6.0.bug_count == 0 && !r6.0.server_running && r6.1.backend_code is Some);
    lemma_build_retry_ceiling(r6.0, r6.1, outcomes, fix);
}

} // verus!
