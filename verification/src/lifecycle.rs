//! What holds of every run of the gadget's lifecycle.

use vstd::prelude::*;
use vstd::utf8::encode_utf8;
use crate::action::ActionView;
use crate::descriptor::descriptor_bytes;
use crate::descriptor::input_bits;
use crate::descriptor::lemma_descriptor_declares_report_bits;
use crate::report::report_bytes;
use crate::state::ControllerView;
use crate::action::Outcome;
use crate::error::ErrorView;
use crate::gadget::Fault;
use crate::gadget::GadgetView;
use crate::gadget::Phase;
use crate::gadget::Task;
use crate::plan::Plan;
use crate::plan::Step;
use crate::plan::StepKind;
use crate::text::decimal_text;

verus! {

/// The gadget after the driver has reported `outcomes` one by one, and the
/// actions that it was handed in return. The run stops where the request
/// ends; outcomes that are left over are not looked at.
pub open spec fn run(g: GadgetView, outcomes: Seq<Outcome>) -> (GadgetView, Seq<ActionView>)
    decreases outcomes.len(),
{
    if outcomes.len() == 0 || g.idle() {
        (g, Seq::empty())
    } else {
        let (next, action) = g.advance(outcomes[0]);
        let (last, rest) = run(next, outcomes.drop_first());
        (last, seq![action] + rest)
    }
}

/// Whether an action is one of those that undo the gadget: the probe of
/// `UDC`, the write of the empty string to it, the probe of the function's
/// link, and its removal.
pub open spec fn is_undo_action(g: GadgetView, action: ActionView) -> bool {
    ||| action == (ActionView::Probe { path: g.path(Step::Unbind) })
    ||| action == (ActionView::Write { path: g.path(Step::Unbind), data: Seq::<u8>::empty() })
    ||| action == (ActionView::Probe { path: g.path(Step::Unlink) })
    ||| action == (ActionView::Remove { path: g.path(Step::Unlink) })
}

/// The number of outcomes that a running request can still take before it
/// ends, if every one of them is a success.
pub open spec fn outcomes_left(g: GadgetView) -> int {
    match g.task {
        Task::Idle => 0,
        Task::Running { plan, index, probing, goal, fault } => 2 * (plan.spec_steps().len() - index)
            - (if probing {
            0int
        } else {
            1int
        }),
    }
}

/// The first action of undoing is the probe of `UDC`, whatever the gadget
/// was doing; a gadget that is torn down already is not undone again.
pub proof fn lemma_teardown_is_always_taken_up(g: GadgetView)
    requires
        g.wf(),
    ensures
        g.admits(Plan::Cleanup),
        g.phase == Phase::TornDown ==> g.begin(Plan::Cleanup) == (
            GadgetView { task: Task::Idle, ..g },
            ActionView::Finished { verdict: Ok(()) },
        ),
        g.phase != Phase::TornDown ==> g.begin(Plan::Cleanup).1 == (ActionView::Probe {
            path: g.path(Step::Unbind),
        }),
        g.begin(Plan::Cleanup).0.wf(),
{
}

/// Undoing comes to its end within four outcomes, whatever they are. It
/// hands out nothing but undo actions, leaves the gadget idle in the phase
/// that it aimed for, and reports the fault that it started with, if any.
/// Without one it reports success unless one of its own steps failed.
pub proof fn lemma_undoing_completes(g: GadgetView, outcomes: Seq<Outcome>)
    requires
        g.wf(),
        g.task matches Task::Running { plan, index, probing, .. } && plan == Plan::Cleanup && index
            == 0 && probing,
        outcomes.len() >= 4,
    ensures
        ({
            let (last, trace) = run(g, outcomes);
            &&& last.idle()
            &&& last == GadgetView { phase: g.task->goal, task: Task::Idle, ..g }
            &&& 2 <= trace.len() <= 4
            &&& forall|i: int| 0 <= i < trace.len() - 1 ==> is_undo_action(g, #[trigger] trace[i])
            &&& trace.last() is Finished
            &&& g.task->fault matches Some(f) ==> trace.last() == (ActionView::Finished {
                verdict: Err(g.error_of(f)),
            })
            &&& g.task->fault is None && (forall|i: int|
                0 <= i < 4 ==> outcomes[i] != Outcome::Failed) ==> trace.last() == (
                ActionView::Finished { verdict: Ok(()) })
        }),
{
    reveal_with_fuel(run, 5);
    let o1 = outcomes[0];
    let o2 = outcomes[1];
    let o3 = outcomes[2];
    let o4 = outcomes[3];
    let t1 = outcomes.drop_first();
    let t2 = t1.drop_first();
    let t3 = t2.drop_first();
    assert(t1[0] == o2 && t2[0] == o3 && t3[0] == o4);
    let s = Plan::Cleanup.spec_steps();
    assert(s.len() == 2 && s[0] == Step::Unbind && s[1] == Step::Unlink);
}

/// Teardown can be asked for at any time, in any phase and whatever is
/// running, and always comes to its end: within four outcomes, whatever they
/// are, the gadget is idle and torn down, its configuration as it was, and
/// nothing but undo actions was handed out.
pub proof fn lemma_teardown_always_tears_down(g: GadgetView, outcomes: Seq<Outcome>)
    requires
        g.wf(),
        outcomes.len() >= 4,
    ensures
        ({
            let (g1, a1) = g.begin(Plan::Cleanup);
            let (last, trace) = run(g1, outcomes);
            &&& last == GadgetView { phase: Phase::TornDown, task: Task::Idle, ..g }
            &&& a1 is Finished || is_undo_action(g, a1)
            &&& forall|i: int| 0 <= i < trace.len() - 1 ==> is_undo_action(g, #[trigger] trace[i])
        }),
{
    let s = Plan::Cleanup.spec_steps();
    assert(s.len() == 2 && s[0] == Step::Unbind && s[1] == Step::Unlink);
    let (g1, a1) = g.begin(Plan::Cleanup);
    if g.phase == Phase::TornDown {
        assert(g1.idle());
        assert(run(g1, outcomes).1 =~= Seq::<ActionView>::empty());
    } else {
        lemma_undoing_completes(g1, outcomes);
    }
}

/// The number of outcomes within which a running request ends, whatever
/// they are: those that its own steps can take, and four more for the
/// undoing that a fault may set off.
pub open spec fn outcomes_at_most(g: GadgetView) -> int {
    match g.task {
        Task::Idle => 0,
        Task::Running { plan, .. } => outcomes_left(g) + (if plan.spec_lenient() {
            0int
        } else {
            4int
        }),
    }
}

/// Every request comes to its end, whatever the driver reports: no run is
/// longer than `outcomes_at_most` says, and none is longer than fifty
/// outcomes.
pub proof fn lemma_every_request_ends(g: GadgetView, outcomes: Seq<Outcome>)
    requires
        g.wf(),
        outcomes.len() >= outcomes_at_most(g),
    ensures
        run(g, outcomes).0.idle(),
        run(g, outcomes).0.wf(),
        outcomes_at_most(g) <= 50,
    decreases outcomes_at_most(g),
{
    assert(Plan::Cleanup.spec_steps().len() == 2);
    assert(Plan::Provision.spec_steps().len() == 23);
    assert(Plan::Load.spec_steps().len() == 2);
    assert(Plan::Bind.spec_steps().len() == 1);
    assert(Plan::Unbind.spec_steps().len() == 1);
    if !g.idle() {
        let (next, action) = g.advance(outcomes[0]);
        lemma_every_request_ends(next, outcomes.drop_first());
    }
}

/// Undoing a gadget of which nothing exists touches nothing: with both
/// probes finding no path, no action that changes the file system is handed
/// out, and the request ends with success in the torn-down phase.
pub proof fn lemma_teardown_of_nothing_is_safe(g: GadgetView, first: Outcome, second: Outcome)
    requires
        g.wf(),
        g.phase != Phase::TornDown,
        first != Outcome::Done,
        second != Outcome::Done,
    ensures
        ({
            let (g1, a1) = g.begin(Plan::Cleanup);
            let (g2, a2) = g1.advance(first);
            let (g3, a3) = g2.advance(second);
            &&& a1 == ActionView::Probe { path: g.path(Step::Unbind) }
            &&& a2 == ActionView::Probe { path: g.path(Step::Unlink) }
            &&& a3 == ActionView::Finished { verdict: Ok(()) }
            &&& g3 == GadgetView { phase: Phase::TornDown, task: Task::Idle, ..g }
        }),
{
    let s = Plan::Cleanup.spec_steps();
    assert(s.len() == 2 && s[0] == Step::Unbind && s[1] == Step::Unlink);
}

/// Unbinding is safe whatever was provisioned: every idle gadget takes the
/// request up and begins with the probe of `UDC`. Where that finds no path,
/// nothing is written, the request ends with success, and the gadget is as
/// it was, unless it was active: then it is left provisioned. Where `UDC`
/// exists, the empty string is written to it and nothing else.
pub proof fn lemma_unbinding_is_safe(g: GadgetView, probe: Outcome, write: Outcome)
    requires
        g.wf(),
        g.idle(),
        write == Outcome::Done || write == Outcome::Missing,
    ensures
        ({
            let after = if g.phase == Phase::Active {
                Phase::Provisioned
            } else {
                g.phase
            };
            let (g1, a1) = g.begin(Plan::Unbind);
            let (g2, a2) = g1.advance(probe);
            let (g3, a3) = g2.advance(write);
            &&& g.admits(Plan::Unbind)
            &&& a1 == ActionView::Probe { path: g.path(Step::Unbind) }
            &&& probe != Outcome::Done ==> a2 == ActionView::Finished { verdict: Ok(()) } && g2
                == GadgetView { phase: after, ..g }
            &&& probe == Outcome::Done ==> a2 == ActionView::Write {
                path: g.path(Step::Unbind),
                data: Seq::<u8>::empty(),
            } && a3 == ActionView::Finished { verdict: Ok(()) } && g3 == GadgetView {
                phase: after,
                ..g
            }
        }),
{
    let u = Plan::Unbind.spec_steps();
    assert(u.len() == 1 && u[0] == Step::Unbind);
}

/// A step of provisioning, binding or unbinding that fails is followed by
/// undoing: the next action is the probe of `UDC`, then come undo actions
/// only, and the request ends with the error that names the path of the
/// step that failed. The gadget is left idle in its fallback phase: with its
/// prerequisites loaded, where they were.
pub proof fn lemma_failed_step_is_undone(g: GadgetView, outcome: Outcome, cleanup: Seq<Outcome>)
    requires
        g.wf(),
        g.task matches Task::Running { plan, index, probing, .. } && !probing
            && !plan.spec_lenient() && plan.spec_steps()[index as int].spec_kind()
            != StepKind::Module && !(plan.spec_steps()[index as int].spec_guarded() && outcome
            == Outcome::Missing),
        outcome != Outcome::Done,
        cleanup.len() >= 4,
    ensures
        ({
            let step = (g.task->plan).spec_steps()[g.task->index as int];
            let fault = Fault { step, missing: outcome == Outcome::Missing };
            let (g1, a1) = g.advance(outcome);
            let (last, trace) = run(g1, cleanup);
            &&& a1 == ActionView::Probe { path: g.path(Step::Unbind) }
            &&& last == GadgetView { phase: g.fallback(), task: Task::Idle, ..g }
            &&& g.phase != Phase::Uninitialized && g.phase != Phase::TornDown ==> last.phase
                == Phase::PrerequisitesLoaded
            &&& forall|i: int| 0 <= i < trace.len() - 1 ==> is_undo_action(g, #[trigger] trace[i])
            &&& trace.len() >= 2
            &&& trace.last() == ActionView::Finished { verdict: Err(g.error_of(fault)) }
            &&& g.error_of(fault) == (if outcome == Outcome::Missing {
                ErrorView::ConfigfsStructureMissing(g.root + step.spec_leaf())
            } else {
                ErrorView::ConfigfsWriteFailure(g.root + step.spec_leaf())
            })
        }),
{
    let s = Plan::Cleanup.spec_steps();
    assert(s.len() == 2 && s[0] == Step::Unbind && s[1] == Step::Unlink);
    let (g1, a1) = g.advance(outcome);
    lemma_undoing_completes(g1, cleanup);
}

/// A module that cannot be inserted ends the request at once, with the
/// error that names the module; nothing is undone, because nothing was
/// built, and the phase stays as it was.
pub proof fn lemma_failed_module_ends_request(g: GadgetView, outcome: Outcome)
    requires
        g.wf(),
        g.task matches Task::Running { plan, index, probing, .. } && plan == Plan::Load,
        outcome != Outcome::Done,
    ensures
        ({
            let step = Plan::Load.spec_steps()[g.task->index as int];
            g.advance(outcome) == (
                GadgetView { task: Task::Idle, ..g },
                ActionView::Finished { verdict: Err(ErrorView::ModuleLoadFailure(step.spec_leaf())) },
            )
        }),
{
    let s = Plan::Load.spec_steps();
    assert(s.len() == 2 && s[0] == Step::LoadComposite && s[1] == Step::LoadHid);
}

/// A request whose every step succeeds ends with success in the phase that
/// it aimed for, and leaves the configuration as it was.
pub proof fn lemma_success_reaches_goal(g: GadgetView, outcomes: Seq<Outcome>)
    requires
        g.wf(),
        !g.idle(),
        g.task->fault is None,
        outcomes.len() >= outcomes_left(g),
        forall|i: int| 0 <= i < outcomes.len() ==> outcomes[i] == Outcome::Done,
    ensures
        ({
            let (last, trace) = run(g, outcomes);
            &&& last == GadgetView { phase: g.task->goal, task: Task::Idle, ..g }
            &&& trace.len() >= 1
            &&& trace.last() == ActionView::Finished { verdict: Ok(()) }
            &&& forall|i: int| 0 <= i < trace.len() - 1 ==> !(#[trigger] trace[i] is Finished)
        }),
    decreases outcomes_left(g),
{
    let (next, action) = g.advance(outcomes[0]);
    let rest = outcomes.drop_first();
    let (last, trace) = run(g, outcomes);
    assert(trace == seq![action] + run(next, rest).1);
    if next.idle() {
        assert(run(next, rest).1 =~= Seq::<ActionView>::empty());
        assert(trace =~= seq![action]);
    } else {
        lemma_success_reaches_goal(next, rest);
        let tail = run(next, rest).1;
        assert(trace.last() == tail.last());
        assert forall|i: int| 0 <= i < trace.len() - 1 implies !(#[trigger] trace[i] is Finished) by {
            if i > 0 {
                assert(trace[i] == tail[i - 1]);
            }
        }
    }
}

/// Whether two gadgets differ at most in their phase and in the phase that
/// the running request aims for.
pub open spec fn same_but_phase(g: GadgetView, h: GadgetView) -> bool {
    &&& GadgetView { phase: g.phase, task: g.task, ..h } == g
    &&& g.task matches Task::Running { plan, index, probing, goal, fault }
    &&& h.task matches Task::Running { plan: p, index: i, probing: b, goal: _, fault: f }
    &&& p == plan && i == index && b == probing && f == fault
}

/// The actions of a request other than the loading of modules do not
/// depend on the phase that the gadget was in when the request began.
pub proof fn lemma_actions_ignore_phase(g: GadgetView, h: GadgetView, outcomes: Seq<Outcome>)
    requires
        g.wf(),
        same_but_phase(g, h),
        g.task->plan != Plan::Load,
    ensures
        run(h, outcomes).1 == run(g, outcomes).1,
    decreases outcomes.len(),
{
    if outcomes.len() > 0 {
        let (g1, a) = g.advance(outcomes[0]);
        let (h1, b) = h.advance(outcomes[0]);
        let rest = outcomes.drop_first();
        assert(a == b);
        assert(Plan::Cleanup.spec_steps().len() == 2);
        assert(!g.idle() && !h.idle());
        assert(run(g, outcomes).1 == seq![a] + run(g1, rest).1);
        assert(run(h, outcomes).1 == seq![b] + run(h1, rest).1);
        if g1.idle() {
            assert(h1.idle());
            assert(run(g1, rest).1 =~= run(h1, rest).1);
        } else {
            assert(same_but_phase(g1, h1));
            lemma_actions_ignore_phase(g1, h1, rest);
        }
    }
}

/// Provisioning can be asked for again on a gadget that is provisioned and
/// bound. With every step succeeding it ends as the first time: bound, with
/// the same configuration, having handed out the same actions. It builds no
/// second tree, and it begins by undoing what the earlier run left.
pub proof fn lemma_provisioning_twice_is_provisioning_once(g: GadgetView, outcomes: Seq<Outcome>)
    requires
        g.wf(),
        g.admits(Plan::Provision),
        outcomes.len() >= 2 * Plan::Provision.spec_steps().len(),
        forall|i: int| 0 <= i < outcomes.len() ==> outcomes[i] == Outcome::Done,
    ensures
        ({
            let (g1, a1) = g.begin(Plan::Provision);
            let (once, trace1) = run(g1, outcomes);
            let (g2, a2) = once.begin(Plan::Provision);
            let (twice, trace2) = run(g2, outcomes);
            &&& once == GadgetView { phase: Phase::Active, ..g }
            &&& trace1.last() == ActionView::Finished { verdict: Ok(()) }
            &&& twice == once
            &&& a2 == a1
            &&& trace2 == trace1
            &&& a1 == ActionView::Probe { path: g.path(Step::Unbind) }
        }),
{
    let s = Plan::Provision.spec_steps();
    assert(s.len() == 23 && s[0] == Step::Unbind);
    let (g1, a1) = g.begin(Plan::Provision);
    lemma_success_reaches_goal(g1, outcomes);
    let (once, trace1) = run(g1, outcomes);
    let (g2, a2) = once.begin(Plan::Provision);
    assert(same_but_phase(g1, g2));
    lemma_actions_ignore_phase(g1, g2, outcomes);
    lemma_success_reaches_goal(g2, outcomes);
}

/// A bound gadget can be taken off its controller and bound to another one
/// without being provisioned again: the only file that is written is `UDC`,
/// first with the empty string, then with the other controller's name.
pub proof fn lemma_rebinding_writes_udc_only(g: GadgetView, other: Seq<char>)
    requires
        g.wf(),
        g.idle(),
        g.phase == Phase::Active,
    ensures
        ({
            let (g1, a1) = g.begin(Plan::Unbind);
            let (g2, a2) = g1.advance(Outcome::Done);
            let (g3, a3) = g2.advance(Outcome::Done);
            let (g4, a4) = g3.with_udc(other).begin(Plan::Bind);
            let (g5, a5) = g4.advance(Outcome::Done);
            &&& a1 == ActionView::Probe { path: g.root + "/UDC"@ }
            &&& a2 == ActionView::Write { path: g.root + "/UDC"@, data: Seq::<u8>::empty() }
            &&& a3 == ActionView::Finished { verdict: Ok(()) }
            &&& g3 == GadgetView { phase: Phase::Provisioned, ..g }
            &&& g3.with_udc(other).admits(Plan::Bind)
            &&& a4 == ActionView::Write { path: g.root + "/UDC"@, data: encode_utf8(other) }
            &&& a5 == ActionView::Finished { verdict: Ok(()) }
            &&& g5 == GadgetView { phase: Phase::Active, udc: other, ..g }
        }),
{
    let u = Plan::Unbind.spec_steps();
    assert(u.len() == 1 && u[0] == Step::Unbind);
    let b = Plan::Bind.spec_steps();
    assert(b.len() == 1 && b[0] == Step::Bind);
}

proof fn lemma_ascii_text(text: Seq<char>)
    requires
        vstd::utf8::is_ascii_chars(text),
    ensures
        encode_utf8(text) == Seq::new(text.len(), |i: int| text[i] as u8),
{
    vstd::utf8::is_ascii_chars_encode_utf8(text);
    assert(encode_utf8(text) =~= Seq::new(text.len(), |i: int| text[i] as u8));
}

/// The values that provisioning writes for the controller, byte for byte:
/// the IDs as `0x057e` and `0x2009`, the device release `0x0100`, the USB
/// version `0x0200`, class, subclass and protocol `0x00`, the packet size
/// `64`, the strings `Nintendo` and `Pro Controller`, the HID protocol and
/// subclass `0`, the report length `7`, the power budget `500`. Unbinding
/// writes the empty string.
pub proof fn lemma_attribute_values(udc: Seq<char>)
    ensures
        ({
            let g = GadgetView::fresh(udc);
            &&& g.data(Step::IdVendor) == seq![0x30u8, 0x78, 0x30, 0x35, 0x37, 0x65]
            &&& g.data(Step::IdProduct) == seq![0x30u8, 0x78, 0x32, 0x30, 0x30, 0x39]
            &&& g.data(Step::BcdDevice) == seq![0x30u8, 0x78, 0x30, 0x31, 0x30, 0x30]
            &&& g.data(Step::BcdUsb) == seq![0x30u8, 0x78, 0x30, 0x32, 0x30, 0x30]
            &&& g.data(Step::DeviceClass) == seq![0x30u8, 0x78, 0x30, 0x30]
            &&& g.data(Step::DeviceSubClass) == seq![0x30u8, 0x78, 0x30, 0x30]
            &&& g.data(Step::DeviceProtocol) == seq![0x30u8, 0x78, 0x30, 0x30]
            &&& g.data(Step::MaxPacketSize0) == seq![0x36u8, 0x34]
            &&& g.data(Step::Manufacturer) == seq![
                0x4Eu8,
                0x69,
                0x6E,
                0x74,
                0x65,
                0x6E,
                0x64,
                0x6F,
            ]
            &&& g.data(Step::Product) == seq![
                0x50u8,
                0x72,
                0x6F,
                0x20,
                0x43,
                0x6F,
                0x6E,
                0x74,
                0x72,
                0x6F,
                0x6C,
                0x6C,
                0x65,
                0x72,
            ]
            &&& g.data(Step::HidProtocol) == seq![0x30u8]
            &&& g.data(Step::HidSubclass) == seq![0x30u8]
            &&& g.data(Step::ReportLength) == seq![0x37u8]
            &&& g.data(Step::ReportDescriptor) == descriptor_bytes()
            &&& g.data(Step::MaxPower) == seq![0x35u8, 0x30, 0x30]
            &&& g.data(Step::Bind) == encode_utf8(udc)
            &&& g.data(Step::Unbind) == Seq::<u8>::empty()
        }),
{
    let g = GadgetView::fresh(udc);
    reveal_strlit("0x0100");
    reveal_strlit("0x0200");
    reveal_strlit("0x00");
    reveal_strlit("64");
    reveal_strlit("Nintendo");
    reveal_strlit("Pro Controller");
    reveal_strlit("0");
    reveal_strlit("500");
    lemma_ascii_text("0x0100"@);
    lemma_ascii_text("0x0200"@);
    lemma_ascii_text("0x00"@);
    lemma_ascii_text("64"@);
    lemma_ascii_text("Nintendo"@);
    lemma_ascii_text("Pro Controller"@);
    lemma_ascii_text("0"@);
    lemma_ascii_text("500"@);
    assert(g.data(Step::IdVendor) =~= seq![0x30u8, 0x78, 0x30, 0x35, 0x37, 0x65]);
    assert(g.data(Step::IdProduct) =~= seq![0x30u8, 0x78, 0x32, 0x30, 0x30, 0x39]);
    assert(g.data(Step::BcdDevice) =~= seq![0x30u8, 0x78, 0x30, 0x31, 0x30, 0x30]);
    assert(g.data(Step::BcdUsb) =~= seq![0x30u8, 0x78, 0x30, 0x32, 0x30, 0x30]);
    assert(g.data(Step::DeviceClass) =~= seq![0x30u8, 0x78, 0x30, 0x30]);
    assert(g.data(Step::MaxPacketSize0) =~= seq![0x36u8, 0x34]);
    assert(g.data(Step::Manufacturer) =~= seq![
        0x4Eu8,
        0x69,
        0x6E,
        0x74,
        0x65,
        0x6E,
        0x64,
        0x6F,
    ]);
    assert(g.data(Step::Product) =~= seq![
        0x50u8,
        0x72,
        0x6F,
        0x20,
        0x43,
        0x6F,
        0x6E,
        0x74,
        0x72,
        0x6F,
        0x6C,
        0x6C,
        0x65,
        0x72,
    ]);
    assert(g.data(Step::HidProtocol) =~= seq![0x30u8]);
    assert(decimal_text(7) =~= seq![0x37u8]);
    assert(g.data(Step::MaxPower) =~= seq![0x35u8, 0x30, 0x30]);
}

/// The report length that the gadget declares to the kernel is the length
/// of the report that the encoder gives for every state, and both are the
/// width that the descriptor declares.
pub proof fn lemma_report_length_is_what_is_encoded(udc: Seq<char>, s: ControllerView)
    ensures
        GadgetView::fresh(udc).report_length == report_bytes(s).len(),
        input_bits(GadgetView::fresh(udc).report_desc) == Some(
            8 * report_bytes(s).len(),
        ),
        GadgetView::fresh(udc).wf(),
{
    lemma_descriptor_declares_report_bits();
}

/// The paths of the controller's gadget: its directory is
/// `/sys/kernel/config/usb_gadget/switch_pro`, and a step's path is that
/// directory followed by the step's own part.
pub proof fn lemma_paths_lie_under_the_gadget(udc: Seq<char>, step: Step)
    requires
        step.spec_kind() != StepKind::Module,
    ensures
        GadgetView::fresh(udc).path(step) == "/sys/kernel/config/usb_gadget/switch_pro"@
            + step.spec_leaf(),
        GadgetView::fresh(udc).path(Step::GadgetDir)
            == "/sys/kernel/config/usb_gadget/switch_pro"@,
        GadgetView::fresh(udc).path(Step::Bind) == GadgetView::fresh(udc).path(Step::Unbind),
        GadgetView::fresh(udc).path(Step::Unlink) == GadgetView::fresh(udc).path(
            Step::LinkFunction,
        ),
{
    reveal_strlit("");
    assert("/sys/kernel/config/usb_gadget/switch_pro"@ + ""@
        =~= "/sys/kernel/config/usb_gadget/switch_pro"@);
}

/// Outside a request there is nothing to report on: an outcome handed to an
/// idle gadget changes nothing and is answered with `InvalidState`. So is a
/// request that the gadget's phase does not allow.
pub proof fn lemma_misuse_is_refused(g: GadgetView, outcome: Outcome, plan: Plan)
    requires
        g.idle(),
    ensures
        g.advance(outcome) == (g, ActionView::Finished { verdict: Err(ErrorView::InvalidState) }),
        !g.admits(plan) ==> g.begin(plan) == (
            g,
            ActionView::Finished { verdict: Err(ErrorView::InvalidState) },
        ),
        g.phase == Phase::TornDown && plan != Plan::Cleanup && plan != Plan::Unbind
            ==> !g.admits(plan),
        g.phase == Phase::Uninitialized && plan != Plan::Cleanup && plan != Plan::Load && plan
            != Plan::Unbind ==> !g.admits(plan),
{
}

/// Every step of the state machine keeps the gadget well formed.
pub proof fn lemma_wf_is_kept(g: GadgetView, outcome: Outcome, plan: Plan, udc: Seq<char>)
    requires
        g.wf(),
    ensures
        g.advance(outcome).0.wf(),
        g.begin(plan).0.wf(),
        g.with_udc(udc).wf(),
{
}

} // verus!
