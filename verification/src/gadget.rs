//! The configfs gadget and its lifecycle: a state machine that says, step by
//! step, what to do to the kernel's configuration tree, and that the driver
//! feeds with what became of each step.

use vstd::prelude::*;
use vstd::string::StrSliceExecFns;
use vstd::string::StringExecFns;
use vstd::utf8::encode_utf8;
use crate::action::Action;
use crate::action::ActionView;
use crate::action::Outcome;
use crate::descriptor::input_bits;
use crate::descriptor::report_descriptor;
use crate::descriptor::descriptor_bytes;
use crate::descriptor::lemma_descriptor_declares_report_bits;
use crate::error::ErrorView;
use crate::error::GadgetError;
use crate::plan::Plan;
use crate::plan::Step;
use crate::plan::StepKind;
use crate::text::decimal_text;
use crate::text::format_decimal;
use crate::text::format_hex;
use crate::text::hex_text;

verus! {

/// The USB vendor ID of the controller.
pub const SWITCH_PRO_VID: u16 = 0x057E;

/// The USB product ID of the controller.
pub const SWITCH_PRO_PID: u16 = 0x2009;

/// The length in bytes of the reports that the HID function carries.
pub const REPORT_LENGTH: u32 = 7;

/// Where the gadget stands in its life.
#[derive(Debug, Clone, Copy, PartialEq, Eq, Structural)]
pub enum Phase {
    /// Nothing has been done yet.
    Uninitialized,
    /// The kernel modules are in; no gadget is known to exist.
    PrerequisitesLoaded,
    /// The gadget is built and linked, and bound to no controller.
    Provisioned,
    /// The gadget is bound to a controller: reports can flow.
    Active,
    /// The gadget was unbound and unlinked for good.
    TornDown,
}

/// A step that failed, and whether it failed because its path was missing.
#[derive(Debug, Clone, Copy)]
pub struct Fault {
    pub step: Step,
    pub missing: bool,
}

/// What the gadget is busy with.
#[derive(Debug, Clone, Copy)]
pub enum Task {
    /// No request is running.
    Idle,
    /// A request is running: the action for step `index` of `plan` is with
    /// the driver. While `probing`, that action is the probe that comes
    /// before a guarded step. `goal` is the phase that the request ends in,
    /// `fault` the first failure that it will report.
    Running { plan: Plan, index: usize, probing: bool, goal: Phase, fault: Option<Fault> },
}

/// What a `UsbGadget` stands for: its configuration and where it stands.
pub struct GadgetView {
    pub root: Seq<char>,
    pub udc: Seq<char>,
    pub vendor_id: u16,
    pub product_id: u16,
    pub report_length: u32,
    pub report_desc: Seq<u8>,
    pub phase: Phase,
    pub task: Task,
}

impl GadgetView {
    /// The gadget for the controller `udc`, before anything was done.
    pub open spec fn fresh(udc: Seq<char>) -> GadgetView {
        GadgetView {
            root: "/sys/kernel/config/usb_gadget/switch_pro"@,
            udc,
            vendor_id: SWITCH_PRO_VID,
            product_id: SWITCH_PRO_PID,
            report_length: REPORT_LENGTH,
            report_desc: descriptor_bytes(),
            phase: Phase::Uninitialized,
            task: Task::Idle,
        }
    }

    /// The running task points at a step of its plan, and probes only
    /// before a guarded step; the report length is the width that the
    /// descriptor declares.
    pub open spec fn wf(self) -> bool {
        &&& input_bits(self.report_desc) == Some(8 * self.report_length as nat)
        &&& match self.task {
            Task::Idle => true,
            Task::Running { plan, index, probing, goal, fault } => {
                &&& index < plan.spec_steps().len()
                &&& probing ==> plan.spec_steps()[index as int].spec_guarded()
            },
        }
    }

    /// Whether no request is running.
    pub open spec fn idle(self) -> bool {
        self.task is Idle
    }

    /// The module that a module step names; for any other step, the path
    /// that it is aimed at.
    pub open spec fn path(self, step: Step) -> Seq<char> {
        if step.spec_kind() == StepKind::Module {
            step.spec_leaf()
        } else {
            self.root + step.spec_leaf()
        }
    }

    /// The bytes that a writing step writes.
    pub open spec fn data(self, step: Step) -> Seq<u8> {
        match step {
            Step::IdVendor => hex_text(self.vendor_id),
            Step::IdProduct => hex_text(self.product_id),
            Step::BcdDevice => encode_utf8("0x0100"@),
            Step::BcdUsb => encode_utf8("0x0200"@),
            Step::DeviceClass => encode_utf8("0x00"@),
            Step::DeviceSubClass => encode_utf8("0x00"@),
            Step::DeviceProtocol => encode_utf8("0x00"@),
            Step::MaxPacketSize0 => encode_utf8("64"@),
            Step::Manufacturer => encode_utf8("Nintendo"@),
            Step::Product => encode_utf8("Pro Controller"@),
            Step::HidProtocol => encode_utf8("0"@),
            Step::HidSubclass => encode_utf8("0"@),
            Step::ReportLength => decimal_text(self.report_length as nat),
            Step::ReportDescriptor => self.report_desc,
            Step::MaxPower => encode_utf8("500"@),
            Step::Bind => encode_utf8(self.udc),
            _ => Seq::empty(),
        }
    }

    /// The action that carries out a step.
    pub open spec fn operation(self, step: Step) -> ActionView {
        match step.spec_kind() {
            StepKind::Module => ActionView::LoadModule { name: self.path(step) },
            StepKind::MakeDir => ActionView::CreateDir { path: self.path(step) },
            StepKind::WriteFile => ActionView::Write {
                path: self.path(step),
                data: self.data(step),
            },
            StepKind::RemoveFile => ActionView::Remove { path: self.path(step) },
            StepKind::MakeLink => ActionView::Symlink {
                target: self.path(Step::FunctionDir),
                link: self.path(step),
            },
        }
    }

    /// The error that reports a fault: it names the module or the path.
    pub open spec fn error_of(self, fault: Fault) -> ErrorView {
        if fault.step.spec_kind() == StepKind::Module {
            ErrorView::ModuleLoadFailure(self.path(fault.step))
        } else if fault.missing {
            ErrorView::ConfigfsStructureMissing(self.path(fault.step))
        } else {
            ErrorView::ConfigfsWriteFailure(self.path(fault.step))
        }
    }

    /// The end of a request: the gadget enters `goal` and reports the
    /// fault, if there is one.
    pub open spec fn finish(self, goal: Phase, fault: Option<Fault>) -> (GadgetView, ActionView) {
        (
            GadgetView { phase: goal, task: Task::Idle, ..self },
            ActionView::Finished {
                verdict: match fault {
                    None => Ok(()),
                    Some(f) => Err(self.error_of(f)),
                },
            },
        )
    }

    /// The gadget on reaching step `index` of `plan`, and the action that
    /// it hands out there: the probe before a guarded step, the step's own
    /// action otherwise, and the end of the request after the last step.
    pub open spec fn arrive(self, plan: Plan, index: int, goal: Phase, fault: Option<Fault>) -> (
        GadgetView,
        ActionView,
    ) {
        if 0 <= index < plan.spec_steps().len() {
            let step = plan.spec_steps()[index];
            let probing = step.spec_guarded();
            (
                GadgetView {
                    task: Task::Running { plan, index: index as usize, probing, goal, fault },
                    ..self
                },
                if probing {
                    ActionView::Probe { path: self.path(step) }
                } else {
                    self.operation(step)
                },
            )
        } else {
            self.finish(goal, fault)
        }
    }

    /// Whether a request for `plan` is taken up. Undoing is always taken
    /// up, whatever is running. Unbinding is taken up by every idle gadget:
    /// with nothing bound there is nothing to write, and that is success.
    /// The others need an idle gadget in a phase that they can start from.
    pub open spec fn admits(self, plan: Plan) -> bool {
        match plan {
            Plan::Cleanup => true,
            Plan::Load => self.idle() && (self.phase == Phase::Uninitialized || self.phase
                == Phase::PrerequisitesLoaded),
            Plan::Provision => self.idle() && (self.phase == Phase::PrerequisitesLoaded
                || self.phase == Phase::Provisioned || self.phase == Phase::Active),
            Plan::Bind => self.idle() && self.phase == Phase::Provisioned,
            Plan::Unbind => self.idle(),
        }
    }

    /// The phase that a request for `plan` ends in when it succeeds.
    /// Unbinding leaves an active gadget provisioned and every other
    /// gadget in the phase that it is in.
    pub open spec fn goal(self, plan: Plan) -> Phase {
        match plan {
            Plan::Load => Phase::PrerequisitesLoaded,
            Plan::Provision => Phase::Active,
            Plan::Bind => Phase::Active,
            Plan::Unbind => if self.phase == Phase::Active {
                Phase::Provisioned
            } else {
                self.phase
            },
            Plan::Cleanup => Phase::TornDown,
        }
    }

    /// The phase that the gadget is left in when a step fails and what was
    /// done is undone: nothing is bound or linked any more. A gadget whose
    /// modules were never loaded, and one that is torn down, stay as they
    /// are; every other one is left with its prerequisites loaded.
    pub open spec fn fallback(self) -> Phase {
        if self.phase == Phase::Uninitialized || self.phase == Phase::TornDown {
            self.phase
        } else {
            Phase::PrerequisitesLoaded
        }
    }

    /// The gadget after a request for `plan`, and the first action.
    /// A request that is not taken up changes nothing and ends at once with
    /// `InvalidState`. Undoing a gadget that is torn down already ends at
    /// once too, with success: it is undone once only.
    pub open spec fn begin(self, plan: Plan) -> (GadgetView, ActionView) {
        if !self.admits(plan) {
            (self, ActionView::Finished { verdict: Err(ErrorView::InvalidState) })
        } else if plan == Plan::Cleanup && self.phase == Phase::TornDown {
            self.finish(Phase::TornDown, None)
        } else {
            self.arrive(plan, 0, self.goal(plan), None)
        }
    }

    /// The gadget after the driver reports `outcome` for the action that it
    /// was handed, and the next action.
    ///
    /// After a probe, the guarded step is taken if the path exists and
    /// skipped otherwise. A step that succeeded is followed by the next
    /// one, and so is a guarded step whose path turned out to be missing.
    /// Any other outcome is a fault. While undoing, the first fault is kept
    /// for the verdict and the next step is taken. A module that cannot be
    /// inserted ends the request with the phase unchanged. Every other
    /// fault is followed by undoing, which keeps the fault for its verdict
    /// and leaves the gadget in its fallback phase.
    pub open spec fn advance(self, outcome: Outcome) -> (GadgetView, ActionView) {
        match self.task {
            Task::Idle => (self, ActionView::Finished { verdict: Err(ErrorView::InvalidState) }),
            Task::Running { plan, index, probing, goal, fault } => {
                let step = plan.spec_steps()[index as int];
                if probing {
                    if outcome == Outcome::Done {
                        (
                            GadgetView {
                                task: Task::Running { plan, index, probing: false, goal, fault },
                                ..self
                            },
                            self.operation(step),
                        )
                    } else {
                        self.arrive(plan, index + 1, goal, fault)
                    }
                } else if outcome == Outcome::Done || (step.spec_guarded() && outcome
                    == Outcome::Missing) {
                    self.arrive(plan, index + 1, goal, fault)
                } else {
                    let f = Fault { step, missing: outcome == Outcome::Missing };
                    if plan.spec_lenient() {
                        self.arrive(
                            plan,
                            index + 1,
                            goal,
                            if fault is None {
                                Some(f)
                            } else {
                                fault
                            },
                        )
                    } else if step.spec_kind() == StepKind::Module {
                        self.finish(self.phase, Some(f))
                    } else {
                        self.arrive(Plan::Cleanup, 0, self.fallback(), Some(f))
                    }
                }
            },
        }
    }

    /// The gadget with another controller name.
    pub open spec fn with_udc(self, udc: Seq<char>) -> GadgetView {
        GadgetView { udc, ..self }
    }
}

/// The handle on the gadget: its configuration, and where it stands in its
/// life. It does no I/O itself. Each request hands out the first action for
/// the driver to perform; `advance` takes what became of it and hands out
/// the next, until the action is `Finished`.
#[derive(Debug)]
pub struct UsbGadget {
    gadget_path: String,
    udc: String,
    vendor_id: u16,
    product_id: u16,
    report_length: u32,
    report_desc: Vec<u8>,
    phase: Phase,
    task: Task,
}

impl View for UsbGadget {
    type V = GadgetView;

    closed spec fn view(&self) -> GadgetView {
        GadgetView {
            root: self.gadget_path@,
            udc: self.udc@,
            vendor_id: self.vendor_id,
            product_id: self.product_id,
            report_length: self.report_length,
            report_desc: self.report_desc@,
            phase: self.phase,
            task: self.task,
        }
    }
}

impl UsbGadget {
    #[verifier::type_invariant]
    closed spec fn inv(self) -> bool {
        self@.wf()
    }

    /// The gadget for the controller named `udc`, with nothing done yet.
    pub fn new(udc: &str) -> (r: UsbGadget)
        ensures
            r@ == GadgetView::fresh(udc@),
            r@.wf(),
    {
        proof {
            lemma_descriptor_declares_report_bits();
        }
        UsbGadget {
            gadget_path: String::from_str("/sys/kernel/config/usb_gadget/switch_pro"),
            udc: String::from_str(udc),
            vendor_id: SWITCH_PRO_VID,
            product_id: SWITCH_PRO_PID,
            report_length: REPORT_LENGTH,
            report_desc: report_descriptor(),
            phase: Phase::Uninitialized,
            task: Task::Idle,
        }
    }

    /// Every gadget that exists at run time is well formed.
    pub fn prove_wf(&self)
        ensures
            self@.wf(),
    {
        proof {
            use_type_invariant(self);
        }
    }

    /// Where the gadget stands in its life.
    pub fn phase(&self) -> (r: Phase)
        ensures
            r == self@.phase,
    {
        self.phase
    }

    /// Whether the gadget is bound to a controller, so that reports can flow.
    pub fn is_active(&self) -> (r: bool)
        ensures
            r == (self@.phase == Phase::Active),
    {
        match self.phase {
            Phase::Active => true,
            _ => false,
        }
    }

    /// Whether no request is running.
    pub fn is_idle(&self) -> (r: bool)
        ensures
            r == self@.idle(),
    {
        match self.task {
            Task::Idle => true,
            _ => false,
        }
    }

    /// The directory of the gadget in configfs.
    pub fn gadget_path(&self) -> (r: &String)
        ensures
            r@ == self@.root,
    {
        &self.gadget_path
    }

    /// The name of the controller that the gadget binds to.
    pub fn udc(&self) -> (r: &String)
        ensures
            r@ == self@.udc,
    {
        &self.udc
    }

    /// The module that a module step names; for any other step, the path
    /// that it is aimed at.
    pub fn path_of(&self, step: Step) -> (r: String)
        ensures
            r@ == self@.path(step),
    {
        match step.kind() {
            StepKind::Module => String::from_str(step.leaf()),
            _ => self.gadget_path.clone().concat(step.leaf()),
        }
    }

    /// The bytes that a writing step writes.
    pub fn data_of(&self, step: Step) -> (r: Vec<u8>)
        ensures
            r@ == self@.data(step),
    {
        match step {
            Step::IdVendor => format_hex(self.vendor_id),
            Step::IdProduct => format_hex(self.product_id),
            Step::BcdDevice => "0x0100".as_bytes_vec(),
            Step::BcdUsb => "0x0200".as_bytes_vec(),
            Step::DeviceClass => "0x00".as_bytes_vec(),
            Step::DeviceSubClass => "0x00".as_bytes_vec(),
            Step::DeviceProtocol => "0x00".as_bytes_vec(),
            Step::MaxPacketSize0 => "64".as_bytes_vec(),
            Step::Manufacturer => "Nintendo".as_bytes_vec(),
            Step::Product => "Pro Controller".as_bytes_vec(),
            Step::HidProtocol => "0".as_bytes_vec(),
            Step::HidSubclass => "0".as_bytes_vec(),
            Step::ReportLength => format_decimal(self.report_length),
            Step::ReportDescriptor => {
                let r = self.report_desc.clone();
                assert(r@ =~= self.report_desc@);
                r
            },
            Step::MaxPower => "500".as_bytes_vec(),
            Step::Bind => self.udc.as_str().as_bytes_vec(),
            _ => Vec::new(),
        }
    }

    /// The action that carries out a step.
    pub fn operation_of(&self, step: Step) -> (r: Action)
        ensures
            r@ == self@.operation(step),
    {
        match step.kind() {
            StepKind::Module => Action::LoadModule { name: self.path_of(step) },
            StepKind::MakeDir => Action::CreateDir { path: self.path_of(step) },
            StepKind::WriteFile => Action::Write {
                path: self.path_of(step),
                data: self.data_of(step),
            },
            StepKind::RemoveFile => Action::Remove { path: self.path_of(step) },
            StepKind::MakeLink => Action::Symlink {
                target: self.path_of(Step::FunctionDir),
                link: self.path_of(step),
            },
        }
    }

    /// The error that reports a fault.
    fn error_for(&self, fault: Fault) -> (r: GadgetError)
        ensures
            r@ == self@.error_of(fault),
    {
        match fault.step.kind() {
            StepKind::Module => GadgetError::ModuleLoadFailure(self.path_of(fault.step)),
            _ => {
                if fault.missing {
                    GadgetError::ConfigfsStructureMissing(self.path_of(fault.step))
                } else {
                    GadgetError::ConfigfsWriteFailure(self.path_of(fault.step))
                }
            },
        }
    }

    fn finish(&mut self, goal: Phase, fault: Option<Fault>) -> (r: Action)
        ensures
            (final(self)@, r@) == old(self)@.finish(goal, fault),
            final(self)@.wf(),
    {
        proof {
            use_type_invariant(&*self);
        }
        let verdict: Result<(), GadgetError> = match fault {
            None => Ok(()),
            Some(f) => Err(self.error_for(f)),
        };
        self.task = Task::Idle;
        self.phase = goal;
        Action::Finished { verdict }
    }

    fn arrive(&mut self, plan: Plan, index: usize, goal: Phase, fault: Option<Fault>) -> (r: Action)
        ensures
            (final(self)@, r@) == old(self)@.arrive(plan, index as int, goal, fault),
            final(self)@.wf(),
    {
        proof {
            use_type_invariant(&*self);
        }
        let steps = plan.steps();
        if index < steps.len() {
            let step: Step = steps[index];
            let probing: bool = step.guarded();
            self.task = Task::Running { plan, index, probing, goal, fault };
            if probing {
                Action::Probe { path: self.path_of(step) }
            } else {
                self.operation_of(step)
            }
        } else {
            self.finish(goal, fault)
        }
    }

    fn admits(&self, plan: Plan) -> (r: bool)
        ensures
            r == self@.admits(plan),
    {
        let idle = self.is_idle();
        match plan {
            Plan::Cleanup => true,
            Plan::Load => idle && match self.phase {
                Phase::Uninitialized | Phase::PrerequisitesLoaded => true,
                _ => false,
            },
            Plan::Provision => idle && match self.phase {
                Phase::PrerequisitesLoaded | Phase::Provisioned | Phase::Active => true,
                _ => false,
            },
            Plan::Bind => idle && match self.phase {
                Phase::Provisioned => true,
                _ => false,
            },
            Plan::Unbind => idle,
        }
    }

    /// The phase that a request for `plan` ends in when it succeeds.
    pub fn goal_of(&self, plan: Plan) -> (r: Phase)
        ensures
            r == self@.goal(plan),
    {
        match plan {
            Plan::Load => Phase::PrerequisitesLoaded,
            Plan::Provision => Phase::Active,
            Plan::Bind => Phase::Active,
            Plan::Unbind => match self.phase {
                Phase::Active => Phase::Provisioned,
                _ => self.phase,
            },
            Plan::Cleanup => Phase::TornDown,
        }
    }

    /// The phase that the gadget is left in when a step fails and what was
    /// done is undone.
    pub fn fallback_phase(&self) -> (r: Phase)
        ensures
            r == self@.fallback(),
    {
        match self.phase {
            Phase::Uninitialized => Phase::Uninitialized,
            Phase::TornDown => Phase::TornDown,
            _ => Phase::PrerequisitesLoaded,
        }
    }

    /// Starts the request for `plan` and hands out its first action.
    pub fn begin(&mut self, plan: Plan) -> (r: Action)
        ensures
            (final(self)@, r@) == old(self)@.begin(plan),
            final(self)@.wf(),
    {
        proof {
            use_type_invariant(&*self);
        }
        if !self.admits(plan) {
            return Action::Finished { verdict: Err(GadgetError::InvalidState) };
        }
        let torn_down: bool = match self.phase {
            Phase::TornDown => true,
            _ => false,
        };
        let undo: bool = match plan {
            Plan::Cleanup => true,
            _ => false,
        };
        if undo && torn_down {
            self.finish(Phase::TornDown, None)
        } else {
            let goal = self.goal_of(plan);
            self.arrive(plan, 0, goal, None)
        }
    }

    /// Asks for the two kernel modules to be inserted.
    pub fn load_kernel_modules(&mut self) -> (r: Action)
        ensures
            (final(self)@, r@) == old(self)@.begin(Plan::Load),
            final(self)@.wf(),
    {
        self.begin(Plan::Load)
    }

    /// Asks for the gadget to be provisioned and bound: what an earlier run
    /// left is undone first, then the tree is built, then the gadget is
    /// bound to its controller.
    pub fn setup_configfs(&mut self) -> (r: Action)
        ensures
            (final(self)@, r@) == old(self)@.begin(Plan::Provision),
            final(self)@.wf(),
    {
        self.begin(Plan::Provision)
    }

    /// Asks for the gadget to be taken off its controller. The tree stays.
    /// The request is taken up in every phase: `UDC` is written only where
    /// it exists, so with nothing bound, or nothing provisioned at all, the
    /// request touches nothing and ends with success. An active gadget is
    /// left provisioned; any other stays in its phase.
    pub fn disable_gadget(&mut self) -> (r: Action)
        ensures
            (final(self)@, r@) == old(self)@.begin(Plan::Unbind),
            final(self)@.wf(),
    {
        self.begin(Plan::Unbind)
    }

    /// Asks for the provisioned gadget to be bound to the controller named
    /// `udc`. Where the request is not taken up the name is not changed.
    pub fn enable_gadget(&mut self, udc: &str) -> (r: Action)
        ensures
            (final(self)@, r@) == (if old(self)@.admits(Plan::Bind) {
                old(self)@.with_udc(udc@).begin(Plan::Bind)
            } else {
                old(self)@.begin(Plan::Bind)
            }),
            final(self)@.wf(),
    {
        proof {
            use_type_invariant(&*self);
        }
        if self.admits(Plan::Bind) {
            self.udc = String::from_str(udc);
        }
        self.begin(Plan::Bind)
    }

    /// Asks for the gadget to be undone: unbound, then unlinked. It is taken
    /// up in every phase and whatever is running.
    pub fn teardown(&mut self) -> (r: Action)
        ensures
            (final(self)@, r@) == old(self)@.begin(Plan::Cleanup),
            final(self)@.wf(),
    {
        self.begin(Plan::Cleanup)
    }

    /// Takes what became of the action that was handed out last, and hands
    /// out the next one.
    pub fn advance(&mut self, outcome: Outcome) -> (r: Action)
        ensures
            (final(self)@, r@) == old(self)@.advance(outcome),
            final(self)@.wf(),
    {
        proof {
            use_type_invariant(&*self);
        }
        match self.task {
            Task::Idle => Action::Finished { verdict: Err(GadgetError::InvalidState) },
            Task::Running { plan, index, probing, goal, fault } => {
                let steps = plan.steps();
                let step: Step = steps[index];
                if probing {
                    if outcome == Outcome::Done {
                        self.task = Task::Running { plan, index, probing: false, goal, fault };
                        self.operation_of(step)
                    } else {
                        self.arrive(plan, index + 1, goal, fault)
                    }
                } else if outcome == Outcome::Done || (step.guarded() && outcome
                    == Outcome::Missing) {
                    self.arrive(plan, index + 1, goal, fault)
                } else {
                    let f = Fault { step, missing: outcome == Outcome::Missing };
                    if plan.lenient() {
                        let kept: Option<Fault> = match fault {
                            None => Some(f),
                            Some(_) => fault,
                        };
                        self.arrive(plan, index + 1, goal, kept)
                    } else {
                        match step.kind() {
                            StepKind::Module => {
                                let phase = self.phase;
                                self.finish(phase, Some(f))
                            },
                            _ => {
                                let fallback = self.fallback_phase();
                                self.arrive(Plan::Cleanup, 0, fallback, Some(f))
                            },
                        }
                    }
                }
            },
        }
    }
}

} // verus!
