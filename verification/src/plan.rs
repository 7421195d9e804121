//! The steps that bring the gadget up and down, and the order they go in.

use vstd::prelude::*;

verus! {

/// One step in the life of the gadget.
#[derive(Debug, Clone, Copy, PartialEq, Eq, Structural)]
pub enum Step {
    /// Insert the composite-gadget core module.
    LoadComposite,
    /// Insert the HID function module.
    LoadHid,
    /// Write the empty string to `UDC`, if it exists.
    Unbind,
    /// Remove the link from the configuration to the function, if it exists.
    Unlink,
    GadgetDir,
    IdVendor,
    IdProduct,
    BcdDevice,
    BcdUsb,
    DeviceClass,
    DeviceSubClass,
    DeviceProtocol,
    MaxPacketSize0,
    StringsDir,
    Manufacturer,
    Product,
    FunctionDir,
    HidProtocol,
    HidSubclass,
    ReportLength,
    ReportDescriptor,
    ConfigDir,
    MaxPower,
    /// Link the function into the configuration.
    LinkFunction,
    /// Write the controller's name to `UDC`.
    Bind,
}

/// What kind of work a step is.
#[derive(Debug, Clone, Copy, PartialEq, Eq, Structural)]
pub enum StepKind {
    Module,
    MakeDir,
    WriteFile,
    RemoveFile,
    MakeLink,
}

/// The part of provisioning that a step belongs to. The parts go in this
/// order, because the kernel may refuse a later write while the structure
/// that it depends on is missing.
#[derive(Debug, Clone, Copy, PartialEq, Eq, Structural)]
pub enum Stage {
    Prerequisites,
    Cleanup,
    DeviceDescriptors,
    Strings,
    Function,
    Configuration,
    Link,
    Activation,
}

impl Stage {
    /// The place of the stage in the order.
    pub open spec fn rank(self) -> nat {
        match self {
            Stage::Prerequisites => 0,
            Stage::Cleanup => 1,
            Stage::DeviceDescriptors => 2,
            Stage::Strings => 3,
            Stage::Function => 4,
            Stage::Configuration => 5,
            Stage::Link => 6,
            Stage::Activation => 7,
        }
    }
}

impl Step {
    /// What kind of work the step is.
    pub open spec fn spec_kind(self) -> StepKind {
        match self {
            Step::LoadComposite | Step::LoadHid => StepKind::Module,
            Step::GadgetDir | Step::StringsDir | Step::FunctionDir | Step::ConfigDir => {
                StepKind::MakeDir
            },
            Step::Unlink => StepKind::RemoveFile,
            Step::LinkFunction => StepKind::MakeLink,
            _ => StepKind::WriteFile,
        }
    }

    /// What kind of work the step is.
    #[verifier::when_used_as_spec(spec_kind)]
    pub fn kind(self) -> (r: StepKind)
        ensures
            r == self.spec_kind(),
    {
        match self {
            Step::LoadComposite | Step::LoadHid => StepKind::Module,
            Step::GadgetDir | Step::StringsDir | Step::FunctionDir | Step::ConfigDir => {
                StepKind::MakeDir
            },
            Step::Unlink => StepKind::RemoveFile,
            Step::LinkFunction => StepKind::MakeLink,
            _ => StepKind::WriteFile,
        }
    }

    /// Whether the step is taken only where its path exists. The two steps
    /// that undo earlier work are of this kind: with nothing to undo they
    /// are skipped, and a path that vanished meanwhile counts as undone.
    pub open spec fn spec_guarded(self) -> bool {
        self == Step::Unbind || self == Step::Unlink
    }

    /// Whether the step is taken only where its path exists.
    #[verifier::when_used_as_spec(spec_guarded)]
    pub fn guarded(self) -> (r: bool)
        ensures
            r == self.spec_guarded(),
    {
        match self {
            Step::Unbind | Step::Unlink => true,
            _ => false,
        }
    }

    /// The part of provisioning that the step belongs to.
    pub open spec fn stage(self) -> Stage {
        match self {
            Step::LoadComposite | Step::LoadHid => Stage::Prerequisites,
            Step::Unbind | Step::Unlink => Stage::Cleanup,
            Step::GadgetDir
            | Step::IdVendor
            | Step::IdProduct
            | Step::BcdDevice
            | Step::BcdUsb
            | Step::DeviceClass
            | Step::DeviceSubClass
            | Step::DeviceProtocol
            | Step::MaxPacketSize0 => Stage::DeviceDescriptors,
            Step::StringsDir | Step::Manufacturer | Step::Product => Stage::Strings,
            Step::FunctionDir
            | Step::HidProtocol
            | Step::HidSubclass
            | Step::ReportLength
            | Step::ReportDescriptor => Stage::Function,
            Step::ConfigDir | Step::MaxPower => Stage::Configuration,
            Step::LinkFunction => Stage::Link,
            Step::Bind => Stage::Activation,
        }
    }

    /// The name of the module that a module step inserts, and for every
    /// other step the path it is aimed at, from the gadget's directory on.
    pub open spec fn spec_leaf(self) -> Seq<char> {
        match self {
            Step::LoadComposite => "libcomposite"@,
            Step::LoadHid => "usb_f_hid"@,
            Step::Unbind => "/UDC"@,
            Step::Unlink => "/configs/c.1/hid.usb0"@,
            Step::GadgetDir => ""@,
            Step::IdVendor => "/idVendor"@,
            Step::IdProduct => "/idProduct"@,
            Step::BcdDevice => "/bcdDevice"@,
            Step::BcdUsb => "/bcdUSB"@,
            Step::DeviceClass => "/bDeviceClass"@,
            Step::DeviceSubClass => "/bDeviceSubClass"@,
            Step::DeviceProtocol => "/bDeviceProtocol"@,
            Step::MaxPacketSize0 => "/bMaxPacketSize0"@,
            Step::StringsDir => "/strings/0x409"@,
            Step::Manufacturer => "/strings/0x409/manufacturer"@,
            Step::Product => "/strings/0x409/product"@,
            Step::FunctionDir => "/functions/hid.usb0"@,
            Step::HidProtocol => "/functions/hid.usb0/protocol"@,
            Step::HidSubclass => "/functions/hid.usb0/subclass"@,
            Step::ReportLength => "/functions/hid.usb0/report_length"@,
            Step::ReportDescriptor => "/functions/hid.usb0/report_desc"@,
            Step::ConfigDir => "/configs/c.1"@,
            Step::MaxPower => "/configs/c.1/MaxPower"@,
            Step::LinkFunction => "/configs/c.1/hid.usb0"@,
            Step::Bind => "/UDC"@,
        }
    }

    /// The name of the module that a module step inserts, and for every
    /// other step the path it is aimed at, from the gadget's directory on.
    pub fn leaf(self) -> (r: &'static str)
        ensures
            r@ == self.spec_leaf(),
    {
        match self {
            Step::LoadComposite => "libcomposite",
            Step::LoadHid => "usb_f_hid",
            Step::Unbind => "/UDC",
            Step::Unlink => "/configs/c.1/hid.usb0",
            Step::GadgetDir => "",
            Step::IdVendor => "/idVendor",
            Step::IdProduct => "/idProduct",
            Step::BcdDevice => "/bcdDevice",
            Step::BcdUsb => "/bcdUSB",
            Step::DeviceClass => "/bDeviceClass",
            Step::DeviceSubClass => "/bDeviceSubClass",
            Step::DeviceProtocol => "/bDeviceProtocol",
            Step::MaxPacketSize0 => "/bMaxPacketSize0",
            Step::StringsDir => "/strings/0x409",
            Step::Manufacturer => "/strings/0x409/manufacturer",
            Step::Product => "/strings/0x409/product",
            Step::FunctionDir => "/functions/hid.usb0",
            Step::HidProtocol => "/functions/hid.usb0/protocol",
            Step::HidSubclass => "/functions/hid.usb0/subclass",
            Step::ReportLength => "/functions/hid.usb0/report_length",
            Step::ReportDescriptor => "/functions/hid.usb0/report_desc",
            Step::ConfigDir => "/configs/c.1",
            Step::MaxPower => "/configs/c.1/MaxPower",
            Step::LinkFunction => "/configs/c.1/hid.usb0",
            Step::Bind => "/UDC",
        }
    }
}

/// A sequence of steps that is run as one request.
#[derive(Debug, Clone, Copy, PartialEq, Eq, Structural)]
pub enum Plan {
    /// Insert the two kernel modules.
    Load,
    /// Undo what an earlier run left, build the gadget, bind it.
    Provision,
    /// Bind the provisioned gadget to a controller.
    Bind,
    /// Take the gadget off its controller.
    Unbind,
    /// Undo: unbind, then unlink, always in that order.
    Cleanup,
}

impl Plan {
    /// The steps of the plan, in the order they are taken.
    pub open spec fn spec_steps(self) -> Seq<Step> {
        match self {
            Plan::Load => seq![Step::LoadComposite, Step::LoadHid],
            Plan::Provision => seq![
                Step::Unbind,
                Step::Unlink,
                Step::GadgetDir,
                Step::IdVendor,
                Step::IdProduct,
                Step::BcdDevice,
                Step::BcdUsb,
                Step::DeviceClass,
                Step::DeviceSubClass,
                Step::DeviceProtocol,
                Step::MaxPacketSize0,
                Step::StringsDir,
                Step::Manufacturer,
                Step::Product,
                Step::FunctionDir,
                Step::HidProtocol,
                Step::HidSubclass,
                Step::ReportLength,
                Step::ReportDescriptor,
                Step::ConfigDir,
                Step::MaxPower,
                Step::LinkFunction,
                Step::Bind,
            ],
            Plan::Bind => seq![Step::Bind],
            Plan::Unbind => seq![Step::Unbind],
            Plan::Cleanup => seq![Step::Unbind, Step::Unlink],
        }
    }

    /// The steps of the plan, in the order they are taken.
    pub fn steps(self) -> (r: Vec<Step>)
        ensures
            r@ == self.spec_steps(),
            r@.len() >= 1,
    {
        let r = match self {
            Plan::Load => vec![Step::LoadComposite, Step::LoadHid],
            Plan::Provision => vec![
                Step::Unbind,
                Step::Unlink,
                Step::GadgetDir,
                Step::IdVendor,
                Step::IdProduct,
                Step::BcdDevice,
                Step::BcdUsb,
                Step::DeviceClass,
                Step::DeviceSubClass,
                Step::DeviceProtocol,
                Step::MaxPacketSize0,
                Step::StringsDir,
                Step::Manufacturer,
                Step::Product,
                Step::FunctionDir,
                Step::HidProtocol,
                Step::HidSubclass,
                Step::ReportLength,
                Step::ReportDescriptor,
                Step::ConfigDir,
                Step::MaxPower,
                Step::LinkFunction,
                Step::Bind,
            ],
            Plan::Bind => vec![Step::Bind],
            Plan::Unbind => vec![Step::Unbind],
            Plan::Cleanup => vec![Step::Unbind, Step::Unlink],
        };
        assert(r@ =~= self.spec_steps());
        r
    }

    /// Whether a failed step is noted and the plan goes on. Undoing is of
    /// that kind: each of its steps is tried whatever became of the others.
    pub open spec fn spec_lenient(self) -> bool {
        self == Plan::Cleanup
    }

    /// Whether a failed step is noted and the plan goes on.
    #[verifier::when_used_as_spec(spec_lenient)]
    pub fn lenient(self) -> (r: bool)
        ensures
            r == self.spec_lenient(),
    {
        match self {
            Plan::Cleanup => true,
            _ => false,
        }
    }
}

/// Provisioning takes its steps stage by stage: what undoes an earlier run
/// comes first, then the device descriptors, the strings, the HID function,
/// the configuration, the link from the configuration to the function, and
/// last the binding to the controller.
pub proof fn lemma_provision_goes_by_stage(i: int, j: int)
    requires
        0 <= i <= j < Plan::Provision.spec_steps().len(),
    ensures
        Plan::Provision.spec_steps()[i].stage().rank() <= Plan::Provision.spec_steps()[j].stage().rank(),
{
    let s = Plan::Provision.spec_steps();
    assert(s.len() == 23);
    assert(s[0].stage().rank() == 1 && s[1].stage().rank() == 1);
    assert(forall|k: int| 2 <= k <= 10 ==> (#[trigger] s[k]).stage().rank() == 2);
    assert(forall|k: int| 11 <= k <= 13 ==> (#[trigger] s[k]).stage().rank() == 3);
    assert(forall|k: int| 14 <= k <= 18 ==> (#[trigger] s[k]).stage().rank() == 4);
    assert(forall|k: int| 19 <= k <= 20 ==> (#[trigger] s[k]).stage().rank() == 5);
    assert(s[21].stage().rank() == 6 && s[22].stage().rank() == 7);
}

/// Undoing unbinds before it unlinks, and provisioning begins by undoing.
pub proof fn lemma_unbind_precedes_unlink()
    ensures
        Plan::Cleanup.spec_steps() == seq![Step::Unbind, Step::Unlink],
        Plan::Provision.spec_steps()[0] == Step::Unbind,
        Plan::Provision.spec_steps()[1] == Step::Unlink,
{
}

} // verus!
