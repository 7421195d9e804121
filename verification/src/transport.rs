//! The transport: which interrupt transfers to make for a report, and what
//! to make of how they went.

use vstd::prelude::*;
use crate::error::ErrorView;
use crate::error::GadgetError;
use crate::gadget::Phase;
use crate::gadget::UsbGadget;
use crate::report::encode;
use crate::report::report_bytes;
use crate::state::ControllerState;

verus! {

/// The address of the interrupt IN endpoint, which carries input reports.
pub const ENDPOINT_IN: u8 = 0x81;

/// The address of the interrupt OUT endpoint, which carries output reports.
pub const ENDPOINT_OUT: u8 = 0x01;

/// The timeout of every transfer, in milliseconds.
pub const TRANSFER_TIMEOUT_MS: u64 = 100;

/// The size of the buffer that an output report is read into.
pub const OUTPUT_REPORT_CAPACITY: usize = 64;

/// An interrupt transfer that writes `data` to `endpoint`.
#[derive(Debug, PartialEq, Eq)]
pub struct InterruptWrite {
    pub endpoint: u8,
    pub data: Vec<u8>,
    pub timeout_ms: u64,
}

/// What an `InterruptWrite` stands for.
pub struct WriteView {
    pub endpoint: u8,
    pub data: Seq<u8>,
    pub timeout_ms: u64,
}

impl View for InterruptWrite {
    type V = WriteView;

    open spec fn view(&self) -> WriteView {
        WriteView { endpoint: self.endpoint, data: self.data@, timeout_ms: self.timeout_ms }
    }
}

/// An interrupt transfer that reads up to `capacity` bytes from `endpoint`.
#[derive(Debug, Clone, Copy, PartialEq, Eq, Structural)]
pub struct InterruptRead {
    pub endpoint: u8,
    pub capacity: usize,
    pub timeout_ms: u64,
}

/// How a transfer went.
#[derive(Debug, Clone, Copy, PartialEq, Eq, Structural)]
pub enum TransferResult {
    /// The transfer completed and moved this many bytes.
    Completed(usize),
    /// The timeout passed first.
    TimedOut,
    /// The transfer failed for another reason.
    Failed,
}

/// What a send comes to. A timeout is an error that the caller may answer
/// by sending again; any other failure ends the session.
pub open spec fn spec_finish_send(result: TransferResult) -> Result<(), ErrorView> {
    match result {
        TransferResult::Completed(_) => Ok(()),
        TransferResult::TimedOut => Err(ErrorView::EndpointTimeout),
        TransferResult::Failed => Err(ErrorView::EndpointIoFailure),
    }
}

/// What a receive comes to, where `buf` is the buffer that was read into.
/// The bytes that arrived are the front of the buffer. No data within the
/// timeout is an empty result, not an error.
pub open spec fn spec_finish_receive(buf: Seq<u8>, result: TransferResult) -> Result<
    Seq<u8>,
    ErrorView,
> {
    match result {
        TransferResult::Completed(n) => Ok(
            if n <= buf.len() {
                buf.take(n as int)
            } else {
                buf
            },
        ),
        TransferResult::TimedOut => Ok(Seq::empty()),
        TransferResult::Failed => Err(ErrorView::EndpointIoFailure),
    }
}

/// The emulated controller: the gadget and the endpoints that its reports
/// travel on.
#[derive(Debug)]
pub struct SwitchProEmulator {
    pub usb_gadget: UsbGadget,
    pub endpoint_in: u8,
    pub endpoint_out: u8,
}

impl SwitchProEmulator {
    /// The emulator on top of a gadget.
    pub fn new(usb_gadget: UsbGadget) -> (r: SwitchProEmulator)
        ensures
            r.usb_gadget == usb_gadget,
            r.endpoint_in == ENDPOINT_IN,
            r.endpoint_out == ENDPOINT_OUT,
    {
        SwitchProEmulator { usb_gadget, endpoint_in: ENDPOINT_IN, endpoint_out: ENDPOINT_OUT }
    }

    /// Whether transfers are allowed: the gadget is bound to a controller.
    pub open spec fn spec_ready(&self) -> bool {
        self.usb_gadget@.phase == Phase::Active
    }

    /// Whether transfers are allowed: the gadget is bound to a controller.
    #[verifier::when_used_as_spec(spec_ready)]
    pub fn ready(&self) -> (r: bool)
        ensures
            r == self.spec_ready(),
    {
        self.usb_gadget.is_active()
    }

    /// The write that carries the input report of `state`.
    pub(crate) fn input_write(&self, state: &ControllerState) -> (r: InterruptWrite)
        ensures
            r@ == (WriteView {
                endpoint: self.endpoint_in,
                data: report_bytes(state@),
                timeout_ms: TRANSFER_TIMEOUT_MS,
            }),
    {
        InterruptWrite {
            endpoint: self.endpoint_in,
            data: encode(state).to_vec(),
            timeout_ms: TRANSFER_TIMEOUT_MS,
        }
    }

    /// The transfer that sends the input report of `state`. It is refused
    /// with `InvalidState` unless the gadget is active.
    pub fn send_input_report(&self, state: &ControllerState) -> (r: Result<
        InterruptWrite,
        GadgetError,
    >)
        ensures
            self.spec_ready() ==> r is Ok && r->Ok_0@ == (WriteView {
                endpoint: self.endpoint_in,
                data: report_bytes(state@),
                timeout_ms: TRANSFER_TIMEOUT_MS,
            }),
            !self.spec_ready() ==> r is Err && r->Err_0@ == ErrorView::InvalidState,
    {
        if !self.ready() {
            return Err(GadgetError::InvalidState);
        }
        Ok(self.input_write(state))
    }

    /// The transfer that reads an output report from the host. It is
    /// refused with `InvalidState` unless the gadget is active.
    pub fn receive_output_report(&self) -> (r: Result<InterruptRead, GadgetError>)
        ensures
            self.spec_ready() ==> r == Ok::<InterruptRead, GadgetError>(
                InterruptRead {
                    endpoint: self.endpoint_out,
                    capacity: OUTPUT_REPORT_CAPACITY,
                    timeout_ms: TRANSFER_TIMEOUT_MS,
                },
            ),
            !self.spec_ready() ==> r is Err && r->Err_0@ == ErrorView::InvalidState,
    {
        if !self.ready() {
            return Err(GadgetError::InvalidState);
        }
        Ok(
            InterruptRead {
                endpoint: self.endpoint_out,
                capacity: OUTPUT_REPORT_CAPACITY,
                timeout_ms: TRANSFER_TIMEOUT_MS,
            },
        )
    }
}

/// What a send comes to, given how the transfer went.
pub fn finish_send(result: TransferResult) -> (r: Result<(), GadgetError>)
    ensures
        match r {
            Ok(_) => spec_finish_send(result) is Ok,
            Err(e) => spec_finish_send(result) == Err::<(), ErrorView>(e@),
        },
{
    match result {
        TransferResult::Completed(_) => Ok(()),
        TransferResult::TimedOut => Err(GadgetError::EndpointTimeout),
        TransferResult::Failed => Err(GadgetError::EndpointIoFailure),
    }
}

/// What a receive comes to, given the buffer that was read into and how
/// the transfer went.
pub fn finish_receive(buf: Vec<u8>, result: TransferResult) -> (r: Result<Vec<u8>, GadgetError>)
    ensures
        match r {
            Ok(bytes) => spec_finish_receive(buf@, result) == Ok::<Seq<u8>, ErrorView>(bytes@),
            Err(e) => spec_finish_receive(buf@, result) == Err::<Seq<u8>, ErrorView>(e@),
        },
{
    match result {
        TransferResult::Completed(n) => {
            let mut bytes = buf;
            if n <= bytes.len() {
                bytes.truncate(n);
                assert(bytes@ =~= buf@.take(n as int));
            }
            Ok(bytes)
        },
        TransferResult::TimedOut => Ok(Vec::new()),
        TransferResult::Failed => Err(GadgetError::EndpointIoFailure),
    }
}

/// The buffer that an output report is read into: `OUTPUT_REPORT_CAPACITY`
/// zero bytes.
pub fn receive_buffer() -> (r: Vec<u8>)
    ensures
        r@ == Seq::new(OUTPUT_REPORT_CAPACITY as nat, |i: int| 0u8),
{
    let mut r: Vec<u8> = Vec::new();
    let mut i: usize = 0;
    while i < OUTPUT_REPORT_CAPACITY
        invariant
            i <= OUTPUT_REPORT_CAPACITY,
            r@ == Seq::new(i as nat, |j: int| 0u8),
        decreases OUTPUT_REPORT_CAPACITY - i,
    {
        r.push(0);
        i = i + 1;
        assert(r@ =~= Seq::new(i as nat, |j: int| 0u8));
    }
    r
}

/// Of the errors that a transfer can end in, the timeout of a send is the
/// only one after which the session may go on. A receive never gives more
/// than the buffer held, and what it gives is the front of the buffer.
pub proof fn lemma_only_timeout_is_recoverable(result: TransferResult, buf: Seq<u8>)
    ensures
        spec_finish_send(result) matches Err(e) ==> (e.recoverable() <==> result
            == TransferResult::TimedOut),
        spec_finish_receive(buf, result) matches Err(e) ==> !e.recoverable(),
        spec_finish_receive(buf, result) matches Ok(bytes) ==> bytes.len() <= buf.len()
            && bytes.is_prefix_of(buf),
{
}

} // verus!
