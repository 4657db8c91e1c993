//! The fault-safe diagnostic reporter.
//!
//! A single channel carries both cooperative debug text and fatal panic
//! information. The transport hardware must be configured exactly once:
//! reconfiguring it mid-operation drives the target into an indeterminate
//! state, so the channel keeps an `initialized` flag and performs the one
//! configuration call on first use, whether that first use is ordinary
//! debug output or the panic path.
//!
//! The two external capabilities the reporter depends on — the byte
//! transport and the status indicator — are modelled as state that
//! records, in order, every command issued to the hardware: the
//! configuration calls made and the bytes accepted for transmission.

use vstd::prelude::*;

verus! {

/// Number of stop bits of a transport configuration.
#[derive(Clone, Copy, PartialEq, Eq, Structural)]
pub enum StopBits {
    One,
    Two,
}

/// Parity mode of a transport configuration.
#[derive(Clone, Copy, PartialEq, Eq, Structural)]
pub enum Parity {
    Disabled,
    Even,
    Odd,
}

/// The options a configuration call hands to the byte transport.
#[derive(Clone, Copy, PartialEq, Eq, Structural)]
pub struct UartParameters {
    pub baud_rate: u32,
    pub stop_bits: StopBits,
    pub parity: Parity,
    pub hw_flow_control: bool,
}

/// The fixed parameters the diagnostic channel applies on first use:
/// 115200 baud, one stop bit, no parity, no hardware flow control.
pub open spec fn diagnostic_parameters() -> UartParameters {
    UartParameters {
        baud_rate: 115200,
        stop_bits: StopBits::One,
        parity: Parity::Disabled,
        hw_flow_control: false,
    }
}

/// What the byte-transport capability has been asked to do so far:
/// every configuration call and every byte accepted for transmission,
/// each in order.
#[verifier::ext_equal]
pub struct TransportLog {
    pub configs: Seq<UartParameters>,
    pub sent: Seq<u8>,
}

/// Model of the byte-transport capability. Its state is the log of
/// commands the hardware has received.
pub struct Uart {
    configs: Vec<UartParameters>,
    sent: Vec<u8>,
}

impl View for Uart {
    type V = TransportLog;

    closed spec fn view(&self) -> TransportLog {
        TransportLog { configs: self.configs@, sent: self.sent@ }
    }
}

impl Uart {
    /// A transport that has seen no configuration call and no byte.
    pub fn new() -> (u: Uart)
        ensures
            u@.configs == Seq::<UartParameters>::empty(),
            u@.sent == Seq::<u8>::empty(),
    {
        let u = Uart { configs: Vec::new(), sent: Vec::new() };
        proof {
            assert(u@.configs =~= Seq::<UartParameters>::empty());
            assert(u@.sent =~= Seq::<u8>::empty());
        }
        u
    }

    /// Apply a configuration to the transport; the call is recorded.
    pub fn configure(&mut self, params: UartParameters)
        ensures
            final(self)@.configs == old(self)@.configs.push(params),
            final(self)@.sent == old(self)@.sent,
    {
        self.configs.push(params);
    }

    /// Blocking send: returns only once the byte has been accepted by
    /// the hardware for transmission.
    pub fn send_byte(&mut self, byte: u8)
        ensures
            final(self)@.sent == old(self)@.sent.push(byte),
            final(self)@.configs == old(self)@.configs,
    {
        self.sent.push(byte);
    }
}

/// Abstract state of the diagnostic channel: the `Uninitialized`/`Ready`
/// flag together with the transport's command log.
#[verifier::ext_equal]
pub struct ChannelState {
    pub initialized: bool,
    pub configs: Seq<UartParameters>,
    pub sent: Seq<u8>,
}

/// The state of a channel that has never been used.
pub open spec fn initial_channel() -> ChannelState {
    ChannelState { initialized: false, configs: Seq::empty(), sent: Seq::empty() }
}

/// The state after marking the channel as already configured elsewhere.
pub open spec fn set_initialized_step(s: ChannelState) -> ChannelState {
    ChannelState { initialized: true, configs: s.configs, sent: s.sent }
}

/// The state after transmitting `text`: the first use of the channel
/// configures the transport, exactly once; every use appends the bytes
/// in order.
pub open spec fn write_step(s: ChannelState, text: Seq<u8>) -> ChannelState {
    ChannelState {
        initialized: true,
        configs: if s.initialized {
            s.configs
        } else {
            s.configs.push(diagnostic_parameters())
        },
        sent: s.sent + text,
    }
}

/// Writer is the diagnostic channel: it owns the one-time-configuration
/// flag and drives the byte transport.
pub struct Writer {
    initialized: bool,
    uart: Uart,
}

impl View for Writer {
    type V = ChannelState;

    closed spec fn view(&self) -> ChannelState {
        ChannelState {
            initialized: self.initialized,
            configs: self.uart@.configs,
            sent: self.uart@.sent,
        }
    }
}

impl Writer {
    /// A channel that has never been used.
    pub fn new() -> (w: Writer)
        ensures
            w@ == initial_channel(),
    {
        let w = Writer { initialized: false, uart: Uart::new() };
        proof {
            assert(w@ =~= initial_channel());
        }
        w
    }

    /// Indicate that the transport has already been configured, so the
    /// channel must never configure it again.
    pub fn set_initialized(&mut self)
        ensures
            final(self)@ == set_initialized_step(old(self)@),
    {
        self.initialized = true;
        proof {
            assert(self@ =~= set_initialized_step(old(self)@));
        }
    }

    /// Transmit `text` byte by byte; on the very first use of the
    /// channel, configure the transport first.
    pub fn write_str(&mut self, text: &[u8])
        ensures
            final(self)@ == write_step(old(self)@, text@),
    {
        if !self.initialized {
            self.initialized = true;
            self.uart.configure(UartParameters {
                baud_rate: 115200,
                stop_bits: StopBits::One,
                parity: Parity::Disabled,
                hw_flow_control: false,
            });
        }
        let ghost mid = self@;
        let mut i: usize = 0;
        while i < text.len()
            invariant
                i <= text.len(),
                self@.initialized == mid.initialized,
                self@.configs == mid.configs,
                self@.sent =~= mid.sent + text@.take(i as int),
            decreases text.len() - i,
        {
            self.uart.send_byte(text[i]);
            proof {
                assert(self@.sent =~= mid.sent + text@.take(i + 1 as int));
            }
            i = i + 1;
        }
        proof {
            assert(text@.take(text@.len() as int) =~= text@);
            assert(self@ =~= write_step(old(self)@, text@));
        }
    }

    /// Whether the channel has left the `Uninitialized` state.
    pub fn is_initialized(&self) -> (b: bool)
        ensures
            b == self@.initialized,
    {
        self.initialized
    }

    /// How many configuration calls the transport has seen.
    pub fn config_count(&self) -> (n: usize)
        ensures
            n == self@.configs.len(),
    {
        self.uart.configs.len()
    }

    /// The bytes transmitted so far, in order.
    pub fn sent_bytes(&self) -> (b: &Vec<u8>)
        ensures
            b@ == self@.sent,
    {
        &self.uart.sent
    }
}

/// Model of the status-indicator capability: a single board-designated
/// output line, treated as active-high. Its view is whether the line is
/// driven active.
pub struct Indicator {
    active: bool,
}

impl View for Indicator {
    type V = bool;

    closed spec fn view(&self) -> bool {
        self.active
    }
}

impl Indicator {
    /// An indicator whose line is inactive.
    pub fn new() -> (ind: Indicator)
        ensures
            !ind@,
    {
        Indicator { active: false }
    }

    /// Drive the line active.
    pub fn set_active(&mut self)
        ensures
            final(self)@,
    {
        self.active = true;
    }

    /// Drive the line inactive.
    pub fn set_inactive(&mut self)
        ensures
            !final(self)@,
    {
        self.active = false;
    }

    /// Whether the line is driven active.
    pub fn is_active(&self) -> (b: bool)
        ensures
            b == self@,
    {
        self.active
    }
}

/// Marker of the system's terminal state. A caller holding a value of
/// this type must not continue past it: the only remaining action is to
/// wait forever.
pub struct Halt;

/// One byte of the process-table description: a filled slot renders as
/// `P`, an empty one as `-`.
pub open spec fn slot_byte(occupied: bool) -> u8 {
    if occupied {
        80u8
    } else {
        45u8
    }
}

/// The best-effort description of the process table: one byte per slot,
/// in slot order.
pub open spec fn process_summary(procs: Seq<bool>) -> Seq<u8> {
    procs.map_values(|p: bool| slot_byte(p))
}

/// The state of the channel after the panic path ran with the given
/// failure message and process table: the message, then the table
/// description, each sent through the ordinary one-time-configuration
/// transmit path.
pub open spec fn panic_step(s: ChannelState, message: Seq<u8>, procs: Seq<bool>) -> ChannelState {
    write_step(write_step(s, message), process_summary(procs))
}

/// Render the process-table description.
fn process_summary_bytes(processes: &Vec<bool>) -> (out: Vec<u8>)
    ensures
        out@ == process_summary(processes@),
{
    let mut out: Vec<u8> = Vec::new();
    let mut i: usize = 0;
    while i < processes.len()
        invariant
            i <= processes.len(),
            out@ =~= process_summary(processes@.take(i as int)),
        decreases processes.len() - i,
    {
        if processes[i] {
            out.push(80u8);
        } else {
            out.push(45u8);
        }
        proof {
            assert(out@ =~= process_summary(processes@.take(i + 1 as int)));
        }
        i = i + 1;
    }
    proof {
        assert(processes@.take(processes@.len() as int) =~= processes@);
        assert(out@ =~= process_summary(processes@));
    }
    out
}

/// The panic path: activate the status indicator, then render the
/// failure message and a description of the process table through the
/// diagnostic channel — configuring the transport first if and only if
/// the channel was never used before. The returned marker is the
/// system's terminal state; the surrounding runtime must wait forever
/// after it.
pub fn panic_fmt(
    writer: &mut Writer,
    indicator: &mut Indicator,
    message: &[u8],
    processes: &Vec<bool>,
) -> (halt: Halt)
    ensures
        final(indicator)@,
        final(writer)@ == panic_step(old(writer)@, message@, processes@),
{
    indicator.set_active();
    writer.write_str(message);
    let summary = process_summary_bytes(processes);
    writer.write_str(summary.as_slice());
    Halt
}

/// One operation on the diagnostic channel over its lifetime.
pub enum ChannelOp {
    SetInitialized,
    Write(Seq<u8>),
    Panic(Seq<u8>, Seq<bool>),
}

/// The channel state an operation leads to.
pub open spec fn apply_op(s: ChannelState, op: ChannelOp) -> ChannelState {
    match op {
        ChannelOp::SetInitialized => set_initialized_step(s),
        ChannelOp::Write(text) => write_step(s, text),
        ChannelOp::Panic(message, procs) => panic_step(s, message, procs),
    }
}

/// The state after a channel in state `s` has seen the given operations
/// in order.
pub open spec fn run_ops(s: ChannelState, ops: Seq<ChannelOp>) -> ChannelState
    decreases ops.len(),
{
    if ops.len() == 0 {
        s
    } else {
        run_ops(apply_op(s, ops[0]), ops.drop_first())
    }
}

/// A channel state its operations can reach: the transport was
/// configured at most once, and never while the channel still counted
/// as uninitialized.
pub open spec fn channel_inv(s: ChannelState) -> bool {
    &&& s.configs.len() <= 1
    &&& !s.initialized ==> s.configs.len() == 0
}

proof fn lemma_ops_preserve_inv(s: ChannelState, ops: Seq<ChannelOp>)
    requires
        channel_inv(s),
    ensures
        channel_inv(run_ops(s, ops)),
    decreases ops.len(),
{
    if ops.len() > 0 {
        lemma_ops_preserve_inv(apply_op(s, ops[0]), ops.drop_first());
    }
}

/// Law: however the channel is used — any sequence of set-initialized,
/// transmit and panic operations, starting from a channel that has never
/// been used — the transport is configured at most once across the
/// channel's lifetime.
pub proof fn lemma_configure_at_most_once(ops: Seq<ChannelOp>)
    ensures
        run_ops(initial_channel(), ops).configs.len() <= 1,
{
    lemma_ops_preserve_inv(initial_channel(), ops);
}

} // verus!
