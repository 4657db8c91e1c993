//! The vector tables: fixed, position-addressed tables mapping every
//! hardware exception and interrupt number to a handler.
//!
//! Slot order and table length are a hardware contract: the vendor's
//! interrupt-number assignment fixes them bit-for-bit, and reordering
//! silently misroutes interrupts. A slot with no board-specific
//! behavior binds to the default interrupt handler; a slot the
//! architecture reserves — one hardware never asserts — binds to the
//! absent marker. The tables hold no logic; their correctness is purely
//! a data-layout property.

use vstd::prelude::*;

verus! {

/// The identity of a handler entry point a vector slot can bind to.
#[derive(Clone, Copy, PartialEq, Eq, Structural, Debug)]
pub enum Handler {
    /// Slot zero of the base table: the initial stack-top address, not
    /// an entry point the processor ever jumps to.
    StackTop,
    /// The boot sequencer, entered on reset.
    Reset,
    /// The hard-fault handler.
    HardFault,
    /// The supervisor-call handler.
    Svc,
    /// The system-tick handler.
    SysTick,
    /// The shared fallback for any slot with no specific handler.
    DefaultInterrupt,
    /// The shared first-level service routine every peripheral
    /// interrupt enters.
    GenericIsr,
    /// A peripheral DMA channel handler, by channel number.
    Pdca(u8),
    /// A general-purpose I/O port handler, by port number.
    Gpio(u8),
    /// The asynchronous-timer alarm handler.
    AstAlarm,
    /// A two-wire (I2C) master handler, by unit number.
    Twim(u8),
    /// A serial-port handler, by unit number.
    Usart(u8),
    /// The analog-to-digital converter handler.
    Adcife,
}

/// One vector slot: bound to a concrete handler, or marked absent for a
/// slot the hardware never asserts.
#[derive(Clone, Copy, PartialEq, Eq, Structural, Debug)]
pub enum VectorSlot {
    Bound(Handler),
    Absent,
}

/// Number of slots in the base table: the architecture mandates
/// sixteen, the initial stack pointer followed by fifteen processor
/// exceptions.
pub const BASE_VECTOR_COUNT: usize = 16;

/// Number of slots in the peripheral tables of the supported chip.
pub const PERIPHERAL_VECTOR_COUNT: usize = 80;

/// The one architecturally reserved peripheral slot: the vendor assigns
/// no interrupt to it, so hardware never asserts it.
pub const RESERVED_PERIPHERAL_SLOT: usize = 76;

/// Slot `i` of the base table, in the architecture-mandated order:
/// stack top, reset, then the processor exceptions, with every slot the
/// board gives no specific handler bound to the default interrupt
/// handler.
pub open spec fn base_table_slot(i: int) -> VectorSlot {
    if i == 0 {
        VectorSlot::Bound(Handler::StackTop)
    } else if i == 1 {
        VectorSlot::Bound(Handler::Reset)
    } else if i == 3 {
        VectorSlot::Bound(Handler::HardFault)
    } else if i == 11 {
        VectorSlot::Bound(Handler::Svc)
    } else if i == 15 {
        VectorSlot::Bound(Handler::SysTick)
    } else {
        // NMI, memory-management fault, bus fault, usage fault, debug
        // monitor, pending-supervisor, and the reserved base slots
        VectorSlot::Bound(Handler::DefaultInterrupt)
    }
}

/// Slot `i` of the peripheral dispatch table, exactly as the vendor's
/// interrupt-number assignment enumerates the peripherals.
pub open spec fn peripheral_table_slot(i: int) -> VectorSlot {
    if 1 <= i < 17 {
        VectorSlot::Bound(Handler::Pdca((i - 1) as u8))
    } else if 25 <= i < 37 {
        VectorSlot::Bound(Handler::Gpio((i - 25) as u8))
    } else if i == 39 {
        VectorSlot::Bound(Handler::AstAlarm)
    } else if i == 61 {
        VectorSlot::Bound(Handler::Twim(0))
    } else if i == 63 {
        VectorSlot::Bound(Handler::Twim(1))
    } else if 65 <= i < 69 {
        VectorSlot::Bound(Handler::Usart((i - 65) as u8))
    } else if i == 69 {
        VectorSlot::Bound(Handler::Adcife)
    } else if i == 76 {
        VectorSlot::Absent
    } else if i == 77 {
        VectorSlot::Bound(Handler::Twim(2))
    } else if i == 78 {
        VectorSlot::Bound(Handler::Twim(3))
    } else {
        VectorSlot::Bound(Handler::DefaultInterrupt)
    }
}

/// The base table as a sequence, in slot order.
pub open spec fn base_table_spec() -> Seq<VectorSlot> {
    Seq::new(BASE_VECTOR_COUNT as nat, |i: int| base_table_slot(i))
}

/// The peripheral dispatch table as a sequence, in slot order.
pub open spec fn peripheral_table_spec() -> Seq<VectorSlot> {
    Seq::new(PERIPHERAL_VECTOR_COUNT as nat, |i: int| peripheral_table_slot(i))
}

/// The hardware-read peripheral vector table as a sequence: every slot
/// enters the shared first-level service routine.
pub open spec fn irq_table_spec() -> Seq<VectorSlot> {
    Seq::new(PERIPHERAL_VECTOR_COUNT as nat, |i: int| VectorSlot::Bound(Handler::GenericIsr))
}

/// Slot `i` of the base table.
pub fn base_vector(i: usize) -> (s: VectorSlot)
    requires
        i < BASE_VECTOR_COUNT,
    ensures
        s == base_table_slot(i as int),
{
    if i == 0 {
        VectorSlot::Bound(Handler::StackTop)
    } else if i == 1 {
        VectorSlot::Bound(Handler::Reset)
    } else if i == 3 {
        VectorSlot::Bound(Handler::HardFault)
    } else if i == 11 {
        VectorSlot::Bound(Handler::Svc)
    } else if i == 15 {
        VectorSlot::Bound(Handler::SysTick)
    } else {
        VectorSlot::Bound(Handler::DefaultInterrupt)
    }
}

/// Slot `i` of the peripheral dispatch table.
pub fn peripheral_vector(i: usize) -> (s: VectorSlot)
    requires
        i < PERIPHERAL_VECTOR_COUNT,
    ensures
        s == peripheral_table_slot(i as int),
{
    if 1 <= i && i < 17 {
        VectorSlot::Bound(Handler::Pdca((i - 1) as u8))
    } else if 25 <= i && i < 37 {
        VectorSlot::Bound(Handler::Gpio((i - 25) as u8))
    } else if i == 39 {
        VectorSlot::Bound(Handler::AstAlarm)
    } else if i == 61 {
        VectorSlot::Bound(Handler::Twim(0))
    } else if i == 63 {
        VectorSlot::Bound(Handler::Twim(1))
    } else if 65 <= i && i < 69 {
        VectorSlot::Bound(Handler::Usart((i - 65) as u8))
    } else if i == 69 {
        VectorSlot::Bound(Handler::Adcife)
    } else if i == 76 {
        VectorSlot::Absent
    } else if i == 77 {
        VectorSlot::Bound(Handler::Twim(2))
    } else if i == 78 {
        VectorSlot::Bound(Handler::Twim(3))
    } else {
        VectorSlot::Bound(Handler::DefaultInterrupt)
    }
}

/// The base table, in slot order.
pub fn base_vectors() -> (v: Vec<VectorSlot>)
    ensures
        v@ == base_table_spec(),
        v@.len() == BASE_VECTOR_COUNT,
        forall|i: int| 0 <= i < BASE_VECTOR_COUNT ==> v@[i] == base_table_slot(i),
{
    let mut v: Vec<VectorSlot> = Vec::new();
    let mut i: usize = 0;
    while i < BASE_VECTOR_COUNT
        invariant
            i <= BASE_VECTOR_COUNT,
            v@.len() == i,
            forall|j: int| 0 <= j < i ==> v@[j] == base_table_slot(j),
        decreases BASE_VECTOR_COUNT - i,
    {
        v.push(base_vector(i));
        i = i + 1;
    }
    proof {
        assert(v@ =~= base_table_spec());
    }
    v
}

/// The hardware-read peripheral vector table, in slot order: every one
/// of its slots enters the shared first-level service routine.
pub fn irq_vectors() -> (v: Vec<VectorSlot>)
    ensures
        v@ == irq_table_spec(),
        v@.len() == PERIPHERAL_VECTOR_COUNT,
        forall|i: int|
            0 <= i < PERIPHERAL_VECTOR_COUNT ==> v@[i] == VectorSlot::Bound(Handler::GenericIsr),
{
    let mut v: Vec<VectorSlot> = Vec::new();
    let mut i: usize = 0;
    while i < PERIPHERAL_VECTOR_COUNT
        invariant
            i <= PERIPHERAL_VECTOR_COUNT,
            v@.len() == i,
            forall|j: int| 0 <= j < i ==> v@[j] == VectorSlot::Bound(Handler::GenericIsr),
        decreases PERIPHERAL_VECTOR_COUNT - i,
    {
        v.push(VectorSlot::Bound(Handler::GenericIsr));
        i = i + 1;
    }
    proof {
        assert(v@ =~= irq_table_spec());
    }
    v
}

/// The peripheral dispatch table, in slot order.
pub fn peripheral_vectors() -> (v: Vec<VectorSlot>)
    ensures
        v@ == peripheral_table_spec(),
        v@.len() == PERIPHERAL_VECTOR_COUNT,
        forall|i: int| 0 <= i < PERIPHERAL_VECTOR_COUNT ==> v@[i] == peripheral_table_slot(i),
{
    let mut v: Vec<VectorSlot> = Vec::new();
    let mut i: usize = 0;
    while i < PERIPHERAL_VECTOR_COUNT
        invariant
            i <= PERIPHERAL_VECTOR_COUNT,
            v@.len() == i,
            forall|j: int| 0 <= j < i ==> v@[j] == peripheral_table_slot(j),
        decreases PERIPHERAL_VECTOR_COUNT - i,
    {
        v.push(peripheral_vector(i));
        i = i + 1;
    }
    proof {
        assert(v@ =~= peripheral_table_spec());
    }
    v
}

/// Law: the base table has exactly the architecture-mandated sixteen
/// slots, every slot holds either a concrete handler or the absent
/// marker, and the architecture-assigned positions — reset, hard fault,
/// supervisor call, system tick — hold their handlers in the mandated
/// order.
pub proof fn lemma_base_table_well_formed()
    ensures
        base_table_spec().len() == BASE_VECTOR_COUNT,
        forall|i: int|
            0 <= i < BASE_VECTOR_COUNT ==> (#[trigger] base_table_spec()[i] is Bound
                || base_table_spec()[i] is Absent),
        base_table_spec()[0] == VectorSlot::Bound(Handler::StackTop),
        base_table_spec()[1] == VectorSlot::Bound(Handler::Reset),
        base_table_spec()[3] == VectorSlot::Bound(Handler::HardFault),
        base_table_spec()[11] == VectorSlot::Bound(Handler::Svc),
        base_table_spec()[15] == VectorSlot::Bound(Handler::SysTick),
        forall|i: int|
            i == 2 || (4 <= i < 11) || (12 <= i < 15) ==> #[trigger] base_table_spec()[i]
                == VectorSlot::Bound(Handler::DefaultInterrupt),
{
}

/// Law: every peripheral slot is bound — to a chip-specific handler or
/// to the default interrupt handler — except the one architecturally
/// reserved slot, which hardware never asserts and which is marked
/// absent.
pub proof fn lemma_peripheral_table_covered()
    ensures
        peripheral_table_spec().len() == PERIPHERAL_VECTOR_COUNT,
        forall|i: int|
            0 <= i < PERIPHERAL_VECTOR_COUNT && i != RESERVED_PERIPHERAL_SLOT
                ==> #[trigger] peripheral_table_spec()[i] is Bound,
        peripheral_table_spec()[RESERVED_PERIPHERAL_SLOT as int] is Absent,
        irq_table_spec().len() == PERIPHERAL_VECTOR_COUNT,
        forall|i: int|
            0 <= i < PERIPHERAL_VECTOR_COUNT ==> #[trigger] irq_table_spec()[i]
                == VectorSlot::Bound(Handler::GenericIsr),
{
}

} // verus!
