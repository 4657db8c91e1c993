//! The default interrupt handler.
//!
//! When an interrupt fires that no specific handler was bound to, the
//! processor's status register identifies it: the low nine bits hold the
//! number of the exception or interrupt currently being serviced. The
//! handler masks the register value to that width and reports the
//! number as an unrecoverable condition through the diagnostic
//! reporter's panic path; there is no safe resumption point for an
//! interrupt nobody was prepared to service, so the condition is always
//! fatal. Reading the register itself is the surrounding runtime's
//! architecture-specific task; the handler takes the value read.

use vstd::prelude::*;

use crate::diag::Halt;
use crate::diag::Indicator;
use crate::diag::Writer;
use crate::diag::panic_fmt;
use crate::diag::panic_step;

verus! {

/// Mask selecting the low nine bits of the active-exception-number
/// status register.
pub const IPSR_EXCEPTION_MASK: u32 = 0x1ff;

/// The interrupt number a status-register value identifies: its low
/// nine bits.
pub open spec fn masked_interrupt_number(ipsr: u32) -> u32 {
    ipsr & 0x1ff
}

/// Extract the active exception/interrupt number from a value of the
/// active-exception-number status register.
pub fn active_interrupt_number(ipsr: u32) -> (n: u32)
    ensures
        n == masked_interrupt_number(ipsr),
        n < 512,
{
    proof {
        assert(ipsr & 0x1ff < 512) by (bit_vector);
    }
    ipsr & IPSR_EXCEPTION_MASK
}

/// The decimal digit string of a number, most significant digit first.
pub open spec fn decimal_rep(n: nat) -> Seq<u8>
    decreases n,
{
    if n < 10 {
        seq![(48 + n) as u8]
    } else {
        decimal_rep(n / 10).push((48 + n % 10) as u8)
    }
}

/// Append the decimal digits of `n` to `out`.
fn push_decimal(n: u32, out: &mut Vec<u8>)
    ensures
        final(out)@ == old(out)@ + decimal_rep(n as nat),
    decreases n,
{
    if n < 10 {
        out.push(48 + n as u8);
        proof {
            assert(out@ =~= old(out)@ + decimal_rep(n as nat));
        }
    } else {
        push_decimal(n / 10, out);
        out.push(48 + (n % 10) as u8);
        proof {
            assert(out@ =~= old(out)@ + decimal_rep(n as nat));
        }
    }
}

/// The text the default interrupt handler reports: the decimal digits
/// of the masked active interrupt number.
pub open spec fn unhandled_report(ipsr: u32) -> Seq<u8> {
    decimal_rep((ipsr & 0x1ff) as nat)
}

/// The default interrupt handler: take the value read from the
/// active-exception-number register, mask it to the nine bits that name
/// the interrupt, and report that number as an unrecoverable condition
/// through the panic path. The returned marker is the system's terminal
/// state: an unexpected interrupt is a configuration error, never
/// retried.
pub fn unhandled_interrupt(
    ipsr: u32,
    writer: &mut Writer,
    indicator: &mut Indicator,
    processes: &Vec<bool>,
) -> (halt: Halt)
    ensures
        final(indicator)@,
        final(writer)@ == panic_step(old(writer)@, unhandled_report(ipsr), processes@),
{
    let n = active_interrupt_number(ipsr);
    let mut digits: Vec<u8> = Vec::new();
    push_decimal(n, &mut digits);
    proof {
        assert(digits@ =~= unhandled_report(ipsr));
    }
    panic_fmt(writer, indicator, digits.as_slice(), processes)
}

} // verus!
