//! The boot sequencer: the first code to run after power-on or reset.
//!
//! It establishes the two memory invariants every later piece of code
//! assumes: variables declared with an explicit initial value observe
//! that value (the initialized-data region is copied from its
//! non-volatile source, unless it already runs from working memory),
//! and variables declared without one observe all-zero bits (the
//! zero-fill region is cleared). Working memory is modelled as a flat
//! array of words, addressed by word index.

use vstd::prelude::*;

verus! {

/// The addresses the link step supplies: the initial stack top, the
/// non-volatile source of the initialized-data region, the bounds of
/// that region's working-memory destination, and the bounds of the
/// zero-fill region. All are word indices into working memory, fixed at
/// link time and never mutated.
#[derive(Clone, Copy, PartialEq, Eq, Structural)]
pub struct BootLayout {
    pub stack_top: usize,
    pub source_start: usize,
    pub data_start: usize,
    pub data_end: usize,
    pub zero_start: usize,
    pub zero_end: usize,
}

impl BootLayout {
    /// What the link step guarantees of a layout for a memory of
    /// `mem_len` words: each region lies inside memory, the source of
    /// the copy either coincides with its destination or does not
    /// overlap it, and the zero-fill region does not overlap the
    /// destination.
    pub open spec fn wf(self, mem_len: nat) -> bool {
        &&& self.data_start <= self.data_end <= mem_len
        &&& self.zero_start <= self.zero_end <= mem_len
        &&& self.source_start + (self.data_end - self.data_start) <= mem_len
        &&& (self.source_start == self.data_start
            || self.source_start + (self.data_end - self.data_start) <= self.data_start
            || self.data_end <= self.source_start)
        &&& (self.zero_end <= self.data_start || self.data_end <= self.zero_start)
    }

    /// Whether an index lies in the initialized-data destination region.
    pub open spec fn in_data(self, i: int) -> bool {
        self.data_start <= i < self.data_end
    }

    /// Whether an index lies in the zero-fill region.
    pub open spec fn in_zero(self, i: int) -> bool {
        self.zero_start <= i < self.zero_end
    }
}

/// What the boot sequencer did: how many words the copy loop moved and
/// how many the zero-fill loop cleared.
#[derive(Clone, Copy, PartialEq, Eq, Structural)]
pub struct BootReport {
    pub words_copied: usize,
    pub words_zeroed: usize,
}

/// Run the boot sequence on working memory `mem`.
///
/// If the source address of the initialized-data region differs from its
/// destination address, every destination word is copied from the
/// corresponding source word; if the two coincide, the copy is skipped
/// entirely. The zero-fill region is then cleared regardless. A region
/// of length zero is a no-op. Every word outside the written regions is
/// untouched. Handing control to the system entry point afterwards is
/// the surrounding runtime's task; that call never returns.
pub fn reset_handler(mem: &mut Vec<u32>, layout: BootLayout) -> (report: BootReport)
    requires
        layout.wf(old(mem)@.len()),
    ensures
        final(mem)@.len() == old(mem)@.len(),
        forall|i: int| layout.in_zero(i) ==> final(mem)@[i] == 0,
        layout.source_start != layout.data_start ==> forall|i: int|
            layout.in_data(i) ==> final(mem)@[i] == old(mem)@[layout.source_start + (i
                - layout.data_start)],
        forall|i: int|
            0 <= i < final(mem)@.len() && !layout.in_zero(i) && !(layout.source_start
                != layout.data_start && layout.in_data(i)) ==> final(mem)@[i] == old(mem)@[i],
        report.words_copied == if layout.source_start == layout.data_start {
            0int
        } else {
            layout.data_end - layout.data_start
        },
        report.words_zeroed == layout.zero_end - layout.zero_start,
{
    let mem_len: usize = mem.len();
    let mut words_copied: usize = 0;
    if layout.source_start != layout.data_start {
        let mut dest: usize = layout.data_start;
        let mut src: usize = layout.source_start;
        while dest < layout.data_end
            invariant
                layout.wf(mem@.len()),
                layout.source_start != layout.data_start,
                layout.data_start <= dest <= layout.data_end,
                src == layout.source_start + (dest - layout.data_start),
                words_copied == dest - layout.data_start,
                mem@.len() == mem_len,
                mem@.len() == old(mem)@.len(),
                forall|i: int|
                    layout.data_start <= i < dest ==> mem@[i] == old(mem)@[layout.source_start + (
                    i - layout.data_start)],
                forall|i: int|
                    0 <= i < mem@.len() && !(layout.data_start <= i < dest) ==> mem@[i] == old(
                    mem)@[i],
            decreases layout.data_end - dest,
        {
            let word = mem[src];
            mem.set(dest, word);
            dest = dest + 1;
            src = src + 1;
            words_copied = words_copied + 1;
        }
    }
    let mut cursor: usize = layout.zero_start;
    let ghost before_zero = mem@;
    let mut words_zeroed: usize = 0;
    while cursor < layout.zero_end
        invariant
            layout.zero_start <= cursor <= layout.zero_end <= mem@.len(),
            words_zeroed == cursor - layout.zero_start,
            mem@.len() == before_zero.len(),
            forall|i: int| layout.zero_start <= i < cursor ==> mem@[i] == 0,
            forall|i: int|
                0 <= i < mem@.len() && !(layout.zero_start <= i < cursor) ==> mem@[i]
                    == before_zero[i],
        decreases layout.zero_end - cursor,
    {
        mem.set(cursor, 0);
        cursor = cursor + 1;
        words_zeroed = words_zeroed + 1;
    }
    proof {
        if layout.source_start != layout.data_start {
            assert forall|i: int| layout.in_data(i) implies mem@[i] == old(mem)@[
                layout.source_start + (i - layout.data_start)] by {
                assert(!(layout.zero_start <= i < layout.zero_end));
                assert(mem@[i] == before_zero[i]);
            }
        }
    }
    BootReport { words_copied, words_zeroed }
}

} // verus!
