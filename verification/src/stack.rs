use vstd::prelude::*;
use crate::AllocationError;
use crate::allocation::AllocationResult;
use crate::allocation::PAGE_CAPACITY;
use crate::allocation::WasmAllocation;

verus! {

/// The bump allocator for one page: a single stack pointer, the offset of
/// the next free byte.  It only ever moves up as ranges are handed out;
/// space comes back solely through an explicit rewind by the owner, in
/// strict LIFO fashion — there is no per-allocation free.
pub struct WasmStack {
    top: u32,
}

impl Default for WasmStack {
    /// A fresh stack starts with the whole page free.
    fn default() -> (r: WasmStack)
        ensures
            r.spec_top() == 0,
            r.wf(),
    {
        WasmStack { top: 0 }
    }
}

impl WasmStack {
    /// The next free offset, as contracts speak of it.
    pub closed spec fn spec_top(self) -> u32 {
        self.top
    }

    /// The stack pointer never points past the end of the page.
    pub open spec fn wf(self) -> bool {
        self.spec_top() <= PAGE_CAPACITY
    }

    /// The next free offset.
    pub fn top(&self) -> (r: u32)
        ensures
            r == self.spec_top(),
    {
        self.top
    }

    /// Check-and-propose step: the range that the next allocation of
    /// `length` bytes would occupy, starting at the current top.  Refuses a
    /// zero length and a range that would run past the page; mutates
    /// nothing.
    pub fn next_allocation(&self, length: u16) -> (r: AllocationResult)
        requires
            self.wf(),
        ensures
            length == 0 ==> r == Err::<WasmAllocation, AllocationError>(
                AllocationError::ZeroLength,
            ),
            length >= 1 && self.spec_top() + length > PAGE_CAPACITY ==> r == Err::<
                WasmAllocation,
                AllocationError,
            >(AllocationError::OutOfBounds),
            length >= 1 && self.spec_top() + length <= PAGE_CAPACITY ==> (r matches Ok(a)
                && a.spec_offset() == self.spec_top() && a.spec_length() == length && a.wf()),
    {
        if length == 0 {
            Err(AllocationError::ZeroLength)
        } else if self.top + length as u32 > PAGE_CAPACITY {
            Err(AllocationError::OutOfBounds)
        } else {
            WasmAllocation::new(self.top as u16, length)
        }
    }

    /// Commit step: advances the stack pointer past the proposed range and
    /// returns the offset the range begins at (the previous top).  Refuses
    /// a range that does not begin exactly at the current top, so a commit
    /// is only ever the counterpart of the `next_allocation` that proposed
    /// it and the pointer and the handed-out ranges stay consistent.
    pub fn allocate(&mut self, allocation: WasmAllocation) -> (r: Result<u32, AllocationError>)
        requires
            old(self).wf(),
            allocation.wf(),
        ensures
            final(self).wf(),
            allocation.spec_offset() != old(self).spec_top() ==> r == Err::<u32, AllocationError>(
                AllocationError::OutOfBounds,
            ) && final(self).spec_top() == old(self).spec_top(),
            allocation.spec_offset() == old(self).spec_top() ==> r == Ok::<u32, AllocationError>(
                old(self).spec_top(),
            ) && final(self).spec_top() == old(self).spec_top() + allocation.spec_length(),
    {
        let offset: u16 = allocation.offset();
        if offset as u32 != self.top {
            return Err(AllocationError::OutOfBounds);
        }
        let previous_top: u32 = self.top;
        self.top = offset as u32 + allocation.length() as u32;
        Ok(previous_top)
    }

    /// Rewinds the stack pointer to a previously recorded top, reclaiming
    /// every range handed out after that point, most recent first.
    pub fn rewind(&mut self, top: u32)
        requires
            old(self).wf(),
            top <= old(self).spec_top(),
        ensures
            final(self).wf(),
            final(self).spec_top() == top,
    {
        self.top = top;
    }
}

} // verus!
