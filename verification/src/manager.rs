use vstd::prelude::*;
use crate::AllocationError;
use crate::allocation::AllocationResult;
use crate::allocation::MAX_LENGTH;
use crate::allocation::PAGE_CAPACITY;
use crate::allocation::WasmAllocation;
use crate::page::WasmMemory;
use crate::page::mem_bytes;
use crate::page::new_page;
use crate::page::page_read;
use crate::page::page_write;
use crate::stack::WasmStack;

verus! {

/// The page contents after `data` has been copied in at `offset`: the
/// written range holds `data`, every other byte keeps its old value.
pub open spec fn spec_write_bytes(bytes: Seq<u8>, offset: int, data: Seq<u8>) -> Seq<u8> {
    Seq::new(
        bytes.len(),
        |i: int|
            if offset <= i < offset + data.len() {
                data[i - offset]
            } else {
                bytes[i]
            },
    )
}

/// The bytes a read of `a` yields from a page holding `bytes`: the range
/// of `a.spec_length()` bytes starting at `a.spec_offset()`.
pub open spec fn spec_read_bytes(bytes: Seq<u8>, a: WasmAllocation) -> Seq<u8> {
    bytes.subrange(a.spec_offset() as int, a.spec_offset() + a.spec_length())
}

/// When a write of `len` bytes is accepted with the stack pointer at
/// `top`: the buffer is non-empty, its length is representable in the
/// 16-bit length half, and the range fits under the page capacity.
pub open spec fn spec_write_accepts(top: int, len: int) -> bool {
    1 <= len <= MAX_LENGTH && top + len <= PAGE_CAPACITY
}

/// How a successful `write` of `data` relates the manager's state before
/// (`pre`) and after (`post`) and the handle `a` it returns: the handle
/// covers exactly `data.len()` bytes starting at the old top, the stack
/// pointer advances past them, and the page holds `data` there.
pub open spec fn write_step(
    pre: WasmPageManager,
    post: WasmPageManager,
    a: WasmAllocation,
    data: Seq<u8>,
) -> bool {
    &&& spec_write_accepts(pre.spec_top() as int, data.len() as int)
    &&& a.wf()
    &&& a.spec_offset() == pre.spec_top()
    &&& a.spec_length() == data.len()
    &&& post.spec_top() == pre.spec_top() + data.len()
    &&& post.bytes() == spec_write_bytes(pre.bytes(), pre.spec_top() as int, data)
}

/// A memory manager limited to one page of WebAssembly linear memory that
/// works like a stack, so that the host and the guest module need only
/// pass one 32-bit scalar to hand any buffer across the call boundary.
/// The scalar is an allocation on the stack: a 16-bit offset in the upper
/// half and a 16-bit length in the lower half, which fits the 64 KiB page.
/// Since zero-sized allocations are refused, a scalar whose length half is
/// zero carries a status code in its offset half instead: zero for
/// success, any other value for the failure kind.
pub struct WasmPageManager {
    stack: WasmStack,
    wasm_memory: WasmMemory,
}

impl WasmPageManager {
    /// The next free offset of the page, as contracts speak of it.
    pub closed spec fn spec_top(self) -> u32 {
        self.stack.spec_top()
    }

    /// The bytes of the backing page, as contracts speak of them.
    pub closed spec fn bytes(self) -> Seq<u8> {
        mem_bytes(self.wasm_memory)
    }

    /// The stack pointer stays inside the page, and the page holds exactly
    /// its capacity in bytes.
    pub open spec fn wf(self) -> bool {
        self.spec_top() <= PAGE_CAPACITY && self.bytes().len() == PAGE_CAPACITY
    }

    /// A fresh manager: one newly created page of linear memory, with the
    /// whole page free.
    pub fn new() -> (r: WasmPageManager)
        ensures
            r.wf(),
            r.spec_top() == 0,
    {
        WasmPageManager { stack: WasmStack::default(), wasm_memory: new_page() }
    }

    /// Reserves `length` bytes on top of the stack without writing them;
    /// the caller fills the range later.  Returns a handle to the range,
    /// or `ZeroLength` for an empty request, or `OutOfBounds` when the
    /// range would run past the page.
    pub fn allocate(&mut self, length: u16) -> (r: AllocationResult)
        requires
            old(self).wf(),
        ensures
            final(self).wf(),
            final(self).bytes() == old(self).bytes(),
            length == 0 ==> r == Err::<WasmAllocation, AllocationError>(AllocationError::ZeroLength)
                && final(self).spec_top() == old(self).spec_top(),
            length >= 1 && old(self).spec_top() + length > PAGE_CAPACITY ==> r == Err::<
                WasmAllocation,
                AllocationError,
            >(AllocationError::OutOfBounds) && final(self).spec_top() == old(self).spec_top(),
            length >= 1 && old(self).spec_top() + length <= PAGE_CAPACITY ==> (r matches Ok(a)
                && a.wf() && a.spec_offset() == old(self).spec_top() && a.spec_length() == length
                && final(self).spec_top() == old(self).spec_top() + length),
    {
        let allocation = match self.stack.next_allocation(length) {
            Ok(a) => a,
            Err(e) => { return Err(e) },
        };
        match self.stack.allocate(allocation) {
            Ok(_top) => Ok(allocation),
            Err(e) => Err(e),
        }
    }

    /// Writes `data` on top of the stack: refuses a buffer longer than the
    /// largest representable length with `OutOfBounds` and an empty buffer
    /// with `ZeroLength`, then reserves exactly `data.len()` bytes, copies
    /// `data` into the page there, and returns the handle to the range.
    /// On any refusal the stack pointer and the page are left unchanged.
    pub fn write(&mut self, data: &[u8]) -> (r: AllocationResult)
        requires
            old(self).wf(),
        ensures
            final(self).wf(),
            data@.len() > MAX_LENGTH ==> r == Err::<WasmAllocation, AllocationError>(
                AllocationError::OutOfBounds,
            ) && final(self).spec_top() == old(self).spec_top() && final(self).bytes() == old(
                self,
            ).bytes(),
            data@.len() == 0 ==> r == Err::<WasmAllocation, AllocationError>(
                AllocationError::ZeroLength,
            ) && final(self).spec_top() == old(self).spec_top() && final(self).bytes() == old(
                self,
            ).bytes(),
            1 <= data@.len() <= MAX_LENGTH && old(self).spec_top() + data@.len() > PAGE_CAPACITY
                ==> r == Err::<WasmAllocation, AllocationError>(AllocationError::OutOfBounds)
                && final(self).spec_top() == old(self).spec_top() && final(self).bytes() == old(
                self,
            ).bytes(),
            spec_write_accepts(old(self).spec_top() as int, data@.len() as int) ==> (r matches Ok(a)
                && write_step(*old(self), *final(self), a, data@)),
    {
        if data.len() > MAX_LENGTH as usize {
            return Err(AllocationError::OutOfBounds);
        }
        if data.len() == 0 {
            return Err(AllocationError::ZeroLength);
        }
        let mem_buf = match self.allocate(data.len() as u16) {
            Ok(a) => a,
            Err(e) => { return Err(e) },
        };
        page_write(&mut self.wasm_memory, mem_buf.offset() as u32, data);
        proof {
            let off = old(self).spec_top() as int;
            let pre = old(self).bytes();
            let post = self.bytes();
            assert forall|i: int|
                0 <= i < post.len() implies post[i] == spec_write_bytes(pre, off, data@)[i] by {
                if off <= i < off + data@.len() {
                    assert(post[off + (i - off)] == data@[i - off]);
                }
            };
            assert(post =~= spec_write_bytes(pre, off, data@));
        }
        Ok(mem_buf)
    }

    /// Reads the byte range that `allocation` refers to back out of the
    /// page, as a fresh buffer that shares nothing with the page.  The
    /// handle is assumed well formed, as every handle this manager hands
    /// out is, so the range lies inside the page.
    pub fn read(&self, allocation: WasmAllocation) -> (r: Vec<u8>)
        requires
            self.wf(),
            allocation.wf(),
        ensures
            r@ == spec_read_bytes(self.bytes(), allocation),
    {
        page_read(&self.wasm_memory, allocation.offset() as u32, allocation.length())
    }

    /// Rewinds the stack to empty, reclaiming every range at once; the
    /// bytes of the page keep their values until overwritten.
    pub fn reset(&mut self)
        requires
            old(self).wf(),
        ensures
            final(self).wf(),
            final(self).spec_top() == 0,
            final(self).bytes() == old(self).bytes(),
    {
        self.stack.rewind(0);
    }
}

/// Round trip: the buffer stored by a successful `write` is exactly what
/// `read` of the returned handle yields, for every byte sequence of one
/// byte up to the largest representable length.
pub proof fn lemma_round_trip(
    pre: WasmPageManager,
    post: WasmPageManager,
    a: WasmAllocation,
    data: Seq<u8>,
)
    requires
        pre.wf(),
        write_step(pre, post, a, data),
    ensures
        spec_read_bytes(post.bytes(), a) == data,
{
    assert(spec_read_bytes(post.bytes(), a) =~= data);
}

/// Stack monotonicity: across two successful writes with no rewind in
/// between, the second handle begins at or above the end of the first, so
/// the two ranges never overlap.
pub proof fn lemma_stack_monotonic(
    m0: WasmPageManager,
    m1: WasmPageManager,
    m2: WasmPageManager,
    a1: WasmAllocation,
    a2: WasmAllocation,
    d1: Seq<u8>,
    d2: Seq<u8>,
)
    requires
        write_step(m0, m1, a1, d1),
        write_step(m1, m2, a2, d2),
    ensures
        a2.spec_offset() >= a1.spec_offset() + a1.spec_length(),
{
}

} // verus!
