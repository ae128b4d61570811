pub mod allocation;
pub mod manager;
pub mod page;
pub mod stack;

pub use allocation::AllocationResult;
pub use allocation::MAX_LENGTH;
pub use allocation::PAGE_CAPACITY;
pub use allocation::WasmAllocation;
pub use manager::WasmPageManager;
pub use stack::WasmStack;

use vstd::prelude::*;

verus! {

/// Why a request for page memory was refused.
#[derive(Clone, Copy, Debug, PartialEq, Eq, Structural)]
pub enum AllocationError {
    /// A zero-sized buffer was asked to be written or reserved.
    ZeroLength,
    /// The requested length cannot be represented, or the resulting
    /// range would run past the end of the page.
    OutOfBounds,
}

} // verus!
