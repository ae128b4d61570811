use wasm_page_manager::AllocationError;
use wasm_page_manager::WasmStack;

#[test]
fn a_fresh_stack_is_empty() {
    let stack = WasmStack::default();
    assert_eq!(stack.top(), 0);
}

#[test]
fn next_allocation_proposes_without_moving_the_top() {
    let stack = WasmStack::default();
    let proposed = stack.next_allocation(8).unwrap();
    assert_eq!(proposed.offset(), 0);
    assert_eq!(proposed.length(), 8);
    assert_eq!(stack.top(), 0);
}

#[test]
fn next_allocation_rejects_zero_and_overflowing_lengths() {
    let mut stack = WasmStack::default();
    assert_eq!(stack.next_allocation(0), Err(AllocationError::ZeroLength));
    let almost_full = stack.next_allocation(65535).unwrap();
    stack.allocate(almost_full).unwrap();
    // one byte still fits, two do not
    assert_eq!(stack.next_allocation(2), Err(AllocationError::OutOfBounds));
    let last = stack.next_allocation(1).unwrap();
    assert_eq!(last.offset(), 65535);
}

#[test]
fn allocate_commits_a_proposal_and_returns_its_offset() {
    let mut stack = WasmStack::default();
    let first = stack.next_allocation(10).unwrap();
    assert_eq!(stack.allocate(first), Ok(0));
    assert_eq!(stack.top(), 10);
    let second = stack.next_allocation(5).unwrap();
    assert_eq!(stack.allocate(second), Ok(10));
    assert_eq!(stack.top(), 15);
}

#[test]
fn allocate_rejects_a_range_not_at_the_top() {
    let mut stack = WasmStack::default();
    let proposed = stack.next_allocation(10).unwrap();
    stack.allocate(proposed).unwrap();
    // the same proposal no longer begins at the current top
    assert_eq!(stack.allocate(proposed), Err(AllocationError::OutOfBounds));
    assert_eq!(stack.top(), 10);
}

#[test]
fn rewind_reclaims_in_lifo_order() {
    let mut stack = WasmStack::default();
    let first = stack.next_allocation(10).unwrap();
    stack.allocate(first).unwrap();
    let recorded: u32 = stack.top();
    let second = stack.next_allocation(20).unwrap();
    stack.allocate(second).unwrap();
    assert_eq!(stack.top(), 30);
    stack.rewind(recorded);
    assert_eq!(stack.top(), 10);
    stack.rewind(0);
    assert_eq!(stack.top(), 0);
}
