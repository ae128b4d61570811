use wasm_page_manager::allocation::encode_status;
use wasm_page_manager::allocation::is_status;
use wasm_page_manager::AllocationError;
use wasm_page_manager::WasmAllocation;
use wasm_page_manager::MAX_LENGTH;
use wasm_page_manager::PAGE_CAPACITY;

#[test]
fn constants_match_the_sixteen_bit_protocol() {
    assert_eq!(PAGE_CAPACITY, 65536);
    assert_eq!(MAX_LENGTH, 65535);
}

#[test]
fn encode_packs_offset_high_and_length_low() {
    let a = WasmAllocation::new(1, 2).unwrap();
    assert_eq!(a.encode(), 0x0001_0002);
    let b = WasmAllocation::new(0, 5).unwrap();
    assert_eq!(b.encode(), 0x0000_0005);
    let c = WasmAllocation::new(258, 772).unwrap();
    assert_eq!(c.encode(), 0x0102_0304);
}

#[test]
fn decode_is_pure_bit_extraction() {
    assert_eq!(WasmAllocation::decode(0x0003_0007), (3, 7));
    assert_eq!(WasmAllocation::decode(0), (0, 0));
    assert_eq!(WasmAllocation::decode(0xFFFF_FFFF), (65535, 65535));
}

#[test]
fn codec_round_trips_through_the_scalar() {
    let a = WasmAllocation::new(12345, 321).unwrap();
    let back = WasmAllocation::from_encoding(a.encode()).unwrap();
    assert_eq!(back.offset(), 12345);
    assert_eq!(back.length(), 321);
    assert_eq!(back, a);
}

#[test]
fn new_rejects_zero_length() {
    assert_eq!(
        WasmAllocation::new(17, 0),
        Err(AllocationError::ZeroLength)
    );
}

#[test]
fn new_rejects_range_past_the_page() {
    assert_eq!(
        WasmAllocation::new(65535, 2),
        Err(AllocationError::OutOfBounds)
    );
    assert_eq!(
        WasmAllocation::new(2, 65535),
        Err(AllocationError::OutOfBounds)
    );
}

#[test]
fn new_accepts_the_full_page() {
    let a = WasmAllocation::new(0, 65535).unwrap();
    assert_eq!(a.offset(), 0);
    assert_eq!(a.length(), 65535);
    let b = WasmAllocation::new(1, 65535).unwrap();
    assert_eq!(b.offset(), 1);
    assert_eq!(b.length(), 65535);
}

#[test]
fn from_encoding_rejects_a_status_scalar() {
    assert_eq!(
        WasmAllocation::from_encoding(encode_status(0)),
        Err(AllocationError::ZeroLength)
    );
    assert_eq!(
        WasmAllocation::from_encoding(encode_status(9)),
        Err(AllocationError::ZeroLength)
    );
}

#[test]
fn from_encoding_rejects_a_forged_out_of_bounds_scalar() {
    // offset 65535, length 2: representable halves, range past the page
    assert_eq!(
        WasmAllocation::from_encoding(0xFFFF_0002),
        Err(AllocationError::OutOfBounds)
    );
}

#[test]
fn status_scalars_put_the_code_in_the_offset_half() {
    assert_eq!(encode_status(0), 0);
    assert_eq!(encode_status(5), 0x0005_0000);
    assert_eq!(WasmAllocation::decode(encode_status(5)), (5, 0));
}

#[test]
fn status_and_data_scalars_are_told_apart_by_the_length_half() {
    assert!(is_status(encode_status(0)));
    assert!(is_status(encode_status(42)));
    let data = WasmAllocation::new(7, 3).unwrap();
    assert!(!is_status(data.encode()));
}
