use vstd::prelude::*;

verus! {

/// The single page of WebAssembly linear memory that backs a manager,
/// together with the store that owns it.  The virtual machine holds the
/// actual bytes; this module is the trusted boundary to it, and everything
/// the library proves about the page's contents goes through `mem_bytes`
/// and the three accessors below.
#[verifier::external_body]
pub struct WasmMemory {
    store: wasmi::Store<()>,
    memory: wasmi::Memory,
}

/// The bytes the linear memory holds, in order.
pub uninterp spec fn mem_bytes(m: WasmMemory) -> Seq<u8>;

/// Relies on wasmi::Memory::new, on a fresh engine and store: a linear
/// memory created with a one-page type (64 KiB minimum and maximum) holds
/// exactly 65536 bytes.
#[verifier::external_body]
pub(crate) fn new_page() -> (r: WasmMemory)
    ensures
        mem_bytes(r).len() == 65536,
{
    let engine = wasmi::Engine::default();
    let mut store = wasmi::Store::new(&engine, ());
    let ty = wasmi::MemoryType::new(1, Some(1));
    let memory = wasmi::Memory::new(&mut store, ty).expect(
        "one page of linear memory should be allocatable",
    );
    WasmMemory { store, memory }
}

/// Relies on wasmi::Memory::write: copies the whole buffer into linear
/// memory at the given offset, leaving every byte outside that range and
/// the memory's size unchanged; an in-bounds write succeeds.
#[verifier::external_body]
pub(crate) fn page_write(m: &mut WasmMemory, offset: u32, data: &[u8])
    requires
        offset + data@.len() <= mem_bytes(*old(m)).len(),
    ensures
        mem_bytes(*final(m)).len() == mem_bytes(*old(m)).len(),
        forall|i: int|
            0 <= i < data@.len() ==> mem_bytes(*final(m))[offset + i] == data@[i],
        forall|i: int|
            0 <= i < mem_bytes(*old(m)).len() && !(offset <= i < offset + data@.len())
                ==> mem_bytes(*final(m))[i] == mem_bytes(*old(m))[i],
{
    m.memory.write(&mut m.store, offset as usize, data).expect(
        "a write within the page bounds should succeed",
    );
}

/// Relies on wasmi::Memory::read: fills the buffer from linear memory at
/// the given offset, so the result is exactly the byte range asked for; an
/// in-bounds read succeeds.
#[verifier::external_body]
pub(crate) fn page_read(m: &WasmMemory, offset: u32, length: u16) -> (r: Vec<u8>)
    requires
        offset + length <= mem_bytes(*m).len(),
    ensures
        r@ == mem_bytes(*m).subrange(offset as int, offset + length),
{
    let mut buffer = vec![0u8; length as usize];
    m.memory.read(&m.store, offset as usize, &mut buffer).expect(
        "a read within the page bounds should succeed",
    );
    buffer
}

} // verus!
