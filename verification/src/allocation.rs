use vstd::prelude::*;
use crate::AllocationError;

verus! {

/// What an allocation request yields: a handle to the reserved range, or
/// the reason the request was refused.
pub type AllocationResult = Result<WasmAllocation, AllocationError>;

/// Number of bytes in the single page of linear memory that a manager owns.
pub const PAGE_CAPACITY: u32 = 65536;

/// Largest length representable in the 16-bit length half of a handle.
pub const MAX_LENGTH: u32 = 65535;

/// The packed scalar form of a handle: offset in the upper 16 bits,
/// length in the lower 16 bits.
pub open spec fn spec_encode(offset: u16, length: u16) -> u32 {
    (offset * 0x10000 + length) as u32
}

/// The offset half of a packed scalar.
pub open spec fn spec_decode_offset(scalar: u32) -> u16 {
    (scalar / 0x10000) as u16
}

/// The length half of a packed scalar.
pub open spec fn spec_decode_length(scalar: u32) -> u16 {
    (scalar % 0x10000) as u16
}

/// A reference to one allocated byte range of the page: an offset and a
/// length, each 16 bits wide, so that the pair travels across the call
/// boundary as one 32-bit scalar.
///
/// A well-formed allocation refers to at least one byte and lies entirely
/// inside the page.  Values are built only by the validating constructors
/// here and by the manager's allocation paths, so a forged range is a
/// deliberate `from_encoding` call, never an accident.
#[derive(Clone, Copy, Debug, PartialEq, Eq, Structural)]
pub struct WasmAllocation {
    offset: u16,
    length: u16,
}

impl WasmAllocation {
    /// The offset field, as contracts speak of it.
    pub closed spec fn spec_offset(self) -> u16 {
        self.offset
    }

    /// The length field, as contracts speak of it.
    pub closed spec fn spec_length(self) -> u16 {
        self.length
    }

    /// A data allocation covers at least one byte and stays inside the page.
    pub open spec fn wf(self) -> bool {
        1 <= self.spec_length() && self.spec_offset() + self.spec_length() <= PAGE_CAPACITY
    }

    /// Validating constructor: refuses a zero-length range and a range that
    /// would run past the end of the page.
    pub fn new(offset: u16, length: u16) -> (r: Result<Self, AllocationError>)
        ensures
            length == 0 ==> r == Err::<Self, AllocationError>(AllocationError::ZeroLength),
            length >= 1 && offset + length > PAGE_CAPACITY ==> r == Err::<Self, AllocationError>(
                AllocationError::OutOfBounds,
            ),
            length >= 1 && offset + length <= PAGE_CAPACITY ==> (r matches Ok(a) && a.spec_offset()
                == offset && a.spec_length() == length && a.wf()),
    {
        if length == 0 {
            Err(AllocationError::ZeroLength)
        } else if offset as u32 + length as u32 > PAGE_CAPACITY {
            Err(AllocationError::OutOfBounds)
        } else {
            Ok(WasmAllocation { offset, length })
        }
    }

    pub fn offset(&self) -> (r: u16)
        ensures
            r == self.spec_offset(),
    {
        self.offset
    }

    pub fn length(&self) -> (r: u16)
        ensures
            r == self.spec_length(),
    {
        self.length
    }

    /// Packs the pair into the one scalar that crosses the call boundary.
    pub fn encode(&self) -> (r: u32)
        ensures
            r == spec_encode(self.spec_offset(), self.spec_length()),
    {
        let o: u16 = self.offset;
        let l: u16 = self.length;
        let r: u32 = ((o as u32) << 16) | (l as u32);
        proof {
            assert(((o as u32) << 16) | (l as u32) == (o * 0x10000 + l) as u32) by (bit_vector);
        }
        r
    }

    /// Pure bit extraction of the (offset, length) halves; succeeds on every
    /// scalar.  A length of zero marks a status code, not a data range.
    pub fn decode(scalar: u32) -> (r: (u16, u16))
        ensures
            r.0 == spec_decode_offset(scalar),
            r.1 == spec_decode_length(scalar),
    {
        let offset: u16 = (scalar >> 16) as u16;
        let length: u16 = (scalar & 0xFFFF) as u16;
        proof {
            assert((scalar >> 16) as u16 == (scalar / 0x10000) as u16) by (bit_vector);
            assert((scalar & 0xFFFF) as u16 == (scalar % 0x10000) as u16) by (bit_vector);
        }
        (offset, length)
    }

    /// The one audited way to treat an arbitrary scalar as a data range
    /// again: decode it, then hold it to the same validation as `new`.
    pub fn from_encoding(scalar: u32) -> (r: Result<Self, AllocationError>)
        ensures
            spec_decode_length(scalar) == 0 ==> r == Err::<Self, AllocationError>(
                AllocationError::ZeroLength,
            ),
            spec_decode_length(scalar) >= 1 && spec_decode_offset(scalar) + spec_decode_length(
                scalar,
            ) > PAGE_CAPACITY ==> r == Err::<Self, AllocationError>(AllocationError::OutOfBounds),
            spec_decode_length(scalar) >= 1 && spec_decode_offset(scalar) + spec_decode_length(
                scalar,
            ) <= PAGE_CAPACITY ==> (r matches Ok(a) && a.spec_offset() == spec_decode_offset(scalar)
                && a.spec_length() == spec_decode_length(scalar) && a.wf()),
    {
        let pair: (u16, u16) = Self::decode(scalar);
        Self::new(pair.0, pair.1)
    }
}

/// Packs a status or error code into the scalar form: the code sits in the
/// offset half and the length half is zero, the shape no data handle takes.
/// A code of zero means success; any other code names the failure.
pub fn encode_status(code: u16) -> (r: u32)
    ensures
        r == spec_encode(code, 0),
        spec_decode_offset(r) == code,
        spec_decode_length(r) == 0,
{
    let r: u32 = (code as u32) << 16;
    proof {
        assert((code as u32) << 16 == (code * 0x10000 + 0) as u32) by (bit_vector);
        lemma_codec_round_trip(code, 0);
    }
    r
}

/// Recognizes the status form: a zero length half.
pub fn is_status(scalar: u32) -> (r: bool)
    ensures
        r == (spec_decode_length(scalar) == 0),
{
    let pair: (u16, u16) = WasmAllocation::decode(scalar);
    pair.1 == 0
}

/// Decoding undoes encoding: the two 16-bit halves come back out of the
/// packed scalar exactly as they went in.
pub proof fn lemma_codec_round_trip(offset: u16, length: u16)
    ensures
        spec_decode_offset(spec_encode(offset, length)) == offset,
        spec_decode_length(spec_encode(offset, length)) == length,
{
    assert((((offset * 0x10000 + length) as u32) / 0x10000) as u16 == offset) by (bit_vector);
    assert((((offset * 0x10000 + length) as u32) % 0x10000) as u16 == length) by (bit_vector);
}

/// Status/data disjointness at the wire level: the encoding of a
/// well-formed data allocation never decodes with a zero length, while a
/// status encoding always does, so the two forms can never be confused.
pub proof fn lemma_status_data_disjoint(a: WasmAllocation, code: u16)
    requires
        a.wf(),
    ensures
        spec_decode_length(spec_encode(a.spec_offset(), a.spec_length())) != 0,
        spec_decode_length(spec_encode(code, 0)) == 0,
{
    lemma_codec_round_trip(a.spec_offset(), a.spec_length());
    lemma_codec_round_trip(code, 0);
}

} // verus!
