use vstd::prelude::*;

verus! {

/// An address into a CANopen object dictionary: a 16-bit index together with
/// an 8-bit sub-index.
#[derive(Debug, Clone, Copy, PartialEq, Eq, Structural)]
pub struct Index {
    pub index: u16,
    pub sub: u8,
}

/// The 3-byte wire form of an `Index`: index low byte, index high byte, then
/// the sub-index.
pub open spec fn index_bytes(ix: Index) -> Seq<u8> {
    seq![(ix.index % 0x100) as u8, (ix.index / 0x100) as u8, ix.sub]
}

/// The `Index` denoted by the first three bytes of `b`, read little-endian.
pub open spec fn index_of_bytes(b: Seq<u8>) -> Index
    recommends
        b.len() >= 3,
{
    Index { index: (b[0] + b[1] * 0x100) as u16, sub: b[2] }
}

/// Reading back the 3-byte form of an index yields the index: the wire form
/// is little-endian and lossless.
pub proof fn lemma_index_bytes_roundtrip(ix: Index, rest: Seq<u8>)
    ensures
        index_of_bytes(index_bytes(ix) + rest) == ix,
{
}

impl Index {
    pub fn new(index: u16, sub: u8) -> (r: Self)
        ensures
            r == (Index { index, sub }),
    {
        Index { index, sub }
    }

    /// Writes the 3-byte little-endian form of the index into `buf[0..3]`,
    /// leaving the length and the remaining bytes unchanged.
    pub fn write_to_slice(&self, buf: &mut Vec<u8>)
        requires
            old(buf).len() >= 3,
        ensures
            final(buf)@ == index_bytes(*self) + old(buf)@.skip(3),
    {
        buf.set(0, (self.index % 0x100) as u8);
        buf.set(1, (self.index / 0x100) as u8);
        buf.set(2, self.sub);
        proof {
            assert(buf@ =~= index_bytes(*self) + old(buf)@.skip(3));
        }
    }

    /// Reads an index back from the first three bytes of `buf`, little-endian.
    pub fn read_from_slice(buf: &[u8]) -> (r: Self)
        requires
            buf.len() >= 3,
        ensures
            r == index_of_bytes(buf@),
    {
        let index: u16 = (buf[0] as u16) + (buf[1] as u16) * 0x100;
        let sub: u8 = buf[2];
        Index { index, sub }
    }
}

/// Serialization of a dictionary object into the transfer buffer: writes the
/// object's little-endian byte form at the front of `buf` and reports how many
/// bytes were written.
pub trait IntoBuf {
    /// The byte form this value serializes to.
    spec fn spec_buf(&self) -> Seq<u8>;

    /// The byte form of every object fits the machine's transfer buffer.
    proof fn buf_fits(&self)
        ensures
            self.spec_buf().len() <= crate::sdo::machines::BUFFER_CAPACITY,
    ;

    /// Writes `self.spec_buf()` over the front of `buf`, leaving the length
    /// and the bytes past the written prefix unchanged.
    fn into_buf(&self, buf: &mut Vec<u8>) -> (n: usize)
        requires
            self.spec_buf().len() <= old(buf).len(),
        ensures
            n == self.spec_buf().len(),
            final(buf)@ == self.spec_buf() + old(buf)@.skip(n as int),
    ;
}

/// Deserialization of a dictionary object from bytes obtained off the bus.
pub trait FromBuf: Sized {
    /// Which objects the bytes stored at `ix` denote.
    spec fn spec_from_buf(ix: Index, b: Seq<u8>) -> Option<Self>;

    /// Constructs the object stored at `ix` from its byte form, if the bytes
    /// denote one.
    fn from_buf(ix: Index, buf: &[u8]) -> (r: Option<Self>)
        ensures
            r == Self::spec_from_buf(ix, buf@),
    ;
}

impl IntoBuf for u32 {
    open spec fn spec_buf(&self) -> Seq<u8> {
        crate::u32_le_bytes(*self)
    }

    proof fn buf_fits(&self) {
    }

    fn into_buf(&self, buf: &mut Vec<u8>) -> (n: usize) {
        buf.set(0, (*self % 0x100) as u8);
        buf.set(1, ((*self / 0x100) % 0x100) as u8);
        buf.set(2, ((*self / 0x10000) % 0x100) as u8);
        buf.set(3, (*self / 0x1000000) as u8);
        proof {
            assert(buf@ =~= self.spec_buf() + old(buf)@.skip(4));
        }
        4
    }
}

impl FromBuf for u32 {
    open spec fn spec_from_buf(ix: Index, b: Seq<u8>) -> Option<u32> {
        if b.len() == 4 {
            Some(crate::u32_from_le(b[0], b[1], b[2], b[3]))
        } else {
            None
        }
    }

    fn from_buf(_ix: Index, buf: &[u8]) -> (r: Option<u32>) {
        if buf.len() == 4 {
            Some(
                (buf[0] as u32) + (buf[1] as u32) * 0x100 + (buf[2] as u32) * 0x10000 + (buf[3]
                    as u32) * 0x1000000,
            )
        } else {
            None
        }
    }
}

/// The application-level object dictionary: a keyed store of typed objects
/// that caches values obtained from the bus.
pub trait Dictionary {
    type Index;

    type Object;

    /// Stores an object newly obtained from the bus.
    fn set(&mut self, x: Self::Object);

    /// Fetches the object to be written to the bus.
    fn get(&self, ix: &Self::Index) -> Self::Object;
}

/// A typed value stored in a dictionary at a statically known address.
pub trait DictionaryValue<D: Dictionary> {
    /// The dictionary address this value lives at.
    fn index() -> D::Index;
}

} // verus!
