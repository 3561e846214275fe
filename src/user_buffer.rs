use vstd::prelude::*;

use crate::error::ErrorKind;

verus! {

/// Number of bytes in the value that a control request hands back.
pub const VALUE_SIZE: usize = 4;

/// The little-endian bytes of `v`.
pub open spec fn encoded(v: u32) -> Seq<u8> {
    seq![
        (v & 0xff) as u8,
        ((v >> 8u32) & 0xff) as u8,
        ((v >> 16u32) & 0xff) as u8,
        ((v >> 24u32) & 0xff) as u8,
    ]
}

/// The value whose little-endian bytes open `b`.
pub open spec fn decoded(b: Seq<u8>) -> u32
    recommends
        b.len() >= 4,
{
    (b[0] as u32) | ((b[1] as u32) << 8u32) | ((b[2] as u32) << 16u32) | ((b[3] as u32) << 24u32)
}

/// `region` after a full copy of `v` to its start: the first four bytes are
/// those of `v`, the rest stay as they were.
pub open spec fn written(region: Seq<u8>, v: u32) -> Seq<u8>
    recommends
        region.len() >= 4,
{
    encoded(v) + region.subrange(4, region.len() as int)
}

/// Reading a region back after a full copy of `v` gives `v`, whatever the
/// region held before.
pub proof fn lemma_read_after_write(region: Seq<u8>, v: u32)
    requires
        region.len() >= VALUE_SIZE,
    ensures
        written(region, v).len() == region.len(),
        decoded(written(region, v)) == v,
{
    let w = written(region, v);
    let b0 = (v & 0xff) as u8;
    let b1 = ((v >> 8u32) & 0xff) as u8;
    let b2 = ((v >> 16u32) & 0xff) as u8;
    let b3 = ((v >> 24u32) & 0xff) as u8;
    assert(w[0] == b0 && w[1] == b1 && w[2] == b2 && w[3] == b3);
    assert(((b0 as u32) | ((b1 as u32) << 8u32) | ((b2 as u32) << 16u32) | ((b3 as u32) << 24u32))
        == v) by (bit_vector)
        requires
            b0 == (v & 0xff) as u8,
            b1 == ((v >> 8u32) & 0xff) as u8,
            b2 == ((v >> 16u32) & 0xff) as u8,
            b3 == ((v >> 24u32) & 0xff) as u8,
    ;
}

/// A memory region owned by the calling process, of fixed capacity, that the
/// device reaches only through the bounds-checked copy `write_value`.
pub struct UserBuffer {
    bytes: Vec<u8>,
}

impl View for UserBuffer {
    type V = Seq<u8>;

    closed spec fn view(&self) -> Seq<u8> {
        self.bytes@
    }
}

impl UserBuffer {
    /// A zero-filled region of `capacity` bytes.
    pub fn new(capacity: usize) -> (r: UserBuffer)
        ensures
            r@ == Seq::new(capacity as nat, |i: int| 0u8),
    {
        let mut bytes: Vec<u8> = Vec::new();
        let mut i: usize = 0;
        while i < capacity
            invariant
                i <= capacity,
                bytes@ == Seq::new(i as nat, |j: int| 0u8),
            decreases capacity - i,
        {
            bytes.push(0u8);
            i = i + 1;
            assert(bytes@ =~= Seq::new(i as nat, |j: int| 0u8));
        }
        UserBuffer { bytes }
    }

    /// A region that holds `bytes`.
    pub fn from_bytes(bytes: Vec<u8>) -> (r: UserBuffer)
        ensures
            r@ == bytes@,
    {
        UserBuffer { bytes }
    }

    /// How many bytes the region holds.
    pub fn capacity(&self) -> (r: usize)
        ensures
            r == self@.len(),
    {
        self.bytes.len()
    }

    /// What the region holds.
    pub fn as_bytes(&self) -> (r: &[u8])
        ensures
            r@ == self@,
    {
        self.bytes.as_slice()
    }

    /// Copies `v` to the start of the region, all four bytes or none.
    pub fn write_value(&mut self, v: u32) -> (r: Result<(), ErrorKind>)
        ensures
            old(self)@.len() < VALUE_SIZE ==> r == Err::<(), ErrorKind>(ErrorKind::BufferTooSmall)
                && final(self)@ == old(self)@,
            old(self)@.len() >= VALUE_SIZE ==> r is Ok && final(self)@ == written(old(self)@, v),
    {
        if self.bytes.len() < VALUE_SIZE {
            return Err(ErrorKind::BufferTooSmall);
        }
        self.bytes.set(0, (v & 0xff) as u8);
        self.bytes.set(1, ((v >> 8u32) & 0xff) as u8);
        self.bytes.set(2, ((v >> 16u32) & 0xff) as u8);
        self.bytes.set(3, ((v >> 24u32) & 0xff) as u8);
        assert(self.bytes@ =~= written(old(self)@, v));
        Ok(())
    }

    /// The value held in the first four bytes, or `None` where the region is
    /// shorter than that.
    pub fn read_value(&self) -> (r: Option<u32>)
        ensures
            self@.len() < VALUE_SIZE ==> r is None,
            self@.len() >= VALUE_SIZE ==> r == Some(decoded(self@)),
    {
        if self.bytes.len() < VALUE_SIZE {
            return None;
        }
        let v = (self.bytes[0] as u32) | ((self.bytes[1] as u32) << 8u32) | ((self.bytes[2] as u32)
            << 16u32) | ((self.bytes[3] as u32) << 24u32);
        Some(v)
    }
}

} // verus!
