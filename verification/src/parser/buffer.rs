use vstd::prelude::*;
use crate::parser::attribute_info::be_u32;
use crate::vm::numeric::be_u16;

verus! {

/// A byte buffer that is read from front to back.
#[derive(Debug, Clone)]
pub struct Buffer {
    bytes: Vec<u8>,
    pub offset: usize,
}

/// The model of a buffer: its bytes and the offset of the next byte to
/// read.
pub struct BufferView {
    pub bytes: Seq<u8>,
    pub offset: int,
}

impl View for Buffer {
    type V = BufferView;

    closed spec fn view(&self) -> BufferView {
        BufferView { bytes: self.bytes@, offset: self.offset as int }
    }
}

/// The byte at `offset`, where there is one.
pub open spec fn u8_at(bytes: Seq<u8>, offset: int) -> Option<u8> {
    if 0 <= offset < bytes.len() {
        Some(bytes[offset])
    } else {
        None
    }
}

/// The number in the two bytes at `offset`, high byte first, where there
/// are two.
pub open spec fn u16_at(bytes: Seq<u8>, offset: int) -> Option<u16> {
    if 0 <= offset && offset + 1 < bytes.len() {
        Some(be_u16(bytes[offset], bytes[offset + 1]) as u16)
    } else {
        None
    }
}

/// The number in the four bytes at `offset`, highest byte first, where
/// there are four.
pub open spec fn u32_at(bytes: Seq<u8>, offset: int) -> Option<u32> {
    if 0 <= offset && offset + 3 < bytes.len() {
        Some(
            be_u32(bytes[offset], bytes[offset + 1], bytes[offset + 2], bytes[offset + 3]) as u32,
        )
    } else {
        None
    }
}

/// The `n` bytes at `offset`, where there are as many.
pub open spec fn bytes_at(bytes: Seq<u8>, offset: int, n: int) -> Option<Seq<u8>> {
    if 0 <= offset && 0 <= n && offset + n <= bytes.len() {
        Some(bytes.subrange(offset, offset + n))
    } else {
        None
    }
}

impl BufferView {
    /// The buffer with its offset `n` bytes further.
    pub open spec fn skipped(self, n: int) -> BufferView {
        BufferView { offset: self.offset + n, ..self }
    }
}

impl Buffer {
    /// A buffer on `bytes`, with nothing read yet.
    pub fn new(bytes: Vec<u8>) -> (r: Self)
        ensures
            r@ == (BufferView { bytes: bytes@, offset: 0 }),
    {
        Buffer { bytes, offset: 0 }
    }

    /// The number of bytes in the buffer.
    pub fn len(&self) -> (r: usize)
        ensures
            r == self@.bytes.len(),
    {
        self.bytes.len()
    }

    /// The offset of the next byte to read.
    pub fn position(&self) -> (r: usize)
        ensures
            r == self@.offset,
    {
        self.offset
    }

    /// Reads the next byte.
    pub fn read_u8(&mut self) -> (r: Option<u8>)
        ensures
            r == u8_at(old(self)@.bytes, old(self)@.offset),
            final(self)@ == if r is Some {
                old(self)@.skipped(1)
            } else {
                old(self)@
            },
    {
        if self.offset < self.bytes.len() {
            let result = self.bytes[self.offset];
            self.offset += 1;
            Some(result)
        } else {
            None
        }
    }

    /// Reads the next two bytes as a number, high byte first.
    pub fn read_u16(&mut self) -> (r: Option<u16>)
        ensures
            r == u16_at(old(self)@.bytes, old(self)@.offset),
            final(self)@ == if r is Some {
                old(self)@.skipped(2)
            } else {
                old(self)@
            },
    {
        let n = self.bytes.len();
        if self.offset < n && n - self.offset > 1 {
            let result: u16 = self.bytes[self.offset] as u16 * 256 + self.bytes[self.offset
                + 1] as u16;
            self.offset += 2;
            Some(result)
        } else {
            None
        }
    }

    /// Reads the next four bytes as a number, highest byte first.
    pub fn read_u32(&mut self) -> (r: Option<u32>)
        ensures
            r == u32_at(old(self)@.bytes, old(self)@.offset),
            final(self)@ == if r is Some {
                old(self)@.skipped(4)
            } else {
                old(self)@
            },
    {
        let n = self.bytes.len();
        if self.offset < n && n - self.offset > 3 {
            let result: u32 = self.bytes[self.offset] as u32 * 0x100_0000 + self.bytes[self.offset
                + 1] as u32 * 0x1_0000 + self.bytes[self.offset + 2] as u32 * 0x100
                + self.bytes[self.offset + 3] as u32;
            self.offset += 4;
            Some(result)
        } else {
            None
        }
    }

    /// Reads the next `n` bytes.
    pub fn read_un(&mut self, n: usize) -> (r: Option<Vec<u8>>)
        ensures
            match r {
                Some(read) => bytes_at(old(self)@.bytes, old(self)@.offset, n as int) == Some(
                    read@,
                ) && final(self)@ == old(self)@.skipped(n as int),
                None => bytes_at(old(self)@.bytes, old(self)@.offset, n as int) is None
                    && final(self)@ == old(self)@,
            },
    {
        let len = self.bytes.len();
        if self.offset <= len && n <= len - self.offset {
            let start = self.offset;
            let mut result: Vec<u8> = Vec::new();
            let mut i: usize = 0;
            while i < n
                invariant
                    i <= n,
                    start + n <= self.bytes.len(),
                    result@ == self.bytes@.subrange(start as int, start + i),
                decreases n - i,
            {
                result.push(self.bytes[start + i]);
                assert(result@ =~= self.bytes@.subrange(start as int, start + i + 1));
                i += 1;
            }
            self.offset = start + n;
            Some(result)
        } else {
            None
        }
    }
}

} // verus!
