//! The cursor every decoder reads from: a byte sequence consumed from the
//! front, handed in by the transport as plain bytes.

use vstd::prelude::*;

use crate::wire::{
    i16_from_wire, i16_of_u16, i32_from_wire, i32_of_u32, i8_from_wire, i8_of_u8, u16_be_val,
    u16_le_val, u32_be_val, u32_le_val,
};

verus! {

/// A read cursor over a byte sequence. Decoders consume bytes from the
/// front; `rest` is the sequence of bytes not yet consumed.
pub struct Reader {
    data: Vec<u8>,
    pos: usize,
}

impl Reader {
    #[verifier::type_invariant]
    spec fn inv(self) -> bool {
        self.pos <= self.data.len()
    }

    /// The bytes not yet consumed, in order.
    pub closed spec fn rest(self) -> Seq<u8> {
        self.data@.skip(self.pos as int)
    }

    /// Builds a cursor over the given bytes, none consumed yet.
    pub fn new(data: Vec<u8>) -> (r: Reader)
        ensures
            r.rest() == data@,
    {
        let r = Reader { data, pos: 0 };
        assert(r.rest() =~= r.data@);
        r
    }

    /// The number of bytes not yet consumed.
    pub fn remaining(&self) -> (r: usize)
        ensures
            r == self.rest().len(),
    {
        proof {
            use_type_invariant(self);
        }
        self.data.len() - self.pos
    }

    /// Consumes and returns one byte.
    pub fn get_u8(&mut self) -> (r: u8)
        requires
            old(self).rest().len() >= 1,
        ensures
            r == old(self).rest()[0],
            final(self).rest() == old(self).rest().skip(1),
    {
        proof {
            use_type_invariant(&*self);
        }
        let b = self.data[self.pos];
        self.pos = self.pos + 1;
        assert(self.rest() =~= old(self).rest().skip(1));
        b
    }

    /// Consumes one byte and returns its signed reading.
    pub fn get_i8(&mut self) -> (r: i8)
        requires
            old(self).rest().len() >= 1,
        ensures
            r == i8_of_u8(old(self).rest()[0]),
            final(self).rest() == old(self).rest().skip(1),
    {
        let b = self.get_u8();
        i8_from_wire(b)
    }

    /// Consumes two bytes and returns their little-endian value.
    pub fn get_u16_le(&mut self) -> (r: u16)
        requires
            old(self).rest().len() >= 2,
        ensures
            r == u16_le_val(old(self).rest()[0], old(self).rest()[1]),
            final(self).rest() == old(self).rest().skip(2),
    {
        proof {
            use_type_invariant(&*self);
        }
        let b0 = self.data[self.pos];
        let b1 = self.data[self.pos + 1];
        self.pos = self.pos + 2;
        assert(self.rest() =~= old(self).rest().skip(2));
        b0 as u16 + (b1 as u16) * 0x100
    }

    /// Consumes two bytes and returns the signed reading of their
    /// little-endian value.
    pub fn get_i16_le(&mut self) -> (r: i16)
        requires
            old(self).rest().len() >= 2,
        ensures
            r == i16_of_u16(u16_le_val(old(self).rest()[0], old(self).rest()[1])),
            final(self).rest() == old(self).rest().skip(2),
    {
        let v = self.get_u16_le();
        i16_from_wire(v)
    }

    /// Consumes four bytes and returns their little-endian value.
    pub fn get_u32_le(&mut self) -> (r: u32)
        requires
            old(self).rest().len() >= 4,
        ensures
            r == u32_le_val(
                old(self).rest()[0],
                old(self).rest()[1],
                old(self).rest()[2],
                old(self).rest()[3],
            ),
            final(self).rest() == old(self).rest().skip(4),
    {
        proof {
            use_type_invariant(&*self);
        }
        let b0 = self.data[self.pos];
        let b1 = self.data[self.pos + 1];
        let b2 = self.data[self.pos + 2];
        let b3 = self.data[self.pos + 3];
        self.pos = self.pos + 4;
        assert(self.rest() =~= old(self).rest().skip(4));
        b0 as u32 + (b1 as u32) * 0x100 + (b2 as u32) * 0x10000 + (b3 as u32) * 0x1000000
    }

    /// Consumes four bytes and returns the signed reading of their
    /// little-endian value.
    pub fn get_i32_le(&mut self) -> (r: i32)
        requires
            old(self).rest().len() >= 4,
        ensures
            r == i32_of_u32(
                u32_le_val(
                    old(self).rest()[0],
                    old(self).rest()[1],
                    old(self).rest()[2],
                    old(self).rest()[3],
                ),
            ),
            final(self).rest() == old(self).rest().skip(4),
    {
        let v = self.get_u32_le();
        i32_from_wire(v)
    }

    /// Consumes two bytes and returns their big-endian value.
    pub fn get_u16_be(&mut self) -> (r: u16)
        requires
            old(self).rest().len() >= 2,
        ensures
            r == u16_be_val(old(self).rest()[0], old(self).rest()[1]),
            final(self).rest() == old(self).rest().skip(2),
    {
        proof {
            use_type_invariant(&*self);
        }
        let b0 = self.data[self.pos];
        let b1 = self.data[self.pos + 1];
        self.pos = self.pos + 2;
        assert(self.rest() =~= old(self).rest().skip(2));
        (b0 as u16) * 0x100 + b1 as u16
    }

    /// Consumes two bytes and returns the signed reading of their
    /// big-endian value.
    pub fn get_i16_be(&mut self) -> (r: i16)
        requires
            old(self).rest().len() >= 2,
        ensures
            r == i16_of_u16(u16_be_val(old(self).rest()[0], old(self).rest()[1])),
            final(self).rest() == old(self).rest().skip(2),
    {
        let v = self.get_u16_be();
        i16_from_wire(v)
    }

    /// Consumes four bytes and returns their big-endian value.
    pub fn get_u32_be(&mut self) -> (r: u32)
        requires
            old(self).rest().len() >= 4,
        ensures
            r == u32_be_val(
                old(self).rest()[0],
                old(self).rest()[1],
                old(self).rest()[2],
                old(self).rest()[3],
            ),
            final(self).rest() == old(self).rest().skip(4),
    {
        proof {
            use_type_invariant(&*self);
        }
        let b0 = self.data[self.pos];
        let b1 = self.data[self.pos + 1];
        let b2 = self.data[self.pos + 2];
        let b3 = self.data[self.pos + 3];
        self.pos = self.pos + 4;
        assert(self.rest() =~= old(self).rest().skip(4));
        (b0 as u32) * 0x1000000 + (b1 as u32) * 0x10000 + (b2 as u32) * 0x100 + b3 as u32
    }

    /// Consumes `n` bytes and returns them as an owned vector.
    pub fn copy_bytes(&mut self, n: usize) -> (r: Vec<u8>)
        requires
            old(self).rest().len() >= n,
        ensures
            r@ == old(self).rest().take(n as int),
            final(self).rest() == old(self).rest().skip(n as int),
    {
        proof {
            use_type_invariant(&*self);
        }
        let mut out: Vec<u8> = Vec::new();
        let mut i: usize = 0;
        while i < n
            invariant
                i <= n,
                self == old(self),
                old(self).inv(),
                old(self).rest().len() >= n,
                out@ == old(self).rest().take(i as int),
            decreases n - i,
        {
            out.push(self.data[self.pos + i]);
            i = i + 1;
            assert(out@ =~= old(self).rest().take(i as int));
        }
        self.pos = self.pos + n;
        assert(self.rest() =~= old(self).rest().skip(n as int));
        out
    }
}

} // verus!
