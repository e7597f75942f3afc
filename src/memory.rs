//! Flat byte-addressable memory with bounds-checked, width-parameterized access.
//!
//! Multi-byte values are stored big-endian: the most significant byte sits at
//! the lowest address. This is part of the program-image format.
use crate::utils::{CpuPanic, CpuResult, ok_value};
use vstd::prelude::*;

verus! {

/// The width an operation treats its operands and results as.
#[derive(Debug, Clone, Copy, PartialEq, Eq)]
pub enum DataWidth {
    Byte,
    Short,
    Word,
}

impl DataWidth {
    /// Number of bytes a value of this width occupies.
    pub open spec fn spec_size(self) -> nat {
        match self {
            DataWidth::Byte => 1,
            DataWidth::Short => 2,
            DataWidth::Word => 4,
        }
    }

    /// The mask that truncates a value to this width.
    pub open spec fn spec_bitmask(self) -> u32 {
        match self {
            DataWidth::Byte => 0xff,
            DataWidth::Short => 0xffff,
            DataWidth::Word => 0xffff_ffff,
        }
    }

    /// One more than the largest value of this width: results are taken modulo it.
    pub open spec fn modulus(self) -> int {
        match self {
            DataWidth::Byte => 0x100,
            DataWidth::Short => 0x1_0000,
            DataWidth::Word => 0x1_0000_0000,
        }
    }

    pub fn bitmask(&self) -> (r: u32)
        ensures
            r == self.spec_bitmask(),
            r == self.modulus() - 1,
    {
        match self {
            DataWidth::Byte => 0xff,
            DataWidth::Short => 0xffff,
            DataWidth::Word => 0xffff_ffff,
        }
    }

    pub fn size(&self) -> (r: usize)
        ensures
            r == self.spec_size(),
    {
        match self {
            DataWidth::Byte => 1,
            DataWidth::Short => 2,
            DataWidth::Word => 4,
        }
    }
}

/// Masking with a width's bitmask is reduction modulo the width's modulus.
pub proof fn lemma_bitmask_is_mod(width: DataWidth, v: u32)
    ensures
        (v & width.spec_bitmask()) as int == v as int % width.modulus(),
{
    match width {
        DataWidth::Byte => {
            assert(v & 0xff == v % 0x100) by (bit_vector);
        },
        DataWidth::Short => {
            assert(v & 0xffff == v % 0x1_0000) by (bit_vector);
        },
        DataWidth::Word => {
            assert(v & 0xffff_ffff == v) by (bit_vector);
        },
    }
}

/// Whether an access of `width` at `address` lies inside memory of these bytes.
pub open spec fn fits(mem: Seq<u8>, width: DataWidth, address: u32) -> bool {
    address + width.spec_size() <= mem.len()
}

/// The big-endian value of the `width` bytes starting at `a`.
pub open spec fn load(mem: Seq<u8>, width: DataWidth, a: int) -> u32 {
    match width {
        DataWidth::Byte => mem[a] as u32,
        DataWidth::Short => (mem[a] * 0x100 + mem[a + 1]) as u32,
        DataWidth::Word => (mem[a] * 0x100_0000 + mem[a + 1] * 0x1_0000 + mem[a + 2] * 0x100
            + mem[a + 3]) as u32,
    }
}

/// Memory after storing the low `width` bytes of `v` big-endian at `a`.
pub open spec fn store(mem: Seq<u8>, width: DataWidth, a: int, v: u32) -> Seq<u8> {
    match width {
        DataWidth::Byte => mem.update(a, (v % 0x100) as u8),
        DataWidth::Short => mem.update(a, (v / 0x100 % 0x100) as u8).update(
            a + 1,
            (v % 0x100) as u8,
        ),
        DataWidth::Word => mem.update(a, (v / 0x100_0000) as u8).update(
            a + 1,
            (v / 0x1_0000 % 0x100) as u8,
        ).update(a + 2, (v / 0x100 % 0x100) as u8).update(a + 3, (v % 0x100) as u8),
    }
}

/// What a read of `width` at `address` yields: the value, or `None` out of bounds.
pub open spec fn read_result(mem: Seq<u8>, width: DataWidth, address: u32) -> Option<u32> {
    if fits(mem, width, address) {
        Some(load(mem, width, address as int))
    } else {
        None
    }
}

/// Memory after a write of `width` at `address`: unchanged when out of bounds.
pub open spec fn write_result(mem: Seq<u8>, width: DataWidth, address: u32, v: u32) -> Seq<u8> {
    if fits(mem, width, address) {
        store(mem, width, address as int, v)
    } else {
        mem
    }
}

pub struct Memory {
    pub data: Vec<u8>,
}

impl View for Memory {
    type V = Seq<u8>;

    open spec fn view(&self) -> Seq<u8> {
        self.data@
    }
}

impl Memory {
    pub fn new(memory_size: usize) -> (r: Memory)
        ensures
            r@ == Seq::new(memory_size as nat, |i: int| 0u8),
    {
        let data: Vec<u8> = vec![0u8; memory_size];
        let r = Memory { data };
        assert(r@ =~= Seq::new(memory_size as nat, |i: int| 0u8));
        r
    }

    /// Copies a program image into the low addresses: as many of its bytes as
    /// memory holds, the rest of memory untouched.
    pub fn load_image(&mut self, image: &[u8])
        ensures
            final(self)@ == Seq::new(
                old(self)@.len(),
                |i: int| if i < image@.len() {
                    image@[i]
                } else {
                    old(self)@[i]
                },
            ),
    {
        let limit = if self.data.len() < image.len() {
            self.data.len()
        } else {
            image.len()
        };
        let mut i: usize = 0;
        while i < limit
            invariant
                limit <= self.data.len(),
                limit <= image@.len(),
                limit == self.data.len() || limit == image@.len(),
                0 <= i <= limit,
                self@.len() == old(self)@.len(),
                forall|j: int|
                    0 <= j < self@.len() ==> #[trigger] self@[j] == if j < i {
                        image@[j]
                    } else {
                        old(self)@[j]
                    },
            decreases limit - i,
        {
            self.data[i] = image[i];
            i = i + 1;
        }
        assert(self@ =~= Seq::new(
            old(self)@.len(),
            |i: int| if i < image@.len() {
                image@[i]
            } else {
                old(self)@[i]
            },
        ));
    }

    /// Whether `size` bytes starting at `address` lie inside memory.
    fn check_bounds(&self, address: u32, size: usize) -> (r: bool)
        ensures
            r == (address + size <= self@.len()),
            r == (address + size <= self.data.len()),
    {
        let n = self.data.len();
        size <= n && address as usize <= n - size
    }

    pub fn read_byte(&self, address: u32) -> (r: CpuResult<u8>)
        ensures
            ok_value(r) == (if fits(self@, DataWidth::Byte, address) {
                Some(self@[address as int])
            } else {
                None
            }),
    {
        if !self.check_bounds(address, 1) {
            return Err(CpuPanic::new());
        }
        Ok(self.data[address as usize])
    }

    pub fn read_short(&self, address: u32) -> (r: CpuResult<u16>)
        ensures
            ok_value(r) == (if fits(self@, DataWidth::Short, address) {
                Some(load(self@, DataWidth::Short, address as int) as u16)
            } else {
                None
            }),
    {
        if !self.check_bounds(address, 2) {
            return Err(CpuPanic::new());
        }
        let a = address as usize;
        let high = self.data[a] as u16;
        let low = self.data[a + 1] as u16;
        Ok(high * 0x100 + low)
    }

    pub fn read_word(&self, address: u32) -> (r: CpuResult<u32>)
        ensures
            ok_value(r) == read_result(self@, DataWidth::Word, address),
    {
        if !self.check_bounds(address, 4) {
            return Err(CpuPanic::new());
        }
        let a = address as usize;
        let b0 = self.data[a] as u32;
        let b1 = self.data[a + 1] as u32;
        let b2 = self.data[a + 2] as u32;
        let b3 = self.data[a + 3] as u32;
        Ok(b0 * 0x100_0000 + b1 * 0x1_0000 + b2 * 0x100 + b3)
    }

    pub fn write_byte(&mut self, address: u32, value: u8) -> (r: CpuResult<()>)
        ensures
            r is Ok == fits(old(self)@, DataWidth::Byte, address),
            final(self)@ == write_result(old(self)@, DataWidth::Byte, address, value as u32),
    {
        if !self.check_bounds(address, 1) {
            return Err(CpuPanic::new());
        }
        self.data[address as usize] = value;
        Ok(())
    }

    pub fn write_short(&mut self, address: u32, value: u16) -> (r: CpuResult<()>)
        ensures
            r is Ok == fits(old(self)@, DataWidth::Short, address),
            final(self)@ == write_result(old(self)@, DataWidth::Short, address, value as u32),
    {
        if !self.check_bounds(address, 2) {
            return Err(CpuPanic::new());
        }
        let a = address as usize;
        self.data[a] = (value / 0x100) as u8;
        self.data[a + 1] = (value % 0x100) as u8;
        Ok(())
    }

    pub fn write_word(&mut self, address: u32, value: u32) -> (r: CpuResult<()>)
        ensures
            r is Ok == fits(old(self)@, DataWidth::Word, address),
            final(self)@ == write_result(old(self)@, DataWidth::Word, address, value),
    {
        if !self.check_bounds(address, 4) {
            return Err(CpuPanic::new());
        }
        let a = address as usize;
        self.data[a] = (value / 0x100_0000) as u8;
        self.data[a + 1] = (value / 0x1_0000 % 0x100) as u8;
        self.data[a + 2] = (value / 0x100 % 0x100) as u8;
        self.data[a + 3] = (value % 0x100) as u8;
        Ok(())
    }

    /// Stores the low `width` bytes of `value` at `address`.
    pub fn write_width(&mut self, width: DataWidth, address: u32, value: u32) -> (r: CpuResult<()>)
        ensures
            r is Ok == fits(old(self)@, width, address),
            final(self)@ == write_result(old(self)@, width, address, value),
    {
        match width {
            DataWidth::Byte => {
                let b = (value % 0x100) as u8;
                self.write_byte(address, b)
            },
            DataWidth::Short => {
                let s = (value % 0x1_0000) as u16;
                self.write_short(address, s)
            },
            DataWidth::Word => self.write_word(address, value),
        }
    }

    pub fn read_width(&self, width: DataWidth, address: u32) -> (r: CpuResult<u32>)
        ensures
            ok_value(r) == read_result(self@, width, address),
    {
        match width {
            DataWidth::Byte => match self.read_byte(address) {
                Ok(b) => Ok(b as u32),
                Err(e) => Err(e),
            },
            DataWidth::Short => match self.read_short(address) {
                Ok(s) => Ok(s as u32),
                Err(e) => Err(e),
            },
            DataWidth::Word => self.read_word(address),
        }
    }
}

} // verus!

verus! {

/// Writing a value and reading it back at the same width and address yields the
/// value truncated to that width, and keeps the memory's size.
pub proof fn lemma_write_read_round_trip(mem: Seq<u8>, width: DataWidth, address: u32, v: u32)
    requires
        fits(mem, width, address),
    ensures
        write_result(mem, width, address, v).len() == mem.len(),
        read_result(write_result(mem, width, address, v), width, address) == Some(
            v & width.spec_bitmask(),
        ),
{
    let m = write_result(mem, width, address, v);
    let a = address as int;
    lemma_bitmask_is_mod(width, v);
    match width {
        DataWidth::Byte => {
            assert(m[a] == v % 0x100);
        },
        DataWidth::Short => {
            assert(m[a] == v / 0x100 % 0x100);
            assert(m[a + 1] == v % 0x100);
            assert((v / 0x100 % 0x100) * 0x100 + v % 0x100 == v % 0x1_0000) by (bit_vector);
        },
        DataWidth::Word => {
            assert(m[a] == v / 0x100_0000);
            assert(m[a + 1] == v / 0x1_0000 % 0x100);
            assert(m[a + 2] == v / 0x100 % 0x100);
            assert(m[a + 3] == v % 0x100);
            assert((v / 0x100_0000) * 0x100_0000 + (v / 0x1_0000 % 0x100) * 0x1_0000 + (v / 0x100
                % 0x100) * 0x100 + v % 0x100 == v) by (bit_vector);
        },
    }
}

/// An access that does not fit fails: a read yields nothing and a write leaves
/// every byte as it was.
pub proof fn lemma_out_of_bounds_access(mem: Seq<u8>, width: DataWidth, address: u32, v: u32)
    requires
        !fits(mem, width, address),
    ensures
        read_result(mem, width, address) is None,
        write_result(mem, width, address, v) == mem,
{
}

} // verus!
