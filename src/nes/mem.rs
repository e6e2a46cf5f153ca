//! Byte-addressed memories and the read/write interface over them.
use vstd::prelude::*;

verus! {

/// A block of memory, either RAM or ROM, over a backing store `D`.
pub struct Memory<D> {
    is_ram: bool,
    data: D,
}

impl<D> Memory<D> {
    pub closed spec fn spec_is_ram(&self) -> bool {
        self.is_ram
    }

    pub fn new() -> (m: Self)
        where
            D: Default,
        ensures
            !m.spec_is_ram(),
    {
        Memory { is_ram: false, data: D::default() }
    }

    pub fn is_ram(&self) -> (r: bool)
        ensures
            r == self.spec_is_ram(),
    {
        self.is_ram
    }
}

impl Memory<Vec<u8>> {
    /// The bytes held.
    pub closed spec fn bytes(&self) -> Seq<u8> {
        self.data@
    }

    /// An empty ROM.
    pub fn rom() -> (m: Self)
        ensures
            !m.spec_is_ram(),
            m.bytes() == Seq::<u8>::empty(),
    {
        Memory { is_ram: false, data: Vec::new() }
    }

    pub fn with_size(self, size: usize) -> (m: Self)
        ensures
            m.spec_is_ram() == self.spec_is_ram(),
            m.bytes() == resized(self.bytes(), size as nat),
    {
        let mut m = self;
        m.resize(size);
        m
    }

    /// Truncates to `size` bytes, or extends with zeros up to it.
    pub fn resize(&mut self, size: usize)
        ensures
            final(self).spec_is_ram() == old(self).spec_is_ram(),
            final(self).bytes() == resized(old(self).bytes(), size as nat),
    {
        self.data.resize(size, 0);
        assert(self.data@ =~= resized(old(self).bytes(), size as nat));
    }
}

/// `s` cut to `size` bytes or padded with zeros up to it.
pub open spec fn resized(s: Seq<u8>, size: nat) -> Seq<u8> {
    Seq::new(size, |i: int| if i < s.len() { s[i] } else { 0u8 })
}

/// The little-endian word of the bytes at `lo` and `hi`.
pub open spec fn le_word(lo: u8, hi: u8) -> u16 {
    (lo + 256 * hi) as u16
}

pub open spec fn next_addr(addr: u16) -> u16 {
    ((addr + 1) % 0x10000) as u16
}

/// Something that answers byte reads on a 16-bit address space.
pub trait Read {
    /// Whether a read of `addr` is supported.
    spec fn readable(&self, addr: u16) -> bool;

    /// The byte a read of `addr` returns.
    spec fn byte_at(&self, addr: u16) -> u8;

    fn read(&self, addr: u16) -> (r: u8)
        requires
            self.readable(addr),
        ensures
            r == self.byte_at(addr),
    ;

    /// The little-endian word at `addr` and `addr + 1` (wrapping).
    fn read_u16(&self, addr: u16) -> (r: u16)
        requires
            self.readable(addr),
            self.readable(next_addr(addr)),
        ensures
            r == le_word(self.byte_at(addr), self.byte_at(next_addr(addr))),
    {
        let low = self.read(addr);
        let high = self.read(addr.wrapping_add(1));
        low as u16 + high as u16 * 256
    }
}

/// Something that takes byte writes on a 16-bit address space.
pub trait Write: Sized {
    /// Whether a write of `addr` is supported.
    spec fn writable(&self, addr: u16) -> bool;

    /// Whether `self` is what writing `val` at `addr` makes of `before`.
    spec fn written(&self, before: &Self, addr: u16, val: u8) -> bool;

    fn write(&mut self, addr: u16, val: u8)
        requires
            old(self).writable(addr),
        ensures
            final(self).written(old(self), addr, val),
    ;

    /// Writes `val` little-endian at `addr` and `addr + 1` (wrapping).
    fn write_u16(&mut self, addr: u16, val: u16)
        requires
            old(self).writable(addr),
            forall|s: Self| #[trigger] s.written(old(self), addr, (val % 256) as u8) ==> s.writable(
                next_addr(addr),
            ),
        ensures
            exists|mid: Self|
                {
                    &&& #[trigger] mid.written(old(self), addr, (val % 256) as u8)
                    &&& final(self).written(&mid, next_addr(addr), (val / 256) as u8)
                },
    {
        let low = (val % 256) as u8;
        let high = (val / 256) as u8;
        self.write(addr, low);
        let ghost mid = *self;
        self.write(addr.wrapping_add(1), high);
        assert(self.written(&mid, next_addr(addr), high));
    }
}

} // verus!
