use vstd::arithmetic::power::pow;
use vstd::arithmetic::power2::{
    is_pow2, is_pow2_equiv, lemma2_to64, lemma_pow2_pos, lemma_pow2_strictly_increases, pow2,
};
use vstd::bits::lemma_u64_low_bits_mask_is_mod;
use vstd::prelude::*;

use crate::xdp::XdpDesc;

verus! {

/// A range of bytes in this process, by its address and its length.
#[derive(Clone, Copy, Debug, PartialEq, Eq)]
pub struct UmemArea {
    pub addr: usize,
    pub len: usize,
}

impl UmemArea {
    /// The range can be an allocation: it does not start at the null address, it does not wrap
    /// round the address space, and an offset into it fits in `isize`.
    pub open spec fn wf(self) -> bool {
        &&& self.addr != 0
        &&& self.len <= isize::MAX
        &&& self.addr + self.len <= usize::MAX
    }

    /// The range holds all of the other one.
    pub open spec fn contains(self, other: UmemArea) -> bool {
        &&& self.addr <= other.addr
        &&& other.addr + other.len <= self.addr + self.len
    }

    /// The two ranges have no byte in common.
    pub open spec fn disjoint(self, other: UmemArea) -> bool {
        self.addr + self.len <= other.addr || other.addr + other.len <= self.addr
    }

    /// The low bits of the address, below the page size, are all zero.
    pub open spec fn page_aligned(self, page_size: usize) -> bool {
        self.addr & (page_size - 1) as usize == 0
    }

    /// Whether the range starts at a page boundary.
    pub fn is_page_aligned(&self, page_size: usize) -> (aligned: bool)
        requires
            page_size > 0,
        ensures
            aligned == self.page_aligned(page_size),
    {
        (self.addr & (page_size - 1)) == 0
    }
}

/// With a power of two for the page size, an area is page aligned if and only if its address is
/// a multiple of the page size.
pub proof fn law_page_aligned(area: UmemArea, page_size: usize)
    requires
        is_pow2(page_size as int),
    ensures
        area.page_aligned(page_size) <==> area.addr % page_size == 0,
{
    is_pow2_equiv(page_size as int);
    let shift = choose|n: nat| pow(2, n) == page_size as int;
    lemma_pow2_pos(shift);
    assert(pow2(shift) == page_size);
    if shift >= 64 {
        lemma2_to64();
        if shift > 64 {
            lemma_pow2_strictly_increases(64, shift);
        }
    }
    lemma_u64_low_bits_mask_is_mod(area.addr as u64, shift);
    assert(area.addr & (page_size - 1) as usize == area.addr as u64 & (page_size - 1) as u64);
}

/// One frame of a packet buffer area.
#[derive(Clone, Copy, Debug, PartialEq, Eq)]
pub struct UmemChunk {
    /// The bytes of the frame.
    pub addr: UmemArea,
    /// Where the frame starts in the packet buffer area.
    pub offset: u64,
}

impl UmemChunk {
    /// The descriptor of a packet that starts where the chunk does.
    pub open spec fn descriptor(self, len: u32) -> XdpDesc {
        XdpDesc { addr: self.offset, len, options: 0 }
    }

    /// The descriptor of a packet that takes up the chunk, its length cut to 32 bits.
    pub open spec fn whole(self) -> XdpDesc {
        self.descriptor((self.addr.len as int % 0x1_0000_0000) as u32)
    }

    /// Turns the whole chunk into a descriptor for the transmit ring.
    ///
    /// A descriptor's length has 32 bits. Of a longer chunk, which no area has, only the low bits
    /// of the length are kept.
    pub fn as_xdp(self) -> (desc: XdpDesc)
        ensures
            desc == self.whole(),
            self.addr.len <= u32::MAX ==> desc.len == self.addr.len,
    {
        let size: u64 = self.addr.len as u64;
        let len: u32 = #[verifier::truncate] (size as u32);
        assert(size as u32 == size % 0x1_0000_0000) by (bit_vector);
        self.as_xdp_with_len(len)
    }

    /// Turns the start of the chunk, with the given length, into a descriptor.
    pub fn as_xdp_with_len(self, len: u32) -> (desc: XdpDesc)
        requires
            len <= self.addr.len,
        ensures
            desc.addr == self.offset,
            desc.len == len,
            desc.options == 0,
            desc == self.descriptor(len),
    {
        XdpDesc { addr: self.offset, len, options: 0 }
    }
}

} // verus!
