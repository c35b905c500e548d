use vstd::prelude::*;

verus! {

/// Block size, in bytes, of a region that the platform encrypts in place.
pub const BLOCK_SIZE: u64 = 16;

/// A region of memory submitted for in-place encryption, widened to whole
/// blocks, and the two pads by which it exceeds the requested range.
///
/// `lead` bytes precede the requested range and `trail` bytes follow it; the
/// caller keeps what guest memory holds there.
#[derive(Debug, Clone, Copy, PartialEq, Eq, Structural)]
pub struct AlignedRegion {
    pub addr: u64,
    pub len: u32,
    pub lead: u64,
    pub trail: u64,
}

/// Start of the block that holds `addr`.
pub open spec fn aligned_start(addr: int) -> int {
    addr - addr % 16
}

/// Smallest multiple of the block size that is at least `n`.
pub open spec fn round_up(n: int) -> int {
    if n % 16 == 0 {
        n
    } else {
        n - n % 16 + 16
    }
}

/// Length of the whole-block region that covers `[addr, addr + len)`.
pub open spec fn aligned_len(addr: int, len: int) -> int {
    round_up(len + addr % 16)
}

/// Whether a region of the platform's 32-bit length field can cover
/// `[addr, addr + len)`.
pub open spec fn alignable(addr: int, len: int) -> bool {
    aligned_len(addr, len) <= u32::MAX && aligned_start(addr) + aligned_len(addr, len) <= u64::MAX
}

/// `r` is the whole-block cover of `[addr, addr + len)`.
pub open spec fn is_cover(r: AlignedRegion, addr: int, len: int) -> bool {
    &&& r.addr == aligned_start(addr)
    &&& r.len == aligned_len(addr, len)
    &&& r.lead == addr - r.addr
    &&& r.trail == (r.addr + r.len) - (addr + len)
}

/// The whole-block cover of `[addr, addr + len)`, where it is alignable.
pub open spec fn cover_of(addr: int, len: int) -> AlignedRegion {
    AlignedRegion {
        addr: aligned_start(addr) as u64,
        len: aligned_len(addr, len) as u32,
        lead: (addr % 16) as u64,
        trail: (aligned_start(addr) + aligned_len(addr, len) - (addr + len)) as u64,
    }
}

/// Widens the requested range `[addr, addr + len)` to whole blocks: the start
/// moves down to a block boundary and the length grows to a multiple of the
/// block size that reaches the requested end. `None` where that length does
/// not fit the 32-bit length field, or the range passes the end of the
/// address space.
pub fn align_region(addr: u64, len: u32) -> (r: Option<AlignedRegion>)
    ensures
        r is None <==> !alignable(addr as int, len as int),
        r matches Some(reg) ==> reg == cover_of(addr as int, len as int) && is_cover(
            reg,
            addr as int,
            len as int,
        ),
{
    let lead: u64 = addr % BLOCK_SIZE;
    let start: u64 = addr - lead;
    let mut total: u64 = len as u64 + lead;
    if total % BLOCK_SIZE != 0 {
        total = total - total % BLOCK_SIZE + BLOCK_SIZE;
    }
    if total > u32::MAX as u64 || start > u64::MAX - total {
        return None;
    }
    let end: u64 = addr + len as u64;
    Some(AlignedRegion { addr: start, len: total as u32, lead, trail: (start + total) - end })
}

/// The cover of a range is aligned, contains the range, and exceeds it by
/// less than one block at either end.
pub proof fn cover_contains_range(r: AlignedRegion, addr: int, len: int)
    requires
        0 <= addr,
        0 <= len,
        is_cover(r, addr, len),
    ensures
        r.addr % 16 == 0,
        r.len % 16 == 0,
        r.addr <= addr,
        addr + len <= r.addr + r.len,
        r.lead < 16,
        r.trail < 16,
{
}

/// A range that is already block aligned is submitted unchanged.
pub proof fn aligned_range_is_kept(r: AlignedRegion, addr: int, len: int)
    requires
        0 <= addr,
        0 <= len,
        addr % 16 == 0,
        len % 16 == 0,
        is_cover(r, addr, len),
    ensures
        r.addr == addr,
        r.len == len,
        r.lead == 0,
        r.trail == 0,
{
}

} // verus!
