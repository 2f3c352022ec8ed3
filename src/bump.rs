//! Early-boot memory allocator over one contiguous region: bytes are handed
//! out upward from the start, pages downward from the end.
//!
//! ```text
//! [ bytes-used | avail-area | pages-used ]
//! |            | -->    <-- |            |
//! start       b_pos        p_pos       end
//! ```
//!
//! The byte area counts its live allocations and is released as a whole when
//! that count drops to zero; pages are never released.
use vstd::prelude::*;
use vstd::arithmetic::power2::pow2;

verus! {

/// Why an allocation request was refused.
#[derive(Clone, Copy, Debug, PartialEq, Eq, Structural)]
pub enum AllocError {
    /// A parameter this allocator does not support.
    InvalidParam,
    /// The request does not fit between the byte area and the page area.
    MemoryOverlap,
}

/// The allocator's state as plain numbers.
pub struct EarlyAllocatorView {
    pub start: nat,
    pub end: nat,
    pub b_pos: nat,
    pub p_pos: nat,
    pub count: nat,
}

/// The smallest multiple of `align` that is at least `x`.
pub open spec fn align_up(x: nat, align: nat) -> nat
    recommends
        align > 0,
{
    if x % align == 0 {
        x
    } else {
        (x + (align - x % align)) as nat
    }
}

/// The largest multiple of `align` that is at most `x`.
pub open spec fn align_down(x: nat, align: nat) -> nat
    recommends
        align > 0,
{
    (x - x % align) as nat
}

/// Double-ended bump allocator with pages of `PAGE_SIZE` bytes.
pub struct EarlyAllocator<const PAGE_SIZE: usize> {
    start: usize,
    end: usize,
    b_pos: usize,
    p_pos: usize,
    count: usize,
}

impl<const PAGE_SIZE: usize> View for EarlyAllocator<PAGE_SIZE> {
    type V = EarlyAllocatorView;

    closed spec fn view(&self) -> EarlyAllocatorView {
        EarlyAllocatorView {
            start: self.start as nat,
            end: self.end as nat,
            b_pos: self.b_pos as nat,
            p_pos: self.p_pos as nat,
            count: self.count as nat,
        }
    }
}

impl<const PAGE_SIZE: usize> EarlyAllocator<PAGE_SIZE> {
    /// The areas are ordered, and the byte area is empty when nothing is
    /// allocated from it.
    pub open spec fn wf(&self) -> bool {
        &&& self@.start <= self@.b_pos <= self@.p_pos <= self@.end <= usize::MAX
        &&& self@.count == 0 ==> self@.b_pos == self@.start
        &&& self@.count <= usize::MAX
    }

    /// An allocator over no memory.
    pub fn new() -> (r: Self)
        ensures
            r.wf(),
            r@.start == 0 && r@.end == 0 && r@.b_pos == 0 && r@.p_pos == 0 && r@.count == 0,
    {
        EarlyAllocator { start: 0, end: 0, b_pos: 0, p_pos: 0, count: 0 }
    }

    /// Takes over the region of `size` bytes at `start`; all of it is free.
    pub fn init(&mut self, start: usize, size: usize)
        requires
            start + size <= usize::MAX,
        ensures
            final(self).wf(),
            final(self)@.start == start,
            final(self)@.end == start + size,
            final(self)@.b_pos == start,
            final(self)@.p_pos == start + size,
            final(self)@.count == 0,
    {
        self.start = start;
        self.end = start + size;
        self.b_pos = start;
        self.p_pos = self.end;
        self.count = 0;
    }

    /// A second region cannot be added: always refused.
    pub fn add_memory(&mut self, start: usize, size: usize) -> (r: Result<(), AllocError>)
        ensures
            r == Err::<(), AllocError>(AllocError::InvalidParam),
            final(self)@ == old(self)@,
    {
        Err(AllocError::InvalidParam)
    }

    /// Allocates `size` bytes aligned to `align` at the low end of the free
    /// area; fails when they would reach into the page area.
    pub fn alloc_bytes(&mut self, size: usize, align: usize) -> (r: Result<usize, AllocError>)
        requires
            old(self).wf(),
            align > 0,
            old(self)@.count < usize::MAX,
        ensures
            final(self).wf(),
            ({
                let s = old(self)@;
                let a = align_up(s.b_pos, align as nat);
                if a + size <= s.p_pos {
                    &&& r == Ok::<usize, AllocError>(a as usize)
                    &&& final(self)@ == EarlyAllocatorView { b_pos: (a + size) as nat, count: s.count + 1, ..s }
                } else {
                    &&& r == Err::<usize, AllocError>(AllocError::MemoryOverlap)
                    &&& final(self)@ == s
                }
            }),
    {
        let rem = self.b_pos % align;
        let aligned: usize;
        if rem == 0 {
            aligned = self.b_pos;
        } else if self.b_pos > usize::MAX - (align - rem) {
            return Err(AllocError::MemoryOverlap);
        } else {
            aligned = self.b_pos + (align - rem);
        }
        if aligned <= self.p_pos && size <= self.p_pos - aligned {
            self.b_pos = aligned + size;
            self.count = self.count + 1;
            Ok(aligned)
        } else {
            Err(AllocError::MemoryOverlap)
        }
    }

    /// Releases one byte allocation; when none is left the byte area is empty
    /// again. Which allocation is released does not matter.
    pub fn dealloc(&mut self)
        requires
            old(self).wf(),
        ensures
            final(self).wf(),
            ({
                let s = old(self)@;
                if s.count == 0 {
                    final(self)@ == s
                } else if s.count == 1 {
                    final(self)@ == EarlyAllocatorView { b_pos: s.start, count: 0, ..s }
                } else {
                    final(self)@ == EarlyAllocatorView { count: (s.count - 1) as nat, ..s }
                }
            }),
    {
        if self.count > 0 {
            self.count = self.count - 1;
            if self.count == 0 {
                self.b_pos = self.start;
            }
        }
    }

    /// Size of the whole region.
    pub fn total_bytes(&self) -> (r: usize)
        requires
            self.wf(),
        ensures
            r == self@.end - self@.start,
    {
        self.end - self.start
    }

    /// Bytes taken by the byte area.
    pub fn used_bytes(&self) -> (r: usize)
        requires
            self.wf(),
        ensures
            r == self@.b_pos - self@.start,
    {
        self.b_pos - self.start
    }

    /// Bytes between the byte area and the page area.
    pub fn available_bytes(&self) -> (r: usize)
        requires
            self.wf(),
        ensures
            r == self@.p_pos - self@.b_pos,
    {
        self.p_pos - self.b_pos
    }

    /// Allocates `num_pages` pages at the high end of the free area, at an
    /// address aligned to 2^`align_pow2`; fails when they would reach into
    /// the byte area.
    pub fn alloc_pages(&mut self, num_pages: usize, align_pow2: usize) -> (r: Result<usize, AllocError>)
        requires
            old(self).wf(),
            align_pow2 < usize::BITS,
        ensures
            final(self).wf(),
            ({
                let s = old(self)@;
                let total = num_pages * PAGE_SIZE;
                let a = align_down((s.p_pos - total) as nat, pow2(align_pow2 as nat));
                if total <= s.p_pos && s.b_pos <= a {
                    &&& r == Ok::<usize, AllocError>(a as usize)
                    &&& final(self)@ == EarlyAllocatorView { p_pos: a, ..s }
                } else {
                    &&& r == Err::<usize, AllocError>(AllocError::MemoryOverlap)
                    &&& final(self)@ == s
                }
            }),
    {
        proof {
            vstd::bits::lemma_usize_pow2_no_overflow(align_pow2 as nat);
            vstd::bits::lemma_usize_shl_is_mul(1, align_pow2);
        }
        let align: usize = 1usize << align_pow2;
        if PAGE_SIZE != 0 && num_pages > self.p_pos / PAGE_SIZE {
            proof {
                assert(num_pages * PAGE_SIZE > self.p_pos) by (nonlinear_arith)
                    requires
                        PAGE_SIZE > 0,
                        num_pages > self.p_pos / PAGE_SIZE,
                ;
            }
            return Err(AllocError::MemoryOverlap);
        }
        proof {
            assert(num_pages * PAGE_SIZE <= self.p_pos) by (nonlinear_arith)
                requires
                    PAGE_SIZE == 0 || num_pages <= self.p_pos / PAGE_SIZE,
            ;
        }
        let total = num_pages * PAGE_SIZE;
        let top = self.p_pos - total;
        proof {
            assert(align == pow2(align_pow2 as nat));
            assert(top % align <= top) by (nonlinear_arith)
                requires
                    align > 0,
            ;
        }
        let aligned = top - top % align;
        if self.b_pos <= aligned {
            self.p_pos = aligned;
            Ok(aligned)
        } else {
            Err(AllocError::MemoryOverlap)
        }
    }

    /// Pages are never released.
    pub fn dealloc_pages(&mut self, pos: usize, num_pages: usize)
        ensures
            final(self)@ == old(self)@,
    {
    }

    /// Number of whole pages in the region.
    pub fn total_pages(&self) -> (r: usize)
        requires
            self.wf(),
            PAGE_SIZE > 0,
        ensures
            r == (self@.end - self@.start) / (PAGE_SIZE as int),
    {
        (self.end - self.start) / PAGE_SIZE
    }

    /// Number of whole pages that the page area spans.
    pub fn used_pages(&self) -> (r: usize)
        requires
            self.wf(),
            PAGE_SIZE > 0,
        ensures
            r == (self@.end - self@.p_pos) / (PAGE_SIZE as int),
    {
        (self.end - self.p_pos) / PAGE_SIZE
    }

    /// Number of whole pages that still fit between the two areas.
    pub fn available_pages(&self) -> (r: usize)
        requires
            self.wf(),
            PAGE_SIZE > 0,
        ensures
            r == (self@.p_pos - self@.b_pos) / (PAGE_SIZE as int),
    {
        self.available_bytes() / PAGE_SIZE
    }
}

} // verus!
