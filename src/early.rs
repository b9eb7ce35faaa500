use crate::align::{
    align_down_spec, align_up, align_up_spec, is_pow2, lemma_mask_rounds_down, lemma_pow2_nonzero,
    lemma_shift_is_pow2,
};
use vstd::arithmetic::power2::pow2;
use vstd::prelude::*;

verus! {

/// Why an allocation request was turned down.
#[derive(Debug, Clone, Copy, PartialEq, Eq, Structural)]
pub enum AllocError {
    /// The arithmetic of the request does not fit in an address.
    InvalidParam,
    /// The byte region and the page region would overlap.
    NoMemory,
}

/// The cursors of an arena, as mathematical integers.
pub struct ArenaView {
    pub start: nat,
    pub end: nat,
    pub b_pos: nat,
    pub p_pos: nat,
    pub count: nat,
}

impl ArenaView {
    /// The cursors are ordered, and the byte region is empty when no byte
    /// allocation is outstanding.
    pub open spec fn wf(self) -> bool {
        &&& self.start <= self.b_pos
        &&& self.b_pos <= self.p_pos
        &&& self.p_pos <= self.end
        &&& self.end <= usize::MAX
        &&& self.count <= usize::MAX
        &&& (self.count == 0 ==> self.b_pos == self.start)
    }

    /// The state right after `init(start, size)`.
    pub open spec fn initial(start: nat, size: nat) -> ArenaView {
        ArenaView { start, end: start + size, b_pos: start, p_pos: start + size, count: 0 }
    }

    /// Where a byte allocation of this alignment would begin.
    pub open spec fn aligned_b_pos(self, align: nat) -> nat {
        align_up_spec(self.b_pos, align)
    }

    /// Rounding `b_pos` up, or adding `size` to it, leaves the address space.
    pub open spec fn byte_overflows(self, size: nat, align: nat) -> bool {
        self.b_pos + align - 1 > usize::MAX || self.aligned_b_pos(align) + size > usize::MAX
    }

    /// The byte allocation fits in the address space but runs into the page region.
    pub open spec fn byte_collides(self, size: nat, align: nat) -> bool {
        !self.byte_overflows(size, align) && self.aligned_b_pos(align) + size > self.p_pos
    }

    /// A byte allocation of `size` bytes aligned to `align` succeeds.
    pub open spec fn byte_fits(self, size: nat, align: nat) -> bool {
        !self.byte_overflows(size, align) && !self.byte_collides(size, align)
    }

    /// The state after a successful byte allocation.
    pub open spec fn after_alloc(self, size: nat, align: nat) -> ArenaView {
        ArenaView {
            b_pos: self.aligned_b_pos(align) + size,
            count: self.count + 1,
            ..self
        }
    }

    /// The state after a byte deallocation: one fewer outstanding, and the
    /// whole byte region released with the last one.
    pub open spec fn after_dealloc(self) -> ArenaView {
        let count = (self.count - 1) as nat;
        ArenaView { count, b_pos: if count == 0 { self.start } else { self.b_pos }, ..self }
    }

    /// Bytes of a run of `num_pages` pages.
    pub open spec fn page_run(num_pages: nat, page_size: nat) -> nat {
        num_pages * page_size
    }

    /// The page request's size or alignment does not fit in a word, or the
    /// run would reach below address zero.
    pub open spec fn page_invalid(self, num_pages: nat, align_pow2: nat, page_size: nat) -> bool {
        ||| Self::page_run(num_pages, page_size) > usize::MAX
        ||| align_pow2 >= usize::BITS
        ||| Self::page_run(num_pages, page_size) > self.p_pos
    }

    /// Where a page run would begin: `p_pos` moved down by the run and then
    /// rounded down to `2^align_pow2`.
    pub open spec fn page_target(self, num_pages: nat, align_pow2: nat, page_size: nat) -> nat {
        align_down_spec(
            (self.p_pos - Self::page_run(num_pages, page_size)) as nat,
            pow2(align_pow2),
        )
    }

    /// The page request is representable but the run would reach into the byte region.
    pub open spec fn page_collides(self, num_pages: nat, align_pow2: nat, page_size: nat) -> bool {
        !self.page_invalid(num_pages, align_pow2, page_size) && self.page_target(
            num_pages,
            align_pow2,
            page_size,
        ) < self.b_pos
    }

    /// A page allocation of `num_pages` pages aligned to `2^align_pow2` succeeds.
    pub open spec fn pages_fit(self, num_pages: nat, align_pow2: nat, page_size: nat) -> bool {
        !self.page_invalid(num_pages, align_pow2, page_size) && !self.page_collides(
            num_pages,
            align_pow2,
            page_size,
        )
    }

    /// The state after a successful page allocation.
    pub open spec fn after_alloc_pages(
        self,
        num_pages: nat,
        align_pow2: nat,
        page_size: nat,
    ) -> ArenaView {
        ArenaView { p_pos: self.page_target(num_pages, align_pow2, page_size), ..self }
    }

    pub open spec fn total_bytes(self) -> nat {
        (self.end - self.start) as nat
    }

    pub open spec fn used_bytes(self) -> nat {
        (self.b_pos - self.start) as nat
    }

    /// Free bytes between the two cursors (zero if they have crossed).
    pub open spec fn available_bytes(self) -> nat {
        if self.p_pos >= self.b_pos {
            (self.p_pos - self.b_pos) as nat
        } else {
            0
        }
    }

    pub open spec fn total_pages(self, page_size: nat) -> nat {
        self.total_bytes() / page_size
    }

    /// Pages handed out, counted down from `end`.
    pub open spec fn used_pages(self, page_size: nat) -> nat {
        ((self.end - self.p_pos) as nat) / page_size
    }

    pub open spec fn available_pages(self, page_size: nat) -> nat {
        self.available_bytes() / page_size
    }
}

/// An arena for the early boot phase: byte allocations grow up from `start`,
/// page allocations grow down from `end`.
///
/// ```text
/// [ bytes-used | avail-area | pages-used ]
/// |            | -->    <-- |            |
/// start       b_pos        p_pos       end
/// ```
///
/// The byte region is released as a whole when the last outstanding byte
/// allocation is freed; pages are never given back.
pub struct EarlyAllocator<const PAGE_SIZE: usize> {
    start: usize,
    end: usize,
    b_pos: usize,
    p_pos: usize,
    count: usize,
}

impl<const PAGE_SIZE: usize> View for EarlyAllocator<PAGE_SIZE> {
    type V = ArenaView;

    closed spec fn view(&self) -> ArenaView {
        ArenaView {
            start: self.start as nat,
            end: self.end as nat,
            b_pos: self.b_pos as nat,
            p_pos: self.p_pos as nat,
            count: self.count as nat,
        }
    }
}

impl<const PAGE_SIZE: usize> EarlyAllocator<PAGE_SIZE> {
    pub open spec fn wf(&self) -> bool {
        self@.wf()
    }

    /// An arena over the empty region at address zero; `init` makes it usable.
    pub fn new() -> (r: Self)
        ensures
            r@ == (ArenaView { start: 0, end: 0, b_pos: 0, p_pos: 0, count: 0 }),
            r.wf(),
    {
        EarlyAllocator { start: 0, end: 0, b_pos: 0, p_pos: 0, count: 0 }
    }

    /// Rounds `addr` up to a multiple of the power of two `align`.
    pub fn align_up(addr: usize, align: usize) -> (r: usize)
        requires
            is_pow2(align as nat),
            addr + align - 1 <= usize::MAX,
        ensures
            r as nat == align_up_spec(addr as nat, align as nat),
    {
        align_up(addr, align)
    }

    /// Takes over the region `[start, start + size)`, discarding any earlier state.
    pub fn init(&mut self, start: usize, size: usize)
        requires
            start + size <= usize::MAX,
        ensures
            final(self)@ == ArenaView::initial(start as nat, size as nat),
            final(self).wf(),
    {
        self.start = start;
        self.end = start + size;
        self.b_pos = start;
        self.p_pos = self.end;
        self.count = 0;
    }

    /// Region growth is not supported: this reports success and changes nothing.
    pub fn add_memory(&mut self, _start: usize, _size: usize) -> (r: Result<(), AllocError>)
        ensures
            r == Ok::<(), AllocError>(()),
            *final(self) == *old(self),
    {
        Ok(())
    }

    /// Allocates `size` bytes aligned to `align` from the byte region and
    /// returns their address.
    pub fn alloc_bytes(&mut self, size: usize, align: usize) -> (r: Result<usize, AllocError>)
        requires
            old(self).wf(),
            is_pow2(align as nat),
            old(self)@.count < usize::MAX,
        ensures
            final(self).wf(),
            r == Err::<usize, AllocError>(AllocError::InvalidParam) <==> old(self)@.byte_overflows(
                size as nat,
                align as nat,
            ),
            r == Err::<usize, AllocError>(AllocError::NoMemory) <==> old(self)@.byte_collides(
                size as nat,
                align as nat,
            ),
            r is Err ==> final(self)@ == old(self)@,
            r is Ok <==> old(self)@.byte_fits(size as nat, align as nat),
            r matches Ok(a) ==> {
                &&& a as nat == old(self)@.aligned_b_pos(align as nat)
                &&& a % align == 0
                &&& final(self)@ == old(self)@.after_alloc(size as nat, align as nat)
            },
    {
        proof {
            lemma_pow2_nonzero(align as nat);
        }
        if self.b_pos > usize::MAX - (align - 1) {
            return Err(AllocError::InvalidParam);
        }
        let aligned = align_up(self.b_pos, align);
        let new_b_pos = match aligned.checked_add(size) {
            Some(v) => v,
            None => {
                return Err(AllocError::InvalidParam);
            },
        };
        if new_b_pos > self.p_pos {
            return Err(AllocError::NoMemory);
        }
        self.b_pos = new_b_pos;
        self.count = self.count + 1;
        Ok(aligned)
    }

    /// Records that one byte allocation was freed; with the last one the
    /// whole byte region is released. The address and layout are not used.
    pub fn dealloc(&mut self, _pos: usize, _size: usize, _align: usize)
        requires
            old(self).wf(),
            old(self)@.count > 0,
        ensures
            final(self).wf(),
            final(self)@ == old(self)@.after_dealloc(),
    {
        self.count = self.count - 1;
        if self.count == 0 {
            self.b_pos = self.start;
        }
    }

    /// Allocates a run of `num_pages` pages aligned to `2^align_pow2` from the
    /// top of the free area and returns its base address. Pages are never
    /// given back, so `p_pos` only moves down.
    pub fn alloc_pages(&mut self, num_pages: usize, align_pow2: usize) -> (r: Result<
        usize,
        AllocError,
    >)
        requires
            old(self).wf(),
        ensures
            final(self).wf(),
            r == Err::<usize, AllocError>(AllocError::InvalidParam) <==> old(self)@.page_invalid(
                num_pages as nat,
                align_pow2 as nat,
                PAGE_SIZE as nat,
            ),
            r == Err::<usize, AllocError>(AllocError::NoMemory) <==> old(self)@.page_collides(
                num_pages as nat,
                align_pow2 as nat,
                PAGE_SIZE as nat,
            ),
            r is Err ==> final(self)@ == old(self)@,
            r is Ok <==> old(self)@.pages_fit(num_pages as nat, align_pow2 as nat, PAGE_SIZE as nat),
            r matches Ok(a) ==> {
                &&& a as nat == old(self)@.page_target(
                    num_pages as nat,
                    align_pow2 as nat,
                    PAGE_SIZE as nat,
                )
                &&& a as nat % pow2(align_pow2 as nat) == 0
                &&& final(self)@ == old(self)@.after_alloc_pages(
                    num_pages as nat,
                    align_pow2 as nat,
                    PAGE_SIZE as nat,
                )
            },
            final(self)@.p_pos <= old(self)@.p_pos,
    {
        let size = match num_pages.checked_mul(PAGE_SIZE) {
            Some(v) => v,
            None => {
                return Err(AllocError::InvalidParam);
            },
        };
        if align_pow2 >= usize::BITS as usize {
            return Err(AllocError::InvalidParam);
        }
        let align: usize = 1usize << align_pow2;
        proof {
            lemma_shift_is_pow2(align_pow2);
            lemma_pow2_nonzero(align as nat);
        }
        let lowered = match self.p_pos.checked_sub(size) {
            Some(v) => v,
            None => {
                return Err(AllocError::InvalidParam);
            },
        };
        proof {
            lemma_mask_rounds_down(lowered, align);
        }
        let new_p_pos = lowered & !(align - 1);
        if new_p_pos < self.b_pos {
            return Err(AllocError::NoMemory);
        }
        self.p_pos = new_p_pos;
        Ok(new_p_pos)
    }

    /// Pages are never given back: this changes nothing.
    pub fn dealloc_pages(&mut self, _pos: usize, _num_pages: usize)
        ensures
            *final(self) == *old(self),
            final(self)@.p_pos == old(self)@.p_pos,
            final(self)@.used_pages(PAGE_SIZE as nat) == old(self)@.used_pages(PAGE_SIZE as nat),
            final(self)@.available_pages(PAGE_SIZE as nat) == old(self)@.available_pages(
                PAGE_SIZE as nat,
            ),
    {
    }

    /// The page size of this arena.
    pub fn page_size(&self) -> (r: usize)
        ensures
            r == PAGE_SIZE,
    {
        PAGE_SIZE
    }

    /// Size of the whole region in bytes.
    pub fn total_bytes(&self) -> (r: usize)
        requires
            self.wf(),
        ensures
            r as nat == self@.total_bytes(),
    {
        self.end - self.start
    }

    /// Bytes taken by the byte region.
    pub fn used_bytes(&self) -> (r: usize)
        requires
            self.wf(),
        ensures
            r as nat == self@.used_bytes(),
    {
        self.b_pos - self.start
    }

    /// Bytes free between the two regions.
    pub fn available_bytes(&self) -> (r: usize)
        ensures
            r as nat == self@.available_bytes(),
    {
        self.p_pos.saturating_sub(self.b_pos)
    }

    /// Size of the whole region in whole pages.
    pub fn total_pages(&self) -> (r: usize)
        requires
            self.wf(),
            PAGE_SIZE > 0,
        ensures
            r as nat == self@.total_pages(PAGE_SIZE as nat),
    {
        (self.end - self.start) / PAGE_SIZE
    }

    /// Whole pages taken by the page region.
    pub fn used_pages(&self) -> (r: usize)
        requires
            self.wf(),
            PAGE_SIZE > 0,
        ensures
            r as nat == self@.used_pages(PAGE_SIZE as nat),
    {
        (self.end - self.p_pos) / PAGE_SIZE
    }

    /// Whole pages that fit between the two regions.
    pub fn available_pages(&self) -> (r: usize)
        requires
            PAGE_SIZE > 0,
        ensures
            r as nat == self@.available_pages(PAGE_SIZE as nat),
    {
        self.available_bytes() / PAGE_SIZE
    }

    /// First address of the region.
    pub fn start(&self) -> (r: usize)
        ensures
            r as nat == self@.start,
    {
        self.start
    }

    /// One past the last address of the region.
    pub fn end(&self) -> (r: usize)
        ensures
            r as nat == self@.end,
    {
        self.end
    }

    /// Next free address of the byte region.
    pub fn b_pos(&self) -> (r: usize)
        ensures
            r as nat == self@.b_pos,
    {
        self.b_pos
    }

    /// Lowest address of the page region.
    pub fn p_pos(&self) -> (r: usize)
        ensures
            r as nat == self@.p_pos,
    {
        self.p_pos
    }

    /// Number of outstanding byte allocations.
    pub fn count(&self) -> (r: usize)
        ensures
            r as nat == self@.count,
    {
        self.count
    }
}

} // verus!
