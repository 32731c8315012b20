//! How the collector's allocator serves a request.
//!
//! The collector's plain allocation entry point returns memory aligned to at
//! least `MIN_ALIGN` bytes. Requests with a larger alignment, or an alignment
//! larger than their size, go through its `posix_memalign` entry point
//! instead, whose alignment must be a power of two and a multiple of the word
//! size. The functions below decide which entry point serves a request and
//! with what arguments; making the calls is left to the caller.

use vstd::prelude::*;

verus! {

/// The alignment the plain allocation entry point guarantees.
pub const MIN_ALIGN: usize = 8;

/// The size of a machine word in bytes.
pub const WORD_SIZE: usize = 8;

/// Whether `n` is a power of two.
pub open spec fn is_pow2(n: int) -> bool
    decreases n,
{
    if n <= 0 {
        false
    } else if n == 1 {
        true
    } else {
        n % 2 == 0 && is_pow2(n / 2)
    }
}

/// The largest value of an `isize`.
pub open spec fn isize_max() -> int {
    isize::MAX as int
}

/// Whether `size` and `align` make a valid layout: the alignment is a power
/// of two and the size, rounded up to a multiple of it, does not exceed the
/// largest `isize`.
pub open spec fn valid_layout(size: int, align: int) -> bool {
    &&& is_pow2(align)
    &&& size + align - 1 <= isize_max()
}

/// The size and alignment of a memory request.
#[derive(Clone, Copy, Debug, PartialEq, Eq, Structural)]
pub struct Layout {
    size: usize,
    align: usize,
}

impl Layout {
    pub closed spec fn spec_size(self) -> usize {
        self.size
    }

    pub closed spec fn spec_align(self) -> usize {
        self.align
    }

    /// Every layout is valid.
    #[verifier::type_invariant]
    spec fn inv(self) -> bool {
        valid_layout(self.size as int, self.align as int)
    }

    /// The layout of `size` bytes aligned to `align`, if valid.
    pub fn from_size_align(size: usize, align: usize) -> (r: Option<Layout>)
        ensures
            r is Some <==> valid_layout(size as int, align as int),
            r matches Some(l) ==> l.spec_size() == size && l.spec_align() == align,
    {
        if !pow2_check(align) {
            return None;
        }
        if size as u128 + align as u128 - 1 > isize::MAX as u128 {
            return None;
        }
        Some(Layout { size, align })
    }

    /// The size in bytes. Every layout is valid.
    pub fn size(&self) -> (s: usize)
        ensures
            s == self.spec_size(),
            valid_layout(self.spec_size() as int, self.spec_align() as int),
    {
        proof {
            use_type_invariant(self);
        }
        self.size
    }

    /// The alignment in bytes, a power of two. Every layout is valid.
    pub fn align(&self) -> (a: usize)
        ensures
            a == self.spec_align(),
            valid_layout(self.spec_size() as int, self.spec_align() as int),
    {
        proof {
            use_type_invariant(self);
        }
        self.align
    }
}

fn pow2_check(n: usize) -> (r: bool)
    ensures
        r == is_pow2(n as int),
{
    if n == 0 {
        return false;
    }
    let mut x = n;
    while x > 1 && x % 2 == 0
        invariant
            x > 0,
            is_pow2(n as int) == is_pow2(x as int),
        decreases x,
    {
        x = x / 2;
    }
    x == 1
}

/// Which entry point of the collector serves an allocation, and with what.
#[derive(Clone, Copy, Debug, PartialEq, Eq, Structural)]
pub enum MallocPlan {
    /// The plain entry point, for `size` bytes.
    Malloc { size: usize },
    /// The aligned entry point, for `size` bytes aligned to `align`.
    Memalign { align: usize, size: usize },
}

/// How an allocation of `layout` is served.
pub open spec fn malloc_plan_of(size: usize, align: usize) -> MallocPlan {
    if align <= MIN_ALIGN && align <= size {
        MallocPlan::Malloc { size }
    } else {
        MallocPlan::Memalign { align: if align >= WORD_SIZE { align } else { WORD_SIZE }, size }
    }
}

/// Chooses the entry point that serves an allocation of `layout`: the plain
/// one when the alignment is at most `MIN_ALIGN` and at most the size;
/// otherwise the aligned one, with the alignment raised to at least the word
/// size.
pub fn gc_malloc_plan(layout: Layout) -> (p: MallocPlan)
    ensures
        p == malloc_plan_of(layout.spec_size(), layout.spec_align()),
{
    if layout.align() <= MIN_ALIGN && layout.align() <= layout.size() {
        MallocPlan::Malloc { size: layout.size() }
    } else {
        let align = if layout.align() >= WORD_SIZE {
            layout.align()
        } else {
            WORD_SIZE
        };
        MallocPlan::Memalign { align, size: layout.size() }
    }
}

/// The address an aligned allocation yields: the address the entry point
/// wrote to `out` when it returned 0, and null otherwise.
pub fn memalign_result(ret: i32, out: usize) -> (addr: usize)
    ensures
        addr == if ret != 0 {
            0
        } else {
            out
        },
{
    if ret != 0 {
        0
    } else {
        out
    }
}

/// How a reallocation is served.
#[derive(Clone, Copy, Debug, PartialEq, Eq, Structural)]
pub enum ReallocPlan {
    /// The collector resizes the block in place or moves it itself.
    Resize { new_size: usize },
    /// A new block is allocated as planned; if that succeeds, the first
    /// `copy_len` bytes are copied over and the old block is freed.
    Move { alloc: MallocPlan, copy_len: usize },
}

pub open spec fn realloc_plan_of(old_size: usize, align: usize, new_size: usize) -> ReallocPlan {
    if align <= MIN_ALIGN && align <= new_size {
        ReallocPlan::Resize { new_size }
    } else {
        ReallocPlan::Move {
            alloc: malloc_plan_of(new_size, align),
            copy_len: if old_size <= new_size { old_size } else { new_size },
        }
    }
}

/// Chooses how a block allocated with `old_layout` is resized to
/// `new_size` bytes with the same alignment: in place by the collector when
/// its plain entry point could serve the new size, otherwise by allocating a
/// new block, copying the smaller of the two sizes, and freeing the old one.
pub fn gc_realloc_plan(old_layout: Layout, new_size: usize) -> (p: ReallocPlan)
    requires
        new_size > 0,
        valid_layout(new_size as int, old_layout.spec_align() as int),
    ensures
        p == realloc_plan_of(old_layout.spec_size(), old_layout.spec_align(), new_size),
{
    if old_layout.align() <= MIN_ALIGN && old_layout.align() <= new_size {
        ReallocPlan::Resize { new_size }
    } else {
        let new_layout = Layout { size: new_size, align: old_layout.align() };
        let copy_len = if old_layout.size() <= new_size {
            old_layout.size()
        } else {
            new_size
        };
        ReallocPlan::Move { alloc: gc_malloc_plan(new_layout), copy_len }
    }
}

/// The allocator of the collector.
#[derive(Clone, Copy, Debug, PartialEq, Eq, Structural)]
pub struct GcAllocator;

/// How a request through the allocator interface is served.
#[derive(Clone, Copy, Debug, PartialEq, Eq, Structural)]
pub enum AllocatePlan {
    /// A zero-sized request: no memory, the address is the alignment itself.
    Dangling { addr: usize },
    /// Memory from the collector, as planned.
    Malloc(MallocPlan),
}

/// A block of memory handed out: its address and length.
#[derive(Clone, Copy, Debug, PartialEq, Eq, Structural)]
pub struct MemoryBlock {
    pub addr: usize,
    pub len: usize,
}

/// The allocator could not serve the request.
#[derive(Clone, Copy, Debug, PartialEq, Eq, Structural)]
pub struct AllocError;

impl GcAllocator {
    /// Chooses how a request of `layout` is served through the allocator
    /// interface: a zero-sized request gets a dangling address equal to the
    /// alignment; any other goes to the collector.
    pub fn allocate_plan(&self, layout: Layout) -> (p: AllocatePlan)
        ensures
            p == if layout.spec_size() == 0 {
                AllocatePlan::Dangling { addr: layout.spec_align() }
            } else {
                AllocatePlan::Malloc(malloc_plan_of(layout.spec_size(), layout.spec_align()))
            },
    {
        if layout.size() == 0 {
            AllocatePlan::Dangling { addr: layout.align() }
        } else {
            AllocatePlan::Malloc(gc_malloc_plan(layout))
        }
    }

    /// The result of a request of `layout` once served at address `addr`
    /// (null when the collector failed): the block, or an error for null.
    pub fn allocate_result(&self, layout: Layout, addr: usize) -> (r: Result<MemoryBlock, AllocError>)
        ensures
            r == if addr == 0 {
                Err::<MemoryBlock, AllocError>(AllocError)
            } else {
                Ok(MemoryBlock { addr, len: layout.spec_size() })
            },
    {
        if addr == 0 {
            Err(AllocError)
        } else {
            Ok(MemoryBlock { addr, len: layout.size() })
        }
    }
}

proof fn lemma_pow2_divides(a: int, b: int)
    requires
        is_pow2(a),
        is_pow2(b),
        b <= a,
    ensures
        a % b == 0,
    decreases a,
{
    if a == b {
    } else if b == 1 {
    } else {
        assert(a > 1 && b > 1);
        assert(a % 2 == 0 && is_pow2(a / 2));
        assert(b % 2 == 0 && is_pow2(b / 2));
        lemma_pow2_divides(a / 2, b / 2);
        let k = (a / 2) / (b / 2);
        vstd::arithmetic::div_mod::lemma_fundamental_div_mod(a / 2, b / 2);
        assert(a == k * b) by (nonlinear_arith)
            requires
                a / 2 == (b / 2) * k + (a / 2) % (b / 2),
                (a / 2) % (b / 2) == 0,
                a == 2 * (a / 2),
                b == 2 * (b / 2),
        ;
        vstd::arithmetic::div_mod::lemma_mod_multiples_basic(k, b);
    }
}

proof fn lemma_small_pow2(a: int)
    requires
        is_pow2(a),
        a < WORD_SIZE,
    ensures
        a == 1 || a == 2 || a == 4,
{
    if a != 1 {
        assert(is_pow2(a / 2));
        if a / 2 != 1 {
            assert(is_pow2(a / 4));
        }
    }
}

/// Every allocation plan serves the requested size and meets the requested
/// alignment: the plain entry point is only used when the alignment is at
/// most `MIN_ALIGN`, which it guarantees; the aligned entry point gets an
/// alignment that is a power of two, a multiple of the word size and of the
/// requested alignment, as it requires.
pub proof fn lemma_plan_meets_alignment(size: usize, align: usize)
    requires
        valid_layout(size as int, align as int),
    ensures
        match malloc_plan_of(size, align) {
            MallocPlan::Malloc { size: s } => s == size && align <= MIN_ALIGN,
            MallocPlan::Memalign { align: a, size: s } => {
                &&& s == size
                &&& a >= align
                &&& is_pow2(a as int)
                &&& a % align == 0
                &&& a % WORD_SIZE == 0
            },
        },
{
    match malloc_plan_of(size, align) {
        MallocPlan::Malloc { .. } => {},
        MallocPlan::Memalign { align: a, .. } => {
            assert(is_pow2(8)) by {
                reveal_with_fuel(is_pow2, 5);
            }
            if align < WORD_SIZE {
                lemma_small_pow2(align as int);
                assert(a == 8);
            } else {
                assert(a == align);
                lemma_pow2_divides(a as int, 8);
            }
            lemma_pow2_divides(a as int, align as int);
        },
    }
}

/// A moved reallocation copies no more than either the old or the new block
/// holds, and no less than the smaller of the two.
pub proof fn lemma_move_copies_common_prefix(old_size: usize, align: usize, new_size: usize)
    ensures
        realloc_plan_of(old_size, align, new_size) matches ReallocPlan::Move { copy_len, .. } ==> (
        copy_len <= old_size && copy_len <= new_size && (copy_len == old_size || copy_len
            == new_size)),
{
}

} // verus!
