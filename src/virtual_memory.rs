use vstd::arithmetic::div_mod::{lemma_fundamental_div_mod, lemma_mod_multiples_basic};
use vstd::prelude::*;

verus! {

/// `n` rounded up to the next multiple of `page`.
pub open spec fn round_up(n: nat, page: nat) -> nat
    recommends
        page > 0,
{
    if n % page == 0 {
        n
    } else {
        (n - n % page + page) as nat
    }
}

proof fn lemma_round_up(n: nat, page: nat)
    requires
        page > 0,
    ensures
        n % page <= n,
        round_up(n, page) % page == 0,
        n <= round_up(n, page) < n + page,
{
    let q = n as int / page as int;
    let r = n as int % page as int;
    lemma_fundamental_div_mod(n as int, page as int);
    assert(0 <= q) by (nonlinear_arith)
        requires
            n >= 0,
            page > 0,
            q == n as int / page as int,
    ;
    assert(r <= n) by (nonlinear_arith)
        requires
            n == page * q + r,
            0 <= q,
            page > 0,
            0 <= r,
    ;
    if r != 0 {
        assert(n - r + page == (q + 1) * page) by (nonlinear_arith)
            requires
                n == page * q + r,
        ;
        lemma_mod_multiples_basic(q + 1, page as int);
    }
}

/// The number of bytes to ask the platform for so that `size` bytes fit in
/// whole pages of `page_size` bytes; `None` when that number does not fit in
/// a `usize`.
pub fn aligned_size(size: usize, page_size: usize) -> (r: Option<usize>)
    requires
        page_size > 0,
    ensures
        round_up(size as nat, page_size as nat) <= usize::MAX ==> r == Some(
            round_up(size as nat, page_size as nat) as usize,
        ),
        round_up(size as nat, page_size as nat) > usize::MAX ==> r is None,
        r matches Some(a) ==> a % page_size == 0 && size <= a && a < size + page_size,
{
    proof {
        lemma_round_up(size as nat, page_size as nat);
    }
    let rem = size % page_size;
    if rem == 0 {
        Some(size)
    } else if size - rem > usize::MAX - page_size {
        None
    } else {
        Some(size - rem + page_size)
    }
}

/// What a region is: where it starts, how long it is, the page size it was
/// rounded to, and the bytes it holds.
pub ghost struct RegionModel {
    pub base: nat,
    pub size: nat,
    pub page_size: nat,
    pub bytes: Seq<u8>,
}

impl RegionModel {
    /// A region lies inside the address space, spans whole pages, and holds
    /// exactly `size` bytes.
    pub open spec fn wf(self) -> bool {
        &&& self.page_size > 0
        &&& self.size % self.page_size == 0
        &&& self.bytes.len() == self.size
        &&& self.base + self.size <= usize::MAX
    }
}

/// A block of read/write/execute memory handed out by the platform, and the
/// bytes that are to be written into it.
pub struct VirtualMemory {
    base: usize,
    size: usize,
    page_size: usize,
    bytes: Vec<u8>,
}

impl View for VirtualMemory {
    type V = RegionModel;

    closed spec fn view(&self) -> RegionModel {
        RegionModel {
            base: self.base as nat,
            size: self.size as nat,
            page_size: self.page_size as nat,
            bytes: self.bytes@,
        }
    }
}

impl VirtualMemory {
    /// The region of `size` bytes that the platform committed at `base`.
    /// Freshly committed memory reads as zero.
    pub fn from_raw_parts(base: usize, size: usize, page_size: usize) -> (r: Self)
        requires
            page_size > 0,
            size % page_size == 0,
            base + size <= usize::MAX,
        ensures
            r@.wf(),
            r@.base == base,
            r@.size == size,
            r@.page_size == page_size,
            r@.bytes == Seq::new(size as nat, |i: int| 0u8),
    {
        let bytes = vec![0u8; size];
        proof {
            assert(bytes@ =~= Seq::new(size as nat, |i: int| 0u8));
        }
        VirtualMemory { base, size, page_size, bytes }
    }

    /// The address of the region's first byte.
    pub fn as_ptr(&self) -> (r: usize)
        ensures
            r == self@.base,
    {
        self.base
    }

    /// The region's length in bytes, a whole number of pages.
    pub fn size(&self) -> (r: usize)
        ensures
            r == self@.size,
    {
        self.size
    }

    /// The page size the region was rounded to.
    pub fn page_size(&self) -> (r: usize)
        ensures
            r == self@.page_size,
    {
        self.page_size
    }

    /// The bytes the region holds.
    pub fn as_slice(&self) -> (r: &[u8])
        ensures
            r@ == self@.bytes,
    {
        self.bytes.as_slice()
    }

    /// Copies `src` into the region from its first byte on.
    pub fn write_prefix(&mut self, src: &[u8])
        requires
            old(self)@.wf(),
            src@.len() <= old(self)@.size,
        ensures
            final(self)@.wf(),
            final(self)@.base == old(self)@.base,
            final(self)@.size == old(self)@.size,
            final(self)@.page_size == old(self)@.page_size,
            final(self)@.bytes == src@ + old(self)@.bytes.subrange(
                src@.len() as int,
                old(self)@.size as int,
            ),
    {
        let n = src.len();
        let mut i: usize = 0;
        while i < n
            invariant
                n == src@.len(),
                i <= n,
                n <= self.size,
                self.bytes@.len() == self.size,
                self.base == old(self).base,
                self.size == old(self).size,
                self.page_size == old(self).page_size,
                forall|j: int| 0 <= j < i ==> self.bytes@[j] == src@[j],
                forall|j: int| i <= j < self.size ==> self.bytes@[j] == old(self).bytes@[j],
            decreases n - i,
        {
            self.bytes.set(i, src[i]);
            i = i + 1;
        }
        proof {
            assert(self.bytes@ =~= src@ + old(self).bytes@.subrange(n as int, self.size as int));
        }
    }

    /// Sets every byte of the region from `from` to its end to `value`.
    pub fn fill_from(&mut self, from: usize, value: u8)
        requires
            old(self)@.wf(),
            from <= old(self)@.size,
        ensures
            final(self)@.wf(),
            final(self)@.base == old(self)@.base,
            final(self)@.size == old(self)@.size,
            final(self)@.page_size == old(self)@.page_size,
            final(self)@.bytes == old(self)@.bytes.subrange(0, from as int) + Seq::new(
                (old(self)@.size - from) as nat,
                |i: int| value,
            ),
    {
        let mut i: usize = from;
        while i < self.size
            invariant
                from <= i <= self.size,
                self.bytes@.len() == self.size,
                self.base == old(self).base,
                self.size == old(self).size,
                self.page_size == old(self).page_size,
                forall|j: int| 0 <= j < from ==> self.bytes@[j] == old(self).bytes@[j],
                forall|j: int| from <= j < i ==> self.bytes@[j] == value,
            decreases self.size - i,
        {
            self.bytes.set(i, value);
            i = i + 1;
        }
        proof {
            assert(self.bytes@ =~= old(self).bytes@.subrange(0, from as int) + Seq::new(
                (self.size - from) as nat,
                |i: int| value,
            ));
        }
    }
}

} // verus!
