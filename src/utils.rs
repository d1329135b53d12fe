use vstd::prelude::*;

verus! {

/// A builder that turns a packed immediate into its final form.
pub struct ImmBuilder<F>(pub F);

impl<F> ImmBuilder<F> {
    pub fn build<T>(&self, x: T) -> (r: T) where F: Fn(T) -> T
        requires
            call_requires(self.0, (x,)),
        ensures
            call_ensures(self.0, (x,), r),
    {
        (self.0)(x)
    }
}

/// A bit range `a:b`, written with its bounds in either order.
pub type Bits = (u32, u32);

/// The lowest bit of a range.
pub open spec fn bits_lo(r: Bits) -> u32 {
    if r.0 <= r.1 {
        r.0
    } else {
        r.1
    }
}

/// The highest bit of a range.
pub open spec fn bits_hi(r: Bits) -> u32 {
    if r.0 <= r.1 {
        r.1
    } else {
        r.0
    }
}

/// The number of bits in a range.
pub open spec fn bits_len(r: Bits) -> nat {
    (bits_hi(r) - bits_lo(r) + 1) as nat
}

/// The number of bits in all the ranges together.
pub open spec fn total_width(rs: Seq<Bits>) -> nat
    decreases rs.len(),
{
    if rs.len() == 0 {
        0
    } else {
        bits_len(rs[0]) + total_width(rs.drop_first())
    }
}

/// Ranges that lie within a 64-bit word and that fit in one word together.
pub open spec fn valid_bits(rs: Seq<Bits>) -> bool {
    &&& forall|i: int| 0 <= i < rs.len() ==> bits_hi(#[trigger] rs[i]) < 64
    &&& total_width(rs) <= 64
}

/// A mask of the low `len` bits, for `1 <= len <= 64`.
pub open spec fn ones(len: nat) -> u64 {
    u64::MAX >> ((64 - len) as u64)
}

/// The bits of `src` in the ranges `rs`, concatenated: the first range ends up highest and
/// the last range lowest.
pub open spec fn slice_spec(src: u64, rs: Seq<Bits>) -> u64
    decreases rs.len(),
{
    if rs.len() == 0 {
        0
    } else {
        let r = rs[0];
        (((src >> bits_lo(r)) & ones(bits_len(r))) << (total_width(rs.drop_first()) as u64))
            | slice_spec(src, rs.drop_first())
    }
}

/// The packed value `src` scattered to the ranges `rs`: the lowest bits of `src` go to the
/// last range, the next ones to the range before it, and so on.
pub open spec fn imm_spec(src: u64, rs: Seq<Bits>) -> u64
    decreases rs.len(),
{
    if rs.len() == 0 {
        0
    } else {
        let r = rs[0];
        (((src >> (total_width(rs.drop_first()) as u64)) & ones(bits_len(r))) << bits_lo(r))
            | imm_spec(src, rs.drop_first())
    }
}

proof fn lemma_suffix_width(rs: Seq<Bits>, i: int)
    requires
        0 <= i <= rs.len(),
    ensures
        total_width(rs.subrange(i, rs.len() as int)) <= total_width(rs),
    decreases i,
{
    if i > 0 {
        lemma_suffix_width(rs, i - 1);
        assert(rs.subrange(i - 1, rs.len() as int).drop_first() =~= rs.subrange(i, rs.len() as int));
    } else {
        assert(rs.subrange(0, rs.len() as int) =~= rs);
    }
}

/// Concatenates the bits of `src` in `ranges`, the first range highest.
pub fn slice(src: u64, ranges: &[Bits]) -> (r: u64)
    requires
        valid_bits(ranges@),
    ensures
        r == slice_spec(src, ranges@),
{
    let n = ranges.len();
    let ghost rs = ranges@;
    let mut acc: u64 = 0;
    let mut size: u64 = 0;
    let mut i: usize = n;
    while i > 0
        invariant
            i <= n == rs.len(),
            rs == ranges@,
            valid_bits(rs),
            acc == slice_spec(src, rs.subrange(i as int, n as int)),
            size == total_width(rs.subrange(i as int, n as int)),
        decreases i,
    {
        let ghost rest = rs.subrange(i as int, n as int);
        i -= 1;
        let (a, b) = ranges[i];
        let (lo, hi) = if a <= b {
            (a, b)
        } else {
            (b, a)
        };
        let len = (hi - lo + 1) as u64;
        proof {
            assert(rs.subrange(i as int, n as int).drop_first() =~= rest);
            lemma_suffix_width(rs, i as int);
            assert(bits_hi(rs[i as int]) < 64);
        }
        let field = ((src >> lo) & (u64::MAX >> (64 - len))) << size;
        acc = field | acc;
        size = size + len;
    }
    assert(rs.subrange(0, n as int) =~= rs);
    acc
}

/// Scatters the packed value `src` to `ranges`, its lowest bits to the last range.
pub fn imm(src: u64, ranges: &[Bits]) -> (r: u64)
    requires
        valid_bits(ranges@),
    ensures
        r == imm_spec(src, ranges@),
{
    let n = ranges.len();
    let ghost rs = ranges@;
    let mut acc: u64 = 0;
    let mut size: u64 = 0;
    let mut i: usize = n;
    while i > 0
        invariant
            i <= n == rs.len(),
            rs == ranges@,
            valid_bits(rs),
            acc == imm_spec(src, rs.subrange(i as int, n as int)),
            size == total_width(rs.subrange(i as int, n as int)),
        decreases i,
    {
        let ghost rest = rs.subrange(i as int, n as int);
        i -= 1;
        let (a, b) = ranges[i];
        let (lo, hi) = if a <= b {
            (a, b)
        } else {
            (b, a)
        };
        let len = (hi - lo + 1) as u64;
        proof {
            assert(rs.subrange(i as int, n as int).drop_first() =~= rest);
            lemma_suffix_width(rs, i as int);
            assert(bits_hi(rs[i as int]) < 64);
        }
        let field = ((src >> size) & (u64::MAX >> (64 - len))) << lo;
        acc = field | acc;
        size = size + len;
    }
    assert(rs.subrange(0, n as int) =~= rs);
    acc
}

} // verus!
