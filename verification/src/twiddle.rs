//! The twiddle-factor table and its stage-major layout.
//!
//! A decimation-in-time butterfly shader indexes the table directly by
//! `base + k`, where `base = 2^order` is the span of a butterfly stage and
//! `k` ranges over the half-span. The table therefore has to be laid out
//! exactly stage-major: stage `order` occupies the slots
//! `[2^order, 2^order + 2^(order-1))`, and every slot outside all stage
//! ranges stays zero. Entries are held symbolically: a slot either stands
//! for the zero complex value or for the root of unity `exp(-2πi·k/base)`
//! (conjugated for an inverse table). The host resolves the symbolic form
//! to floating-point pairs when it uploads the table.

use vstd::prelude::*;

verus! {

use vstd::arithmetic::power2::lemma2_to64;
use vstd::arithmetic::power2::lemma_pow2_pos;
use vstd::arithmetic::power2::lemma_pow2_strictly_increases;
use vstd::arithmetic::power2::lemma_pow2_unfold;
use vstd::arithmetic::power2::pow2;

/// Number of slots in every twiddle table: enough for every stage of a
/// transform axis of up to 4096 elements, with room to spare.
pub const TABLE_LEN: usize = 8192;

/// Largest stage count a table build accepts.
pub const MAX_TABLE_ORDERS: u32 = 13;

/// One slot of the twiddle table, in exact symbolic form.
#[derive(Clone, Copy, Debug, PartialEq, Eq, Structural)]
pub enum TwiddleEntry {
    /// Padding outside every stage's range; stands for the zero complex value.
    Zero,
    /// The root of unity `exp(-2πi·k/base)` for a forward table, or its
    /// conjugate `exp(+2πi·k/base)` for an inverse table.
    Root { k: u32, base: u32 },
}

/// First slot written by butterfly stage `order`.
pub open spec fn stage_base(order: nat) -> int {
    pow2(order) as int
}

/// Number of slots written by butterfly stage `order`; stage 0 writes none.
pub open spec fn stage_count(order: nat) -> int {
    pow2(order) as int / 2
}

/// Whether slot `i` lies in the range written by stage `order`.
pub open spec fn in_stage(i: int, order: nat) -> bool {
    stage_base(order) <= i < stage_base(order) + stage_count(order)
}

/// The entry a table built for `orders` stages holds at slot `i`:
/// the root written by the unique stage whose range covers `i`, or zero.
pub open spec fn table_entry(orders: nat, i: int) -> TwiddleEntry
    decreases orders,
{
    if orders == 0 {
        TwiddleEntry::Zero
    } else {
        let o = (orders - 1) as nat;
        if in_stage(i, o) {
            TwiddleEntry::Root { k: (i - stage_base(o)) as u32, base: stage_base(o) as u32 }
        } else {
            table_entry(o, i)
        }
    }
}

/// A complete twiddle table together with the direction it was built for.
pub struct FftRoots {
    pub roots: Vec<TwiddleEntry>,
    /// Whether each `Root` slot stands for the conjugated (positive-angle)
    /// root, the canonical policy for inverse transforms.
    pub inverse: bool,
}

impl FftRoots {
    /// A table always spans exactly `TABLE_LEN` slots.
    pub open spec fn wf(self) -> bool {
        self.roots@.len() == TABLE_LEN
    }

    /// Builds the table for `orders` butterfly stages, stage-major:
    /// for each `order` below `orders`, slot `base + k` (with
    /// `base = 2^order` and `k` below `base / 2`) receives the root for
    /// angle `-2π·k/base`, and every other slot stays zero.
    pub fn build(orders: u32, inverse: bool) -> (r: FftRoots)
        requires
            1 <= orders <= MAX_TABLE_ORDERS,
        ensures
            r.wf(),
            r.inverse == inverse,
            forall|i: int|
                0 <= i < TABLE_LEN ==> (#[trigger] r.roots@[i]) == table_entry(orders as nat, i),
    {
        let mut roots: Vec<TwiddleEntry> = zero_entries();
        let mut order: u32 = 0;
        let mut base: u32 = 1;
        proof {
            lemma2_to64();
        }
        while order < orders
            invariant
                order <= orders,
                orders <= MAX_TABLE_ORDERS,
                base as nat == pow2(order as nat),
                roots@.len() == TABLE_LEN,
                forall|i: int| 0 <= i < TABLE_LEN ==> roots@[i] == table_entry(order as nat, i),
            decreases orders - order,
        {
            proof {
                lemma2_to64();
                if (order as nat) < 12 {
                    lemma_pow2_strictly_increases(order as nat, 12);
                }
            }
            assert(base <= 4096);
            let count: u32 = base / 2;
            let ghost pre_stage = roots@;
            let mut k: u32 = 0;
            while k < count
                invariant
                    k <= count,
                    count == base / 2,
                    base <= 4096,
                    pre_stage.len() == TABLE_LEN,
                    roots@.len() == TABLE_LEN,
                    forall|i: int|
                        0 <= i < TABLE_LEN && !(base <= i < base + k) ==> roots@[i]
                            == pre_stage[i],
                    forall|i: int|
                        base <= i < base + k ==> roots@[i] == (TwiddleEntry::Root {
                            k: (i - base) as u32,
                            base: base,
                        }),
                decreases count - k,
            {
                let idx: usize = (base + k) as usize;
                roots[idx] = TwiddleEntry::Root { k, base };
                k = k + 1;
            }
            proof {
                assert forall|i: int| 0 <= i < TABLE_LEN implies roots@[i] == table_entry(
                    (order + 1) as nat,
                    i,
                ) by {
                    assert(stage_base(order as nat) == base as int);
                    assert(stage_count(order as nat) == count as int);
                    if in_stage(i, order as nat) {
                        assert(roots@[i] == (TwiddleEntry::Root {
                            k: (i - base) as u32,
                            base: base,
                        }));
                    } else {
                        assert(roots@[i] == pre_stage[i]);
                        assert(pre_stage[i] == table_entry(order as nat, i));
                    }
                }
                lemma_pow2_unfold((order + 1) as nat);
            }
            base = base * 2;
            order = order + 1;
        }
        FftRoots { roots, inverse }
    }

    /// An element-wise copy, the projection the render side takes of the
    /// host-owned table each time it changes.
    pub fn duplicate(&self) -> (r: FftRoots)
        ensures
            r.roots@ == self.roots@,
            r.inverse == self.inverse,
    {
        let mut copied: Vec<TwiddleEntry> = Vec::new();
        let len: usize = self.roots.len();
        let mut n: usize = 0;
        while n < len
            invariant
                n <= len,
                len == self.roots@.len(),
                copied@.len() == n,
                forall|i: int| 0 <= i < n ==> copied@[i] == self.roots@[i],
            decreases len - n,
        {
            copied.push(self.roots[n]);
            n = n + 1;
        }
        proof {
            assert(copied@ =~= self.roots@);
        }
        FftRoots { roots: copied, inverse: self.inverse }
    }
}

/// A vector of `TABLE_LEN` zero slots.
pub fn zero_entries() -> (r: Vec<TwiddleEntry>)
    ensures
        r@.len() == TABLE_LEN,
        forall|i: int| 0 <= i < TABLE_LEN ==> r@[i] == TwiddleEntry::Zero,
{
    let mut entries: Vec<TwiddleEntry> = Vec::new();
    let mut n: usize = 0;
    while n < TABLE_LEN
        invariant
            n <= TABLE_LEN,
            entries@.len() == n,
            forall|i: int| 0 <= i < n ==> entries@[i] == TwiddleEntry::Zero,
        decreases TABLE_LEN - n,
    {
        entries.push(TwiddleEntry::Zero);
        n = n + 1;
    }
    entries
}

/// An all-zero forward table, the state of a table nobody has built yet.
pub fn zero_table() -> (r: FftRoots)
    ensures
        r.wf(),
        !r.inverse,
        forall|i: int| 0 <= i < TABLE_LEN ==> r.roots@[i] == TwiddleEntry::Zero,
{
    FftRoots { roots: zero_entries(), inverse: false }
}

/// Law: in a table built for `orders` stages, every stage `o` below `orders`
/// holds its roots at the mandated slots — slot `stage_base(o) + k` carries
/// the root for index `k` within the stage.
pub proof fn lemma_table_stage_entries(orders: nat, o: nat, k: int)
    requires
        o < orders,
        0 <= k < stage_count(o),
    ensures
        table_entry(orders, stage_base(o) + k) == (TwiddleEntry::Root {
            k: k as u32,
            base: stage_base(o) as u32,
        }),
    decreases orders,
{
    let i = stage_base(o) + k;
    assert(in_stage(i, o));
    if o == orders - 1 {
    } else {
        let prev = (orders - 1) as nat;
        assert(pow2(o) + pow2(o) / 2 <= 2 * pow2(o));
        lemma_pow2_unfold(o + 1);
        assert(pow2(o + 1) == 2 * pow2(o));
        if o + 1 < prev {
            lemma_pow2_strictly_increases(o + 1, prev);
        }
        assert(i < stage_base(prev));
        assert(!in_stage(i, prev));
        lemma_table_stage_entries(prev, o, k);
    }
}

/// Law: a slot covered by no stage below `orders` stays the zero value.
pub proof fn lemma_table_padding_zero(orders: nat, i: int)
    requires
        0 <= i < TABLE_LEN,
        forall|o: nat| o < orders ==> !in_stage(i, o),
    ensures
        table_entry(orders, i) == TwiddleEntry::Zero,
    decreases orders,
{
    if orders > 0 {
        let o = (orders - 1) as nat;
        assert(!in_stage(i, o));
        lemma_table_padding_zero(o, i);
    }
}

} // verus!
