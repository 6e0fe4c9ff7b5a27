//! The interrupt controller: interrupt levels, their priority order and
//! the pending requests.
use super::bus::PhysicalAddress;
use vstd::prelude::*;

verus! {

/// Number of interrupt sources.
pub const NUM_INTERRUPTS: usize = 41;

#[derive(Copy, Clone, Debug, Default, PartialEq, Eq, Structural)]
pub struct IntcRegisters {
    pub icr: u16,
    pub ipra: u16,
    pub iprb: u16,
    pub iprc: u16,
    /// Bit `i` is set while the interrupt at priority position `i` is pending.
    pub interrupt_requests: u64,
}

/// The interrupt sources: NMI and the external lines first, then the
/// on-chip sources whose levels are configurable.
#[allow(non_camel_case_types)]
#[derive(Copy, Clone, Debug, Eq, PartialEq, Structural)]
pub enum InterruptKind {
    NMI,
    IRL0,
    IRL1,
    IRL2,
    IRL3,
    IRL4,
    IRL5,
    IRL6,
    IRL7,
    IRL8,
    IRL9,
    IRL10,
    IRL11,
    IRL12,
    IRL13,
    IRL14,
    HitachiUDI,
    GPIO,
    DMTE0,
    DMTE1,
    DMTE2,
    DMTE3,
    DMAE,
    TUNI0,
    TUNI1,
    TUNI2,
    TICPI2,
    ATI,
    PRI,
    CUI,
    SCI1_ERI,
    SCI1_RXI,
    SCI1_TXI,
    SCI1_TEI,
    SCIF_ERI,
    SCIF_RXI,
    SCIF_TXI,
    SCIF_TEI,
    ITI,
    RCMI,
    ROVI,
}

impl InterruptKind {
    pub open spec fn index_spec(self) -> nat {
        match self {
            InterruptKind::NMI => 0,
            InterruptKind::IRL0 => 1,
            InterruptKind::IRL1 => 2,
            InterruptKind::IRL2 => 3,
            InterruptKind::IRL3 => 4,
            InterruptKind::IRL4 => 5,
            InterruptKind::IRL5 => 6,
            InterruptKind::IRL6 => 7,
            InterruptKind::IRL7 => 8,
            InterruptKind::IRL8 => 9,
            InterruptKind::IRL9 => 10,
            InterruptKind::IRL10 => 11,
            InterruptKind::IRL11 => 12,
            InterruptKind::IRL12 => 13,
            InterruptKind::IRL13 => 14,
            InterruptKind::IRL14 => 15,
            InterruptKind::HitachiUDI => 16,
            InterruptKind::GPIO => 17,
            InterruptKind::DMTE0 => 18,
            InterruptKind::DMTE1 => 19,
            InterruptKind::DMTE2 => 20,
            InterruptKind::DMTE3 => 21,
            InterruptKind::DMAE => 22,
            InterruptKind::TUNI0 => 23,
            InterruptKind::TUNI1 => 24,
            InterruptKind::TUNI2 => 25,
            InterruptKind::TICPI2 => 26,
            InterruptKind::ATI => 27,
            InterruptKind::PRI => 28,
            InterruptKind::CUI => 29,
            InterruptKind::SCI1_ERI => 30,
            InterruptKind::SCI1_RXI => 31,
            InterruptKind::SCI1_TXI => 32,
            InterruptKind::SCI1_TEI => 33,
            InterruptKind::SCIF_ERI => 34,
            InterruptKind::SCIF_RXI => 35,
            InterruptKind::SCIF_TXI => 36,
            InterruptKind::SCIF_TEI => 37,
            InterruptKind::ITI => 38,
            InterruptKind::RCMI => 39,
            InterruptKind::ROVI => 40,
        }
    }

    pub open spec fn from_index_spec(i: nat) -> InterruptKind {
        if i == 0 {
            InterruptKind::NMI
        } else if i == 1 {
            InterruptKind::IRL0
        } else if i == 2 {
            InterruptKind::IRL1
        } else if i == 3 {
            InterruptKind::IRL2
        } else if i == 4 {
            InterruptKind::IRL3
        } else if i == 5 {
            InterruptKind::IRL4
        } else if i == 6 {
            InterruptKind::IRL5
        } else if i == 7 {
            InterruptKind::IRL6
        } else if i == 8 {
            InterruptKind::IRL7
        } else if i == 9 {
            InterruptKind::IRL8
        } else if i == 10 {
            InterruptKind::IRL9
        } else if i == 11 {
            InterruptKind::IRL10
        } else if i == 12 {
            InterruptKind::IRL11
        } else if i == 13 {
            InterruptKind::IRL12
        } else if i == 14 {
            InterruptKind::IRL13
        } else if i == 15 {
            InterruptKind::IRL14
        } else if i == 16 {
            InterruptKind::HitachiUDI
        } else if i == 17 {
            InterruptKind::GPIO
        } else if i == 18 {
            InterruptKind::DMTE0
        } else if i == 19 {
            InterruptKind::DMTE1
        } else if i == 20 {
            InterruptKind::DMTE2
        } else if i == 21 {
            InterruptKind::DMTE3
        } else if i == 22 {
            InterruptKind::DMAE
        } else if i == 23 {
            InterruptKind::TUNI0
        } else if i == 24 {
            InterruptKind::TUNI1
        } else if i == 25 {
            InterruptKind::TUNI2
        } else if i == 26 {
            InterruptKind::TICPI2
        } else if i == 27 {
            InterruptKind::ATI
        } else if i == 28 {
            InterruptKind::PRI
        } else if i == 29 {
            InterruptKind::CUI
        } else if i == 30 {
            InterruptKind::SCI1_ERI
        } else if i == 31 {
            InterruptKind::SCI1_RXI
        } else if i == 32 {
            InterruptKind::SCI1_TXI
        } else if i == 33 {
            InterruptKind::SCI1_TEI
        } else if i == 34 {
            InterruptKind::SCIF_ERI
        } else if i == 35 {
            InterruptKind::SCIF_RXI
        } else if i == 36 {
            InterruptKind::SCIF_TXI
        } else if i == 37 {
            InterruptKind::SCIF_TEI
        } else if i == 38 {
            InterruptKind::ITI
        } else if i == 39 {
            InterruptKind::RCMI
        } else {
            InterruptKind::ROVI
        }
    }

    /// The source's position in the declaration order.
    pub fn index(self) -> (r: usize)
        ensures
            r == self.index_spec(),
            r < NUM_INTERRUPTS,
    {
        match self {
            InterruptKind::NMI => 0,
            InterruptKind::IRL0 => 1,
            InterruptKind::IRL1 => 2,
            InterruptKind::IRL2 => 3,
            InterruptKind::IRL3 => 4,
            InterruptKind::IRL4 => 5,
            InterruptKind::IRL5 => 6,
            InterruptKind::IRL6 => 7,
            InterruptKind::IRL7 => 8,
            InterruptKind::IRL8 => 9,
            InterruptKind::IRL9 => 10,
            InterruptKind::IRL10 => 11,
            InterruptKind::IRL11 => 12,
            InterruptKind::IRL12 => 13,
            InterruptKind::IRL13 => 14,
            InterruptKind::IRL14 => 15,
            InterruptKind::HitachiUDI => 16,
            InterruptKind::GPIO => 17,
            InterruptKind::DMTE0 => 18,
            InterruptKind::DMTE1 => 19,
            InterruptKind::DMTE2 => 20,
            InterruptKind::DMTE3 => 21,
            InterruptKind::DMAE => 22,
            InterruptKind::TUNI0 => 23,
            InterruptKind::TUNI1 => 24,
            InterruptKind::TUNI2 => 25,
            InterruptKind::TICPI2 => 26,
            InterruptKind::ATI => 27,
            InterruptKind::PRI => 28,
            InterruptKind::CUI => 29,
            InterruptKind::SCI1_ERI => 30,
            InterruptKind::SCI1_RXI => 31,
            InterruptKind::SCI1_TXI => 32,
            InterruptKind::SCI1_TEI => 33,
            InterruptKind::SCIF_ERI => 34,
            InterruptKind::SCIF_RXI => 35,
            InterruptKind::SCIF_TXI => 36,
            InterruptKind::SCIF_TEI => 37,
            InterruptKind::ITI => 38,
            InterruptKind::RCMI => 39,
            InterruptKind::ROVI => 40,
        }
    }

    pub fn from_index(i: usize) -> (r: InterruptKind)
        requires
            i < NUM_INTERRUPTS,
        ensures
            r == Self::from_index_spec(i as nat),
            r.index_spec() == i,
    {
        match i {
            0 => InterruptKind::NMI,
            1 => InterruptKind::IRL0,
            2 => InterruptKind::IRL1,
            3 => InterruptKind::IRL2,
            4 => InterruptKind::IRL3,
            5 => InterruptKind::IRL4,
            6 => InterruptKind::IRL5,
            7 => InterruptKind::IRL6,
            8 => InterruptKind::IRL7,
            9 => InterruptKind::IRL8,
            10 => InterruptKind::IRL9,
            11 => InterruptKind::IRL10,
            12 => InterruptKind::IRL11,
            13 => InterruptKind::IRL12,
            14 => InterruptKind::IRL13,
            15 => InterruptKind::IRL14,
            16 => InterruptKind::HitachiUDI,
            17 => InterruptKind::GPIO,
            18 => InterruptKind::DMTE0,
            19 => InterruptKind::DMTE1,
            20 => InterruptKind::DMTE2,
            21 => InterruptKind::DMTE3,
            22 => InterruptKind::DMAE,
            23 => InterruptKind::TUNI0,
            24 => InterruptKind::TUNI1,
            25 => InterruptKind::TUNI2,
            26 => InterruptKind::TICPI2,
            27 => InterruptKind::ATI,
            28 => InterruptKind::PRI,
            29 => InterruptKind::CUI,
            30 => InterruptKind::SCI1_ERI,
            31 => InterruptKind::SCI1_RXI,
            32 => InterruptKind::SCI1_TXI,
            33 => InterruptKind::SCI1_TEI,
            34 => InterruptKind::SCIF_ERI,
            35 => InterruptKind::SCIF_RXI,
            36 => InterruptKind::SCIF_TXI,
            37 => InterruptKind::SCIF_TEI,
            38 => InterruptKind::ITI,
            39 => InterruptKind::RCMI,
            _ => InterruptKind::ROVI,
        }
    }
}

/// The levels that the interrupt controller starts with: NMI 16, the
/// external lines 15 down to 1, the configurable sources 0.
pub open spec fn initial_level(i: nat) -> u8 {
    if i == 0 {
        16
    } else if i < 16 {
        (16 - i) as u8
    } else {
        0
    }
}


/// `a` comes before `b` in priority order: a higher level first, and among
/// equal levels the earlier source first.
pub open spec fn precedes(levels: Seq<u8>, a: InterruptKind, b: InterruptKind) -> bool {
    levels[a.index_spec() as int] > levels[b.index_spec() as int] || (levels[a.index_spec() as int]
        == levels[b.index_spec() as int] && a.index_spec() < b.index_spec())
}

/// `p` lists every source once, in priority order for `levels`.
pub open spec fn is_priority_order(levels: Seq<u8>, p: Seq<InterruptKind>) -> bool {
    &&& p.len() == NUM_INTERRUPTS
    &&& forall|i: int, j: int| 0 <= i < j < p.len() ==> precedes(levels, p[i], p[j])
    &&& forall|k: nat| k < NUM_INTERRUPTS ==> #[trigger] lists_source(p, k)
}

/// Source `k` occurs in `p`.
pub open spec fn lists_source(p: Seq<InterruptKind>, k: nat) -> bool {
    exists|i: int| 0 <= i < p.len() && #[trigger] p[i].index_spec() == k
}

/// `m` gives each source its position in `p`.
pub open spec fn is_position_map(p: Seq<InterruptKind>, m: Seq<u8>) -> bool {
    &&& m.len() == NUM_INTERRUPTS
    &&& forall|i: int| 0 <= i < p.len() ==> m[#[trigger] p[i].index_spec() as int] == i
    &&& forall|k: int| 0 <= k < NUM_INTERRUPTS ==> #[trigger] m[k] < NUM_INTERRUPTS
}

/// The request bits after moving each pending bit `i` (for `i` below `n`) of
/// `req` to bit `targets[i]`.
pub open spec fn remap_requests(req: u64, targets: Seq<int>, n: nat) -> u64
    decreases n,
{
    if n == 0 {
        0
    } else {
        let acc = remap_requests(req, targets, (n - 1) as nat);
        if (req >> ((n - 1) as u64)) & 1 == 1 {
            acc | (1u64 << (targets[n - 1] as u64))
        } else {
            acc
        }
    }
}

/// The pending requests after the sources move to new priority positions:
/// each pending position's source is looked up in the old order and its bit
/// set at the source's new position; with nothing to move they stay as they
/// are.
pub open spec fn requests_after_recalc(req: u64, old_order: Seq<InterruptKind>, new_positions: Seq<u8>) -> u64 {
    let saved = if req != 0 {
        remap_requests(req, old_order.map_values(|k: InterruptKind| k.index_spec() as int), 41)
    } else {
        0
    };
    if saved != 0 {
        remap_requests(saved, new_positions.map_values(|p: u8| p as int), 41)
    } else {
        req
    }
}

/// Whether bit `i` of `req` is set.
pub open spec fn req_bit(req: u64, i: int) -> bool {
    (req >> (i as u64)) & 1 == 1
}

/// The sources with a pending request: the sources at the priority
/// positions whose bits are set in `req`.
pub open spec fn pending_sources(req: u64, order: Seq<InterruptKind>) -> Set<nat> {
    Set::new(|k: nat| exists|i: int| 0 <= i < NUM_INTERRUPTS && #[trigger] req_bit(req, i) && order[i].index_spec() == k)
}

proof fn lemma_bits(a: u64, t: u64, j: u64)
    by (bit_vector)
    requires
        t < 64,
        j < 64,
    ensures
        ((a | (1u64 << t)) >> j) & 1 == 1 <==> ((a >> j) & 1 == 1 || j == t),
        (0u64 >> j) & 1 != 1,
{
}

proof fn lemma_remap_bit(req: u64, targets: Seq<int>, n: nat, j: int)
    requires
        n <= NUM_INTERRUPTS,
        targets.len() >= n,
        forall|i: int| 0 <= i < n ==> 0 <= #[trigger] targets[i] < 64,
        0 <= j < 64,
    ensures
        req_bit(remap_requests(req, targets, n), j) <==> exists|i: int| 0 <= i < n && #[trigger] req_bit(req, i) && targets[i] == j,
    decreases n,
{
    if n == 0 {
        lemma_bits(0, 0, j as u64);
    } else {
        lemma_remap_bit(req, targets, (n - 1) as nat, j);
        let acc = remap_requests(req, targets, (n - 1) as nat);
        assert(0 <= targets[n - 1] < 64);
        lemma_bits(acc, targets[n - 1] as u64, j as u64);
        if req_bit(req, n - 1) {
            assert(remap_requests(req, targets, n) == acc | (1u64 << (targets[n - 1] as u64)));
        }
        if exists|i: int| 0 <= i < n && #[trigger] req_bit(req, i) && targets[i] == j {
            let i = choose|i: int| 0 <= i < n && #[trigger] req_bit(req, i) && targets[i] == j;
            if i < n - 1 {
                assert(exists|i2: int| 0 <= i2 < n - 1 && #[trigger] req_bit(req, i2) && targets[i2] == j);
            }
        }
    }
}

/// Re-sorting the sources by priority keeps the set of pending sources:
/// the requests moved to the new positions (`requests_after_recalc`) name
/// in the new order the same sources as the old requests in the old order.
pub proof fn law_recalc_keeps_pending(
    req: u64,
    old_levels: Seq<u8>,
    old_order: Seq<InterruptKind>,
    new_levels: Seq<u8>,
    new_order: Seq<InterruptKind>,
    new_positions: Seq<u8>,
)
    requires
        is_priority_order(old_levels, old_order),
        is_priority_order(new_levels, new_order),
        is_position_map(new_order, new_positions),
    ensures
        pending_sources(requests_after_recalc(req, old_order, new_positions), new_order) == pending_sources(req, old_order),
{
    let old_targets = old_order.map_values(|k: InterruptKind| k.index_spec() as int);
    let new_targets = new_positions.map_values(|p: u8| p as int);
    assert forall|i: int| 0 <= i < NUM_INTERRUPTS implies 0 <= #[trigger] old_targets[i] < 64 by {
        assert(old_order[i].index_spec() < NUM_INTERRUPTS) by { lemma_index_bound(old_order[i]); }
    }
    assert forall|i: int| 0 <= i < NUM_INTERRUPTS implies 0 <= #[trigger] new_targets[i] < 64 by {
        assert(new_positions[i] < NUM_INTERRUPTS);
    }
    let saved = if req != 0 { remap_requests(req, old_targets, 41) } else { 0 };
    // The bits of `saved` are the pending sources.
    assert forall|k: int| 0 <= k < 64 implies #[trigger] req_bit(saved, k)
        <==> exists|i: int| 0 <= i < NUM_INTERRUPTS && #[trigger] req_bit(req, i) && old_order[i].index_spec() == k by {
        if req != 0 {
            lemma_remap_bit(req, old_targets, 41, k);
            if exists|i: int| 0 <= i < 41 && #[trigger] req_bit(req, i) && old_targets[i] == k {
                let i = choose|i: int| 0 <= i < 41 && #[trigger] req_bit(req, i) && old_targets[i] == k;
                assert(old_order[i].index_spec() == k);
            }
            if exists|i: int| 0 <= i < NUM_INTERRUPTS && #[trigger] req_bit(req, i) && old_order[i].index_spec() == k {
                let i = choose|i: int| 0 <= i < NUM_INTERRUPTS && #[trigger] req_bit(req, i) && old_order[i].index_spec() == k;
                assert(old_targets[i] == k);
            }
        } else {
            lemma_bits(0, 0, k as u64);
            assert forall|i: int| 0 <= i < NUM_INTERRUPTS implies !#[trigger] req_bit(req, i) by {
                lemma_bits(0, 0, i as u64);
            }
        }
    }
    let result = requests_after_recalc(req, old_order, new_positions);
    let lhs = pending_sources(result, new_order);
    let rhs = pending_sources(req, old_order);
    if saved != 0 {
        assert(result == remap_requests(saved, new_targets, 41));
        assert forall|k: nat| lhs.contains(k) == rhs.contains(k) by {
            if lhs.contains(k) {
                let p = choose|p: int| 0 <= p < NUM_INTERRUPTS && #[trigger] req_bit(result, p) && new_order[p].index_spec() == k;
                lemma_remap_bit(saved, new_targets, 41, p);
                let k2 = choose|k2: int| 0 <= k2 < 41 && #[trigger] req_bit(saved, k2) && new_targets[k2] == p;
                // the source at position p is k2
                assert(lists_source(new_order, k2 as nat));
                let i = choose|i: int| 0 <= i < new_order.len() && #[trigger] new_order[i].index_spec() == k2;
                assert(new_positions[new_order[i].index_spec() as int] == i);
                assert(k2 == k);
                assert(req_bit(saved, k2));
            }
            if rhs.contains(k) {
                let i0 = choose|i: int| 0 <= i < NUM_INTERRUPTS && #[trigger] req_bit(req, i) && old_order[i].index_spec() == k;
                assert(k < NUM_INTERRUPTS) by { lemma_index_bound(old_order[i0]); }
                assert(req_bit(saved, k as int));
                assert(lists_source(new_order, k));
                let i = choose|i: int| 0 <= i < new_order.len() && #[trigger] new_order[i].index_spec() == k;
                assert(new_positions[k as int] == i);
                lemma_remap_bit(saved, new_targets, 41, i);
                assert(new_targets[k as int] == i);
                assert(req_bit(result, i));
            }
        }
        assert(lhs =~= rhs);
    } else {
        assert forall|i: int| 0 <= i < NUM_INTERRUPTS implies !#[trigger] req_bit(req, i) by {
            if req_bit(req, i) {
                lemma_index_bound(old_order[i]);
                assert(req_bit(saved, old_order[i].index_spec() as int));
                lemma_bits(0, 0, old_order[i].index_spec() as u64);
            }
        }
        assert(result == req);
        assert(lhs =~= Set::<nat>::empty());
        assert(rhs =~= Set::<nat>::empty());
    }
}

proof fn lemma_index_bound(k: InterruptKind)
    ensures
        k.index_spec() < NUM_INTERRUPTS,
{
}

/// The levels after the timer, RTC and ATI priorities are read from IPRA.
pub open spec fn levels_from_ipra(levels: Seq<u8>, ipra: u16) -> Seq<u8> {
    levels.update(23, ((ipra & 0xf000) >> 12u16) as u8).update(24, ((ipra & 0xf00) >> 8u16) as u8)
        .update(25, ((ipra & 0xf0) >> 4u16) as u8).update(26, ((ipra & 0xf0) >> 4u16) as u8)
        .update(27, (ipra & 0xf) as u8).update(28, (ipra & 0xf) as u8).update(29, (ipra & 0xf) as u8)
}

pub open spec fn count_ge(levels: Seq<u8>, th: int, n: int) -> nat
    decreases n,
{
    if n <= 0 {
        0
    } else {
        count_ge(levels, th, n - 1) + (if levels[n - 1] >= th { 1nat } else { 0nat })
    }
}

pub open spec fn count_eq(levels: Seq<u8>, lv: int, n: int) -> nat
    decreases n,
{
    if n <= 0 {
        0
    } else {
        count_eq(levels, lv, n - 1) + (if levels[n - 1] == lv { 1nat } else { 0nat })
    }
}

proof fn lemma_count_split(levels: Seq<u8>, th: int, n: int)
    ensures
        count_ge(levels, th - 1, n) == count_ge(levels, th, n) + count_eq(levels, th - 1, n),
    decreases n,
{
    if n > 0 {
        lemma_count_split(levels, th, n - 1);
    }
}

proof fn lemma_count_none(levels: Seq<u8>, n: int)
    ensures
        count_ge(levels, 256, n) == 0,
    decreases n,
{
    if n > 0 {
        lemma_count_none(levels, n - 1);
    }
}

proof fn lemma_count_all(levels: Seq<u8>, n: int)
    requires
        n >= 0,
    ensures
        count_ge(levels, 0, n) == n,
    decreases n,
{
    if n > 0 {
        lemma_count_all(levels, n - 1);
    }
}

/// Lists every source once, in priority order for `levels`.
fn sort_by_priority(levels: &[u8; 41]) -> (r: [InterruptKind; 41])
    ensures
        is_priority_order(levels@, r@),
{
    let mut out: Vec<InterruptKind> = Vec::new();
    let mut t: u32 = 0;
    proof {
        lemma_count_none(levels@, 41);
    }
    while t < 256
        invariant
            t <= 256,
            levels@.len() == NUM_INTERRUPTS,
            forall|j: int| 0 <= j < out@.len() ==> levels@[out@[j].index_spec() as int] >= 256 - t
                && out@[j].index_spec() < NUM_INTERRUPTS,
            forall|k: int|
                0 <= k < NUM_INTERRUPTS && levels@[k] >= 256 - t ==> exists|j: int|
                    0 <= j < out@.len() && #[trigger] out@[j].index_spec() == k,
            forall|i: int, j: int| 0 <= i < j < out@.len() ==> precedes(levels@, out@[i], out@[j]),
            out@.len() == count_ge(levels@, 256 - t, 41),
        decreases 256 - t,
    {
        let lv = (255 - t) as u8;
        let ghost th: int = 256 - t;
        let mut k: usize = 0;
        while k < NUM_INTERRUPTS
            invariant
                k <= NUM_INTERRUPTS,
                t < 256,
                th == 256 - t,
                lv == th - 1,
                levels@.len() == NUM_INTERRUPTS,
                forall|j: int| 0 <= j < out@.len() ==> (levels@[out@[j].index_spec() as int] >= th
                    || (levels@[out@[j].index_spec() as int] == lv && out@[j].index_spec() < k))
                    && out@[j].index_spec() < NUM_INTERRUPTS,
                forall|kk: int|
                    0 <= kk < NUM_INTERRUPTS && (levels@[kk] >= th || (levels@[kk] == lv && kk < k))
                        ==> exists|j: int| 0 <= j < out@.len() && #[trigger] out@[j].index_spec() == kk,
                forall|i: int, j: int| 0 <= i < j < out@.len() ==> precedes(levels@, out@[i], out@[j]),
                out@.len() == count_ge(levels@, th, 41) + count_eq(levels@, lv as int, k as int),
            decreases NUM_INTERRUPTS - k,
        {
            if levels[k] == lv {
                let kind = InterruptKind::from_index(k);
                let ghost before = out@;
                out.push(kind);
                proof {
                    assert forall|kk: int|
                        0 <= kk < NUM_INTERRUPTS && (levels@[kk] >= th || (levels@[kk] == lv && kk
                            < k + 1)) implies exists|j: int|
                        0 <= j < out@.len() && #[trigger] out@[j].index_spec() == kk by {
                        if kk == k {
                            assert(out@[out@.len() - 1].index_spec() == kk);
                        } else {
                            let j = choose|j: int| 0 <= j < before.len() && #[trigger] before[j].index_spec() == kk;
                            assert(out@[j] == before[j]);
                        }
                    }
                }
            }
            k = k + 1;
        }
        proof {
            lemma_count_split(levels@, th, 41);
        }
        t = t + 1;
    }
    proof {
        lemma_count_all(levels@, 41);
    }
    let mut arr = [InterruptKind::NMI; 41];
    let mut i: usize = 0;
    while i < NUM_INTERRUPTS
        invariant
            i <= NUM_INTERRUPTS,
            out@.len() == NUM_INTERRUPTS,
            forall|j: int| 0 <= j < i ==> arr@[j] == out@[j],
        decreases NUM_INTERRUPTS - i,
    {
        arr[i] = out[i];
        i = i + 1;
    }
    proof {
        assert(arr@ =~= out@);
        assert forall|k: nat| k < NUM_INTERRUPTS implies #[trigger] lists_source(arr@, k) by {
            assert(levels@[k as int] >= 0);
        }
    }
    arr
}

#[derive(Debug)]
pub struct Intc {
    pub registers: IntcRegisters,
    interrupt_levels: [u8; 41],
    prioritized_interrupts: [InterruptKind; 41],
    interrupt_map: [u8; 41],
}

impl Intc {
    /// The register file.
    pub closed spec fn regs(&self) -> IntcRegisters {
        self.registers
    }

    /// The level of each source, by source index.
    pub closed spec fn levels(&self) -> Seq<u8> {
        self.interrupt_levels@
    }

    /// The sources in priority order.
    pub closed spec fn priorities(&self) -> Seq<InterruptKind> {
        self.prioritized_interrupts@
    }

    /// The priority position of each source, by source index.
    pub closed spec fn positions(&self) -> Seq<u8> {
        self.interrupt_map@
    }

    #[verifier::type_invariant]
    spec fn consistent(&self) -> bool {
        is_priority_order(self.interrupt_levels@, self.prioritized_interrupts@)
            && is_position_map(self.prioritized_interrupts@, self.interrupt_map@)
    }

    pub fn new() -> (r: Self)
        ensures
            r.regs() == (IntcRegisters { icr: 0, ipra: 0, iprb: 0, iprc: 0, interrupt_requests: 0 }),
            forall|i: int| 0 <= i < NUM_INTERRUPTS ==> r.levels()[i] == initial_level(i as nat),
            r.levels().len() == NUM_INTERRUPTS,
            is_priority_order(r.levels(), r.priorities()),
            is_position_map(r.priorities(), r.positions()),
    {
        let mut levels = [0u8; 41];
        let mut i: usize = 0;
        while i < NUM_INTERRUPTS
            invariant
                i <= NUM_INTERRUPTS,
                forall|j: int| 0 <= j < i ==> levels@[j] == initial_level(j as nat),
                forall|j: int| i <= j < NUM_INTERRUPTS ==> levels@[j] == 0,
            decreases NUM_INTERRUPTS - i,
        {
            if i == 0 {
                levels[i] = 16;
            } else if i < 16 {
                levels[i] = (16 - i) as u8;
            }
            i = i + 1;
        }
        let prio = sort_by_priority(&levels);
        let map = Self::position_map(&prio);
        let intc = Intc {
            registers: IntcRegisters { icr: 0, ipra: 0, iprb: 0, iprc: 0, interrupt_requests: 0 },
            interrupt_levels: levels,
            prioritized_interrupts: prio,
            interrupt_map: map,
        };
        intc
    }

    /// The position of each source in `prio`.
    fn position_map(prio: &[InterruptKind; 41]) -> (r: [u8; 41])
        requires
            exists|levels: Seq<u8>| is_priority_order(levels, prio@),
        ensures
            is_position_map(prio@, r@),
    {
        let ghost levels = choose|levels: Seq<u8>| is_priority_order(levels, prio@);
        let mut map = [0u8; 41];
        let mut i: usize = 0;
        while i < NUM_INTERRUPTS
            invariant
                i <= NUM_INTERRUPTS,
                is_priority_order(levels, prio@),
                forall|j: int| 0 <= j < i ==> map@[#[trigger] prio@[j].index_spec() as int] == j,
            decreases NUM_INTERRUPTS - i,
        {
            let k = prio[i].index();
            proof {
                assert forall|j: int| 0 <= j < i implies prio@[j].index_spec() != k by {
                    assert(precedes(levels, prio@[j], prio@[i as int]));
                }
            }
            map[k] = i as u8;
            i = i + 1;
        }
        proof {
            assert forall|k: int| 0 <= k < NUM_INTERRUPTS implies #[trigger] map@[k] < NUM_INTERRUPTS by {
                assert(lists_source(prio@, k as nat));
                let j = choose|j: int| 0 <= j < prio@.len() && #[trigger] prio@[j].index_spec() == k as nat;
                assert(map@[prio@[j].index_spec() as int] == j);
            }
        }
        map
    }

    /// The level of a source.
    pub fn interrupt_level(&self, kind: InterruptKind) -> (r: u8)
        ensures
            r == self.levels()[kind.index_spec() as int],
    {
        proof {
            use_type_invariant(self);
        }
        self.interrupt_levels[kind.index()]
    }

    /// The source at priority position `i`.
    pub fn prioritized_interrupt(&self, i: usize) -> (r: InterruptKind)
        requires
            i < NUM_INTERRUPTS,
        ensures
            r == self.priorities()[i as int],
    {
        proof {
            use_type_invariant(self);
        }
        self.prioritized_interrupts[i]
    }

    /// Marks the source with index `irl` pending.
    pub fn raise_irl(&mut self, irl: usize)
        requires
            irl < NUM_INTERRUPTS,
        ensures
            final(self).regs() == (IntcRegisters {
                interrupt_requests: old(self).regs().interrupt_requests | (1u64 << (old(self).positions()[irl as int] as u64)),
                ..old(self).regs()
            }),
            final(self).levels() == old(self).levels(),
            final(self).priorities() == old(self).priorities(),
            final(self).positions() == old(self).positions(),
    {
        proof {
            use_type_invariant(&*self);
        }
        let pos = self.interrupt_map[irl];
        self.registers.interrupt_requests = self.registers.interrupt_requests | (1u64 << (pos as u64));
    }

    /// The register file.
    pub fn registers(&self) -> (r: IntcRegisters)
        ensures
            r == self.regs(),
    {
        self.registers
    }

    /// Clears the request at priority position `pos`.
    pub(crate) fn clear_request(&mut self, pos: usize)
        requires
            pos < 64,
        ensures
            final(self).regs() == (IntcRegisters {
                interrupt_requests: old(self).regs().interrupt_requests & !(1u64 << (pos as u64)),
                ..old(self).regs()
            }),
            final(self).levels() == old(self).levels(),
            final(self).priorities() == old(self).priorities(),
            final(self).positions() == old(self).positions(),
    {
        proof {
            use_type_invariant(&*self);
        }
        self.registers.interrupt_requests = self.registers.interrupt_requests & !(1u64 << (pos as u64));
    }

    /// Reads the levels of the timer, RTC and ATI sources from IPRA, sorts
    /// the sources by priority again and moves the pending requests to the
    /// new positions of their sources.
    pub fn recalc_prio(&mut self)
        ensures
            final(self).levels() == levels_from_ipra(old(self).levels(), old(self).regs().ipra),
            is_priority_order(final(self).levels(), final(self).priorities()),
            is_position_map(final(self).priorities(), final(self).positions()),
            final(self).regs() == (IntcRegisters {
                interrupt_requests: requests_after_recalc(
                    old(self).regs().interrupt_requests,
                    old(self).priorities(),
                    final(self).positions(),
                ),
                ..old(self).regs()
            }),
    {
        proof {
            use_type_invariant(&*self);
        }
        let old_prio = self.prioritized_interrupts;
        let req = self.registers.interrupt_requests;
        let ghost old_targets = old_prio@.map_values(|k: InterruptKind| k.index_spec() as int);
        let mut saved: u64 = 0;
        if req != 0 {
            let mut i: usize = 0;
            while i < NUM_INTERRUPTS
                invariant
                    i <= NUM_INTERRUPTS,
                    old_prio@.len() == NUM_INTERRUPTS,
                    old_targets == old_prio@.map_values(|k: InterruptKind| k.index_spec() as int),
                    saved == remap_requests(req, old_targets, i as nat),
                decreases NUM_INTERRUPTS - i,
            {
                if (req >> (i as u64)) & 1 == 1 {
                    saved = saved | (1u64 << (old_prio[i].index() as u64));
                }
                i = i + 1;
            }
        }
        let ipra = self.registers.ipra;
        let mut levels = self.interrupt_levels;
        levels[23] = ((ipra & 0xf000) >> 12u16) as u8;
        levels[24] = ((ipra & 0xf00) >> 8u16) as u8;
        levels[25] = ((ipra & 0xf0) >> 4u16) as u8;
        levels[26] = ((ipra & 0xf0) >> 4u16) as u8;
        levels[27] = (ipra & 0xf) as u8;
        levels[28] = (ipra & 0xf) as u8;
        levels[29] = (ipra & 0xf) as u8;
        proof {
            assert(levels@ =~= levels_from_ipra(self.interrupt_levels@, ipra));
        }
        let prio = sort_by_priority(&levels);
        let map = Self::position_map(&prio);
        let ghost new_targets = map@.map_values(|p: u8| p as int);
        let mut requests = req;
        if saved != 0 {
            requests = 0;
            let mut i: usize = 0;
            while i < NUM_INTERRUPTS
                invariant
                    i <= NUM_INTERRUPTS,
                    is_position_map(prio@, map@),
                    new_targets == map@.map_values(|p: u8| p as int),
                    requests == remap_requests(saved, new_targets, i as nat),
                decreases NUM_INTERRUPTS - i,
            {
                if (saved >> (i as u64)) & 1 == 1 {
                    requests = requests | (1u64 << (map[i] as u64));
                }
                i = i + 1;
            }
        }
        *self = Intc {
            registers: IntcRegisters { interrupt_requests: requests, ..self.registers },
            interrupt_levels: levels,
            prioritized_interrupts: prio,
            interrupt_map: map,
        };
    }

    pub fn write_16(&mut self, addr: PhysicalAddress, value: u16)
        ensures
            ({
                let r0 = old(self).regs();
                let r1 = if addr.0 == 0x1fd00000 {
                    IntcRegisters { icr: value, ..r0 }
                } else if addr.0 == 0x1fd00004 {
                    IntcRegisters { ipra: value, ..r0 }
                } else if addr.0 == 0x1fd00008 {
                    IntcRegisters { iprb: value, ..r0 }
                } else if addr.0 == 0x1fd0000c {
                    IntcRegisters { iprc: value, ..r0 }
                } else {
                    r0
                };
                let recalc = (addr.0 == 0x1fd00004 && r0.ipra != value) || (addr.0 == 0x1fd00008
                    && r0.iprb != value) || (addr.0 == 0x1fd0000c && r0.iprc != value);
                if recalc {
                    &&& final(self).levels() == levels_from_ipra(old(self).levels(), r1.ipra)
                    &&& final(self).regs() == (IntcRegisters {
                        interrupt_requests: requests_after_recalc(
                            r1.interrupt_requests,
                            old(self).priorities(),
                            final(self).positions(),
                        ),
                        ..r1
                    })
                } else {
                    &&& final(self).regs() == r1
                    &&& final(self).levels() == old(self).levels()
                    &&& final(self).priorities() == old(self).priorities()
                    &&& final(self).positions() == old(self).positions()
                }
            }),
            is_priority_order(final(self).levels(), final(self).priorities()),
            is_position_map(final(self).priorities(), final(self).positions()),
    {
        proof {
            use_type_invariant(&*self);
        }
        match addr.0 {
            0x1fd00000 => {
                self.registers.icr = value;
            },
            0x1fd00004 => {
                if self.registers.ipra != value {
                    self.registers.ipra = value;
                    self.recalc_prio();
                }
            },
            0x1fd00008 => {
                if self.registers.iprb != value {
                    self.registers.iprb = value;
                    self.recalc_prio();
                }
            },
            0x1fd0000c => {
                if self.registers.iprc != value {
                    self.registers.iprc = value;
                    self.recalc_prio();
                }
            },
            _ => {},
        }
        proof {
            use_type_invariant(&*self);
        }
    }

    pub fn read_16(&self, addr: PhysicalAddress) -> (r: u16)
        requires
            addr.0 == 0x1fd00000 || addr.0 == 0x1fd00004 || addr.0 == 0x1fd00008 || addr.0 == 0x1fd0000c,
        ensures
            addr.0 == 0x1fd00000 ==> r == self.regs().icr,
            addr.0 == 0x1fd00004 ==> r == self.regs().ipra,
            addr.0 == 0x1fd00008 ==> r == self.regs().iprb,
            addr.0 == 0x1fd0000c ==> r == self.regs().iprc,
    {
        match addr.0 {
            0x1fd00000 => self.registers.icr,
            0x1fd00004 => self.registers.ipra,
            0x1fd00008 => self.registers.iprb,
            _ => self.registers.iprc,
        }
    }
}

} // verus!
