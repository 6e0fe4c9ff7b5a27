//! Addresses and the SH-4 address space map.
use vstd::prelude::*;

verus! {

#[derive(Debug, Copy, Clone, PartialEq, Eq, Structural, Hash)]
pub struct PhysicalAddress(pub u32);

#[derive(Copy, Clone, Debug, PartialEq, Eq, Structural)]
pub struct LogicalAddress(pub u32);

/// Where a logical address lands.
#[derive(Debug, Copy, Clone, PartialEq, Eq, Structural, Hash)]
pub enum MappedLocation {
    ExternalAddress(PhysicalAddress),
    InternalAddress(PhysicalAddress),
    OperandCache(PhysicalAddress),
    StoreQueue(PhysicalAddress),
    Nothing,
}

impl MappedLocation {
    pub open spec fn phys_spec(self) -> PhysicalAddress {
        match self {
            MappedLocation::ExternalAddress(p) => p,
            MappedLocation::InternalAddress(p) => p,
            MappedLocation::OperandCache(p) => p,
            MappedLocation::StoreQueue(p) => p,
            MappedLocation::Nothing => PhysicalAddress(0),
        }
    }

    /// The same kind of location at another physical address.
    pub open spec fn with_phys(self, phys: PhysicalAddress) -> MappedLocation {
        match self {
            MappedLocation::ExternalAddress(_) => MappedLocation::ExternalAddress(phys),
            MappedLocation::InternalAddress(_) => MappedLocation::InternalAddress(phys),
            MappedLocation::OperandCache(_) => MappedLocation::OperandCache(phys),
            MappedLocation::StoreQueue(_) => MappedLocation::StoreQueue(phys),
            MappedLocation::Nothing => MappedLocation::Nothing,
        }
    }

    pub fn phys(&self) -> (r: PhysicalAddress)
        ensures
            r == self.phys_spec(),
    {
        match self {
            MappedLocation::ExternalAddress(phys) => *phys,
            MappedLocation::InternalAddress(phys) => *phys,
            MappedLocation::OperandCache(phys) => *phys,
            MappedLocation::StoreQueue(phys) => *phys,
            MappedLocation::Nothing => PhysicalAddress(0),
        }
    }

    pub fn from_existing(&self, phys: PhysicalAddress) -> (r: MappedLocation)
        ensures
            r == self.with_phys(phys),
    {
        match self {
            MappedLocation::ExternalAddress(_) => MappedLocation::ExternalAddress(phys),
            MappedLocation::InternalAddress(_) => MappedLocation::InternalAddress(phys),
            MappedLocation::OperandCache(_) => MappedLocation::OperandCache(phys),
            MappedLocation::StoreQueue(_) => MappedLocation::StoreQueue(phys),
            MappedLocation::Nothing => MappedLocation::Nothing,
        }
    }
}

/// A window of `size` logical addresses from `start` mapped onto `location`.
#[derive(Copy, Clone, Debug, PartialEq, Eq, Structural)]
pub struct MappedRange {
    pub start: LogicalAddress,
    pub size: usize,
    pub location: MappedLocation,
}

impl MappedRange {
    /// The window and its image fit in 32 bits.
    pub open spec fn wf(self) -> bool {
        &&& self.start.0 + self.size <= u32::MAX
        &&& self.location.phys_spec().0 + self.size <= u32::MAX
    }

    pub open spec fn contains_spec(self, addr: LogicalAddress) -> bool {
        self.start.0 <= addr.0 < self.start.0 + self.size
    }

    pub open spec fn resolve_spec(self, addr: LogicalAddress) -> Option<MappedLocation> {
        if self.contains_spec(addr) {
            Some(
                self.location.with_phys(
                    PhysicalAddress((self.location.phys_spec().0 + (addr.0 - self.start.0)) as u32),
                ),
            )
        } else {
            None
        }
    }

    fn contains(&self, addr: LogicalAddress) -> (r: bool)
        requires
            self.wf(),
        ensures
            r == self.contains_spec(addr),
    {
        let LogicalAddress(logical) = addr;
        let LogicalAddress(start) = self.start;
        logical >= start && logical < (start + self.size as u32)
    }

    fn resolve(&self, addr: LogicalAddress) -> (r: Option<MappedLocation>)
        requires
            self.wf(),
        ensures
            r == self.resolve_spec(addr),
    {
        if self.contains(addr) {
            let LogicalAddress(logical) = addr;
            let LogicalAddress(start) = self.start;
            Some(self.location.from_existing(PhysicalAddress(self.location.phys().0 + (logical - start))))
        } else {
            None
        }
    }
}

/// The location of `addr` under the first window in `ranges` that holds it.
pub open spec fn translate_spec(ranges: Seq<MappedRange>, addr: LogicalAddress) -> MappedLocation
    decreases ranges.len(),
{
    if ranges.len() == 0 {
        MappedLocation::Nothing
    } else {
        match ranges[0].resolve_spec(addr) {
            Some(loc) => loc,
            None => translate_spec(ranges.drop_first(), addr),
        }
    }
}

pub struct MemoryMapper {
    ranges: Vec<MappedRange>,
}

impl MemoryMapper {
    /// The windows, in the order they are tried.
    pub closed spec fn view(&self) -> Seq<MappedRange> {
        self.ranges@
    }

    #[verifier::type_invariant]
    spec fn all_wf(&self) -> bool {
        forall|i: int| 0 <= i < self.ranges@.len() ==> #[trigger] self.ranges@[i].wf()
    }

    pub fn new() -> (r: Self)
        ensures
            r@ == Seq::<MappedRange>::empty(),
    {
        MemoryMapper { ranges: Vec::new() }
    }

    pub fn add_range(&mut self, range: MappedRange)
        requires
            range.wf(),
        ensures
            final(self)@ == old(self)@.push(range),
    {
        proof {
            use_type_invariant(&*self);
        }
        let mut ranges = Vec::new();
        let mut i: usize = 0;
        while i < self.ranges.len()
            invariant
                i <= self.ranges@.len(),
                ranges@ == self.ranges@.subrange(0, i as int),
            decreases self.ranges@.len() - i,
        {
            ranges.push(self.ranges[i]);
            i = i + 1;
        }
        ranges.push(range);
        proof {
            assert(ranges@ =~= self.ranges@.push(range));
        }
        self.ranges = ranges;
    }

    /// Where `addr` lands: under the first window that holds it, else nowhere.
    pub fn translate(&self, addr: LogicalAddress) -> (r: MappedLocation)
        ensures
            r == translate_spec(self@, addr),
    {
        proof {
            use_type_invariant(self);
            assert(self.ranges@.skip(0) =~= self.ranges@);
        }
        let mut i: usize = 0;
        while i < self.ranges.len()
            invariant
                i <= self.ranges@.len(),
                forall|k: int| 0 <= k < self.ranges@.len() ==> #[trigger] self.ranges@[k].wf(),
                translate_spec(self.ranges@, addr) == translate_spec(self.ranges@.skip(i as int), addr),
            decreases self.ranges@.len() - i,
        {
            proof {
                assert(self.ranges@.skip(i as int).drop_first() =~= self.ranges@.skip(i + 1));
            }
            if let Some(phys_addr) = self.ranges[i].resolve(addr) {
                return phys_addr;
            }
            i = i + 1;
        }
        MappedLocation::Nothing
    }
}

/// The SH-4 address map: P0 mirrored four times, the operand cache RAM, P1,
/// P2 and P3 onto the external bus, P4 onto the on-chip registers and the
/// store queue window.
pub open spec fn sh4_ranges() -> Seq<MappedRange> {
    seq![
        MappedRange { start: LogicalAddress(0), size: 0x1bffffff, location: MappedLocation::ExternalAddress(PhysicalAddress(0)) },
        MappedRange { start: LogicalAddress(0x20000000), size: 0x1bffffff, location: MappedLocation::ExternalAddress(PhysicalAddress(0)) },
        MappedRange { start: LogicalAddress(0x40000000), size: 0x1bffffff, location: MappedLocation::ExternalAddress(PhysicalAddress(0)) },
        MappedRange { start: LogicalAddress(0x60000000), size: 0x1bffffff, location: MappedLocation::ExternalAddress(PhysicalAddress(0)) },
        MappedRange { start: LogicalAddress(0x7c000000), size: 0x3ffffff, location: MappedLocation::OperandCache(PhysicalAddress(0)) },
        MappedRange { start: LogicalAddress(0x80000000), size: 0x1bffffff, location: MappedLocation::ExternalAddress(PhysicalAddress(0)) },
        MappedRange { start: LogicalAddress(0xa0000000), size: 0x1bffffff, location: MappedLocation::ExternalAddress(PhysicalAddress(0)) },
        MappedRange { start: LogicalAddress(0xc0000000), size: 0x1bffffff, location: MappedLocation::ExternalAddress(PhysicalAddress(0)) },
        MappedRange { start: LogicalAddress(0xfc000000), size: 0x3ffffff, location: MappedLocation::InternalAddress(PhysicalAddress(0x1c000000)) },
        MappedRange { start: LogicalAddress(0xe0000000), size: 0x3ffffff, location: MappedLocation::StoreQueue(PhysicalAddress(0xe0000000)) },
    ]
}

/// The memory mapper that the SH-4 bus is built with.
pub fn sh4_memory_mapper() -> (r: MemoryMapper)
    ensures
        r@ == sh4_ranges(),
{
    let mut mapper = MemoryMapper::new();
    mapper.add_range(MappedRange { start: LogicalAddress(0), size: 0x1bffffff, location: MappedLocation::ExternalAddress(PhysicalAddress(0)) });
    mapper.add_range(MappedRange { start: LogicalAddress(0x20000000), size: 0x1bffffff, location: MappedLocation::ExternalAddress(PhysicalAddress(0)) });
    mapper.add_range(MappedRange { start: LogicalAddress(0x40000000), size: 0x1bffffff, location: MappedLocation::ExternalAddress(PhysicalAddress(0)) });
    mapper.add_range(MappedRange { start: LogicalAddress(0x60000000), size: 0x1bffffff, location: MappedLocation::ExternalAddress(PhysicalAddress(0)) });
    mapper.add_range(MappedRange { start: LogicalAddress(0x7c000000), size: 0x3ffffff, location: MappedLocation::OperandCache(PhysicalAddress(0)) });
    mapper.add_range(MappedRange { start: LogicalAddress(0x80000000), size: 0x1bffffff, location: MappedLocation::ExternalAddress(PhysicalAddress(0)) });
    mapper.add_range(MappedRange { start: LogicalAddress(0xa0000000), size: 0x1bffffff, location: MappedLocation::ExternalAddress(PhysicalAddress(0)) });
    mapper.add_range(MappedRange { start: LogicalAddress(0xc0000000), size: 0x1bffffff, location: MappedLocation::ExternalAddress(PhysicalAddress(0)) });
    mapper.add_range(MappedRange { start: LogicalAddress(0xfc000000), size: 0x3ffffff, location: MappedLocation::InternalAddress(PhysicalAddress(0x1c000000)) });
    mapper.add_range(MappedRange { start: LogicalAddress(0xe0000000), size: 0x3ffffff, location: MappedLocation::StoreQueue(PhysicalAddress(0xe0000000)) });
    proof {
        assert(mapper@ =~= sh4_ranges());
    }
    mapper
}

} // verus!
