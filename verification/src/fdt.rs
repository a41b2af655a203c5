//! Computational kernels of the guest boot-descriptor tables: the data types
//! describing PCI and watchdog regions, and the functions that compute the
//! property values of the memory, interrupt, timer and PCI host nodes.  The
//! tree-building collaborator itself is outside this library; these
//! functions produce exactly the cell values it serializes.

use vstd::prelude::*;

verus! {

/// Interrupt cell count fixed by the interrupt controller's binding.
pub const GIC_FDT_IRQ_NUM_CELLS: u32 = 3;

/// Interrupt type cell of a shared peripheral interrupt.
pub const GIC_FDT_IRQ_TYPE_SPI: u32 = 0;

/// Interrupt type cell of a private peripheral interrupt.
pub const GIC_FDT_IRQ_TYPE_PPI: u32 = 1;

/// Bit position of the target-CPU mask inside a PPI specifier.
pub const GIC_FDT_IRQ_PPI_CPU_SHIFT: u32 = 8;

/// Mask of the target-CPU field inside a PPI specifier.
pub const GIC_FDT_IRQ_PPI_CPU_MASK: u32 = 0xff00;

/// Edge-rising trigger flag of an interrupt specifier.
pub const IRQ_TYPE_EDGE_RISING: u32 = 0x00000001;

/// Level-high trigger flag of an interrupt specifier.
pub const IRQ_TYPE_LEVEL_HIGH: u32 = 0x00000004;

/// Level-low trigger flag of an interrupt specifier.
pub const IRQ_TYPE_LEVEL_LOW: u32 = 0x00000008;

/// Phandle of the interrupt controller node.
pub const PHANDLE_GIC: u32 = 1;

/// PCI address space.
#[derive(Copy, Clone, Debug, PartialEq, Eq, Structural)]
pub enum PciAddressSpace {
    /// PCI configuration space.
    Configuration,
    /// I/O space.
    Io,
    /// 32-bit memory space.
    Memory,
    /// 64-bit memory space.
    Memory64,
}

/// The 2-bit space selector a PCI address space encodes to in a bus-address
/// cell.
pub open spec fn spec_space_value(s: PciAddressSpace) -> u32 {
    match s {
        PciAddressSpace::Configuration => 0,
        PciAddressSpace::Io => 1,
        PciAddressSpace::Memory => 2,
        PciAddressSpace::Memory64 => 3,
    }
}

impl PciAddressSpace {
    /// The 2-bit space selector this address space encodes to.
    pub fn value(&self) -> (r: u32)
        ensures
            r == spec_space_value(*self),
    {
        match self {
            PciAddressSpace::Configuration => 0,
            PciAddressSpace::Io => 1,
            PciAddressSpace::Memory => 2,
            PciAddressSpace::Memory64 => 3,
        }
    }
}

/// PCI host controller address range: a single entry of the host
/// controller's ranges property.
#[derive(Copy, Clone, Debug, PartialEq, Eq, Structural)]
pub struct PciRange {
    /// The address space the range maps.
    pub space: PciAddressSpace,
    /// Bus-side address of the range.
    pub bus_address: u64,
    /// CPU physical address of the range.
    pub cpu_physical_address: u64,
    /// Byte size of the range.
    pub size: u64,
    /// Whether the range may be prefetched.
    pub prefetchable: bool,
}

/// Location of memory-mapped PCI configuration space.
#[derive(Copy, Clone, Debug, PartialEq, Eq, Structural)]
pub struct PciConfigRegion {
    /// Physical address of the base of the memory-mapped PCI configuration
    /// region.
    pub base: u64,
    /// Size of the PCI configuration region in bytes.
    pub size: u64,
}

/// Location of the memory-mapped vm watchdog.
#[derive(Copy, Clone, Debug, PartialEq, Eq, Structural)]
pub struct VmWdtConfig {
    /// Physical address of the base of the memory-mapped vm watchdog region.
    pub base: u64,
    /// Size of the vm watchdog region in bytes.
    pub size: u64,
    /// The internal clock frequency of the watchdog.
    pub clock_hz: u32,
    /// The expiration timeout measured in seconds.
    pub timeout_sec: u32,
}

/// A PCI device address: bus, device and function numbers.
#[derive(Copy, Clone, Debug, PartialEq, Eq, Structural)]
pub struct PciAddress {
    /// Bus number.
    pub bus: u8,
    /// Device number, a 5-bit field.
    pub dev: u8,
    /// Function number, a 3-bit field.
    pub func: u8,
}

/// The configuration-address cell of a PCI device, with an 8-bit register
/// field left at zero: the bus, device and function numbers packed above it.
pub open spec fn spec_config_address(a: PciAddress) -> u32 {
    (((a.bus as u32) << 16) | ((a.dev as u32) << 11) | ((a.func as u32) << 8)) as u32
}

impl PciAddress {
    /// A device address is well formed when its device and function numbers
    /// fit their 5- and 3-bit fields.
    pub open spec fn wf(self) -> bool {
        self.dev < 32 && self.func < 8
    }

    /// The configuration-address cell of this device, with an 8-bit register
    /// field left at zero.
    pub fn to_config_address(&self) -> (r: u32)
        ensures
            r == spec_config_address(*self),
    {
        ((self.bus as u32) << 16) | ((self.dev as u32) << 11) | ((self.func as u32) << 8)
    }
}

/// One of the four PCI legacy interrupt pins.
#[derive(Copy, Clone, Debug, PartialEq, Eq, Structural)]
pub enum PciInterruptPin {
    /// Pin INTA#.
    IntA,
    /// Pin INTB#.
    IntB,
    /// Pin INTC#.
    IntC,
    /// Pin INTD#.
    IntD,
}

/// The 0-based index of an interrupt pin.
pub open spec fn spec_pin_mask(p: PciInterruptPin) -> u32 {
    match p {
        PciInterruptPin::IntA => 0,
        PciInterruptPin::IntB => 1,
        PciInterruptPin::IntC => 2,
        PciInterruptPin::IntD => 3,
    }
}

impl PciInterruptPin {
    /// The 0-based index of this pin.
    pub fn to_mask(&self) -> (r: u32)
        ensures
            r == spec_pin_mask(*self),
    {
        match self {
            PciInterruptPin::IntA => 0,
            PciInterruptPin::IntB => 1,
            PciInterruptPin::IntC => 2,
            PciInterruptPin::IntD => 3,
        }
    }
}

/// The seven cells one PCI range contributes to the host controller's ranges
/// property: the bus address with its space selector and prefetch flag
/// packed into the high cell, then the 64-bit bus address, CPU address and
/// size, each split big-half first.
pub open spec fn spec_range_cells(r: PciRange) -> Seq<u32> {
    seq![
        ((spec_space_value(r.space) << 24) | ((if r.prefetchable {
            1u32
        } else {
            0u32
        }) << 30)) as u32,
        ((r.bus_address >> 32) & 0xffffffff) as u32,
        (r.bus_address & 0xffffffff) as u32,
        ((r.cpu_physical_address >> 32) & 0xffffffff) as u32,
        (r.cpu_physical_address & 0xffffffff) as u32,
        ((r.size >> 32) & 0xffffffff) as u32,
        (r.size & 0xffffffff) as u32,
    ]
}

/// Encodes the host controller's ranges property: seven cells per range, in
/// order.
pub fn encode_pci_ranges(ranges: &Vec<PciRange>) -> (r: Vec<u32>)
    ensures
        r@.len() == 7 * ranges@.len(),
        forall|i: int|
            0 <= i < ranges@.len() ==> #[trigger] r@.subrange(7 * i, 7 * i + 7)
                == spec_range_cells(ranges@[i]),
{
    let mut out: Vec<u32> = Vec::new();
    let mut i: usize = 0;
    while i < ranges.len()
        invariant
            i <= ranges@.len(),
            out@.len() == 7 * i,
            forall|j: int|
                0 <= j < i ==> #[trigger] out@.subrange(7 * j, 7 * j + 7) == spec_range_cells(
                    ranges@[j],
                ),
        decreases ranges@.len() - i,
    {
        let ghost out0 = out@;
        let rg = ranges[i];
        let ss = rg.space.value();
        let p: u32 = if rg.prefetchable {
            1
        } else {
            0
        };
        out.push((ss << 24) | (p << 30));
        out.push(#[verifier::truncate] (((rg.bus_address >> 32) & 0xffffffff) as u32));
        out.push(#[verifier::truncate] ((rg.bus_address & 0xffffffff) as u32));
        out.push(#[verifier::truncate] (((rg.cpu_physical_address >> 32) & 0xffffffff) as u32));
        out.push(#[verifier::truncate] ((rg.cpu_physical_address & 0xffffffff) as u32));
        out.push(#[verifier::truncate] (((rg.size >> 32) & 0xffffffff) as u32));
        out.push(#[verifier::truncate] ((rg.size & 0xffffffff) as u32));
        proof {
            assert(out@.subrange(7 * i as int, 7 * i as int + 7) =~= spec_range_cells(
                ranges@[i as int],
            ));
            assert forall|j: int| 0 <= j < i + 1 implies #[trigger] out@.subrange(7 * j, 7 * j + 7)
                == spec_range_cells(ranges@[j]) by {
                if j < i {
                    assert(out@.subrange(7 * j, 7 * j + 7) =~= out0.subrange(7 * j, 7 * j + 7));
                }
            }
        }
        i = i + 1;
    }
    out
}


/// The ten interrupt-map cells one routed device contributes: its
/// configuration address, the 1-based pin, the interrupt controller's
/// phandle, and the controller data naming the SPI, its number and
/// level-high trigger.
pub open spec fn spec_interrupt_map_cells(a: PciAddress, irq_num: u32, pin: PciInterruptPin) -> Seq<
    u32,
> {
    seq![
        spec_config_address(a),
        0u32,
        0u32,
        (spec_pin_mask(pin) + 1) as u32,
        PHANDLE_GIC,
        0u32,
        0u32,
        GIC_FDT_IRQ_TYPE_SPI,
        irq_num,
        IRQ_TYPE_LEVEL_HIGH,
    ]
}

/// The four interrupt-map-mask cells each routed device contributes: match
/// on the device-number bits of the address and on any of the four pins.
pub open spec fn spec_interrupt_map_mask_cells() -> Seq<u32> {
    seq![0xf800u32, 0u32, 0u32, 0x7u32]
}

/// Builds the host controller's interrupt-map and interrupt-map-mask
/// properties: ten map cells and four mask cells per routed device, in
/// order.
pub fn build_pci_interrupt_map(irqs: &Vec<(PciAddress, u32, PciInterruptPin)>) -> (r: (
    Vec<u32>,
    Vec<u32>,
))
    ensures
        r.0@.len() == 10 * irqs@.len(),
        r.1@.len() == 4 * irqs@.len(),
        forall|i: int|
            0 <= i < irqs@.len() ==> #[trigger] r.0@.subrange(10 * i, 10 * i + 10)
                == spec_interrupt_map_cells(irqs@[i].0, irqs@[i].1, irqs@[i].2),
        forall|i: int|
            0 <= i < irqs@.len() ==> #[trigger] r.1@.subrange(4 * i, 4 * i + 4)
                == spec_interrupt_map_mask_cells(),
{
    let mut interrupts: Vec<u32> = Vec::new();
    let mut masks: Vec<u32> = Vec::new();
    let mut i: usize = 0;
    while i < irqs.len()
        invariant
            i <= irqs@.len(),
            interrupts@.len() == 10 * i,
            masks@.len() == 4 * i,
            forall|j: int|
                0 <= j < i ==> #[trigger] interrupts@.subrange(10 * j, 10 * j + 10)
                    == spec_interrupt_map_cells(irqs@[j].0, irqs@[j].1, irqs@[j].2),
            forall|j: int|
                0 <= j < i ==> #[trigger] masks@.subrange(4 * j, 4 * j + 4)
                    == spec_interrupt_map_mask_cells(),
        decreases irqs@.len() - i,
    {
        let ghost interrupts0 = interrupts@;
        let ghost masks0 = masks@;
        let (address, irq_num, irq_pin) = irqs[i];
        interrupts.push(address.to_config_address());
        interrupts.push(0);
        interrupts.push(0);
        interrupts.push(irq_pin.to_mask() + 1);
        interrupts.push(PHANDLE_GIC);
        interrupts.push(0);
        interrupts.push(0);
        interrupts.push(GIC_FDT_IRQ_TYPE_SPI);
        interrupts.push(irq_num);
        interrupts.push(IRQ_TYPE_LEVEL_HIGH);
        masks.push(0xf800);
        masks.push(0);
        masks.push(0);
        masks.push(0x7);
        proof {
            assert(interrupts@.subrange(10 * i as int, 10 * i as int + 10)
                =~= spec_interrupt_map_cells(
                irqs@[i as int].0,
                irqs@[i as int].1,
                irqs@[i as int].2,
            ));
            assert(masks@.subrange(4 * i as int, 4 * i as int + 4)
                =~= spec_interrupt_map_mask_cells());
            assert forall|j: int| 0 <= j < i implies #[trigger] interrupts@.subrange(
                10 * j,
                10 * j + 10,
            ) == spec_interrupt_map_cells(irqs@[j].0, irqs@[j].1, irqs@[j].2) by {
                assert(interrupts@.subrange(10 * j, 10 * j + 10) =~= interrupts0.subrange(
                    10 * j,
                    10 * j + 10,
                ));
            }
            assert forall|j: int| 0 <= j < i implies #[trigger] masks@.subrange(4 * j, 4 * j + 4)
                == spec_interrupt_map_mask_cells() by {
                assert(masks@.subrange(4 * j, 4 * j + 4) =~= masks0.subrange(4 * j, 4 * j + 4));
            }
        }
        i = i + 1;
    }
    (interrupts, masks)
}

/// The target-CPU mask of a private peripheral interrupt specifier: one bit
/// per CPU, placed in the specifier's CPU field and clipped to its 8 bits.
pub open spec fn spec_ppi_cpu_mask(num_cpus: u32) -> u32
    recommends
        num_cpus < 32,
{
    (((((1u32 << num_cpus) - 1) as u32) << GIC_FDT_IRQ_PPI_CPU_SHIFT) & GIC_FDT_IRQ_PPI_CPU_MASK) as u32
}

/// Computes the target-CPU mask of a private peripheral interrupt.
pub fn ppi_cpu_mask(num_cpus: u32) -> (r: u32)
    requires
        0 < num_cpus < 32,
    ensures
        r == spec_ppi_cpu_mask(num_cpus),
{
    proof {
        assert(num_cpus < 32 ==> (1u32 << num_cpus) >= 1) by (bit_vector);
    }
    ((1u32 << num_cpus) - 1) << GIC_FDT_IRQ_PPI_CPU_SHIFT & GIC_FDT_IRQ_PPI_CPU_MASK
}

/// The twelve cells of the architected timer's interrupts property: the four
/// fixed timer interrupts 13, 14, 11 and 10, each as a level-low private
/// peripheral interrupt targeted at every CPU.
pub open spec fn spec_timer_cells(num_cpus: u32) -> Seq<u32>
    recommends
        num_cpus < 32,
{
    let mask = spec_ppi_cpu_mask(num_cpus);
    seq![
        GIC_FDT_IRQ_TYPE_PPI,
        13u32,
        (mask | IRQ_TYPE_LEVEL_LOW) as u32,
        GIC_FDT_IRQ_TYPE_PPI,
        14u32,
        (mask | IRQ_TYPE_LEVEL_LOW) as u32,
        GIC_FDT_IRQ_TYPE_PPI,
        11u32,
        (mask | IRQ_TYPE_LEVEL_LOW) as u32,
        GIC_FDT_IRQ_TYPE_PPI,
        10u32,
        (mask | IRQ_TYPE_LEVEL_LOW) as u32,
    ]
}

/// Computes the architected timer's interrupt cells.
pub fn timer_interrupt_cells(num_cpus: u32) -> (r: Vec<u32>)
    requires
        0 < num_cpus < 32,
    ensures
        r@ =~= spec_timer_cells(num_cpus),
{
    let cpu_mask = ppi_cpu_mask(num_cpus);
    let mut cells: Vec<u32> = Vec::new();
    cells.push(GIC_FDT_IRQ_TYPE_PPI);
    cells.push(13);
    cells.push(cpu_mask | IRQ_TYPE_LEVEL_LOW);
    cells.push(GIC_FDT_IRQ_TYPE_PPI);
    cells.push(14);
    cells.push(cpu_mask | IRQ_TYPE_LEVEL_LOW);
    cells.push(GIC_FDT_IRQ_TYPE_PPI);
    cells.push(11);
    cells.push(cpu_mask | IRQ_TYPE_LEVEL_LOW);
    cells.push(GIC_FDT_IRQ_TYPE_PPI);
    cells.push(10);
    cells.push(cpu_mask | IRQ_TYPE_LEVEL_LOW);
    cells
}

/// The four reg cells of the interrupt controller node: the distributor's
/// base and size, then for a version 3 controller the redistributor region,
/// which ends at the distributor's base and holds one stride per CPU, and
/// for an earlier controller the given CPU interface region.
pub open spec fn spec_gic_reg(
    is_gicv3: bool,
    num_cpus: u64,
    dist_base: u64,
    dist_size: u64,
    redist_size: u64,
    cpui_base: u64,
    cpui_size: u64,
) -> Seq<u64>
    recommends
        num_cpus * redist_size <= dist_base,
{
    if is_gicv3 {
        seq![dist_base, dist_size, (dist_base - redist_size * num_cpus) as u64, (redist_size
            * num_cpus) as u64]
    } else {
        seq![dist_base, dist_size, cpui_base, cpui_size]
    }
}

/// Computes the interrupt controller's reg cells.
pub fn gic_reg_values(
    is_gicv3: bool,
    num_cpus: u64,
    dist_base: u64,
    dist_size: u64,
    redist_size: u64,
    cpui_base: u64,
    cpui_size: u64,
) -> (r: Vec<u64>)
    requires
        num_cpus * redist_size <= dist_base,
        redist_size * num_cpus <= u64::MAX,
    ensures
        r@ =~= spec_gic_reg(
            is_gicv3,
            num_cpus,
            dist_base,
            dist_size,
            redist_size,
            cpui_base,
            cpui_size,
        ),
{
    let mut out: Vec<u64> = Vec::new();
    out.push(dist_base);
    out.push(dist_size);
    if is_gicv3 {
        proof {
            assert(redist_size * num_cpus == num_cpus * redist_size) by (nonlinear_arith);
        }
        let redist = redist_size * num_cpus;
        out.push(dist_base - redist);
        out.push(redist);
    } else {
        out.push(cpui_base);
        out.push(cpui_size);
    }
    out
}

/// The order the memory regions are sorted into before merging: by start
/// address, with the size breaking ties.
pub open spec fn spec_region_leq(a: (u64, u64), b: (u64, u64)) -> bool {
    a.0 < b.0 || (a.0 == b.0 && a.1 <= b.1)
}

/// A region placed into an already-built row from the right: it lands
/// behind the last element not above it, everything larger shifted up.
pub open spec fn spec_insert_region(s: Seq<(u64, u64)>, x: (u64, u64)) -> Seq<(u64, u64)>
    decreases s.len(),
{
    if s.len() == 0 {
        seq![x]
    } else if spec_region_leq(s.last(), x) {
        s.push(x)
    } else {
        spec_insert_region(s.drop_last(), x).push(s.last())
    }
}

/// The regions in sorted order: each placed in turn into the row built from
/// the regions before it.
pub open spec fn spec_sort_regions(s: Seq<(u64, u64)>) -> Seq<(u64, u64)>
    decreases s.len(),
{
    if s.len() == 0 {
        Seq::empty()
    } else {
        spec_insert_region(spec_sort_regions(s.drop_last()), s.last())
    }
}

/// Placing a region lands it exactly at the position `p` below which
/// everything is not above it and from which everything is above it.
proof fn lemma_insert_region_at(s: Seq<(u64, u64)>, x: (u64, u64), p: int)
    requires
        0 <= p <= s.len(),
        p == 0 || spec_region_leq(s[p - 1], x),
        forall|k: int| p <= k < s.len() ==> !spec_region_leq(#[trigger] s[k], x),
    ensures
        spec_insert_region(s, x) == s.subrange(0, p) + seq![x] + s.subrange(p, s.len() as int),
    decreases s.len(),
{
    if s.len() == 0 {
        assert(spec_insert_region(s, x) =~= s.subrange(0, 0) + seq![x] + s.subrange(0, 0));
    } else if spec_region_leq(s.last(), x) {
        assert(p == s.len());
        assert(s.push(x) =~= s.subrange(0, p) + seq![x] + s.subrange(p, s.len() as int));
    } else {
        assert(p < s.len());
        let d = s.drop_last();
        assert(p == 0 || d[p - 1] == s[p - 1]);
        assert(forall|k: int| p <= k < d.len() ==> !spec_region_leq(#[trigger] d[k], x));
        lemma_insert_region_at(d, x, p);
        assert((d.subrange(0, p) + seq![x] + d.subrange(p, d.len() as int)).push(s.last())
            =~= s.subrange(0, p) + seq![x] + s.subrange(p, s.len() as int));
    }
}

/// Sorts the regions by start address, placing each in turn into the sorted
/// row of those before it.
fn sort_regions(regions: &Vec<(u64, u64)>) -> (r: Vec<(u64, u64)>)
    ensures
        r@ == spec_sort_regions(regions@),
{
    let mut out: Vec<(u64, u64)> = Vec::new();
    let mut i: usize = 0;
    proof {
        assert(regions@.take(0) =~= Seq::<(u64, u64)>::empty());
    }
    while i < regions.len()
        invariant
            i <= regions@.len(),
            out@ == spec_sort_regions(regions@.take(i as int)),
        decreases regions@.len() - i,
    {
        let ghost out0 = out@;
        let x = regions[i];
        let mut p: usize = out.len();
        while p > 0 && (out[p - 1].0 > x.0 || (out[p - 1].0 == x.0 && out[p - 1].1 > x.1))
            invariant
                p <= out@.len(),
                out@ == out0,
                forall|k: int| p <= k < out@.len() ==> !spec_region_leq(#[trigger] out@[k], x),
            decreases p,
        {
            p = p - 1;
        }
        out.insert(p, x);
        proof {
            lemma_insert_region_at(out0, x, p as int);
            assert(out@ =~= out0.subrange(0, p as int) + seq![x] + out0.subrange(
                p as int,
                out0.len() as int,
            ));
            assert(regions@.take(i as int + 1).drop_last() =~= regions@.take(i as int));
            assert(regions@.take(i as int + 1).last() == regions@[i as int]);
        }
        i = i + 1;
    }
    proof {
        assert(regions@.take(regions@.len() as int) =~= regions@);
    }
    out
}

/// What merging a sorted row of regions yields: the regions left to process
/// folded onto those already emitted.  A region whose start equals the
/// excluded address is dropped altogether; a region merges into the last
/// emitted one exactly when it starts where that one ends; a region whose
/// end does not fit the address space, or which starts inside the last
/// emitted one, stops the merge with nothing.
pub open spec fn spec_merge_regions(
    rs: Seq<(u64, u64)>,
    skip_addr: u64,
    acc: Seq<(u64, u64)>,
) -> Option<Seq<(u64, u64)>>
    decreases rs.len(),
{
    if rs.len() == 0 {
        Some(acc)
    } else {
        let r = rs[0];
        if r.0 == skip_addr {
            spec_merge_regions(rs.skip(1), skip_addr, acc)
        } else if r.0 + r.1 > u64::MAX {
            None
        } else if acc.len() > 0 && r.0 == acc.last().0 + acc.last().1 {
            spec_merge_regions(
                rs.skip(1),
                skip_addr,
                acc.update(acc.len() - 1, (acc.last().0, (acc.last().1 + r.1) as u64)),
            )
        } else if acc.len() > 0 && r.0 < acc.last().0 + acc.last().1 {
            None
        } else {
            spec_merge_regions(rs.skip(1), skip_addr, acc.push(r))
        }
    }
}

/// Merges the guest's memory regions into the memory node's reg pairs.  The
/// regions arrive in any order as (start, size) pairs and are sorted here;
/// a region whose start equals `skip_addr` (the protected firmware region)
/// is excluded, and a region beginning exactly at the previous region's end
/// is folded into it.  Yields nothing exactly when a kept region's end
/// overflows the address space or two kept regions overlap.
pub fn merge_memory_regions(regions: &Vec<(u64, u64)>, skip_addr: u64) -> (r: Option<
    Vec<(u64, u64)>,
>)
    ensures
        ({
            let merged = spec_merge_regions(
                spec_sort_regions(regions@),
                skip_addr,
                Seq::empty(),
            );
            match r {
                Some(v) => merged == Some(v@),
                None => merged is None,
            }
        }),
{
    let sorted = sort_regions(regions);
    let mut acc: Vec<(u64, u64)> = Vec::new();
    let mut i: usize = 0;
    proof {
        assert(sorted@.skip(0) =~= sorted@);
    }
    while i < sorted.len()
        invariant
            i <= sorted@.len(),
            sorted@ == spec_sort_regions(regions@),
            spec_merge_regions(sorted@, skip_addr, Seq::empty()) == spec_merge_regions(
                sorted@.skip(i as int),
                skip_addr,
                acc@,
            ),
            forall|j: int|
                0 <= j < acc@.len() ==> #[trigger] (acc@[j].0 + acc@[j].1) <= u64::MAX,
        decreases sorted@.len() - i,
    {
        let ghost acc0 = acc@;
        let (start, size) = sorted[i];
        proof {
            assert(sorted@.skip(i as int)[0] == sorted@[i as int]);
            assert(sorted@.skip(i as int).skip(1) =~= sorted@.skip(i as int + 1));
        }
        if start == skip_addr {
            // The protected firmware region is not exposed to the guest.
        } else if size > u64::MAX - start {
            return None;
        } else if acc.len() > 0 && start == acc[acc.len() - 1].0 + acc[acc.len() - 1].1 {
            let last = acc[acc.len() - 1];
            let idx = acc.len() - 1;
            acc.set(idx, (last.0, last.1 + size));
            proof {
                assert(acc@ =~= acc0.update(acc0.len() - 1, (acc0.last().0, (acc0.last().1
                    + size) as u64)));
            }
        } else if acc.len() > 0 && start < acc[acc.len() - 1].0 + acc[acc.len() - 1].1 {
            return None;
        } else {
            acc.push((start, size));
        }
        i = i + 1;
    }
    proof {
        assert(sorted@.skip(sorted@.len() as int) =~= Seq::<(u64, u64)>::empty());
    }
    Some(acc)
}

/// Flattens region pairs into the alternating start and size cells of the
/// memory node's reg property.
pub fn flatten_regions(regions: &Vec<(u64, u64)>) -> (r: Vec<u64>)
    ensures
        r@.len() == 2 * regions@.len(),
        forall|i: int|
            0 <= i < regions@.len() ==> #[trigger] r@[2 * i] == regions@[i].0 && r@[2 * i + 1]
                == regions@[i].1,
{
    let mut out: Vec<u64> = Vec::new();
    let mut i: usize = 0;
    while i < regions.len()
        invariant
            i <= regions@.len(),
            out@.len() == 2 * i,
            forall|j: int|
                0 <= j < i ==> #[trigger] out@[2 * j] == regions@[j].0 && out@[2 * j + 1]
                    == regions@[j].1,
        decreases regions@.len() - i,
    {
        let ghost out0 = out@;
        let (start, size) = regions[i];
        out.push(start);
        out.push(size);
        proof {
            assert forall|j: int| 0 <= j < i + 1 implies #[trigger] out@[2 * j] == regions@[j].0
                && out@[2 * j + 1] == regions@[j].1 by {
                if j < i {
                    assert(out@[2 * j] == out0[2 * j]);
                    assert(out@[2 * j + 1] == out0[2 * j + 1]);
                } else {
                    assert(out@[2 * j] == start);
                    assert(out@[2 * j + 1] == size);
                }
            }
        }
        i = i + 1;
    }
    out
}

/// The operating-point frequencies of a CPU, each scaled from kilohertz to
/// hertz for the operating-points table.
pub fn opp_hz_values(frequencies: &Vec<u32>) -> (r: Vec<u64>)
    ensures
        r@.len() == frequencies@.len(),
        forall|i: int|
            0 <= i < frequencies@.len() ==> #[trigger] r@[i] == frequencies@[i] * 1000,
{
    let mut out: Vec<u64> = Vec::new();
    let mut i: usize = 0;
    while i < frequencies.len()
        invariant
            i <= frequencies@.len(),
            out@.len() == i,
            forall|j: int| 0 <= j < i ==> #[trigger] out@[j] == frequencies@[j] * 1000,
        decreases frequencies@.len() - i,
    {
        out.push((frequencies[i] as u64) * 1000);
        i = i + 1;
    }
    out
}

} // verus!
