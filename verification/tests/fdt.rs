//! The boot-descriptor computational kernels: memory-region merging, PCI
//! range and interrupt-map encoding, timer cells and controller registers.

use virtio_scsi::fdt::build_pci_interrupt_map;
use virtio_scsi::fdt::encode_pci_ranges;
use virtio_scsi::fdt::flatten_regions;
use virtio_scsi::fdt::gic_reg_values;
use virtio_scsi::fdt::merge_memory_regions;
use virtio_scsi::fdt::opp_hz_values;
use virtio_scsi::fdt::ppi_cpu_mask;
use virtio_scsi::fdt::timer_interrupt_cells;
use virtio_scsi::fdt::PciAddress;
use virtio_scsi::fdt::PciAddressSpace;
use virtio_scsi::fdt::PciConfigRegion;
use virtio_scsi::fdt::PciInterruptPin;
use virtio_scsi::fdt::PciRange;
use virtio_scsi::fdt::VmWdtConfig;

#[test]
fn merge_adjacent_regions() {
    let regions = vec![(0x0u64, 0x1000u64), (0x1000, 0x2000), (0x8000, 0x1000)];
    let merged = merge_memory_regions(&regions, 0xdead0000).unwrap();
    assert_eq!(merged, vec![(0x0, 0x3000), (0x8000, 0x1000)]);
    let cells = flatten_regions(&merged);
    assert_eq!(cells, vec![0x0, 0x3000, 0x8000, 0x1000]);
}

#[test]
fn merge_sorts_its_input_first() {
    // The same regions arriving out of order merge identically.
    let regions = vec![(0x8000u64, 0x1000u64), (0x1000, 0x2000), (0x0, 0x1000)];
    let merged = merge_memory_regions(&regions, 0xdead0000).unwrap();
    assert_eq!(merged, vec![(0x0, 0x3000), (0x8000, 0x1000)]);
}

#[test]
fn merge_skips_the_protected_region() {
    let regions = vec![(0x0u64, 0x1000u64), (0x4000, 0x1000), (0x5000, 0x1000)];
    // The middle region is the protected firmware region: excluded, and the
    // region after it still merges with nothing (a gap remains).
    let merged = merge_memory_regions(&regions, 0x4000).unwrap();
    assert_eq!(merged, vec![(0x0, 0x1000), (0x5000, 0x1000)]);
}

#[test]
fn merge_keeps_gapped_regions_apart() {
    let regions = vec![(0x0u64, 0x1000u64), (0x2000, 0x1000)];
    let merged = merge_memory_regions(&regions, 0xffff_ffff_ffff_ffff).unwrap();
    assert_eq!(merged, vec![(0x0, 0x1000), (0x2000, 0x1000)]);
}

#[test]
fn merge_refuses_overlap_and_overflow() {
    // The second region starts inside the first.
    let overlapping = vec![(0x0u64, 0x2000u64), (0x1000, 0x1000)];
    assert_eq!(merge_memory_regions(&overlapping, 0xdead0000), None);
    // A kept region whose end runs past the address space.
    let overflowing = vec![(0xffff_ffff_ffff_f000u64, 0x2000u64)];
    assert_eq!(merge_memory_regions(&overflowing, 0xdead0000), None);
    // The same region excluded as the protected one is no failure.
    let skipped = merge_memory_regions(&overflowing, 0xffff_ffff_ffff_f000).unwrap();
    assert_eq!(skipped, vec![]);
}

#[test]
fn pci_range_cells_encoding() {
    let ranges = vec![
        PciRange {
            space: PciAddressSpace::Memory64,
            bus_address: 0x1_0000_2000,
            cpu_physical_address: 0x9_0000_3000,
            size: 0x2_0000_0000,
            prefetchable: true,
        },
        PciRange {
            space: PciAddressSpace::Io,
            bus_address: 0x1000,
            cpu_physical_address: 0x2000,
            size: 0x100,
            prefetchable: false,
        },
    ];
    let cells = encode_pci_ranges(&ranges);
    assert_eq!(cells.len(), 14);
    // Space selector 0b11 at bit 24, prefetchable at bit 30.
    assert_eq!(cells[0], (3 << 24) | (1 << 30));
    assert_eq!(cells[1], 0x1);
    assert_eq!(cells[2], 0x0000_2000);
    assert_eq!(cells[3], 0x9);
    assert_eq!(cells[4], 0x0000_3000);
    assert_eq!(cells[5], 0x2);
    assert_eq!(cells[6], 0x0);
    assert_eq!(cells[7], 1 << 24);
    assert_eq!(cells[8..14], [0, 0x1000, 0, 0x2000, 0, 0x100]);
}

#[test]
fn pci_interrupt_map_encoding() {
    let irqs = vec![
        (
            PciAddress {
                bus: 0,
                dev: 1,
                func: 0,
            },
            4u32,
            PciInterruptPin::IntA,
        ),
        (
            PciAddress {
                bus: 0,
                dev: 2,
                func: 1,
            },
            5u32,
            PciInterruptPin::IntC,
        ),
    ];
    let (map, masks) = build_pci_interrupt_map(&irqs);
    assert_eq!(map.len(), 20);
    assert_eq!(masks.len(), 8);
    // First device: dev 1 at bits 11..16; INTA# is 1; SPI 4, level high.
    assert_eq!(&map[0..10], &[1 << 11, 0, 0, 1, 1, 0, 0, 0, 4, 4]);
    // Second device: dev 2, func 1; INTC# is 3; SPI 5.
    assert_eq!(
        &map[10..20],
        &[(2 << 11) | (1 << 8), 0, 0, 3, 1, 0, 0, 0, 5, 4]
    );
    assert_eq!(&masks[0..4], &[0xf800, 0, 0, 0x7]);
    assert_eq!(&masks[4..8], &[0xf800, 0, 0, 0x7]);
}

#[test]
fn timer_cells_target_every_cpu() {
    // Two CPUs: mask 0b11 in the PPI CPU field.
    let cells = timer_interrupt_cells(2);
    let mask = 0x300;
    assert_eq!(ppi_cpu_mask(2), mask);
    assert_eq!(
        cells,
        vec![
            1,
            13,
            mask | 8,
            1,
            14,
            mask | 8,
            1,
            11,
            mask | 8,
            1,
            10,
            mask | 8
        ]
    );
    // The CPU field clips at its 8 bits.
    assert_eq!(ppi_cpu_mask(16), 0xff00);
}

#[test]
fn gic_register_cells() {
    // A version 3 controller: the redistributor region ends at the
    // distributor's base, one stride per CPU.
    let v3 = gic_reg_values(true, 4, 0x100000, 0x10000, 0x20000, 0, 0);
    assert_eq!(v3, vec![0x100000, 0x10000, 0x100000 - 4 * 0x20000, 4 * 0x20000]);
    // An earlier controller: the given CPU interface region.
    let v2 = gic_reg_values(false, 4, 0x40000, 0x10000, 0x20000, 0x3000, 0x2000);
    assert_eq!(v2, vec![0x40000, 0x10000, 0x3000, 0x2000]);
}

#[test]
fn operating_points_scale_to_hertz() {
    let freqs = vec![500_000u32, 1_000_000, 2_400_000];
    assert_eq!(
        opp_hz_values(&freqs),
        vec![500_000_000u64, 1_000_000_000, 2_400_000_000]
    );
}

#[test]
fn region_structs_carry_their_fields() {
    let cfg = PciConfigRegion {
        base: 0x1000_0000,
        size: 0x100_0000,
    };
    assert_eq!((cfg.base, cfg.size), (0x1000_0000, 0x100_0000));
    let wdt = VmWdtConfig {
        base: 0x3000,
        size: 0x1000,
        clock_hz: 2_000_000,
        timeout_sec: 8,
    };
    assert_eq!(wdt.clock_hz, 2_000_000);
    assert_eq!(wdt.timeout_sec, 8);
    assert_eq!(PciAddressSpace::Configuration.value(), 0);
    assert_eq!(PciAddressSpace::Io.value(), 1);
    assert_eq!(PciAddressSpace::Memory.value(), 2);
    assert_eq!(PciAddressSpace::Memory64.value(), 3);
}
