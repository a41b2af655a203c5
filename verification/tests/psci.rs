//! PSCI compatible-string selection across firmware versions.

use virtio_scsi::psci::psci_compatible;
use virtio_scsi::psci::PsciVersion;

#[test]
fn psci_compatible_v0_1() {
    assert_eq!(
        psci_compatible(&PsciVersion::new(0, 1).unwrap()),
        vec!["arm,psci"]
    );
}

#[test]
fn psci_compatible_v0_2() {
    assert_eq!(
        psci_compatible(&PsciVersion::new(0, 2).unwrap()),
        vec!["arm,psci-0.2"]
    );
}

#[test]
fn psci_compatible_v0_5() {
    // Only the 0.2 version supported by the kernel should be added.
    assert_eq!(
        psci_compatible(&PsciVersion::new(0, 5).unwrap()),
        vec!["arm,psci-0.2"]
    );
}

#[test]
fn psci_compatible_v1_0() {
    // Both 1.0 and 0.2 should be listed, in that order.
    assert_eq!(
        psci_compatible(&PsciVersion::new(1, 0).unwrap()),
        vec!["arm,psci-1.0", "arm,psci-0.2"]
    );
}

#[test]
fn psci_compatible_v1_5() {
    // Only the 1.0 and 0.2 versions supported by the kernel should be listed.
    assert_eq!(
        psci_compatible(&PsciVersion::new(1, 5).unwrap()),
        vec!["arm,psci-1.0", "arm,psci-0.2"]
    );
}

#[test]
fn psci_version_fields_must_fit_their_register() {
    assert!(PsciVersion::new(0x8000, 0).is_none());
    assert!(PsciVersion::new(0, 0x10000).is_none());
    assert_eq!(
        PsciVersion::new(1, 1),
        Some(PsciVersion { major: 1, minor: 1 })
    );
}
