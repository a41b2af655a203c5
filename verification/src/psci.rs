//! PSCI firmware-interface versioning: the version pair the hypervisor
//! reports, and the device-tree compatible strings the guest kernel accepts
//! for it.

use vstd::prelude::*;

verus! {

/// A PSCI version: the major and minor halves of the firmware's version
/// register, each a 15- or 16-bit field.
#[derive(Copy, Clone, Debug, PartialEq, Eq, Structural)]
pub struct PsciVersion {
    /// Major version, the register's upper half with its top bit clear.
    pub major: u32,
    /// Minor version, the register's lower half.
    pub minor: u32,
}

/// Whether the two halves fit their register fields.
pub open spec fn spec_version_valid(major: u32, minor: u32) -> bool {
    major <= 0x7fff && minor <= 0xffff
}

/// Lexicographic order on versions: by major, then by minor.
pub open spec fn spec_version_geq(a: PsciVersion, b: PsciVersion) -> bool {
    a.major > b.major || (a.major == b.major && a.minor >= b.minor)
}

impl PsciVersion {
    /// Builds a version from its two halves; refused exactly when a half
    /// does not fit its register field.
    pub fn new(major: u32, minor: u32) -> (r: Option<PsciVersion>)
        ensures
            spec_version_valid(major, minor) ==> r == Some(PsciVersion { major, minor }),
            !spec_version_valid(major, minor) ==> r is None,
    {
        if major <= 0x7fff && minor <= 0xffff {
            Some(PsciVersion { major, minor })
        } else {
            None
        }
    }

    /// Whether this version is at least the other, in lexicographic order.
    pub fn geq(&self, other: &PsciVersion) -> (r: bool)
        ensures
            r == spec_version_geq(*self, *other),
    {
        self.major > other.major || (self.major == other.major && self.minor >= other.minor)
    }
}

/// The compatible strings for a PSCI version, in the order the guest kernel
/// expects.  The kernel driver supports compatible strings only for the
/// backward-compatible versions 1.0 and 0.2, each listed when the firmware
/// version is at least it; a version below 0.2 falls back to the one
/// non-forward-compatible 0.1 string.
pub fn psci_compatible(version: &PsciVersion) -> (r: Vec<&'static str>)
    ensures
        spec_version_geq(*version, PsciVersion { major: 1, minor: 0 }) ==> r@.len() == 2 && r@[0]@
            == "arm,psci-1.0"@ && r@[1]@ == "arm,psci-0.2"@,
        !spec_version_geq(*version, PsciVersion { major: 1, minor: 0 }) && spec_version_geq(
            *version,
            PsciVersion { major: 0, minor: 2 },
        ) ==> r@.len() == 1 && r@[0]@ == "arm,psci-0.2"@,
        !spec_version_geq(*version, PsciVersion { major: 0, minor: 2 }) ==> r@.len() == 1 && r@[0]@
            == "arm,psci"@,
{
    let mut compatible: Vec<&'static str> = Vec::new();
    if version.geq(&PsciVersion { major: 1, minor: 0 }) {
        compatible.push("arm,psci-1.0");
    }
    if version.geq(&PsciVersion { major: 0, minor: 2 }) {
        compatible.push("arm,psci-0.2");
    }
    if compatible.len() == 0 {
        compatible.push("arm,psci");
    }
    compatible
}

} // verus!
