//! Version numbers in the packed form that libobs uses.

use vstd::prelude::*;

verus! {

/// A semantic version: major, minor and patch numbers.
#[derive(Clone, Copy, Debug, PartialEq, Eq)]
pub struct Version {
    pub major: u32,
    pub minor: u32,
    pub patch: u32,
}

/// The packed form of a version, as the `LIBOBS_API_VER` macro of libobs
/// computes it: major in the top byte, minor in the next byte, patch in the
/// low half-word (the fields are or-ed together, so an oversized field
/// spills into the ones below it).
pub open spec fn spec_obs_semver(major: u32, minor: u32, patch: u32) -> u32 {
    (major << 24u32) | (minor << 16u32) | patch
}

/// A version whose fields each fit in the part of the packed word set aside
/// for them.
pub open spec fn semver_fields_fit(major: u32, minor: u32, patch: u32) -> bool {
    major < 0x100 && minor < 0x100 && patch < 0x1_0000
}

/// Formats a major, minor, and patch version in to a single 32 bit integer
/// version of a semantic version for use with libobs.
pub fn obs_semver(major: u32, minor: u32, patch: u32) -> (v: u32)
    ensures
        v == spec_obs_semver(major, minor, patch),
        semver_fields_fit(major, minor, patch) ==> v == major * 0x100_0000 + minor * 0x1_0000 + patch,
{
    let v = (major << 24u32) | (minor << 16u32) | patch;
    proof {
        if semver_fields_fit(major, minor, patch) {
            semver_value(major, minor, patch);
        }
    }
    v
}

/// The version of the libobs API that the plugin is built against.
pub fn obs_api_version() -> (v: Version)
    ensures
        v == (Version { major: 0, minor: 16, patch: 4 }),
{
    Version { major: 0, minor: 16, patch: 4 }
}

/// API version of OBS as formatted in LIBOBS_API_VERSION macro in the C
/// version of libobs.
pub fn api_version() -> (v: u32)
    ensures
        v == spec_obs_semver(0, 16, 4),
        v == 0x0010_0004,
{
    let version = obs_api_version();
    obs_semver(version.major, version.minor, version.patch)
}

/// Packing loses nothing of a version whose fields fit: the major, minor and
/// patch numbers are read back from the top byte, the next byte and the low
/// half-word.
pub proof fn law_semver_fields_read_back(major: u32, minor: u32, patch: u32)
    requires
        semver_fields_fit(major, minor, patch),
    ensures
        spec_obs_semver(major, minor, patch) >> 24u32 == major,
        (spec_obs_semver(major, minor, patch) >> 16u32) & 0xffu32 == minor,
        spec_obs_semver(major, minor, patch) & 0xffffu32 == patch,
{
    assert(major < 0x100 && minor < 0x100 && patch < 0x1_0000 ==> {
        &&& ((major << 24u32) | (minor << 16u32) | patch) >> 24u32 == major
        &&& (((major << 24u32) | (minor << 16u32) | patch) >> 16u32) & 0xffu32 == minor
        &&& ((major << 24u32) | (minor << 16u32) | patch) & 0xffffu32 == patch
    }) by (bit_vector);
}

/// Packed versions compare as the versions do, field by field: major first,
/// then minor, then patch (for versions whose fields fit).
pub proof fn law_semver_order(a: Version, b: Version)
    requires
        semver_fields_fit(a.major, a.minor, a.patch),
        semver_fields_fit(b.major, b.minor, b.patch),
    ensures
        spec_obs_semver(a.major, a.minor, a.patch) < spec_obs_semver(b.major, b.minor, b.patch)
            <==> (a.major < b.major || (a.major == b.major && (a.minor < b.minor || (a.minor
            == b.minor && a.patch < b.patch)))),
        spec_obs_semver(a.major, a.minor, a.patch) == spec_obs_semver(b.major, b.minor, b.patch)
            <==> a == b,
{
    semver_value(a.major, a.minor, a.patch);
    semver_value(b.major, b.minor, b.patch);
}

/// The packed value of a version whose fields fit, as a number.
proof fn semver_value(major: u32, minor: u32, patch: u32)
    requires
        semver_fields_fit(major, minor, patch),
    ensures
        spec_obs_semver(major, minor, patch) == major * 0x100_0000 + minor * 0x1_0000 + patch,
{
    assert(major < 0x100 && minor < 0x100 && patch < 0x1_0000 ==>
        ((major << 24u32) | (minor << 16u32) | patch) == major * 0x100_0000 + minor * 0x1_0000 + patch)
        by (bit_vector);
}

} // verus!
