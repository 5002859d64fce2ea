use vstd::prelude::*;

verus! {

/// A version number packed into 32 bits: the major part in the top byte, the
/// minor part in the byte below it, the patch part in the lowest byte.
#[derive(Clone, Copy, Debug, PartialEq, Eq, Structural)]
pub struct SemanticVersion(pub u32);

impl SemanticVersion {
    pub open spec fn pack(major: u8, minor: u8, patch: u8) -> u32 {
        (major as u32) << 24 | (minor as u32) << 16 | (patch as u32)
    }

    pub open spec fn spec_major(&self) -> u8 {
        (self.0 >> 24) as u8
    }

    pub open spec fn spec_minor(&self) -> u8 {
        (self.0 >> 16) as u8
    }

    pub open spec fn spec_patch(&self) -> u8 {
        self.0 as u8
    }

    /// Packs the three parts; each of them can be read back unchanged.
    pub fn new(major: u8, minor: u8, patch: u8) -> (version: SemanticVersion)
        ensures
            version.0 == Self::pack(major, minor, patch),
            version.0 == major * 0x100_0000 + minor * 0x1_0000 + patch,
            version.spec_major() == major,
            version.spec_minor() == minor,
            version.spec_patch() == patch,
    {
        let v: u32 = ((major as u32) << 24) | ((minor as u32) << 16) | (patch as u32);
        assert(v == major * 0x100_0000 + minor * 0x1_0000 + patch
            && (v >> 24) as u8 == major
            && (v >> 16) as u8 == minor
            && v as u8 == patch) by (bit_vector)
            requires
                v == (major as u32) << 24 | (minor as u32) << 16 | (patch as u32),
        ;
        SemanticVersion(v)
    }

    #[verifier::when_used_as_spec(spec_major)]
    pub fn major(&self) -> (major: u8)
        ensures
            major == self.spec_major(),
    {
        (self.0 >> 24) as u8
    }

    #[verifier::when_used_as_spec(spec_minor)]
    pub fn minor(&self) -> (minor: u8)
        ensures
            minor == self.spec_minor(),
    {
        (self.0 >> 16) as u8
    }

    #[verifier::when_used_as_spec(spec_patch)]
    pub fn patch(&self) -> (patch: u8)
        ensures
            patch == self.spec_patch(),
    {
        self.0 as u8
    }
}

impl From<SemanticVersion> for u32 {
    fn from(version: SemanticVersion) -> (packed: u32) {
        version.0
    }
}

impl vstd::std_specs::convert::FromSpecImpl<SemanticVersion> for u32 {
    open spec fn obeys_from_spec() -> bool {
        true
    }

    open spec fn from_spec(version: SemanticVersion) -> u32 {
        version.0
    }
}

/// The version of the host's interface, from the three numbers that the
/// host's headers give. Each part keeps its lowest eight bits.
pub fn libobs_api_ver(major: u32, minor: u32, patch: u32) -> (version: SemanticVersion)
    ensures
        version.spec_major() == major % 256,
        version.spec_minor() == minor % 256,
        version.spec_patch() == patch % 256,
        version.0 == SemanticVersion::pack(
            (major % 256) as u8,
            (minor % 256) as u8,
            (patch % 256) as u8,
        ),
{
    assert((major & 0xff) == major % 256 && (minor & 0xff) == minor % 256 && (patch & 0xff) == patch
        % 256) by (bit_vector);
    SemanticVersion::new((major & 0xff) as u8, (minor & 0xff) as u8, (patch & 0xff) as u8)
}

} // verus!
