//! Selection of a verified direct-native profile for the loaded client build.
//!
//! A recognised build gets a direct profile only when its exact entry point
//! matches and the module base is known; the network hooks are independent of
//! this selection.

use vstd::prelude::*;
use crate::profile::SampVersion;

verus! {

/// A build identity that passed selection, with the base of its loaded module.
#[derive(Clone, Copy, Debug)]
pub struct NativeClientProfile {
    module_base: usize,
    version: SampVersion,
}

impl NativeClientProfile {
    #[verifier::type_invariant]
    spec fn selected(&self) -> bool {
        self.module_base != 0 && self.version.has_direct_profile()
    }

    pub closed spec fn spec_module_base(&self) -> usize {
        self.module_base
    }

    pub closed spec fn spec_version(&self) -> SampVersion {
        self.version
    }

    /// Selects the profile of an exact supported executable identity: the
    /// module base must be known, the build must have a direct profile and the
    /// entry point must be the build's own.
    pub fn select(module_base: usize, version: SampVersion, entry_point: u32) -> (r: Option<Self>)
        ensures
            r is Some <==> module_base != 0 && version.has_direct_profile() && entry_point
                == version.spec_entry_point(),
            r matches Some(p) ==> p.spec_module_base() == module_base && p.spec_version() == version,
    {
        let supported = match version {
            SampVersion::R1 | SampVersion::R3_1 | SampVersion::R5_1 | SampVersion::Dl => true,
            SampVersion::R2 | SampVersion::R4_2 => false,
        };
        if module_base == 0 || !supported || entry_point != version.entry_point() {
            return None;
        }
        Some(NativeClientProfile { module_base, version })
    }

    pub fn module_base(&self) -> (b: usize)
        ensures
            b == self.spec_module_base(),
            b != 0,
    {
        proof {
            use_type_invariant(self);
        }
        self.module_base
    }

    pub fn version(&self) -> (v: SampVersion)
        ensures
            v == self.spec_version(),
            v.has_direct_profile(),
    {
        proof {
            use_type_invariant(self);
        }
        self.version
    }
}

/// The narrow R1-only profile of direct local helpers.
#[derive(Clone, Copy, Debug)]
pub struct R1ClientProfile {
    pub module_base: usize,
}

impl R1ClientProfile {
    pub fn from_selected(module_base: usize) -> (p: Self)
        ensures
            p.module_base == module_base,
    {
        R1ClientProfile { module_base }
    }
}

/// The profile of the builds that share the classic layouts (R3-1, R5-1, DL).
#[derive(Clone, Copy, Debug)]
pub struct ClassicClientProfile {
    pub module_base: usize,
}

impl ClassicClientProfile {
    pub fn from_selected(module_base: usize) -> (p: Self)
        ensures
            p.module_base == module_base,
    {
        ClassicClientProfile { module_base }
    }
}

/// A verified direct-native profile selected for the loaded SA-MP build.
#[derive(Clone, Copy, Debug)]
pub enum NativeProfile {
    R1(R1ClientProfile),
    R3(ClassicClientProfile),
    R5(ClassicClientProfile),
    Dl(ClassicClientProfile),
}

impl NativeProfile {
    /// The variant that stands for a build with a direct profile.
    pub open spec fn matches_version(self, version: SampVersion) -> bool {
        match self {
            NativeProfile::R1(_) => version == SampVersion::R1,
            NativeProfile::R3(_) => version == SampVersion::R3_1,
            NativeProfile::R5(_) => version == SampVersion::R5_1,
            NativeProfile::Dl(_) => version == SampVersion::Dl,
        }
    }

    pub open spec fn spec_module_base(self) -> usize {
        match self {
            NativeProfile::R1(p) => p.module_base,
            NativeProfile::R3(p) => p.module_base,
            NativeProfile::R5(p) => p.module_base,
            NativeProfile::Dl(p) => p.module_base,
        }
    }

    /// Selects a direct-native profile independently of the network hooks.
    pub fn select(module_base: usize, version: SampVersion, entry_point: u32) -> (r: Option<Self>)
        ensures
            r is Some <==> module_base != 0 && version.has_direct_profile() && entry_point
                == version.spec_entry_point(),
            r matches Some(p) ==> p.matches_version(version) && p.spec_module_base() == module_base,
    {
        match NativeClientProfile::select(module_base, version, entry_point) {
            Some(profile) => Some(NativeProfile::from_native_client_profile(profile)),
            None => None,
        }
    }

    /// Converts a selected profile into the operation dispatch of its build.
    pub fn from_native_client_profile(profile: NativeClientProfile) -> (r: Self)
        ensures
            r.matches_version(profile.spec_version()),
            r.spec_module_base() == profile.spec_module_base(),
    {
        let base = profile.module_base();
        match profile.version() {
            SampVersion::R1 => NativeProfile::R1(R1ClientProfile::from_selected(base)),
            SampVersion::R3_1 => NativeProfile::R3(ClassicClientProfile::from_selected(base)),
            SampVersion::R5_1 => NativeProfile::R5(ClassicClientProfile::from_selected(base)),
            SampVersion::Dl => NativeProfile::Dl(ClassicClientProfile::from_selected(base)),
            SampVersion::R2 | SampVersion::R4_2 => {
                proof {
                    assert(false);
                }
                NativeProfile::R1(R1ClientProfile::from_selected(base))
            },
        }
    }
}

} // verus!
