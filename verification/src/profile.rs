//! The local game profile: which archives and loose files make up a title,
//! and the scheme that keys its archives.
use vstd::prelude::*;
use std::collections::BTreeMap;
use crate::error::CmvsError;
use crate::scheme::{CmvsSchemeProfile, spec_scheme_valid};
use crate::text::str_eq;

verus! {

/// The schema tag a profile carries.
pub const CMVS_PROFILE_SCHEMA: &'static str = "astra.emu.cmvs.profile.v1";

/// The file name of a game's profile.
pub const CMVS_PROFILE_FILE: &'static str = "cmvs.profile.json";

/// The most archives, and the most loose files, one profile may name.
pub const MAX_PROFILE_SOURCES: usize = 256;

/// The characters of the schema tag.
pub open spec fn spec_profile_schema() -> Seq<char> {
    "astra.emu.cmvs.profile.v1"@
}

/// Local private configuration of one title: its scheme, and the archives
/// and loose files it mounts, each by role.
pub struct CmvsProfile {
    pub schema: String,
    pub scheme: CmvsSchemeProfile,
    pub archives: BTreeMap<String, String>,
    pub loose_files: BTreeMap<String, String>,
}

impl CmvsProfile {
    /// The profile's own shape holds: the schema tag, at least one archive,
    /// at most the source limit of archives and of loose files, and role
    /// names that are safe symbols.
    pub open spec fn spec_shape_valid(&self, roles_are_symbols: bool) -> bool {
        &&& self.schema@ == spec_profile_schema()
        &&& !self.archives@.is_empty()
        &&& self.archives.len() <= MAX_PROFILE_SOURCES
        &&& self.loose_files.len() <= MAX_PROFILE_SOURCES
        &&& roles_are_symbols
    }

    /// Checks a profile before any resource is opened. `roles_are_symbols`
    /// says whether every archive and loose-file role passed the host's
    /// safe-symbol check. A malformed profile is rejected first, then a
    /// malformed scheme, then a scheme other than CPZ5.
    pub fn validate(&self, roles_are_symbols: bool) -> (r: Result<(), CmvsError>)
        ensures
            r is Ok <==> self.spec_shape_valid(roles_are_symbols) && spec_scheme_valid(self.scheme)
                && self.scheme.version == 5,
            !self.spec_shape_valid(roles_are_symbols) ==> r == Err::<(), CmvsError>(CmvsError::Profile),
            self.spec_shape_valid(roles_are_symbols) && !spec_scheme_valid(self.scheme)
                ==> r == Err::<(), CmvsError>(CmvsError::PrivateScheme),
            self.spec_shape_valid(roles_are_symbols) && spec_scheme_valid(self.scheme) && self.scheme.version != 5
                ==> r == Err::<(), CmvsError>(CmvsError::CpzVersion),
    {
        proof { reveal_strlit("astra.emu.cmvs.profile.v1"); }
        if !str_eq(self.schema.as_str(), CMVS_PROFILE_SCHEMA) || self.archives.is_empty()
            || self.archives.len() > MAX_PROFILE_SOURCES || self.loose_files.len() > MAX_PROFILE_SOURCES
            || !roles_are_symbols
        {
            return Err(CmvsError::Profile);
        }
        if self.scheme.validate().is_err() {
            return Err(CmvsError::PrivateScheme);
        }
        if self.scheme.version != 5 {
            return Err(CmvsError::CpzVersion);
        }
        Ok(())
    }
}

} // verus!
