//! The private per-title scheme profile that keys the CPZ5 ciphers.
use vstd::prelude::*;
use crate::cmvs_md5::{spec_md5_variant, md5_variant_of};

verus! {

/// The key material and cipher parameters of one CMVS title.
pub struct CmvsSchemeProfile {
    pub version: u8,
    pub cpz5_secret: Vec<u32>,
    pub md5_variant: String,
    pub decoder_factor: u32,
    pub entry_init_key: u32,
    pub entry_sub_key: u32,
    pub entry_tail_key: u8,
    pub entry_key_pos: u8,
    pub index_seed: u32,
    pub index_addend: u32,
    pub index_subtrahend: u32,
    pub dir_key_addend: Vec<u32>,
}

/// A profile is well formed when its version is 5 to 7, its secret has 24
/// words, its MD5 variant is known, its entry key position is below 32 and
/// its directory addend table has 4 words.
pub open spec fn spec_scheme_valid(p: CmvsSchemeProfile) -> bool {
    &&& 5 <= p.version <= 7
    &&& p.cpz5_secret@.len() == 24
    &&& spec_md5_variant(p.md5_variant@) is Some
    &&& p.entry_key_pos <= 31
    &&& p.dir_key_addend@.len() == 4
}

impl CmvsSchemeProfile {
    /// Checks the profile's shape; a malformed profile is rejected with the
    /// `ASTRA_EMU_CMVS_PRIVATE_SCHEME` code.
    pub fn validate(&self) -> (r: Result<(), &'static str>)
        ensures
            r is Ok <==> spec_scheme_valid(*self),
            r is Err ==> r == Err::<(), &'static str>("ASTRA_EMU_CMVS_PRIVATE_SCHEME"),
    {
        if self.version < 5 || self.version > 7 || self.cpz5_secret.len() != 24
            || md5_variant_of(self.md5_variant.as_str()).is_none() || self.entry_key_pos > 31
            || self.dir_key_addend.len() != 4
        {
            return Err("ASTRA_EMU_CMVS_PRIVATE_SCHEME");
        }
        Ok(())
    }
}

} // verus!
