//! Which bytes of an audio resource go to the audio decoder: a resource in
//! an MGV1 container gives its embedded Ogg stream, any other resource is
//! decoded whole.
use vstd::prelude::*;
use crate::error::CmvsError;
use crate::mgv::{MGV1_MAGIC, mgv1_embedded_ogg, spec_mgv1_embedded_ogg};

verus! {

/// The largest encoded audio resource accepted, in bytes.
pub const MAX_ENCODED_AUDIO_BYTES: u64 = 0x400_0000;

/// The resource starts with the MGV1 container magic.
pub open spec fn starts_with_mgv1(source: Seq<u8>) -> bool {
    source.len() >= 4 && source[0] == MGV1_MAGIC[0] && source[1] == MGV1_MAGIC[1]
        && source[2] == MGV1_MAGIC[2] && source[3] == MGV1_MAGIC[3]
}

/// The bytes to decode: the embedded Ogg stream of an MGV1 container, whose
/// faults are reported as they are and never retried as another format;
/// otherwise the whole resource.
pub open spec fn spec_audio_payload(source: Seq<u8>) -> Result<Seq<u8>, CmvsError> {
    if starts_with_mgv1(source) {
        spec_mgv1_embedded_ogg(source)
    } else {
        Ok(source)
    }
}

/// The bytes of an audio resource to hand to the decoder.
pub fn audio_payload(source: &[u8]) -> (r: Result<&[u8], CmvsError>)
    ensures
        match spec_audio_payload(source@) {
            Ok(bytes) => r matches Ok(v) && v@ == bytes,
            Err(e) => r matches Err(e2) && e2 == e,
        },
{
    if source.len() >= 4 && source[0] == MGV1_MAGIC[0] && source[1] == MGV1_MAGIC[1]
        && source[2] == MGV1_MAGIC[2] && source[3] == MGV1_MAGIC[3]
    {
        mgv1_embedded_ogg(source)
    } else {
        Ok(source)
    }
}

/// Checks the size of an encoded audio resource before it is read: an
/// empty resource, or one over the limit, is refused.
pub fn check_encoded_audio_size(size: u64) -> (r: Result<(), CmvsError>)
    ensures
        r is Ok <==> 0 < size <= MAX_ENCODED_AUDIO_BYTES,
        r is Err ==> r == Err::<(), CmvsError>(CmvsError::AudioBound),
{
    if size == 0 || size > MAX_ENCODED_AUDIO_BYTES {
        return Err(CmvsError::AudioBound);
    }
    Ok(())
}

} // verus!
