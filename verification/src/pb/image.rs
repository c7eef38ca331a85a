//! Image decoding by format and variant: a PB2 source is decoded by its own
//! variants; a PB3 source by its type word, a type-6 overlay resolving its
//! base image through the caller, with a bounded chain of base images.
use vstd::prelude::*;
use crate::error::CmvsError;
use super::{PbDecodedImage, PbMetadata, PB2_MAGIC, parse_pb2_metadata, parse_pb3_metadata,
    spec_parse_pb2_metadata, spec_parse_pb3_metadata};
use super::pb2::{decode_pb2_image, spec_decode_pb2_image};
use super::pb3::{decode_pb3_type1, decode_pb3_type5, decode_pb3_jbp, spec_decode_pb3_type1, spec_decode_pb3_type5,
    spec_decode_pb3_jbp};
use super::overlay::{PbImageResolver, decode_pb3_type6, spec_pb3_type6_reference, spec_decode_pb3_type6_with_base, image_wf};
use crate::text::str_eq;

verus! {

/// The most images a chain of PB3 base images may hold.
pub const MAX_PB3_IMAGE_CHAIN: usize = 32;

/// The source starts with the PB2 magic.
pub open spec fn is_pb2_source(source: Seq<u8>) -> bool {
    source.len() >= 4 && source[0] == PB2_MAGIC[0] && source[1] == PB2_MAGIC[1] && source[2] == PB2_MAGIC[2]
        && source[3] == PB2_MAGIC[3]
}

/// The image type word of a PB2 or PB3 source.
pub open spec fn spec_pb_image_type(source: Seq<u8>) -> Result<u16, CmvsError> {
    let parsed = if is_pb2_source(source) { spec_parse_pb2_metadata(source) } else { spec_parse_pb3_metadata(source) };
    match parsed {
        Ok(m) => Ok(m.image_type),
        Err(e) => Err(e),
    }
}

fn starts_with_pb2(source: &[u8]) -> (r: bool)
    ensures
        r == is_pb2_source(source@),
{
    source.len() >= 4 && source[0] == PB2_MAGIC[0] && source[1] == PB2_MAGIC[1] && source[2] == PB2_MAGIC[2]
        && source[3] == PB2_MAGIC[3]
}

/// The image type word of a PB2 or PB3 source.
pub fn pb_image_type(source: &[u8]) -> (r: Result<u16, CmvsError>)
    ensures
        r == spec_pb_image_type(source@),
{
    let parsed: Result<PbMetadata, CmvsError> = if starts_with_pb2(source) {
        parse_pb2_metadata(source)
    } else {
        parse_pb3_metadata(source)
    };
    match parsed {
        Ok(m) => Ok(m.image_type),
        Err(e) => Err(e),
    }
}

/// The image type word of a PB3 source.
pub fn pb3_image_type(source: &[u8]) -> (r: Result<u16, CmvsError>)
    ensures
        match spec_parse_pb3_metadata(source@) {
            Ok(m) => r == Ok::<u16, CmvsError>(m.image_type),
            Err(e) => r == Err::<u16, CmvsError>(e),
        },
{
    match parse_pb3_metadata(source) {
        Ok(m) => Ok(m.image_type),
        Err(e) => Err(e),
    }
}

/// Checks that decoding `uri` may join a chain of base images: the chain is
/// under its limit and does not already hold `uri`.
pub fn check_pb3_chain(chain: &[&str], uri: &str) -> (r: Result<(), CmvsError>)
    ensures
        r is Ok <==> chain@.len() < MAX_PB3_IMAGE_CHAIN
            && forall|i: int| 0 <= i < chain@.len() ==> #[trigger] chain@[i]@ != uri@,
        r is Err ==> r == Err::<(), CmvsError>(CmvsError::Pb3BaseCycle),
{
    if chain.len() >= MAX_PB3_IMAGE_CHAIN {
        return Err(CmvsError::Pb3BaseCycle);
    }
    let mut i: usize = 0;
    while i < chain.len()
        invariant
            i <= chain@.len(),
            forall|k: int| 0 <= k < i ==> #[trigger] chain@[k]@ != uri@,
        decreases chain@.len() - i,
    {
        if str_eq(chain[i], uri) {
            return Err(CmvsError::Pb3BaseCycle);
        }
        i = i + 1;
    }
    Ok(())
}

/// What decoding a PB3 source gives, by its type word. Of a type-6
/// overlay it says that a faulty base reference fails as it does, and that
/// a decoded image is the overlay applied to some well-formed base image.
pub open spec fn pb3_image_result(source: Seq<u8>, r: Result<PbDecodedImage, CmvsError>) -> bool {
    match spec_parse_pb3_metadata(source) {
        Err(e) => r == Err::<PbDecodedImage, CmvsError>(e),
        Ok(m) => if m.image_type == 1 {
            match spec_decode_pb3_type1(source) {
                Ok(v) => r matches Ok(img) && img@ == v,
                Err(e) => r matches Err(e2) && e2 == e,
            }
        } else if m.image_type == 2 || m.image_type == 3 {
            match spec_decode_pb3_jbp(source) {
                Ok(v) => r matches Ok(img) && img@ == v,
                Err(e) => r matches Err(e2) && e2 == e,
            }
        } else if m.image_type == 5 {
            match spec_decode_pb3_type5(source) {
                Ok(v) => r matches Ok(img) && img@ == v,
                Err(e) => r matches Err(e2) && e2 == e,
            }
        } else if m.image_type == 6 {
            &&& spec_pb3_type6_reference(source) is Err
                ==> r == Err::<PbDecodedImage, CmvsError>(spec_pb3_type6_reference(source)->Err_0)
            &&& r is Ok ==> exists|base: (u32, u32, Seq<u8>)| image_wf(base)
                && spec_decode_pb3_type6_with_base(source, base) == Ok::<(u32, u32, Seq<u8>), CmvsError>(r->Ok_0@)
        } else {
            r == Err::<PbDecodedImage, CmvsError>(CmvsError::Pb3Variant)
        },
    }
}

/// Decodes a PB3 source by its type word: types 1 and 5 by their own
/// decoders, types 2 and 3 as JBP, type 6 as an overlay on the base image
/// `resolver` gives; other types are not implemented.
pub fn decode_pb3_image<R: PbImageResolver>(source: &[u8], resolver: &R) -> (r: Result<PbDecodedImage, CmvsError>)
    ensures
        pb3_image_result(source@, r),
{
    let metadata = match parse_pb3_metadata(source) {
        Ok(m) => m,
        Err(e) => return Err(e),
    };
    if metadata.image_type == 1 {
        decode_pb3_type1(source)
    } else if metadata.image_type == 2 || metadata.image_type == 3 {
        decode_pb3_jbp(source)
    } else if metadata.image_type == 5 {
        decode_pb3_type5(source)
    } else if metadata.image_type == 6 {
        decode_pb3_type6(source, resolver)
    } else {
        Err(CmvsError::Pb3Variant)
    }
}

/// Decodes a PB2 or PB3 source; a PB3 type-6 overlay resolves its base
/// image through `resolver`.
pub fn decode_pb_image<R: PbImageResolver>(source: &[u8], resolver: &R) -> (r: Result<PbDecodedImage, CmvsError>)
    ensures
        is_pb2_source(source@) ==> match spec_decode_pb2_image(source@) {
            Ok(v) => r matches Ok(img) && img@ == v,
            Err(e) => r matches Err(e2) && e2 == e,
        },
        !is_pb2_source(source@) ==> pb3_image_result(source@, r),
{
    if starts_with_pb2(source) {
        decode_pb2_image(source)
    } else {
        decode_pb3_image(source, resolver)
    }
}

} // verus!
