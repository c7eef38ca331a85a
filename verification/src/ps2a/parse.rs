use vstd::prelude::*;
use crate::error::CmvsError;
use super::{Ps2aHeader, CmvsScript, Ps2aScriptView, spec_strings_view};
use super::payload::{spec_parse_ps2a_header, spec_decode_ps2a, spec_parse_name_index, spec_parse_strings,
    parse_header, decode_payload, parse_name_index, parse_strings};

verus! {

/// The schema tag of decoded scripts.
pub open spec fn spec_ps2a_schema() -> Seq<char> {
    "astra.emu.cmvs.ps2a_script.v1"@
}

/// The sections of a decoded script once its header, payload, name index and
/// string pool are accepted.
pub open spec fn spec_ps2a_sections(
    header: Ps2aHeader, decoded: Seq<u8>,
) -> Result<Ps2aScriptView, CmvsError> {
    let count = header.name_index_count as int;
    if 4 * count > usize::MAX {
        Err(CmvsError::Ps2aIndex)
    } else if 0x30 + 4 * count > usize::MAX {
        Err(CmvsError::Ps2aOffset)
    } else {
        let bytecode_start = 0x30 + 4 * count;
        match spec_parse_name_index(decoded, header.name_index_count, bytecode_start) {
            Err(e) => Err(e),
            Ok(name_index) => {
                let bytecode_end = bytecode_start + header.bytecode_size;
                let strings_start = bytecode_end + header.metadata_size;
                if bytecode_end > usize::MAX {
                    Err(CmvsError::Ps2aOffset)
                } else if bytecode_end > decoded.len() {
                    Err(CmvsError::Ps2aLayout)
                } else if strings_start > usize::MAX {
                    Err(CmvsError::Ps2aOffset)
                } else if strings_start > decoded.len() {
                    Err(CmvsError::Ps2aLayout)
                } else {
                    match spec_parse_strings(decoded.subrange(strings_start, decoded.len() as int), strings_start, 0) {
                        Err(e) => Err(e),
                        Ok(strings) => if bytecode_start > u32::MAX {
                            Err(CmvsError::Ps2aOffset)
                        } else if decoded.len() > u32::MAX {
                            Err(CmvsError::Ps2aSize)
                        } else {
                            Ok(Ps2aScriptView {
                                schema: spec_ps2a_schema(),
                                header,
                                name_index,
                                bytecode_offset: bytecode_start as u32,
                                bytecode: decoded.subrange(bytecode_start, bytecode_end),
                                data_segment: decoded.subrange(bytecode_end, strings_start),
                                string_pool: decoded.subrange(strings_start, decoded.len() as int),
                                strings,
                                decoded_size: decoded.len() as u32,
                            })
                        },
                    }
                }
            },
        }
    }
}

/// A PS2A script file decoded into its sections.
pub open spec fn spec_parse_ps2a(s: Seq<u8>) -> Result<Ps2aScriptView, CmvsError> {
    match spec_parse_ps2a_header(s) {
        Err(e) => Err(e),
        Ok(header) => match spec_decode_ps2a(s, header) {
            Err(e) => Err(e),
            Ok(decoded) => spec_ps2a_sections(header, decoded),
        },
    }
}

/// Decodes a PS2A script: header, deciphered LZSS payload, name index,
/// program section, data segment and validated string pool.
pub fn parse_ps2a(source: &[u8]) -> (r: Result<CmvsScript, CmvsError>)
    ensures
        match r {
            Ok(script) => spec_parse_ps2a(source@) == Ok::<Ps2aScriptView, CmvsError>(script@),
            Err(e) => spec_parse_ps2a(source@) == Err::<Ps2aScriptView, CmvsError>(e),
        },
{
    let header = parse_header(source)?;
    let decoded = decode_payload(source, header)?;
    let count = header.name_index_count as usize;
    if count > usize::MAX / 4 {
        return Err(CmvsError::Ps2aIndex);
    }
    let name_index_bytes = count * 4;
    if name_index_bytes > usize::MAX - 0x30 {
        return Err(CmvsError::Ps2aOffset);
    }
    let bytecode_start = 0x30 + name_index_bytes;
    let name_index = parse_name_index(decoded.as_slice(), header.name_index_count, bytecode_start)?;
    if header.bytecode_size as usize > usize::MAX - bytecode_start {
        return Err(CmvsError::Ps2aOffset);
    }
    let bytecode_end = bytecode_start + header.bytecode_size as usize;
    if bytecode_end > decoded.len() {
        return Err(CmvsError::Ps2aLayout);
    }
    if header.metadata_size as usize > usize::MAX - bytecode_end {
        return Err(CmvsError::Ps2aOffset);
    }
    let strings_start = bytecode_end + header.metadata_size as usize;
    if strings_start > decoded.len() {
        return Err(CmvsError::Ps2aLayout);
    }
    let strings = parse_strings(&decoded.as_slice()[strings_start..decoded.len()], strings_start)?;
    proof {
        assert(decoded@.subrange(strings_start as int, decoded@.len() as int)
            =~= decoded@.subrange(strings_start as int, decoded@.len() as int));
    }
    if bytecode_start > u32::MAX as usize {
        return Err(CmvsError::Ps2aOffset);
    }
    if decoded.len() > u32::MAX as usize {
        return Err(CmvsError::Ps2aSize);
    }
    let decoded_slice = decoded.as_slice();
    let script = CmvsScript {
        schema: String::from_str("astra.emu.cmvs.ps2a_script.v1"),
        header,
        name_index,
        bytecode_offset: bytecode_start as u32,
        bytecode: vstd::slice::slice_to_vec(&decoded_slice[bytecode_start..bytecode_end]),
        data_segment: vstd::slice::slice_to_vec(&decoded_slice[bytecode_end..strings_start]),
        string_pool: vstd::slice::slice_to_vec(&decoded_slice[strings_start..decoded.len()]),
        strings,
        decoded_size: decoded.len() as u32,
    };
    Ok(script)
}

} // verus!
