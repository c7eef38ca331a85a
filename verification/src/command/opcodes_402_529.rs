use vstd::prelude::*;
use super::{CmvsPs2aCommandEffectKind, CmvsPs2aCommandStackWord, CmvsPs2aCommandStackWordKind, CmvsResourceChannelBank, sw, stack_word,
    words_well_placed, offsets_in_range, offset_unused, offsets_distinct};

verus! {

/// The recovered contract fields of the commands 402 to 529.
pub open spec fn spec_lookup(command_id: u16) -> Option<(u8, CmvsPs2aCommandEffectKind, Seq<CmvsPs2aCommandStackWord>)> {
    match command_id {
        402 => Some((8, CmvsPs2aCommandEffectKind::SelectEffectQuad { error_mask: 0x0002_0000 }, seq![sw(4, CmvsPs2aCommandStackWordKind::OpaqueU32), sw(8, CmvsPs2aCommandStackWordKind::OpaqueU32)])),
        403 => Some((8, CmvsPs2aCommandEffectKind::DeselectEffectQuad { error_mask: 0x0002_0000 }, seq![sw(4, CmvsPs2aCommandStackWordKind::OpaqueU32), sw(8, CmvsPs2aCommandStackWordKind::OpaqueU32)])),
        404 => Some((4, CmvsPs2aCommandEffectKind::QueryEffectState { first_field_offset: 81236, second_field_offset: 81240, third_field_offset: 81244 }, seq![sw(4, CmvsPs2aCommandStackWordKind::OpaqueU32)])),
        405 => Some((8, CmvsPs2aCommandEffectKind::QueryEffectQuadActive { result_field_offset: 81220 }, seq![sw(4, CmvsPs2aCommandStackWordKind::OpaqueU32), sw(8, CmvsPs2aCommandStackWordKind::OpaqueU32)])),
        406 => Some((12, CmvsPs2aCommandEffectKind::ActivateEffectQuad { error_mask: 0x0002_0000 }, seq![sw(4, CmvsPs2aCommandStackWordKind::OpaqueU32), sw(8, CmvsPs2aCommandStackWordKind::OpaqueU32), sw(12, CmvsPs2aCommandStackWordKind::OpaqueU32)])),
        410 => Some((0, CmvsPs2aCommandEffectKind::ResetPresentationBuffers, Seq::empty())),
        416 => Some((0, CmvsPs2aCommandEffectKind::QueryTextureManagerState { state_field_offset: 81220, aux_field_offset: 81236 }, Seq::empty())),
        424 => Some((0, CmvsPs2aCommandEffectKind::QuerySceneLayer { base_word: 289, result_field_offset: 81220, aux_field_offset: 81236 }, Seq::empty())),
        425 => Some((0, CmvsPs2aCommandEffectKind::ClearSceneLayer { base_word: 289 }, Seq::empty())),
        426 => Some((0, CmvsPs2aCommandEffectKind::QuerySceneLayer { base_word: 298, result_field_offset: 81220, aux_field_offset: 81236 }, Seq::empty())),
        427 => Some((0, CmvsPs2aCommandEffectKind::ClearSceneLayer { base_word: 298 }, Seq::empty())),
        428 => Some((0, CmvsPs2aCommandEffectKind::QuerySceneLayer { base_word: 301, result_field_offset: 81220, aux_field_offset: 81236 }, Seq::empty())),
        429 => Some((0, CmvsPs2aCommandEffectKind::ClearSceneLayer { base_word: 301 }, Seq::empty())),
        430 => Some((0, CmvsPs2aCommandEffectKind::QuerySceneLayer { base_word: 304, result_field_offset: 81220, aux_field_offset: 81236 }, Seq::empty())),
        431 => Some((0, CmvsPs2aCommandEffectKind::ClearSceneLayer { base_word: 304 }, Seq::empty())),
        432 => Some((0, CmvsPs2aCommandEffectKind::QuerySceneLayer { base_word: 307, result_field_offset: 81220, aux_field_offset: 81236 }, Seq::empty())),
        433 => Some((0, CmvsPs2aCommandEffectKind::ClearSceneLayer { base_word: 307 }, Seq::empty())),
        463 => Some((8, CmvsPs2aCommandEffectKind::ApplyEffectElementOperation { error_mask: 0x0001_0000 }, seq![sw(4, CmvsPs2aCommandStackWordKind::OpaqueU32), sw(8, CmvsPs2aCommandStackWordKind::OpaqueU32)])),
        464 => Some((44, CmvsPs2aCommandEffectKind::ApplyEffectElementOperation { error_mask: 0x0001_0000 }, seq![sw(4, CmvsPs2aCommandStackWordKind::OpaqueU32), sw(8, CmvsPs2aCommandStackWordKind::OpaqueU32), sw(12, CmvsPs2aCommandStackWordKind::OpaqueU32), sw(16, CmvsPs2aCommandStackWordKind::OpaqueU32), sw(20, CmvsPs2aCommandStackWordKind::OpaqueU32), sw(24, CmvsPs2aCommandStackWordKind::OpaqueU32), sw(28, CmvsPs2aCommandStackWordKind::OpaqueU32), sw(32, CmvsPs2aCommandStackWordKind::OpaqueU32), sw(36, CmvsPs2aCommandStackWordKind::OpaqueU32), sw(40, CmvsPs2aCommandStackWordKind::OpaqueU32), sw(44, CmvsPs2aCommandStackWordKind::OpaqueU32)])),
        465 => Some((12, CmvsPs2aCommandEffectKind::ApplyEffectElementOperation { error_mask: 0x0001_0000 }, seq![sw(4, CmvsPs2aCommandStackWordKind::OpaqueU32), sw(8, CmvsPs2aCommandStackWordKind::OpaqueU32), sw(12, CmvsPs2aCommandStackWordKind::OpaqueU32)])),
        466 => Some((8, CmvsPs2aCommandEffectKind::ApplyEffectElementOperation { error_mask: 0x0001_0000 }, seq![sw(4, CmvsPs2aCommandStackWordKind::OpaqueU32), sw(8, CmvsPs2aCommandStackWordKind::OpaqueU32)])),
        468 => Some((8, CmvsPs2aCommandEffectKind::ApplyEffectElementOperation { error_mask: 0x0001_0000 }, seq![sw(4, CmvsPs2aCommandStackWordKind::OpaqueU32), sw(8, CmvsPs2aCommandStackWordKind::OpaqueU32)])),
        469 => Some((32, CmvsPs2aCommandEffectKind::ApplyEffectElementOperation { error_mask: 0x0001_0000 }, seq![sw(4, CmvsPs2aCommandStackWordKind::OpaqueU32), sw(8, CmvsPs2aCommandStackWordKind::OpaqueU32), sw(12, CmvsPs2aCommandStackWordKind::OpaqueU32), sw(16, CmvsPs2aCommandStackWordKind::OpaqueU32), sw(20, CmvsPs2aCommandStackWordKind::OpaqueU32), sw(24, CmvsPs2aCommandStackWordKind::OpaqueU32), sw(28, CmvsPs2aCommandStackWordKind::OpaqueU32), sw(32, CmvsPs2aCommandStackWordKind::OpaqueU32)])),
        470 => Some((12, CmvsPs2aCommandEffectKind::ApplyEffectElementOperation { error_mask: 0x0001_0000 }, seq![sw(4, CmvsPs2aCommandStackWordKind::OpaqueU32), sw(8, CmvsPs2aCommandStackWordKind::OpaqueU32), sw(12, CmvsPs2aCommandStackWordKind::OpaqueU32)])),
        471 => Some((8, CmvsPs2aCommandEffectKind::ApplyEffectElementOperation { error_mask: 0x0001_0000 }, seq![sw(4, CmvsPs2aCommandStackWordKind::OpaqueU32), sw(8, CmvsPs2aCommandStackWordKind::OpaqueU32)])),
        524 => Some((0, CmvsPs2aCommandEffectKind::QuerySaveImageEnabled { result_field_offset: 81220 }, Seq::empty())),
        528 => Some((8, CmvsPs2aCommandEffectKind::ReplaceFilterChainSlot { table_byte_offset: 3196, max_bank: 5, max_channel_id: 255, error_flag_field_offset: 10532, error_flag_mask: 0x100000 }, seq![sw(4, CmvsPs2aCommandStackWordKind::OpaqueU32), sw(8, CmvsPs2aCommandStackWordKind::OpaqueU32)])),
        529 => Some((4, CmvsPs2aCommandEffectKind::DestroyFilterChainSlot { table_byte_offset: 3196, max_bank: 5, error_flag_field_offset: 10532, error_flag_mask: 0x100000 }, seq![sw(4, CmvsPs2aCommandStackWordKind::OpaqueU32)])),
        _ => None,
    }
}

/// Looks up the contract fields of the commands 402 to 529.
pub fn lookup(command_id: u16) -> (r: Option<(u8, CmvsPs2aCommandEffectKind, Vec<CmvsPs2aCommandStackWord>)>)
    ensures
        match r {
            Some(f) => spec_lookup(command_id) == Some((f.0, f.1, f.2@)),
            None => spec_lookup(command_id) is None,
        },
{
    Some(match command_id {
        402 => (8, CmvsPs2aCommandEffectKind::SelectEffectQuad { error_mask: 0x0002_0000 }, vec![stack_word(4, CmvsPs2aCommandStackWordKind::OpaqueU32), stack_word(8, CmvsPs2aCommandStackWordKind::OpaqueU32)]),
        403 => (8, CmvsPs2aCommandEffectKind::DeselectEffectQuad { error_mask: 0x0002_0000 }, vec![stack_word(4, CmvsPs2aCommandStackWordKind::OpaqueU32), stack_word(8, CmvsPs2aCommandStackWordKind::OpaqueU32)]),
        404 => (4, CmvsPs2aCommandEffectKind::QueryEffectState { first_field_offset: 81236, second_field_offset: 81240, third_field_offset: 81244 }, vec![stack_word(4, CmvsPs2aCommandStackWordKind::OpaqueU32)]),
        405 => (8, CmvsPs2aCommandEffectKind::QueryEffectQuadActive { result_field_offset: 81220 }, vec![stack_word(4, CmvsPs2aCommandStackWordKind::OpaqueU32), stack_word(8, CmvsPs2aCommandStackWordKind::OpaqueU32)]),
        406 => (12, CmvsPs2aCommandEffectKind::ActivateEffectQuad { error_mask: 0x0002_0000 }, vec![stack_word(4, CmvsPs2aCommandStackWordKind::OpaqueU32), stack_word(8, CmvsPs2aCommandStackWordKind::OpaqueU32), stack_word(12, CmvsPs2aCommandStackWordKind::OpaqueU32)]),
        410 => (0, CmvsPs2aCommandEffectKind::ResetPresentationBuffers, Vec::new()),
        416 => (0, CmvsPs2aCommandEffectKind::QueryTextureManagerState { state_field_offset: 81220, aux_field_offset: 81236 }, Vec::new()),
        424 => (0, CmvsPs2aCommandEffectKind::QuerySceneLayer { base_word: 289, result_field_offset: 81220, aux_field_offset: 81236 }, Vec::new()),
        425 => (0, CmvsPs2aCommandEffectKind::ClearSceneLayer { base_word: 289 }, Vec::new()),
        426 => (0, CmvsPs2aCommandEffectKind::QuerySceneLayer { base_word: 298, result_field_offset: 81220, aux_field_offset: 81236 }, Vec::new()),
        427 => (0, CmvsPs2aCommandEffectKind::ClearSceneLayer { base_word: 298 }, Vec::new()),
        428 => (0, CmvsPs2aCommandEffectKind::QuerySceneLayer { base_word: 301, result_field_offset: 81220, aux_field_offset: 81236 }, Vec::new()),
        429 => (0, CmvsPs2aCommandEffectKind::ClearSceneLayer { base_word: 301 }, Vec::new()),
        430 => (0, CmvsPs2aCommandEffectKind::QuerySceneLayer { base_word: 304, result_field_offset: 81220, aux_field_offset: 81236 }, Vec::new()),
        431 => (0, CmvsPs2aCommandEffectKind::ClearSceneLayer { base_word: 304 }, Vec::new()),
        432 => (0, CmvsPs2aCommandEffectKind::QuerySceneLayer { base_word: 307, result_field_offset: 81220, aux_field_offset: 81236 }, Vec::new()),
        433 => (0, CmvsPs2aCommandEffectKind::ClearSceneLayer { base_word: 307 }, Vec::new()),
        463 => (8, CmvsPs2aCommandEffectKind::ApplyEffectElementOperation { error_mask: 0x0001_0000 }, vec![stack_word(4, CmvsPs2aCommandStackWordKind::OpaqueU32), stack_word(8, CmvsPs2aCommandStackWordKind::OpaqueU32)]),
        464 => (44, CmvsPs2aCommandEffectKind::ApplyEffectElementOperation { error_mask: 0x0001_0000 }, vec![stack_word(4, CmvsPs2aCommandStackWordKind::OpaqueU32), stack_word(8, CmvsPs2aCommandStackWordKind::OpaqueU32), stack_word(12, CmvsPs2aCommandStackWordKind::OpaqueU32), stack_word(16, CmvsPs2aCommandStackWordKind::OpaqueU32), stack_word(20, CmvsPs2aCommandStackWordKind::OpaqueU32), stack_word(24, CmvsPs2aCommandStackWordKind::OpaqueU32), stack_word(28, CmvsPs2aCommandStackWordKind::OpaqueU32), stack_word(32, CmvsPs2aCommandStackWordKind::OpaqueU32), stack_word(36, CmvsPs2aCommandStackWordKind::OpaqueU32), stack_word(40, CmvsPs2aCommandStackWordKind::OpaqueU32), stack_word(44, CmvsPs2aCommandStackWordKind::OpaqueU32)]),
        465 => (12, CmvsPs2aCommandEffectKind::ApplyEffectElementOperation { error_mask: 0x0001_0000 }, vec![stack_word(4, CmvsPs2aCommandStackWordKind::OpaqueU32), stack_word(8, CmvsPs2aCommandStackWordKind::OpaqueU32), stack_word(12, CmvsPs2aCommandStackWordKind::OpaqueU32)]),
        466 => (8, CmvsPs2aCommandEffectKind::ApplyEffectElementOperation { error_mask: 0x0001_0000 }, vec![stack_word(4, CmvsPs2aCommandStackWordKind::OpaqueU32), stack_word(8, CmvsPs2aCommandStackWordKind::OpaqueU32)]),
        468 => (8, CmvsPs2aCommandEffectKind::ApplyEffectElementOperation { error_mask: 0x0001_0000 }, vec![stack_word(4, CmvsPs2aCommandStackWordKind::OpaqueU32), stack_word(8, CmvsPs2aCommandStackWordKind::OpaqueU32)]),
        469 => (32, CmvsPs2aCommandEffectKind::ApplyEffectElementOperation { error_mask: 0x0001_0000 }, vec![stack_word(4, CmvsPs2aCommandStackWordKind::OpaqueU32), stack_word(8, CmvsPs2aCommandStackWordKind::OpaqueU32), stack_word(12, CmvsPs2aCommandStackWordKind::OpaqueU32), stack_word(16, CmvsPs2aCommandStackWordKind::OpaqueU32), stack_word(20, CmvsPs2aCommandStackWordKind::OpaqueU32), stack_word(24, CmvsPs2aCommandStackWordKind::OpaqueU32), stack_word(28, CmvsPs2aCommandStackWordKind::OpaqueU32), stack_word(32, CmvsPs2aCommandStackWordKind::OpaqueU32)]),
        470 => (12, CmvsPs2aCommandEffectKind::ApplyEffectElementOperation { error_mask: 0x0001_0000 }, vec![stack_word(4, CmvsPs2aCommandStackWordKind::OpaqueU32), stack_word(8, CmvsPs2aCommandStackWordKind::OpaqueU32), stack_word(12, CmvsPs2aCommandStackWordKind::OpaqueU32)]),
        471 => (8, CmvsPs2aCommandEffectKind::ApplyEffectElementOperation { error_mask: 0x0001_0000 }, vec![stack_word(4, CmvsPs2aCommandStackWordKind::OpaqueU32), stack_word(8, CmvsPs2aCommandStackWordKind::OpaqueU32)]),
        524 => (0, CmvsPs2aCommandEffectKind::QuerySaveImageEnabled { result_field_offset: 81220 }, Vec::new()),
        528 => (8, CmvsPs2aCommandEffectKind::ReplaceFilterChainSlot { table_byte_offset: 3196, max_bank: 5, max_channel_id: 255, error_flag_field_offset: 10532, error_flag_mask: 0x100000 }, vec![stack_word(4, CmvsPs2aCommandStackWordKind::OpaqueU32), stack_word(8, CmvsPs2aCommandStackWordKind::OpaqueU32)]),
        529 => (4, CmvsPs2aCommandEffectKind::DestroyFilterChainSlot { table_byte_offset: 3196, max_bank: 5, error_flag_field_offset: 10532, error_flag_mask: 0x100000 }, vec![stack_word(4, CmvsPs2aCommandStackWordKind::OpaqueU32)]),
        _ => return None,
    })
}

/// Every entry of this table places its words inside its popped bytes, and
/// pops exactly the words it reads unless it is command 156.
pub proof fn lemma_lookup_checked(command_id: u16)
    ensures
        match spec_lookup(command_id) {
            Some((pop, _effect, words)) => words_well_placed(words, pop) && (command_id == 156 || pop == 4 * words.len()),
            None => true,
        },
{
    reveal_with_fuel(offsets_in_range, 13);
    reveal_with_fuel(offset_unused, 13);
    reveal_with_fuel(offsets_distinct, 13);
    if command_id == 402 {
        assert(spec_lookup(command_id) is Some);
    } else if command_id == 403 {
        assert(spec_lookup(command_id) is Some);
    } else if command_id == 404 {
        assert(spec_lookup(command_id) is Some);
    } else if command_id == 405 {
        assert(spec_lookup(command_id) is Some);
    } else if command_id == 406 {
        assert(spec_lookup(command_id) is Some);
    } else if command_id == 410 {
        assert(spec_lookup(command_id) is Some);
    } else if command_id == 416 {
        assert(spec_lookup(command_id) is Some);
    } else if command_id == 424 {
        assert(spec_lookup(command_id) is Some);
    } else if command_id == 425 {
        assert(spec_lookup(command_id) is Some);
    } else if command_id == 426 {
        assert(spec_lookup(command_id) is Some);
    } else if command_id == 427 {
        assert(spec_lookup(command_id) is Some);
    } else if command_id == 428 {
        assert(spec_lookup(command_id) is Some);
    } else if command_id == 429 {
        assert(spec_lookup(command_id) is Some);
    } else if command_id == 430 {
        assert(spec_lookup(command_id) is Some);
    } else if command_id == 431 {
        assert(spec_lookup(command_id) is Some);
    } else if command_id == 432 {
        assert(spec_lookup(command_id) is Some);
    } else if command_id == 433 {
        assert(spec_lookup(command_id) is Some);
    } else if command_id == 463 {
        assert(spec_lookup(command_id) is Some);
    } else if command_id == 464 {
        assert(spec_lookup(command_id) is Some);
    } else if command_id == 465 {
        assert(spec_lookup(command_id) is Some);
    } else if command_id == 466 {
        assert(spec_lookup(command_id) is Some);
    } else if command_id == 468 {
        assert(spec_lookup(command_id) is Some);
    } else if command_id == 469 {
        assert(spec_lookup(command_id) is Some);
    } else if command_id == 470 {
        assert(spec_lookup(command_id) is Some);
    } else if command_id == 471 {
        assert(spec_lookup(command_id) is Some);
    } else if command_id == 524 {
        assert(spec_lookup(command_id) is Some);
    } else if command_id == 528 {
        assert(spec_lookup(command_id) is Some);
    } else if command_id == 529 {
        assert(spec_lookup(command_id) is Some);
    }
}

} // verus!
