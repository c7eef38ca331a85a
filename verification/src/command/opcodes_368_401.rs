use vstd::prelude::*;
use super::{CmvsPs2aCommandEffectKind, CmvsPs2aCommandStackWord, CmvsPs2aCommandStackWordKind, CmvsResourceChannelBank, sw, stack_word,
    words_well_placed, offsets_in_range, offset_unused, offsets_distinct};

verus! {

/// The recovered contract fields of the commands 368 to 401.
pub open spec fn spec_lookup(command_id: u16) -> Option<(u8, CmvsPs2aCommandEffectKind, Seq<CmvsPs2aCommandStackWord>)> {
    match command_id {
        368 => Some((8, CmvsPs2aCommandEffectKind::PlayChannelSound { channel_table_dword_index: 2968, max_channel: 7, play_error_mask: 0x80, channel_error_mask: 0x0001_0000 }, seq![sw(4, CmvsPs2aCommandStackWordKind::OpaqueU32), sw(8, CmvsPs2aCommandStackWordKind::TaggedStringReference)])),
        376 => Some((8, CmvsPs2aCommandEffectKind::ForwardEffectChannelBlock { effect_table_dword_index: 742, max_channel: 7, error_mask: 0x0001_0000 }, seq![sw(4, CmvsPs2aCommandStackWordKind::OpaqueU32), sw(8, CmvsPs2aCommandStackWordKind::OpaqueU32)])),
        377 => Some((8, CmvsPs2aCommandEffectKind::ForwardEffectChannelWord { effect_table_dword_index: 742, max_channel: 7, error_mask: 0x0001_0000 }, seq![sw(4, CmvsPs2aCommandStackWordKind::OpaqueU32), sw(8, CmvsPs2aCommandStackWordKind::OpaqueU32)])),
        378 => Some((12, CmvsPs2aCommandEffectKind::SetEffectElementVisible { error_mask: 0x0001_0000 }, seq![sw(4, CmvsPs2aCommandStackWordKind::OpaqueU32), sw(8, CmvsPs2aCommandStackWordKind::OpaqueU32), sw(12, CmvsPs2aCommandStackWordKind::BooleanU32)])),
        379 => Some((8, CmvsPs2aCommandEffectKind::QueryEffectElementExists { error_mask: 0x0001_0000, result_field_offset: 81220 }, seq![sw(4, CmvsPs2aCommandStackWordKind::OpaqueU32), sw(8, CmvsPs2aCommandStackWordKind::OpaqueU32)])),
        380 => Some((16, CmvsPs2aCommandEffectKind::SetEffectElementSize { error_mask: 0x0001_0000 }, seq![sw(4, CmvsPs2aCommandStackWordKind::OpaqueU32), sw(8, CmvsPs2aCommandStackWordKind::OpaqueU32), sw(12, CmvsPs2aCommandStackWordKind::OpaqueU32), sw(16, CmvsPs2aCommandStackWordKind::OpaqueU32)])),
        382 => Some((8, CmvsPs2aCommandEffectKind::SetEffectElementAuxiliary { error_mask: 0x0001_0000 }, seq![sw(4, CmvsPs2aCommandStackWordKind::OpaqueU32), sw(8, CmvsPs2aCommandStackWordKind::OpaqueU32)])),
        383 => Some((8, CmvsPs2aCommandEffectKind::SetEffectElementAuxiliaryPair { error_mask: 0x0001_0000 }, seq![sw(4, CmvsPs2aCommandStackWordKind::OpaqueU32), sw(8, CmvsPs2aCommandStackWordKind::OpaqueU32)])),
        384 => Some((8, CmvsPs2aCommandEffectKind::EffectChildCommand { pop_bytes: 8 }, seq![sw(4, CmvsPs2aCommandStackWordKind::OpaqueU32), sw(8, CmvsPs2aCommandStackWordKind::OpaqueU32)])),
        385 => Some((8, CmvsPs2aCommandEffectKind::EffectChildCommand { pop_bytes: 8 }, seq![sw(4, CmvsPs2aCommandStackWordKind::OpaqueU32), sw(8, CmvsPs2aCommandStackWordKind::OpaqueU32)])),
        386 => Some((24, CmvsPs2aCommandEffectKind::EffectChildCommand { pop_bytes: 24 }, seq![sw(4, CmvsPs2aCommandStackWordKind::OpaqueU32), sw(8, CmvsPs2aCommandStackWordKind::OpaqueU32), sw(12, CmvsPs2aCommandStackWordKind::OpaqueU32), sw(16, CmvsPs2aCommandStackWordKind::OpaqueU32), sw(20, CmvsPs2aCommandStackWordKind::OpaqueU32), sw(24, CmvsPs2aCommandStackWordKind::OpaqueU32)])),
        387 => Some((16, CmvsPs2aCommandEffectKind::EffectChildCommand { pop_bytes: 16 }, seq![sw(4, CmvsPs2aCommandStackWordKind::OpaqueU32), sw(8, CmvsPs2aCommandStackWordKind::OpaqueU32), sw(12, CmvsPs2aCommandStackWordKind::OpaqueU32), sw(16, CmvsPs2aCommandStackWordKind::OpaqueU32)])),
        388 => Some((12, CmvsPs2aCommandEffectKind::EffectChildCommand { pop_bytes: 12 }, seq![sw(4, CmvsPs2aCommandStackWordKind::OpaqueU32), sw(8, CmvsPs2aCommandStackWordKind::OpaqueU32), sw(12, CmvsPs2aCommandStackWordKind::OpaqueU32)])),
        389 => Some((16, CmvsPs2aCommandEffectKind::EffectChildCommand { pop_bytes: 16 }, seq![sw(4, CmvsPs2aCommandStackWordKind::OpaqueU32), sw(8, CmvsPs2aCommandStackWordKind::OpaqueU32), sw(12, CmvsPs2aCommandStackWordKind::OpaqueU32), sw(16, CmvsPs2aCommandStackWordKind::OpaqueU32)])),
        390 => Some((12, CmvsPs2aCommandEffectKind::EffectChildCommand { pop_bytes: 12 }, seq![sw(4, CmvsPs2aCommandStackWordKind::OpaqueU32), sw(8, CmvsPs2aCommandStackWordKind::OpaqueU32), sw(12, CmvsPs2aCommandStackWordKind::OpaqueU32)])),
        391 => Some((12, CmvsPs2aCommandEffectKind::EffectChildCommand { pop_bytes: 12 }, seq![sw(4, CmvsPs2aCommandStackWordKind::OpaqueU32), sw(8, CmvsPs2aCommandStackWordKind::OpaqueU32), sw(12, CmvsPs2aCommandStackWordKind::OpaqueU32)])),
        397 => Some((8, CmvsPs2aCommandEffectKind::QueryEffectQuadState { effect_table_dword_index: 742, empty_error_mask: 0x0000_0010, missing_error_mask: 0x0001_0000, result0_field_offset: 81220, result1_field_offset: 81224, result2_field_offset: 81228, result3_field_offset: 81232, result8_field_offset: 81252, result9_field_offset: 81256 }, seq![sw(4, CmvsPs2aCommandStackWordKind::OpaqueU32), sw(8, CmvsPs2aCommandStackWordKind::OpaqueU32)])),
        400 => Some((36, CmvsPs2aCommandEffectKind::ConfigureEffectQuadGeometry { error_mask: 0x0002_0000 }, seq![sw(4, CmvsPs2aCommandStackWordKind::OpaqueU32), sw(8, CmvsPs2aCommandStackWordKind::OpaqueU32), sw(12, CmvsPs2aCommandStackWordKind::OpaqueU32), sw(16, CmvsPs2aCommandStackWordKind::OpaqueU32), sw(20, CmvsPs2aCommandStackWordKind::OpaqueU32), sw(24, CmvsPs2aCommandStackWordKind::OpaqueU32), sw(28, CmvsPs2aCommandStackWordKind::OpaqueU32), sw(32, CmvsPs2aCommandStackWordKind::OpaqueU32), sw(36, CmvsPs2aCommandStackWordKind::OpaqueU32)])),
        401 => Some((24, CmvsPs2aCommandEffectKind::ConfigureEffectQuadRect { error_mask: 0x0002_0000 }, seq![sw(4, CmvsPs2aCommandStackWordKind::OpaqueU32), sw(8, CmvsPs2aCommandStackWordKind::OpaqueU32), sw(12, CmvsPs2aCommandStackWordKind::OpaqueU32), sw(16, CmvsPs2aCommandStackWordKind::OpaqueU32), sw(20, CmvsPs2aCommandStackWordKind::OpaqueU32), sw(24, CmvsPs2aCommandStackWordKind::OpaqueU32)])),
        _ => None,
    }
}

/// Looks up the contract fields of the commands 368 to 401.
pub fn lookup(command_id: u16) -> (r: Option<(u8, CmvsPs2aCommandEffectKind, Vec<CmvsPs2aCommandStackWord>)>)
    ensures
        match r {
            Some(f) => spec_lookup(command_id) == Some((f.0, f.1, f.2@)),
            None => spec_lookup(command_id) is None,
        },
{
    Some(match command_id {
        368 => (8, CmvsPs2aCommandEffectKind::PlayChannelSound { channel_table_dword_index: 2968, max_channel: 7, play_error_mask: 0x80, channel_error_mask: 0x0001_0000 }, vec![stack_word(4, CmvsPs2aCommandStackWordKind::OpaqueU32), stack_word(8, CmvsPs2aCommandStackWordKind::TaggedStringReference)]),
        376 => (8, CmvsPs2aCommandEffectKind::ForwardEffectChannelBlock { effect_table_dword_index: 742, max_channel: 7, error_mask: 0x0001_0000 }, vec![stack_word(4, CmvsPs2aCommandStackWordKind::OpaqueU32), stack_word(8, CmvsPs2aCommandStackWordKind::OpaqueU32)]),
        377 => (8, CmvsPs2aCommandEffectKind::ForwardEffectChannelWord { effect_table_dword_index: 742, max_channel: 7, error_mask: 0x0001_0000 }, vec![stack_word(4, CmvsPs2aCommandStackWordKind::OpaqueU32), stack_word(8, CmvsPs2aCommandStackWordKind::OpaqueU32)]),
        378 => (12, CmvsPs2aCommandEffectKind::SetEffectElementVisible { error_mask: 0x0001_0000 }, vec![stack_word(4, CmvsPs2aCommandStackWordKind::OpaqueU32), stack_word(8, CmvsPs2aCommandStackWordKind::OpaqueU32), stack_word(12, CmvsPs2aCommandStackWordKind::BooleanU32)]),
        379 => (8, CmvsPs2aCommandEffectKind::QueryEffectElementExists { error_mask: 0x0001_0000, result_field_offset: 81220 }, vec![stack_word(4, CmvsPs2aCommandStackWordKind::OpaqueU32), stack_word(8, CmvsPs2aCommandStackWordKind::OpaqueU32)]),
        380 => (16, CmvsPs2aCommandEffectKind::SetEffectElementSize { error_mask: 0x0001_0000 }, vec![stack_word(4, CmvsPs2aCommandStackWordKind::OpaqueU32), stack_word(8, CmvsPs2aCommandStackWordKind::OpaqueU32), stack_word(12, CmvsPs2aCommandStackWordKind::OpaqueU32), stack_word(16, CmvsPs2aCommandStackWordKind::OpaqueU32)]),
        382 => (8, CmvsPs2aCommandEffectKind::SetEffectElementAuxiliary { error_mask: 0x0001_0000 }, vec![stack_word(4, CmvsPs2aCommandStackWordKind::OpaqueU32), stack_word(8, CmvsPs2aCommandStackWordKind::OpaqueU32)]),
        383 => (8, CmvsPs2aCommandEffectKind::SetEffectElementAuxiliaryPair { error_mask: 0x0001_0000 }, vec![stack_word(4, CmvsPs2aCommandStackWordKind::OpaqueU32), stack_word(8, CmvsPs2aCommandStackWordKind::OpaqueU32)]),
        384 => (8, CmvsPs2aCommandEffectKind::EffectChildCommand { pop_bytes: 8 }, vec![stack_word(4, CmvsPs2aCommandStackWordKind::OpaqueU32), stack_word(8, CmvsPs2aCommandStackWordKind::OpaqueU32)]),
        385 => (8, CmvsPs2aCommandEffectKind::EffectChildCommand { pop_bytes: 8 }, vec![stack_word(4, CmvsPs2aCommandStackWordKind::OpaqueU32), stack_word(8, CmvsPs2aCommandStackWordKind::OpaqueU32)]),
        386 => (24, CmvsPs2aCommandEffectKind::EffectChildCommand { pop_bytes: 24 }, vec![stack_word(4, CmvsPs2aCommandStackWordKind::OpaqueU32), stack_word(8, CmvsPs2aCommandStackWordKind::OpaqueU32), stack_word(12, CmvsPs2aCommandStackWordKind::OpaqueU32), stack_word(16, CmvsPs2aCommandStackWordKind::OpaqueU32), stack_word(20, CmvsPs2aCommandStackWordKind::OpaqueU32), stack_word(24, CmvsPs2aCommandStackWordKind::OpaqueU32)]),
        387 => (16, CmvsPs2aCommandEffectKind::EffectChildCommand { pop_bytes: 16 }, vec![stack_word(4, CmvsPs2aCommandStackWordKind::OpaqueU32), stack_word(8, CmvsPs2aCommandStackWordKind::OpaqueU32), stack_word(12, CmvsPs2aCommandStackWordKind::OpaqueU32), stack_word(16, CmvsPs2aCommandStackWordKind::OpaqueU32)]),
        388 => (12, CmvsPs2aCommandEffectKind::EffectChildCommand { pop_bytes: 12 }, vec![stack_word(4, CmvsPs2aCommandStackWordKind::OpaqueU32), stack_word(8, CmvsPs2aCommandStackWordKind::OpaqueU32), stack_word(12, CmvsPs2aCommandStackWordKind::OpaqueU32)]),
        389 => (16, CmvsPs2aCommandEffectKind::EffectChildCommand { pop_bytes: 16 }, vec![stack_word(4, CmvsPs2aCommandStackWordKind::OpaqueU32), stack_word(8, CmvsPs2aCommandStackWordKind::OpaqueU32), stack_word(12, CmvsPs2aCommandStackWordKind::OpaqueU32), stack_word(16, CmvsPs2aCommandStackWordKind::OpaqueU32)]),
        390 => (12, CmvsPs2aCommandEffectKind::EffectChildCommand { pop_bytes: 12 }, vec![stack_word(4, CmvsPs2aCommandStackWordKind::OpaqueU32), stack_word(8, CmvsPs2aCommandStackWordKind::OpaqueU32), stack_word(12, CmvsPs2aCommandStackWordKind::OpaqueU32)]),
        391 => (12, CmvsPs2aCommandEffectKind::EffectChildCommand { pop_bytes: 12 }, vec![stack_word(4, CmvsPs2aCommandStackWordKind::OpaqueU32), stack_word(8, CmvsPs2aCommandStackWordKind::OpaqueU32), stack_word(12, CmvsPs2aCommandStackWordKind::OpaqueU32)]),
        397 => (8, CmvsPs2aCommandEffectKind::QueryEffectQuadState { effect_table_dword_index: 742, empty_error_mask: 0x0000_0010, missing_error_mask: 0x0001_0000, result0_field_offset: 81220, result1_field_offset: 81224, result2_field_offset: 81228, result3_field_offset: 81232, result8_field_offset: 81252, result9_field_offset: 81256 }, vec![stack_word(4, CmvsPs2aCommandStackWordKind::OpaqueU32), stack_word(8, CmvsPs2aCommandStackWordKind::OpaqueU32)]),
        400 => (36, CmvsPs2aCommandEffectKind::ConfigureEffectQuadGeometry { error_mask: 0x0002_0000 }, vec![stack_word(4, CmvsPs2aCommandStackWordKind::OpaqueU32), stack_word(8, CmvsPs2aCommandStackWordKind::OpaqueU32), stack_word(12, CmvsPs2aCommandStackWordKind::OpaqueU32), stack_word(16, CmvsPs2aCommandStackWordKind::OpaqueU32), stack_word(20, CmvsPs2aCommandStackWordKind::OpaqueU32), stack_word(24, CmvsPs2aCommandStackWordKind::OpaqueU32), stack_word(28, CmvsPs2aCommandStackWordKind::OpaqueU32), stack_word(32, CmvsPs2aCommandStackWordKind::OpaqueU32), stack_word(36, CmvsPs2aCommandStackWordKind::OpaqueU32)]),
        401 => (24, CmvsPs2aCommandEffectKind::ConfigureEffectQuadRect { error_mask: 0x0002_0000 }, vec![stack_word(4, CmvsPs2aCommandStackWordKind::OpaqueU32), stack_word(8, CmvsPs2aCommandStackWordKind::OpaqueU32), stack_word(12, CmvsPs2aCommandStackWordKind::OpaqueU32), stack_word(16, CmvsPs2aCommandStackWordKind::OpaqueU32), stack_word(20, CmvsPs2aCommandStackWordKind::OpaqueU32), stack_word(24, CmvsPs2aCommandStackWordKind::OpaqueU32)]),
        _ => return None,
    })
}

/// Every entry of this table places its words inside its popped bytes, and
/// pops exactly the words it reads unless it is command 156.
pub proof fn lemma_lookup_checked(command_id: u16)
    ensures
        match spec_lookup(command_id) {
            Some((pop, _effect, words)) => words_well_placed(words, pop) && (command_id == 156 || pop == 4 * words.len()),
            None => true,
        },
{
    reveal_with_fuel(offsets_in_range, 13);
    reveal_with_fuel(offset_unused, 13);
    reveal_with_fuel(offsets_distinct, 13);
    if command_id == 368 {
        assert(spec_lookup(command_id) is Some);
    } else if command_id == 376 {
        assert(spec_lookup(command_id) is Some);
    } else if command_id == 377 {
        assert(spec_lookup(command_id) is Some);
    } else if command_id == 378 {
        assert(spec_lookup(command_id) is Some);
    } else if command_id == 379 {
        assert(spec_lookup(command_id) is Some);
    } else if command_id == 380 {
        assert(spec_lookup(command_id) is Some);
    } else if command_id == 382 {
        assert(spec_lookup(command_id) is Some);
    } else if command_id == 383 {
        assert(spec_lookup(command_id) is Some);
    } else if command_id == 384 {
        assert(spec_lookup(command_id) is Some);
    } else if command_id == 385 {
        assert(spec_lookup(command_id) is Some);
    } else if command_id == 386 {
        assert(spec_lookup(command_id) is Some);
    } else if command_id == 387 {
        assert(spec_lookup(command_id) is Some);
    } else if command_id == 388 {
        assert(spec_lookup(command_id) is Some);
    } else if command_id == 389 {
        assert(spec_lookup(command_id) is Some);
    } else if command_id == 390 {
        assert(spec_lookup(command_id) is Some);
    } else if command_id == 391 {
        assert(spec_lookup(command_id) is Some);
    } else if command_id == 397 {
        assert(spec_lookup(command_id) is Some);
    } else if command_id == 400 {
        assert(spec_lookup(command_id) is Some);
    } else if command_id == 401 {
        assert(spec_lookup(command_id) is Some);
    }
}

} // verus!
