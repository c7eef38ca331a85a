use vstd::prelude::*;
use super::{CmvsPs2aCommandEffectKind, CmvsPs2aCommandStackWord, CmvsPs2aCommandStackWordKind, CmvsResourceChannelBank, sw, stack_word,
    words_well_placed, offsets_in_range, offset_unused, offsets_distinct};

verus! {

/// The recovered contract fields of the commands 323 to 354.
pub open spec fn spec_lookup(command_id: u16) -> Option<(u8, CmvsPs2aCommandEffectKind, Seq<CmvsPs2aCommandStackWord>)> {
    match command_id {
        323 => Some((8, CmvsPs2aCommandEffectKind::ForwardEffectChannelWord { effect_table_dword_index: 742, max_channel: 7, error_mask: 0x0001_0000 }, seq![sw(4, CmvsPs2aCommandStackWordKind::OpaqueU32), sw(8, CmvsPs2aCommandStackWordKind::OpaqueU32)])),
        324 => Some((12, CmvsPs2aCommandEffectKind::ForwardEffectChannelPair { effect_table_dword_index: 742, max_channel: 7, error_mask: 0x0001_0000 }, seq![sw(4, CmvsPs2aCommandStackWordKind::OpaqueU32), sw(8, CmvsPs2aCommandStackWordKind::OpaqueU32), sw(12, CmvsPs2aCommandStackWordKind::OpaqueU32)])),
        325 => Some((20, CmvsPs2aCommandEffectKind::ForwardEffectChannelQuad { effect_table_dword_index: 742, max_channel: 7, error_mask: 0x0001_0000 }, seq![sw(4, CmvsPs2aCommandStackWordKind::OpaqueU32), sw(8, CmvsPs2aCommandStackWordKind::OpaqueU32), sw(12, CmvsPs2aCommandStackWordKind::OpaqueU32), sw(16, CmvsPs2aCommandStackWordKind::OpaqueU32), sw(20, CmvsPs2aCommandStackWordKind::OpaqueU32)])),
        326 => Some((12, CmvsPs2aCommandEffectKind::ForwardEffectChannelPair { effect_table_dword_index: 742, max_channel: 7, error_mask: 0x0001_0000 }, seq![sw(4, CmvsPs2aCommandStackWordKind::OpaqueU32), sw(8, CmvsPs2aCommandStackWordKind::OpaqueU32), sw(12, CmvsPs2aCommandStackWordKind::OpaqueU32)])),
        327 => Some((8, CmvsPs2aCommandEffectKind::ForwardEffectChannelWord { effect_table_dword_index: 742, max_channel: 7, error_mask: 0x0001_0000 }, seq![sw(4, CmvsPs2aCommandStackWordKind::OpaqueU32), sw(8, CmvsPs2aCommandStackWordKind::OpaqueU32)])),
        328 => Some((12, CmvsPs2aCommandEffectKind::ForwardEffectChannelPair { effect_table_dword_index: 742, max_channel: 7, error_mask: 0x0001_0000 }, seq![sw(4, CmvsPs2aCommandStackWordKind::OpaqueU32), sw(8, CmvsPs2aCommandStackWordKind::OpaqueU32), sw(12, CmvsPs2aCommandStackWordKind::OpaqueU32)])),
        329 => Some((8, CmvsPs2aCommandEffectKind::ForwardEffectChannelWord { effect_table_dword_index: 742, max_channel: 7, error_mask: 0x0001_0000 }, seq![sw(4, CmvsPs2aCommandStackWordKind::OpaqueU32), sw(8, CmvsPs2aCommandStackWordKind::OpaqueU32)])),
        330 => Some((4, CmvsPs2aCommandEffectKind::ApplyEffectChannelOperation { error_mask: 0x0001_0000 }, seq![sw(4, CmvsPs2aCommandStackWordKind::OpaqueU32)])),
        331 => Some((4, CmvsPs2aCommandEffectKind::QueryChannelOccupancy { result_field_offset: 81220, channel_table_dword_index: 742, error_mask: 0x0001_0000 }, seq![sw(4, CmvsPs2aCommandStackWordKind::OpaqueU32)])),
        333 => Some((4, CmvsPs2aCommandEffectKind::QueryEffectChannelActivity { activity_state_key_base: 0x7420_0000, max_channel: 7, effect_table_dword_index: 742, error_mask: 0x0001_0000, result_field_offset: 81220 }, seq![sw(4, CmvsPs2aCommandStackWordKind::OpaqueU32)])),
        334 => Some((8, CmvsPs2aCommandEffectKind::SetEffectChannelPlaybackFlag { effect_table_dword_index: 742, error_mask: 0x0001_0000, activity_state_key_base: 0x7420_0000 }, seq![sw(4, CmvsPs2aCommandStackWordKind::OpaqueU32), sw(8, CmvsPs2aCommandStackWordKind::OpaqueU32)])),
        336 => Some((16, CmvsPs2aCommandEffectKind::SetEffectChannelOrigin { error_mask: 0x0001_0000 }, seq![sw(4, CmvsPs2aCommandStackWordKind::OpaqueU32), sw(8, CmvsPs2aCommandStackWordKind::OpaqueU32), sw(12, CmvsPs2aCommandStackWordKind::OpaqueU32), sw(16, CmvsPs2aCommandStackWordKind::OpaqueU32)])),
        337 => Some((16, CmvsPs2aCommandEffectKind::SetEffectChannelPlaybackMode { error_mask: 0x0001_0000 }, seq![sw(4, CmvsPs2aCommandStackWordKind::OpaqueU32), sw(8, CmvsPs2aCommandStackWordKind::OpaqueU32), sw(12, CmvsPs2aCommandStackWordKind::OpaqueU32), sw(16, CmvsPs2aCommandStackWordKind::OpaqueU32)])),
        346 => Some((12, CmvsPs2aCommandEffectKind::SetEffectChannelValuePair { error_mask: 0x0001_0000 }, seq![sw(4, CmvsPs2aCommandStackWordKind::OpaqueU32), sw(8, CmvsPs2aCommandStackWordKind::OpaqueU32), sw(12, CmvsPs2aCommandStackWordKind::OpaqueU32)])),
        347 => Some((8, CmvsPs2aCommandEffectKind::SetEffectChannelEnabled { effect_table_dword_index: 742, max_channel: 7, error_mask: 0x0001_0000 }, seq![sw(4, CmvsPs2aCommandStackWordKind::OpaqueU32), sw(8, CmvsPs2aCommandStackWordKind::BooleanU32)])),
        349 => Some((32, CmvsPs2aCommandEffectKind::CreateEffectChannel { effect_table_dword_index: 742, playback_table_dword_index: 750, max_channel: 7, max_effect: 11, channel_error_mask: 0x0001_0000, effect_error_mask: 0x0000_1000 }, seq![sw(4, CmvsPs2aCommandStackWordKind::OpaqueU32), sw(8, CmvsPs2aCommandStackWordKind::OpaqueU32), sw(12, CmvsPs2aCommandStackWordKind::OpaqueU32), sw(16, CmvsPs2aCommandStackWordKind::OpaqueU32), sw(20, CmvsPs2aCommandStackWordKind::OpaqueU32), sw(24, CmvsPs2aCommandStackWordKind::OpaqueU32), sw(28, CmvsPs2aCommandStackWordKind::OpaqueU32), sw(32, CmvsPs2aCommandStackWordKind::OpaqueU32)])),
        350 => Some((4, CmvsPs2aCommandEffectKind::QueryEffectPosition { result_x_field_offset: 81224, result_y_field_offset: 81228 }, seq![sw(4, CmvsPs2aCommandStackWordKind::OpaqueU32)])),
        351 => Some((20, CmvsPs2aCommandEffectKind::QueryEffectPointerHit { result_field_offset: 81220 }, seq![sw(4, CmvsPs2aCommandStackWordKind::OpaqueU32), sw(8, CmvsPs2aCommandStackWordKind::OpaqueU32), sw(12, CmvsPs2aCommandStackWordKind::OpaqueU32), sw(16, CmvsPs2aCommandStackWordKind::OpaqueU32), sw(20, CmvsPs2aCommandStackWordKind::OpaqueU32)])),
        352 => Some((4, CmvsPs2aCommandEffectKind::RequestWindowCaption { prefix_field_offset: None }, seq![sw(4, CmvsPs2aCommandStackWordKind::TaggedStringReference)])),
        353 => Some((4, CmvsPs2aCommandEffectKind::BuildPrefixedWindowCaption { prefix_field_offset: 288, buffer_offset: 12816 }, seq![sw(4, CmvsPs2aCommandStackWordKind::TaggedStringReference)])),
        354 => Some((4, CmvsPs2aCommandEffectKind::StoreBoundedInterpreterString { buffer_offset: 10324, max_text_bytes: 128, error_flag_field_offset: 10532, error_flag_mask: 8 }, seq![sw(4, CmvsPs2aCommandStackWordKind::TaggedStringReference)])),
        _ => None,
    }
}

/// Looks up the contract fields of the commands 323 to 354.
pub fn lookup(command_id: u16) -> (r: Option<(u8, CmvsPs2aCommandEffectKind, Vec<CmvsPs2aCommandStackWord>)>)
    ensures
        match r {
            Some(f) => spec_lookup(command_id) == Some((f.0, f.1, f.2@)),
            None => spec_lookup(command_id) is None,
        },
{
    Some(match command_id {
        323 => (8, CmvsPs2aCommandEffectKind::ForwardEffectChannelWord { effect_table_dword_index: 742, max_channel: 7, error_mask: 0x0001_0000 }, vec![stack_word(4, CmvsPs2aCommandStackWordKind::OpaqueU32), stack_word(8, CmvsPs2aCommandStackWordKind::OpaqueU32)]),
        324 => (12, CmvsPs2aCommandEffectKind::ForwardEffectChannelPair { effect_table_dword_index: 742, max_channel: 7, error_mask: 0x0001_0000 }, vec![stack_word(4, CmvsPs2aCommandStackWordKind::OpaqueU32), stack_word(8, CmvsPs2aCommandStackWordKind::OpaqueU32), stack_word(12, CmvsPs2aCommandStackWordKind::OpaqueU32)]),
        325 => (20, CmvsPs2aCommandEffectKind::ForwardEffectChannelQuad { effect_table_dword_index: 742, max_channel: 7, error_mask: 0x0001_0000 }, vec![stack_word(4, CmvsPs2aCommandStackWordKind::OpaqueU32), stack_word(8, CmvsPs2aCommandStackWordKind::OpaqueU32), stack_word(12, CmvsPs2aCommandStackWordKind::OpaqueU32), stack_word(16, CmvsPs2aCommandStackWordKind::OpaqueU32), stack_word(20, CmvsPs2aCommandStackWordKind::OpaqueU32)]),
        326 => (12, CmvsPs2aCommandEffectKind::ForwardEffectChannelPair { effect_table_dword_index: 742, max_channel: 7, error_mask: 0x0001_0000 }, vec![stack_word(4, CmvsPs2aCommandStackWordKind::OpaqueU32), stack_word(8, CmvsPs2aCommandStackWordKind::OpaqueU32), stack_word(12, CmvsPs2aCommandStackWordKind::OpaqueU32)]),
        327 => (8, CmvsPs2aCommandEffectKind::ForwardEffectChannelWord { effect_table_dword_index: 742, max_channel: 7, error_mask: 0x0001_0000 }, vec![stack_word(4, CmvsPs2aCommandStackWordKind::OpaqueU32), stack_word(8, CmvsPs2aCommandStackWordKind::OpaqueU32)]),
        328 => (12, CmvsPs2aCommandEffectKind::ForwardEffectChannelPair { effect_table_dword_index: 742, max_channel: 7, error_mask: 0x0001_0000 }, vec![stack_word(4, CmvsPs2aCommandStackWordKind::OpaqueU32), stack_word(8, CmvsPs2aCommandStackWordKind::OpaqueU32), stack_word(12, CmvsPs2aCommandStackWordKind::OpaqueU32)]),
        329 => (8, CmvsPs2aCommandEffectKind::ForwardEffectChannelWord { effect_table_dword_index: 742, max_channel: 7, error_mask: 0x0001_0000 }, vec![stack_word(4, CmvsPs2aCommandStackWordKind::OpaqueU32), stack_word(8, CmvsPs2aCommandStackWordKind::OpaqueU32)]),
        330 => (4, CmvsPs2aCommandEffectKind::ApplyEffectChannelOperation { error_mask: 0x0001_0000 }, vec![stack_word(4, CmvsPs2aCommandStackWordKind::OpaqueU32)]),
        331 => (4, CmvsPs2aCommandEffectKind::QueryChannelOccupancy { result_field_offset: 81220, channel_table_dword_index: 742, error_mask: 0x0001_0000 }, vec![stack_word(4, CmvsPs2aCommandStackWordKind::OpaqueU32)]),
        333 => (4, CmvsPs2aCommandEffectKind::QueryEffectChannelActivity { activity_state_key_base: 0x7420_0000, max_channel: 7, effect_table_dword_index: 742, error_mask: 0x0001_0000, result_field_offset: 81220 }, vec![stack_word(4, CmvsPs2aCommandStackWordKind::OpaqueU32)]),
        334 => (8, CmvsPs2aCommandEffectKind::SetEffectChannelPlaybackFlag { effect_table_dword_index: 742, error_mask: 0x0001_0000, activity_state_key_base: 0x7420_0000 }, vec![stack_word(4, CmvsPs2aCommandStackWordKind::OpaqueU32), stack_word(8, CmvsPs2aCommandStackWordKind::OpaqueU32)]),
        336 => (16, CmvsPs2aCommandEffectKind::SetEffectChannelOrigin { error_mask: 0x0001_0000 }, vec![stack_word(4, CmvsPs2aCommandStackWordKind::OpaqueU32), stack_word(8, CmvsPs2aCommandStackWordKind::OpaqueU32), stack_word(12, CmvsPs2aCommandStackWordKind::OpaqueU32), stack_word(16, CmvsPs2aCommandStackWordKind::OpaqueU32)]),
        337 => (16, CmvsPs2aCommandEffectKind::SetEffectChannelPlaybackMode { error_mask: 0x0001_0000 }, vec![stack_word(4, CmvsPs2aCommandStackWordKind::OpaqueU32), stack_word(8, CmvsPs2aCommandStackWordKind::OpaqueU32), stack_word(12, CmvsPs2aCommandStackWordKind::OpaqueU32), stack_word(16, CmvsPs2aCommandStackWordKind::OpaqueU32)]),
        346 => (12, CmvsPs2aCommandEffectKind::SetEffectChannelValuePair { error_mask: 0x0001_0000 }, vec![stack_word(4, CmvsPs2aCommandStackWordKind::OpaqueU32), stack_word(8, CmvsPs2aCommandStackWordKind::OpaqueU32), stack_word(12, CmvsPs2aCommandStackWordKind::OpaqueU32)]),
        347 => (8, CmvsPs2aCommandEffectKind::SetEffectChannelEnabled { effect_table_dword_index: 742, max_channel: 7, error_mask: 0x0001_0000 }, vec![stack_word(4, CmvsPs2aCommandStackWordKind::OpaqueU32), stack_word(8, CmvsPs2aCommandStackWordKind::BooleanU32)]),
        349 => (32, CmvsPs2aCommandEffectKind::CreateEffectChannel { effect_table_dword_index: 742, playback_table_dword_index: 750, max_channel: 7, max_effect: 11, channel_error_mask: 0x0001_0000, effect_error_mask: 0x0000_1000 }, vec![stack_word(4, CmvsPs2aCommandStackWordKind::OpaqueU32), stack_word(8, CmvsPs2aCommandStackWordKind::OpaqueU32), stack_word(12, CmvsPs2aCommandStackWordKind::OpaqueU32), stack_word(16, CmvsPs2aCommandStackWordKind::OpaqueU32), stack_word(20, CmvsPs2aCommandStackWordKind::OpaqueU32), stack_word(24, CmvsPs2aCommandStackWordKind::OpaqueU32), stack_word(28, CmvsPs2aCommandStackWordKind::OpaqueU32), stack_word(32, CmvsPs2aCommandStackWordKind::OpaqueU32)]),
        350 => (4, CmvsPs2aCommandEffectKind::QueryEffectPosition { result_x_field_offset: 81224, result_y_field_offset: 81228 }, vec![stack_word(4, CmvsPs2aCommandStackWordKind::OpaqueU32)]),
        351 => (20, CmvsPs2aCommandEffectKind::QueryEffectPointerHit { result_field_offset: 81220 }, vec![stack_word(4, CmvsPs2aCommandStackWordKind::OpaqueU32), stack_word(8, CmvsPs2aCommandStackWordKind::OpaqueU32), stack_word(12, CmvsPs2aCommandStackWordKind::OpaqueU32), stack_word(16, CmvsPs2aCommandStackWordKind::OpaqueU32), stack_word(20, CmvsPs2aCommandStackWordKind::OpaqueU32)]),
        352 => (4, CmvsPs2aCommandEffectKind::RequestWindowCaption { prefix_field_offset: None }, vec![stack_word(4, CmvsPs2aCommandStackWordKind::TaggedStringReference)]),
        353 => (4, CmvsPs2aCommandEffectKind::BuildPrefixedWindowCaption { prefix_field_offset: 288, buffer_offset: 12816 }, vec![stack_word(4, CmvsPs2aCommandStackWordKind::TaggedStringReference)]),
        354 => (4, CmvsPs2aCommandEffectKind::StoreBoundedInterpreterString { buffer_offset: 10324, max_text_bytes: 128, error_flag_field_offset: 10532, error_flag_mask: 8 }, vec![stack_word(4, CmvsPs2aCommandStackWordKind::TaggedStringReference)]),
        _ => return None,
    })
}

/// Every entry of this table places its words inside its popped bytes, and
/// pops exactly the words it reads unless it is command 156.
pub proof fn lemma_lookup_checked(command_id: u16)
    ensures
        match spec_lookup(command_id) {
            Some((pop, _effect, words)) => words_well_placed(words, pop) && (command_id == 156 || pop == 4 * words.len()),
            None => true,
        },
{
    reveal_with_fuel(offsets_in_range, 13);
    reveal_with_fuel(offset_unused, 13);
    reveal_with_fuel(offsets_distinct, 13);
    if command_id == 323 {
        assert(spec_lookup(command_id) is Some);
    } else if command_id == 324 {
        assert(spec_lookup(command_id) is Some);
    } else if command_id == 325 {
        assert(spec_lookup(command_id) is Some);
    } else if command_id == 326 {
        assert(spec_lookup(command_id) is Some);
    } else if command_id == 327 {
        assert(spec_lookup(command_id) is Some);
    } else if command_id == 328 {
        assert(spec_lookup(command_id) is Some);
    } else if command_id == 329 {
        assert(spec_lookup(command_id) is Some);
    } else if command_id == 330 {
        assert(spec_lookup(command_id) is Some);
    } else if command_id == 331 {
        assert(spec_lookup(command_id) is Some);
    } else if command_id == 333 {
        assert(spec_lookup(command_id) is Some);
    } else if command_id == 334 {
        assert(spec_lookup(command_id) is Some);
    } else if command_id == 336 {
        assert(spec_lookup(command_id) is Some);
    } else if command_id == 337 {
        assert(spec_lookup(command_id) is Some);
    } else if command_id == 346 {
        assert(spec_lookup(command_id) is Some);
    } else if command_id == 347 {
        assert(spec_lookup(command_id) is Some);
    } else if command_id == 349 {
        assert(spec_lookup(command_id) is Some);
    } else if command_id == 350 {
        assert(spec_lookup(command_id) is Some);
    } else if command_id == 351 {
        assert(spec_lookup(command_id) is Some);
    } else if command_id == 352 {
        assert(spec_lookup(command_id) is Some);
    } else if command_id == 353 {
        assert(spec_lookup(command_id) is Some);
    } else if command_id == 354 {
        assert(spec_lookup(command_id) is Some);
    }
}

} // verus!
