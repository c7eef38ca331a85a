use vstd::prelude::*;
use super::{CmvsPs2aCommandEffectKind, CmvsPs2aCommandStackWord, CmvsPs2aCommandStackWordKind, CmvsResourceChannelBank, sw, stack_word,
    words_well_placed, offsets_in_range, offset_unused, offsets_distinct};

verus! {

/// The recovered contract fields of the commands 0 to 71.
pub open spec fn spec_lookup(command_id: u16) -> Option<(u8, CmvsPs2aCommandEffectKind, Seq<CmvsPs2aCommandStackWord>)> {
    match command_id {
        0 => Some((0, CmvsPs2aCommandEffectKind::StopDispatch, Seq::empty())),
        11 => Some((4, CmvsPs2aCommandEffectKind::ClearInterpreterTableWord { table_base_offset: 13228, table_word_count: 10 }, seq![sw(4, CmvsPs2aCommandStackWordKind::OpaqueU32)])),
        12 => Some((4, CmvsPs2aCommandEffectKind::LoadInterpreterTableWord { table_base_offset: 13228, table_word_count: 10, field_offset: 81220 }, seq![sw(4, CmvsPs2aCommandStackWordKind::OpaqueU32)])),
        16 | 18 | 19 | 20 => Some((8, CmvsPs2aCommandEffectKind::StartResourceChannel { bank: CmvsResourceChannelBank::FiveSlotSetup }, seq![sw(4, CmvsPs2aCommandStackWordKind::OpaqueU32), sw(8, CmvsPs2aCommandStackWordKind::TaggedStringReference)])),
        17 | 23 => Some((8, CmvsPs2aCommandEffectKind::StartResourceChannel { bank: CmvsResourceChannelBank::TenSlotSetup }, seq![sw(4, CmvsPs2aCommandStackWordKind::OpaqueU32), sw(8, CmvsPs2aCommandStackWordKind::TaggedStringReference)])),
        21 => Some((4, CmvsPs2aCommandEffectKind::StorePrefixedInterpreterString { buffer_offset: 3356, prefix_field_offset: 10764, ensure_directories: false }, seq![sw(4, CmvsPs2aCommandStackWordKind::TaggedStringReference)])),
        22 => Some((4, CmvsPs2aCommandEffectKind::StorePrefixedInterpreterString { buffer_offset: 5404, prefix_field_offset: 7452, ensure_directories: true }, seq![sw(4, CmvsPs2aCommandStackWordKind::TaggedStringReference)])),
        24 => Some((8, CmvsPs2aCommandEffectKind::StartResourceChannel { bank: CmvsResourceChannelBank::SevenSlotSetup }, seq![sw(4, CmvsPs2aCommandStackWordKind::OpaqueU32), sw(8, CmvsPs2aCommandStackWordKind::TaggedStringReference)])),
        26 => Some((8, CmvsPs2aCommandEffectKind::StartResourceChannel { bank: CmvsResourceChannelBank::FiveSlotAltSetup }, seq![sw(4, CmvsPs2aCommandStackWordKind::OpaqueU32), sw(8, CmvsPs2aCommandStackWordKind::TaggedStringReference)])),
        29 => Some((4, CmvsPs2aCommandEffectKind::StoreInterpreterWord { field_offset: 1600 }, seq![sw(4, CmvsPs2aCommandStackWordKind::OpaqueU32)])),
        30 => Some((4, CmvsPs2aCommandEffectKind::StoreInterpreterWord { field_offset: 10712 }, seq![sw(4, CmvsPs2aCommandStackWordKind::OpaqueU32)])),
        31 => Some((4, CmvsPs2aCommandEffectKind::StoreProcessGlobalWord { address: 0x004f_0578 }, seq![sw(4, CmvsPs2aCommandStackWordKind::OpaqueU32)])),
        32 => Some((4, CmvsPs2aCommandEffectKind::CreateSlotObject { table_byte_offset: 1924 }, seq![sw(4, CmvsPs2aCommandStackWordKind::OpaqueU32)])),
        33 => Some((4, CmvsPs2aCommandEffectKind::DestroySlotObject { table_byte_offset: 1924 }, seq![sw(4, CmvsPs2aCommandStackWordKind::OpaqueU32)])),
        34 => Some((8, CmvsPs2aCommandEffectKind::ResetTextureChild { texture_table_base_offset: 1924, max_parent_slot: 0xff, max_child_id: 0x3ff, error_flag_field_offset: 10532, error_flag_mask: 0x10 }, seq![sw(4, CmvsPs2aCommandStackWordKind::OpaqueU32), sw(8, CmvsPs2aCommandStackWordKind::OpaqueU32)])),
        35 => Some((8, CmvsPs2aCommandEffectKind::SelectRenderViewport { slot_table_dword_index: 1924, error_flag_field_offset: 10532, error_flag_mask: 0x10 }, seq![sw(4, CmvsPs2aCommandStackWordKind::OpaqueU32), sw(8, CmvsPs2aCommandStackWordKind::OpaqueU32)])),
        39 => Some((8, CmvsPs2aCommandEffectKind::QueryScriptSlotOccupancy { slot_table_dword_index: 1924, max_slot: 255, error_flag_field_offset: 10532, error_flag_mask: 0x10, result_field_offset: 81220 }, seq![sw(4, CmvsPs2aCommandStackWordKind::OpaqueU32), sw(8, CmvsPs2aCommandStackWordKind::OpaqueU32)])),
        40 => Some((8, CmvsPs2aCommandEffectKind::MoveSlotObject { table_byte_offset: 1924 }, seq![sw(4, CmvsPs2aCommandStackWordKind::OpaqueU32), sw(8, CmvsPs2aCommandStackWordKind::OpaqueU32)])),
        46 => Some((8, CmvsPs2aCommandEffectKind::SelectPresentationSlot { slot_table_dword_index: 1924, max_slot: 255, error_flag_field_offset: 10532, error_flag_mask: 0x10 }, seq![sw(4, CmvsPs2aCommandStackWordKind::OpaqueU32), sw(8, CmvsPs2aCommandStackWordKind::OpaqueU32)])),
        47 => Some((0, CmvsPs2aCommandEffectKind::ClearTextureChannelTable { channel_table_base_offset: 1924 }, Seq::empty())),
        48 => Some((8, CmvsPs2aCommandEffectKind::LoadTextureParentResource { texture_table_base_offset: 1924, max_parent_slot: 0xff, result_field_offset: 81220, error_flag_field_offset: 10532, error_flag_mask: 0x10 }, seq![sw(4, CmvsPs2aCommandStackWordKind::OpaqueU32), sw(8, CmvsPs2aCommandStackWordKind::TaggedStringReference)])),
        51 => Some((4, CmvsPs2aCommandEffectKind::StoreScriptSlotPresentationState { slot_table_dword_index: 1924, error_mask: 0x10, result_field_offset: 81220 }, seq![sw(4, CmvsPs2aCommandStackWordKind::OpaqueU32)])),
        56 => Some((12, CmvsPs2aCommandEffectKind::LoadTextureChildResource { texture_table_base_offset: 1924, max_parent_slot: 0xff, max_child_id: 0x3ff, error_flag_field_offset: 10532, error_flag_mask: 0x10 }, seq![sw(4, CmvsPs2aCommandStackWordKind::OpaqueU32), sw(8, CmvsPs2aCommandStackWordKind::OpaqueU32), sw(12, CmvsPs2aCommandStackWordKind::TaggedStringReference)])),
        64 => Some((4, CmvsPs2aCommandEffectKind::InitializeTextureParentSurface { texture_table_base_offset: 1924, max_parent_slot: 0xff, error_flag_field_offset: 10532, error_flag_mask: 0x10 }, seq![sw(4, CmvsPs2aCommandStackWordKind::OpaqueU32)])),
        68 => Some((24, CmvsPs2aCommandEffectKind::ConfigureTextureChildRect { texture_table_base_offset: 1924, max_parent_slot: 0xff, max_child_id: 1023, error_flag_field_offset: 10532, parent_error_mask: 0x10, child_error_mask: 0x20 }, seq![sw(4, CmvsPs2aCommandStackWordKind::OpaqueU32), sw(8, CmvsPs2aCommandStackWordKind::OpaqueU32), sw(12, CmvsPs2aCommandStackWordKind::OpaqueU32), sw(16, CmvsPs2aCommandStackWordKind::OpaqueU32), sw(20, CmvsPs2aCommandStackWordKind::OpaqueU32), sw(24, CmvsPs2aCommandStackWordKind::OpaqueU32)])),
        69 => Some((16, CmvsPs2aCommandEffectKind::ConfigureTextureAuxiliaryPair { texture_table_base_offset: 1924, max_parent_slot: 0xff, max_child_id: 1023, error_flag_field_offset: 10532, parent_error_mask: 0x10, child_error_mask: 0x20 }, seq![sw(4, CmvsPs2aCommandStackWordKind::OpaqueU32), sw(8, CmvsPs2aCommandStackWordKind::OpaqueU32), sw(12, CmvsPs2aCommandStackWordKind::OpaqueU32), sw(16, CmvsPs2aCommandStackWordKind::OpaqueU32)])),
        70 => Some((16, CmvsPs2aCommandEffectKind::ConfigureTextureChildPosition { texture_table_base_offset: 1924, max_parent_slot: 0xff, max_child_id: 1023, error_flag_field_offset: 10532, parent_error_mask: 0x10, child_error_mask: 0x20 }, seq![sw(4, CmvsPs2aCommandStackWordKind::OpaqueU32), sw(8, CmvsPs2aCommandStackWordKind::OpaqueU32), sw(12, CmvsPs2aCommandStackWordKind::OpaqueU32), sw(16, CmvsPs2aCommandStackWordKind::OpaqueU32)])),
        71 => Some((12, CmvsPs2aCommandEffectKind::ConfigureTextureAuxiliaryWord { texture_table_base_offset: 1924, max_parent_slot: 0xff, max_child_id: 1023, error_flag_field_offset: 10532, parent_error_mask: 0x10, child_error_mask: 0x20 }, seq![sw(4, CmvsPs2aCommandStackWordKind::OpaqueU32), sw(8, CmvsPs2aCommandStackWordKind::OpaqueU32), sw(12, CmvsPs2aCommandStackWordKind::OpaqueU32)])),
        _ => None,
    }
}

/// Looks up the contract fields of the commands 0 to 71.
pub fn lookup(command_id: u16) -> (r: Option<(u8, CmvsPs2aCommandEffectKind, Vec<CmvsPs2aCommandStackWord>)>)
    ensures
        match r {
            Some(f) => spec_lookup(command_id) == Some((f.0, f.1, f.2@)),
            None => spec_lookup(command_id) is None,
        },
{
    Some(match command_id {
        0 => (0, CmvsPs2aCommandEffectKind::StopDispatch, Vec::new()),
        11 => (4, CmvsPs2aCommandEffectKind::ClearInterpreterTableWord { table_base_offset: 13228, table_word_count: 10 }, vec![stack_word(4, CmvsPs2aCommandStackWordKind::OpaqueU32)]),
        12 => (4, CmvsPs2aCommandEffectKind::LoadInterpreterTableWord { table_base_offset: 13228, table_word_count: 10, field_offset: 81220 }, vec![stack_word(4, CmvsPs2aCommandStackWordKind::OpaqueU32)]),
        16 | 18 | 19 | 20 => (8, CmvsPs2aCommandEffectKind::StartResourceChannel { bank: CmvsResourceChannelBank::FiveSlotSetup }, vec![stack_word(4, CmvsPs2aCommandStackWordKind::OpaqueU32), stack_word(8, CmvsPs2aCommandStackWordKind::TaggedStringReference)]),
        17 | 23 => (8, CmvsPs2aCommandEffectKind::StartResourceChannel { bank: CmvsResourceChannelBank::TenSlotSetup }, vec![stack_word(4, CmvsPs2aCommandStackWordKind::OpaqueU32), stack_word(8, CmvsPs2aCommandStackWordKind::TaggedStringReference)]),
        21 => (4, CmvsPs2aCommandEffectKind::StorePrefixedInterpreterString { buffer_offset: 3356, prefix_field_offset: 10764, ensure_directories: false }, vec![stack_word(4, CmvsPs2aCommandStackWordKind::TaggedStringReference)]),
        22 => (4, CmvsPs2aCommandEffectKind::StorePrefixedInterpreterString { buffer_offset: 5404, prefix_field_offset: 7452, ensure_directories: true }, vec![stack_word(4, CmvsPs2aCommandStackWordKind::TaggedStringReference)]),
        24 => (8, CmvsPs2aCommandEffectKind::StartResourceChannel { bank: CmvsResourceChannelBank::SevenSlotSetup }, vec![stack_word(4, CmvsPs2aCommandStackWordKind::OpaqueU32), stack_word(8, CmvsPs2aCommandStackWordKind::TaggedStringReference)]),
        26 => (8, CmvsPs2aCommandEffectKind::StartResourceChannel { bank: CmvsResourceChannelBank::FiveSlotAltSetup }, vec![stack_word(4, CmvsPs2aCommandStackWordKind::OpaqueU32), stack_word(8, CmvsPs2aCommandStackWordKind::TaggedStringReference)]),
        29 => (4, CmvsPs2aCommandEffectKind::StoreInterpreterWord { field_offset: 1600 }, vec![stack_word(4, CmvsPs2aCommandStackWordKind::OpaqueU32)]),
        30 => (4, CmvsPs2aCommandEffectKind::StoreInterpreterWord { field_offset: 10712 }, vec![stack_word(4, CmvsPs2aCommandStackWordKind::OpaqueU32)]),
        31 => (4, CmvsPs2aCommandEffectKind::StoreProcessGlobalWord { address: 0x004f_0578 }, vec![stack_word(4, CmvsPs2aCommandStackWordKind::OpaqueU32)]),
        32 => (4, CmvsPs2aCommandEffectKind::CreateSlotObject { table_byte_offset: 1924 }, vec![stack_word(4, CmvsPs2aCommandStackWordKind::OpaqueU32)]),
        33 => (4, CmvsPs2aCommandEffectKind::DestroySlotObject { table_byte_offset: 1924 }, vec![stack_word(4, CmvsPs2aCommandStackWordKind::OpaqueU32)]),
        34 => (8, CmvsPs2aCommandEffectKind::ResetTextureChild { texture_table_base_offset: 1924, max_parent_slot: 0xff, max_child_id: 0x3ff, error_flag_field_offset: 10532, error_flag_mask: 0x10 }, vec![stack_word(4, CmvsPs2aCommandStackWordKind::OpaqueU32), stack_word(8, CmvsPs2aCommandStackWordKind::OpaqueU32)]),
        35 => (8, CmvsPs2aCommandEffectKind::SelectRenderViewport { slot_table_dword_index: 1924, error_flag_field_offset: 10532, error_flag_mask: 0x10 }, vec![stack_word(4, CmvsPs2aCommandStackWordKind::OpaqueU32), stack_word(8, CmvsPs2aCommandStackWordKind::OpaqueU32)]),
        39 => (8, CmvsPs2aCommandEffectKind::QueryScriptSlotOccupancy { slot_table_dword_index: 1924, max_slot: 255, error_flag_field_offset: 10532, error_flag_mask: 0x10, result_field_offset: 81220 }, vec![stack_word(4, CmvsPs2aCommandStackWordKind::OpaqueU32), stack_word(8, CmvsPs2aCommandStackWordKind::OpaqueU32)]),
        40 => (8, CmvsPs2aCommandEffectKind::MoveSlotObject { table_byte_offset: 1924 }, vec![stack_word(4, CmvsPs2aCommandStackWordKind::OpaqueU32), stack_word(8, CmvsPs2aCommandStackWordKind::OpaqueU32)]),
        46 => (8, CmvsPs2aCommandEffectKind::SelectPresentationSlot { slot_table_dword_index: 1924, max_slot: 255, error_flag_field_offset: 10532, error_flag_mask: 0x10 }, vec![stack_word(4, CmvsPs2aCommandStackWordKind::OpaqueU32), stack_word(8, CmvsPs2aCommandStackWordKind::OpaqueU32)]),
        47 => (0, CmvsPs2aCommandEffectKind::ClearTextureChannelTable { channel_table_base_offset: 1924 }, Vec::new()),
        48 => (8, CmvsPs2aCommandEffectKind::LoadTextureParentResource { texture_table_base_offset: 1924, max_parent_slot: 0xff, result_field_offset: 81220, error_flag_field_offset: 10532, error_flag_mask: 0x10 }, vec![stack_word(4, CmvsPs2aCommandStackWordKind::OpaqueU32), stack_word(8, CmvsPs2aCommandStackWordKind::TaggedStringReference)]),
        51 => (4, CmvsPs2aCommandEffectKind::StoreScriptSlotPresentationState { slot_table_dword_index: 1924, error_mask: 0x10, result_field_offset: 81220 }, vec![stack_word(4, CmvsPs2aCommandStackWordKind::OpaqueU32)]),
        56 => (12, CmvsPs2aCommandEffectKind::LoadTextureChildResource { texture_table_base_offset: 1924, max_parent_slot: 0xff, max_child_id: 0x3ff, error_flag_field_offset: 10532, error_flag_mask: 0x10 }, vec![stack_word(4, CmvsPs2aCommandStackWordKind::OpaqueU32), stack_word(8, CmvsPs2aCommandStackWordKind::OpaqueU32), stack_word(12, CmvsPs2aCommandStackWordKind::TaggedStringReference)]),
        64 => (4, CmvsPs2aCommandEffectKind::InitializeTextureParentSurface { texture_table_base_offset: 1924, max_parent_slot: 0xff, error_flag_field_offset: 10532, error_flag_mask: 0x10 }, vec![stack_word(4, CmvsPs2aCommandStackWordKind::OpaqueU32)]),
        68 => (24, CmvsPs2aCommandEffectKind::ConfigureTextureChildRect { texture_table_base_offset: 1924, max_parent_slot: 0xff, max_child_id: 1023, error_flag_field_offset: 10532, parent_error_mask: 0x10, child_error_mask: 0x20 }, vec![stack_word(4, CmvsPs2aCommandStackWordKind::OpaqueU32), stack_word(8, CmvsPs2aCommandStackWordKind::OpaqueU32), stack_word(12, CmvsPs2aCommandStackWordKind::OpaqueU32), stack_word(16, CmvsPs2aCommandStackWordKind::OpaqueU32), stack_word(20, CmvsPs2aCommandStackWordKind::OpaqueU32), stack_word(24, CmvsPs2aCommandStackWordKind::OpaqueU32)]),
        69 => (16, CmvsPs2aCommandEffectKind::ConfigureTextureAuxiliaryPair { texture_table_base_offset: 1924, max_parent_slot: 0xff, max_child_id: 1023, error_flag_field_offset: 10532, parent_error_mask: 0x10, child_error_mask: 0x20 }, vec![stack_word(4, CmvsPs2aCommandStackWordKind::OpaqueU32), stack_word(8, CmvsPs2aCommandStackWordKind::OpaqueU32), stack_word(12, CmvsPs2aCommandStackWordKind::OpaqueU32), stack_word(16, CmvsPs2aCommandStackWordKind::OpaqueU32)]),
        70 => (16, CmvsPs2aCommandEffectKind::ConfigureTextureChildPosition { texture_table_base_offset: 1924, max_parent_slot: 0xff, max_child_id: 1023, error_flag_field_offset: 10532, parent_error_mask: 0x10, child_error_mask: 0x20 }, vec![stack_word(4, CmvsPs2aCommandStackWordKind::OpaqueU32), stack_word(8, CmvsPs2aCommandStackWordKind::OpaqueU32), stack_word(12, CmvsPs2aCommandStackWordKind::OpaqueU32), stack_word(16, CmvsPs2aCommandStackWordKind::OpaqueU32)]),
        71 => (12, CmvsPs2aCommandEffectKind::ConfigureTextureAuxiliaryWord { texture_table_base_offset: 1924, max_parent_slot: 0xff, max_child_id: 1023, error_flag_field_offset: 10532, parent_error_mask: 0x10, child_error_mask: 0x20 }, vec![stack_word(4, CmvsPs2aCommandStackWordKind::OpaqueU32), stack_word(8, CmvsPs2aCommandStackWordKind::OpaqueU32), stack_word(12, CmvsPs2aCommandStackWordKind::OpaqueU32)]),
        _ => return None,
    })
}

/// Every entry of this table places its words inside its popped bytes, and
/// pops exactly the words it reads unless it is command 156.
pub proof fn lemma_lookup_checked(command_id: u16)
    ensures
        match spec_lookup(command_id) {
            Some((pop, _effect, words)) => words_well_placed(words, pop) && (command_id == 156 || pop == 4 * words.len()),
            None => true,
        },
{
    reveal_with_fuel(offsets_in_range, 13);
    reveal_with_fuel(offset_unused, 13);
    reveal_with_fuel(offsets_distinct, 13);
    if command_id == 0 {
        assert(spec_lookup(command_id) is Some);
    } else if command_id == 11 {
        assert(spec_lookup(command_id) is Some);
    } else if command_id == 12 {
        assert(spec_lookup(command_id) is Some);
    } else if command_id == 16 || command_id == 18 || command_id == 19 || command_id == 20 {
        assert(spec_lookup(command_id) is Some);
    } else if command_id == 17 || command_id == 23 {
        assert(spec_lookup(command_id) is Some);
    } else if command_id == 21 {
        assert(spec_lookup(command_id) is Some);
    } else if command_id == 22 {
        assert(spec_lookup(command_id) is Some);
    } else if command_id == 24 {
        assert(spec_lookup(command_id) is Some);
    } else if command_id == 26 {
        assert(spec_lookup(command_id) is Some);
    } else if command_id == 29 {
        assert(spec_lookup(command_id) is Some);
    } else if command_id == 30 {
        assert(spec_lookup(command_id) is Some);
    } else if command_id == 31 {
        assert(spec_lookup(command_id) is Some);
    } else if command_id == 32 {
        assert(spec_lookup(command_id) is Some);
    } else if command_id == 33 {
        assert(spec_lookup(command_id) is Some);
    } else if command_id == 34 {
        assert(spec_lookup(command_id) is Some);
    } else if command_id == 35 {
        assert(spec_lookup(command_id) is Some);
    } else if command_id == 39 {
        assert(spec_lookup(command_id) is Some);
    } else if command_id == 40 {
        assert(spec_lookup(command_id) is Some);
    } else if command_id == 46 {
        assert(spec_lookup(command_id) is Some);
    } else if command_id == 47 {
        assert(spec_lookup(command_id) is Some);
    } else if command_id == 48 {
        assert(spec_lookup(command_id) is Some);
    } else if command_id == 51 {
        assert(spec_lookup(command_id) is Some);
    } else if command_id == 56 {
        assert(spec_lookup(command_id) is Some);
    } else if command_id == 64 {
        assert(spec_lookup(command_id) is Some);
    } else if command_id == 68 {
        assert(spec_lookup(command_id) is Some);
    } else if command_id == 69 {
        assert(spec_lookup(command_id) is Some);
    } else if command_id == 70 {
        assert(spec_lookup(command_id) is Some);
    } else if command_id == 71 {
        assert(spec_lookup(command_id) is Some);
    }
}

} // verus!
