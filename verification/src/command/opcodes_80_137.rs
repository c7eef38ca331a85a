use vstd::prelude::*;
use super::{CmvsPs2aCommandEffectKind, CmvsPs2aCommandStackWord, CmvsPs2aCommandStackWordKind, CmvsResourceChannelBank, sw, stack_word,
    words_well_placed, offsets_in_range, offset_unused, offsets_distinct};

verus! {

/// The recovered contract fields of the commands 80 to 137.
pub open spec fn spec_lookup(command_id: u16) -> Option<(u8, CmvsPs2aCommandEffectKind, Seq<CmvsPs2aCommandStackWord>)> {
    match command_id {
        80 => Some((8, CmvsPs2aCommandEffectKind::InitializeTextureChildSurface { texture_table_base_offset: 1924, max_parent_slot: 0xff, max_child_id: 0x3ff, error_flag_field_offset: 10532, error_flag_mask: 0x10 }, seq![sw(4, CmvsPs2aCommandStackWordKind::OpaqueU32), sw(8, CmvsPs2aCommandStackWordKind::OpaqueU32)])),
        88 => Some((16, CmvsPs2aCommandEffectKind::ConfigureScreenOffset { error_mask: 0x0001_0000 }, seq![sw(4, CmvsPs2aCommandStackWordKind::OpaqueU32), sw(8, CmvsPs2aCommandStackWordKind::OpaqueU32), sw(12, CmvsPs2aCommandStackWordKind::OpaqueU32), sw(16, CmvsPs2aCommandStackWordKind::OpaqueU32)])),
        89 => Some((12, CmvsPs2aCommandEffectKind::ConfigureScreenScale { error_mask: 0x0001_0000 }, seq![sw(4, CmvsPs2aCommandStackWordKind::OpaqueU32), sw(8, CmvsPs2aCommandStackWordKind::OpaqueU32), sw(12, CmvsPs2aCommandStackWordKind::OpaqueU32)])),
        90 => Some((16, CmvsPs2aCommandEffectKind::ConfigureScreenRgb { error_mask: 0x0001_0000 }, seq![sw(4, CmvsPs2aCommandStackWordKind::OpaqueU32), sw(8, CmvsPs2aCommandStackWordKind::OpaqueU32), sw(12, CmvsPs2aCommandStackWordKind::OpaqueU32), sw(16, CmvsPs2aCommandStackWordKind::OpaqueU32)])),
        91 => Some((8, CmvsPs2aCommandEffectKind::ConfigureScreenRotation { error_mask: 0x0001_0000 }, seq![sw(4, CmvsPs2aCommandStackWordKind::OpaqueU32), sw(8, CmvsPs2aCommandStackWordKind::OpaqueU32)])),
        92 => Some((8, CmvsPs2aCommandEffectKind::ConfigureScreenField { error_mask: 0x0001_0000, field_offset: 11 }, seq![sw(4, CmvsPs2aCommandStackWordKind::OpaqueU32), sw(8, CmvsPs2aCommandStackWordKind::OpaqueU32)])),
        93 => Some((12, CmvsPs2aCommandEffectKind::ConfigureScreenScalePair { error_mask: 0x0001_0000 }, seq![sw(4, CmvsPs2aCommandStackWordKind::OpaqueU32), sw(8, CmvsPs2aCommandStackWordKind::OpaqueU32), sw(12, CmvsPs2aCommandStackWordKind::OpaqueU32)])),
        94 => Some((8, CmvsPs2aCommandEffectKind::ConfigureScreenFlag { error_mask: 0x0001_0000 }, seq![sw(4, CmvsPs2aCommandStackWordKind::OpaqueU32), sw(8, CmvsPs2aCommandStackWordKind::BooleanU32)])),
        95 => Some((8, CmvsPs2aCommandEffectKind::ConfigureScreenField { error_mask: 0x0001_0000, field_offset: 0 }, seq![sw(4, CmvsPs2aCommandStackWordKind::OpaqueU32), sw(8, CmvsPs2aCommandStackWordKind::OpaqueU32)])),
        96 => Some((12, CmvsPs2aCommandEffectKind::ConfigureScreenOffsetDirect { error_mask: 0x0001_0000 }, seq![sw(4, CmvsPs2aCommandStackWordKind::OpaqueU32), sw(8, CmvsPs2aCommandStackWordKind::OpaqueU32), sw(12, CmvsPs2aCommandStackWordKind::OpaqueU32)])),
        97 => Some((8, CmvsPs2aCommandEffectKind::ConfigureScreenScaleDirect { error_mask: 0x0001_0000 }, seq![sw(4, CmvsPs2aCommandStackWordKind::OpaqueU32), sw(8, CmvsPs2aCommandStackWordKind::OpaqueU32)])),
        98 => Some((12, CmvsPs2aCommandEffectKind::ConfigureScreenRgbDirect { error_mask: 0x0001_0000 }, seq![sw(4, CmvsPs2aCommandStackWordKind::OpaqueU32), sw(8, CmvsPs2aCommandStackWordKind::OpaqueU32), sw(12, CmvsPs2aCommandStackWordKind::OpaqueU32)])),
        99 => Some((4, CmvsPs2aCommandEffectKind::ConfigureScreenRotationDirect { error_mask: 0x0001_0000 }, seq![sw(4, CmvsPs2aCommandStackWordKind::OpaqueU32)])),
        100 => Some((4, CmvsPs2aCommandEffectKind::ConfigureScreenFieldDirect { error_mask: 0x0001_0000, field_offset: 11 }, seq![sw(4, CmvsPs2aCommandStackWordKind::OpaqueU32)])),
        101 => Some((8, CmvsPs2aCommandEffectKind::ConfigureScreenScalePairDirect { error_mask: 0x0001_0000 }, seq![sw(4, CmvsPs2aCommandStackWordKind::OpaqueU32), sw(8, CmvsPs2aCommandStackWordKind::OpaqueU32)])),
        102 => Some((8, CmvsPs2aCommandEffectKind::ConfigureScreenField { error_mask: 0x0001_0000, field_offset: 38 }, seq![sw(4, CmvsPs2aCommandStackWordKind::OpaqueU32), sw(8, CmvsPs2aCommandStackWordKind::OpaqueU32)])),
        103 => Some((12, CmvsPs2aCommandEffectKind::ConfigureScreenPair { error_mask: 0x0001_0000 }, seq![sw(4, CmvsPs2aCommandStackWordKind::OpaqueU32), sw(8, CmvsPs2aCommandStackWordKind::OpaqueU32), sw(12, CmvsPs2aCommandStackWordKind::OpaqueU32)])),
        104 => Some((4, CmvsPs2aCommandEffectKind::CommitScreenParams { error_mask: 0x0001_0000 }, seq![sw(4, CmvsPs2aCommandStackWordKind::BooleanU32)])),
        105 => Some((4, CmvsPs2aCommandEffectKind::WaitScreenCommit { error_mask: 0x0001_0000, result_field_offset: 81220 }, seq![sw(4, CmvsPs2aCommandStackWordKind::OpaqueU32)])),
        106 => Some((0, CmvsPs2aCommandEffectKind::QueryScreenPending { result_field_offset: 81220 }, Seq::empty())),
        128 => Some((4, CmvsPs2aCommandEffectKind::ReloadRootScript, seq![sw(4, CmvsPs2aCommandStackWordKind::TaggedStringReference)])),
        129 => Some((8, CmvsPs2aCommandEffectKind::CallScript, seq![sw(4, CmvsPs2aCommandStackWordKind::OpaqueU32), sw(8, CmvsPs2aCommandStackWordKind::TaggedStringReference)])),
        135 => Some((4, CmvsPs2aCommandEffectKind::StoreProcessGlobalBoolean { address: 0x004f_057c }, seq![sw(4, CmvsPs2aCommandStackWordKind::BooleanU32)])),
        136 => Some((20, CmvsPs2aCommandEffectKind::StoreInterpreterTimestampedRecord { table_base_offset: 13272, record_stride_bytes: 28, max_index: 63 }, seq![sw(4, CmvsPs2aCommandStackWordKind::OpaqueU32), sw(8, CmvsPs2aCommandStackWordKind::OpaqueU32), sw(12, CmvsPs2aCommandStackWordKind::OpaqueU32), sw(16, CmvsPs2aCommandStackWordKind::OpaqueU32), sw(20, CmvsPs2aCommandStackWordKind::OpaqueU32)])),
        137 => Some((4, CmvsPs2aCommandEffectKind::StoreInterpreterWord { field_offset: 3317 }, seq![sw(4, CmvsPs2aCommandStackWordKind::BooleanU32)])),
        _ => None,
    }
}

/// Looks up the contract fields of the commands 80 to 137.
pub fn lookup(command_id: u16) -> (r: Option<(u8, CmvsPs2aCommandEffectKind, Vec<CmvsPs2aCommandStackWord>)>)
    ensures
        match r {
            Some(f) => spec_lookup(command_id) == Some((f.0, f.1, f.2@)),
            None => spec_lookup(command_id) is None,
        },
{
    Some(match command_id {
        80 => (8, CmvsPs2aCommandEffectKind::InitializeTextureChildSurface { texture_table_base_offset: 1924, max_parent_slot: 0xff, max_child_id: 0x3ff, error_flag_field_offset: 10532, error_flag_mask: 0x10 }, vec![stack_word(4, CmvsPs2aCommandStackWordKind::OpaqueU32), stack_word(8, CmvsPs2aCommandStackWordKind::OpaqueU32)]),
        88 => (16, CmvsPs2aCommandEffectKind::ConfigureScreenOffset { error_mask: 0x0001_0000 }, vec![stack_word(4, CmvsPs2aCommandStackWordKind::OpaqueU32), stack_word(8, CmvsPs2aCommandStackWordKind::OpaqueU32), stack_word(12, CmvsPs2aCommandStackWordKind::OpaqueU32), stack_word(16, CmvsPs2aCommandStackWordKind::OpaqueU32)]),
        89 => (12, CmvsPs2aCommandEffectKind::ConfigureScreenScale { error_mask: 0x0001_0000 }, vec![stack_word(4, CmvsPs2aCommandStackWordKind::OpaqueU32), stack_word(8, CmvsPs2aCommandStackWordKind::OpaqueU32), stack_word(12, CmvsPs2aCommandStackWordKind::OpaqueU32)]),
        90 => (16, CmvsPs2aCommandEffectKind::ConfigureScreenRgb { error_mask: 0x0001_0000 }, vec![stack_word(4, CmvsPs2aCommandStackWordKind::OpaqueU32), stack_word(8, CmvsPs2aCommandStackWordKind::OpaqueU32), stack_word(12, CmvsPs2aCommandStackWordKind::OpaqueU32), stack_word(16, CmvsPs2aCommandStackWordKind::OpaqueU32)]),
        91 => (8, CmvsPs2aCommandEffectKind::ConfigureScreenRotation { error_mask: 0x0001_0000 }, vec![stack_word(4, CmvsPs2aCommandStackWordKind::OpaqueU32), stack_word(8, CmvsPs2aCommandStackWordKind::OpaqueU32)]),
        92 => (8, CmvsPs2aCommandEffectKind::ConfigureScreenField { error_mask: 0x0001_0000, field_offset: 11 }, vec![stack_word(4, CmvsPs2aCommandStackWordKind::OpaqueU32), stack_word(8, CmvsPs2aCommandStackWordKind::OpaqueU32)]),
        93 => (12, CmvsPs2aCommandEffectKind::ConfigureScreenScalePair { error_mask: 0x0001_0000 }, vec![stack_word(4, CmvsPs2aCommandStackWordKind::OpaqueU32), stack_word(8, CmvsPs2aCommandStackWordKind::OpaqueU32), stack_word(12, CmvsPs2aCommandStackWordKind::OpaqueU32)]),
        94 => (8, CmvsPs2aCommandEffectKind::ConfigureScreenFlag { error_mask: 0x0001_0000 }, vec![stack_word(4, CmvsPs2aCommandStackWordKind::OpaqueU32), stack_word(8, CmvsPs2aCommandStackWordKind::BooleanU32)]),
        95 => (8, CmvsPs2aCommandEffectKind::ConfigureScreenField { error_mask: 0x0001_0000, field_offset: 0 }, vec![stack_word(4, CmvsPs2aCommandStackWordKind::OpaqueU32), stack_word(8, CmvsPs2aCommandStackWordKind::OpaqueU32)]),
        96 => (12, CmvsPs2aCommandEffectKind::ConfigureScreenOffsetDirect { error_mask: 0x0001_0000 }, vec![stack_word(4, CmvsPs2aCommandStackWordKind::OpaqueU32), stack_word(8, CmvsPs2aCommandStackWordKind::OpaqueU32), stack_word(12, CmvsPs2aCommandStackWordKind::OpaqueU32)]),
        97 => (8, CmvsPs2aCommandEffectKind::ConfigureScreenScaleDirect { error_mask: 0x0001_0000 }, vec![stack_word(4, CmvsPs2aCommandStackWordKind::OpaqueU32), stack_word(8, CmvsPs2aCommandStackWordKind::OpaqueU32)]),
        98 => (12, CmvsPs2aCommandEffectKind::ConfigureScreenRgbDirect { error_mask: 0x0001_0000 }, vec![stack_word(4, CmvsPs2aCommandStackWordKind::OpaqueU32), stack_word(8, CmvsPs2aCommandStackWordKind::OpaqueU32), stack_word(12, CmvsPs2aCommandStackWordKind::OpaqueU32)]),
        99 => (4, CmvsPs2aCommandEffectKind::ConfigureScreenRotationDirect { error_mask: 0x0001_0000 }, vec![stack_word(4, CmvsPs2aCommandStackWordKind::OpaqueU32)]),
        100 => (4, CmvsPs2aCommandEffectKind::ConfigureScreenFieldDirect { error_mask: 0x0001_0000, field_offset: 11 }, vec![stack_word(4, CmvsPs2aCommandStackWordKind::OpaqueU32)]),
        101 => (8, CmvsPs2aCommandEffectKind::ConfigureScreenScalePairDirect { error_mask: 0x0001_0000 }, vec![stack_word(4, CmvsPs2aCommandStackWordKind::OpaqueU32), stack_word(8, CmvsPs2aCommandStackWordKind::OpaqueU32)]),
        102 => (8, CmvsPs2aCommandEffectKind::ConfigureScreenField { error_mask: 0x0001_0000, field_offset: 38 }, vec![stack_word(4, CmvsPs2aCommandStackWordKind::OpaqueU32), stack_word(8, CmvsPs2aCommandStackWordKind::OpaqueU32)]),
        103 => (12, CmvsPs2aCommandEffectKind::ConfigureScreenPair { error_mask: 0x0001_0000 }, vec![stack_word(4, CmvsPs2aCommandStackWordKind::OpaqueU32), stack_word(8, CmvsPs2aCommandStackWordKind::OpaqueU32), stack_word(12, CmvsPs2aCommandStackWordKind::OpaqueU32)]),
        104 => (4, CmvsPs2aCommandEffectKind::CommitScreenParams { error_mask: 0x0001_0000 }, vec![stack_word(4, CmvsPs2aCommandStackWordKind::BooleanU32)]),
        105 => (4, CmvsPs2aCommandEffectKind::WaitScreenCommit { error_mask: 0x0001_0000, result_field_offset: 81220 }, vec![stack_word(4, CmvsPs2aCommandStackWordKind::OpaqueU32)]),
        106 => (0, CmvsPs2aCommandEffectKind::QueryScreenPending { result_field_offset: 81220 }, Vec::new()),
        128 => (4, CmvsPs2aCommandEffectKind::ReloadRootScript, vec![stack_word(4, CmvsPs2aCommandStackWordKind::TaggedStringReference)]),
        129 => (8, CmvsPs2aCommandEffectKind::CallScript, vec![stack_word(4, CmvsPs2aCommandStackWordKind::OpaqueU32), stack_word(8, CmvsPs2aCommandStackWordKind::TaggedStringReference)]),
        135 => (4, CmvsPs2aCommandEffectKind::StoreProcessGlobalBoolean { address: 0x004f_057c }, vec![stack_word(4, CmvsPs2aCommandStackWordKind::BooleanU32)]),
        136 => (20, CmvsPs2aCommandEffectKind::StoreInterpreterTimestampedRecord { table_base_offset: 13272, record_stride_bytes: 28, max_index: 63 }, vec![stack_word(4, CmvsPs2aCommandStackWordKind::OpaqueU32), stack_word(8, CmvsPs2aCommandStackWordKind::OpaqueU32), stack_word(12, CmvsPs2aCommandStackWordKind::OpaqueU32), stack_word(16, CmvsPs2aCommandStackWordKind::OpaqueU32), stack_word(20, CmvsPs2aCommandStackWordKind::OpaqueU32)]),
        137 => (4, CmvsPs2aCommandEffectKind::StoreInterpreterWord { field_offset: 3317 }, vec![stack_word(4, CmvsPs2aCommandStackWordKind::BooleanU32)]),
        _ => return None,
    })
}

/// Every entry of this table places its words inside its popped bytes, and
/// pops exactly the words it reads unless it is command 156.
pub proof fn lemma_lookup_checked(command_id: u16)
    ensures
        match spec_lookup(command_id) {
            Some((pop, _effect, words)) => words_well_placed(words, pop) && (command_id == 156 || pop == 4 * words.len()),
            None => true,
        },
{
    reveal_with_fuel(offsets_in_range, 13);
    reveal_with_fuel(offset_unused, 13);
    reveal_with_fuel(offsets_distinct, 13);
    if command_id == 80 {
        assert(spec_lookup(command_id) is Some);
    } else if command_id == 88 {
        assert(spec_lookup(command_id) is Some);
    } else if command_id == 89 {
        assert(spec_lookup(command_id) is Some);
    } else if command_id == 90 {
        assert(spec_lookup(command_id) is Some);
    } else if command_id == 91 {
        assert(spec_lookup(command_id) is Some);
    } else if command_id == 92 {
        assert(spec_lookup(command_id) is Some);
    } else if command_id == 93 {
        assert(spec_lookup(command_id) is Some);
    } else if command_id == 94 {
        assert(spec_lookup(command_id) is Some);
    } else if command_id == 95 {
        assert(spec_lookup(command_id) is Some);
    } else if command_id == 96 {
        assert(spec_lookup(command_id) is Some);
    } else if command_id == 97 {
        assert(spec_lookup(command_id) is Some);
    } else if command_id == 98 {
        assert(spec_lookup(command_id) is Some);
    } else if command_id == 99 {
        assert(spec_lookup(command_id) is Some);
    } else if command_id == 100 {
        assert(spec_lookup(command_id) is Some);
    } else if command_id == 101 {
        assert(spec_lookup(command_id) is Some);
    } else if command_id == 102 {
        assert(spec_lookup(command_id) is Some);
    } else if command_id == 103 {
        assert(spec_lookup(command_id) is Some);
    } else if command_id == 104 {
        assert(spec_lookup(command_id) is Some);
    } else if command_id == 105 {
        assert(spec_lookup(command_id) is Some);
    } else if command_id == 106 {
        assert(spec_lookup(command_id) is Some);
    } else if command_id == 128 {
        assert(spec_lookup(command_id) is Some);
    } else if command_id == 129 {
        assert(spec_lookup(command_id) is Some);
    } else if command_id == 135 {
        assert(spec_lookup(command_id) is Some);
    } else if command_id == 136 {
        assert(spec_lookup(command_id) is Some);
    } else if command_id == 137 {
        assert(spec_lookup(command_id) is Some);
    }
}

} // verus!
