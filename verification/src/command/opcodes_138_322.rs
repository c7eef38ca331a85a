use vstd::prelude::*;
use super::{CmvsPs2aCommandEffectKind, CmvsPs2aCommandStackWord, CmvsPs2aCommandStackWordKind, CmvsResourceChannelBank, sw, stack_word,
    words_well_placed, offsets_in_range, offset_unused, offsets_distinct};

verus! {

/// The recovered contract fields of the commands 138 to 322.
pub open spec fn spec_lookup(command_id: u16) -> Option<(u8, CmvsPs2aCommandEffectKind, Seq<CmvsPs2aCommandStackWord>)> {
    match command_id {
        138 => Some((4, CmvsPs2aCommandEffectKind::ResumeInterpreterCoroutineRecord { record_table_base_offset: 13272, record_stride_bytes: 28, max_index_mask: 63 }, seq![sw(4, CmvsPs2aCommandStackWordKind::OpaqueU32)])),
        139 => Some((4, CmvsPs2aCommandEffectKind::MarkInterpreterRecordUnused { record_table_base_offset: 13280, record_count: 64, record_stride_bytes: 28 }, seq![sw(4, CmvsPs2aCommandStackWordKind::OpaqueU32)])),
        143 => Some((4, CmvsPs2aCommandEffectKind::RequestWindowCaption { prefix_field_offset: Some(10764) }, seq![sw(4, CmvsPs2aCommandStackWordKind::TaggedStringReference)])),
        144 => Some((0, CmvsPs2aCommandEffectKind::StoreInterpreterConstant { field_offset: 2940, value: 1 }, Seq::empty())),
        145 => Some((12, CmvsPs2aCommandEffectKind::MutateProcessFlagRange, seq![sw(4, CmvsPs2aCommandStackWordKind::OpaqueU32), sw(8, CmvsPs2aCommandStackWordKind::OpaqueU32), sw(12, CmvsPs2aCommandStackWordKind::BooleanU32)])),
        146 => Some((12, CmvsPs2aCommandEffectKind::StoreProcessIndexedRange, seq![sw(4, CmvsPs2aCommandStackWordKind::OpaqueU32), sw(8, CmvsPs2aCommandStackWordKind::OpaqueU32), sw(12, CmvsPs2aCommandStackWordKind::OpaqueU32)])),
        147 => Some((12, CmvsPs2aCommandEffectKind::StoreProcessFloatRange, seq![sw(4, CmvsPs2aCommandStackWordKind::OpaqueU32), sw(8, CmvsPs2aCommandStackWordKind::OpaqueU32), sw(12, CmvsPs2aCommandStackWordKind::OpaqueU32)])),
        148 => Some((12, CmvsPs2aCommandEffectKind::StoreProcessStringRange, seq![sw(4, CmvsPs2aCommandStackWordKind::OpaqueU32), sw(8, CmvsPs2aCommandStackWordKind::OpaqueU32), sw(12, CmvsPs2aCommandStackWordKind::TaggedStringReference)])),
        152 => Some((4, CmvsPs2aCommandEffectKind::AppendPrivateStringToList { list_id: 152, length_field_offset: 81220 }, seq![sw(4, CmvsPs2aCommandStackWordKind::TaggedStringReference)])),
        153 => Some((4, CmvsPs2aCommandEffectKind::SelectSystemCursor { manager_field_offset: 32, current_index_field_offset: 4 }, seq![sw(4, CmvsPs2aCommandStackWordKind::OpaqueU32)])),
        156 => Some((8, CmvsPs2aCommandEffectKind::NoOpCommand, Seq::empty())),
        160 => Some((12, CmvsPs2aCommandEffectKind::PlayAudio, seq![sw(4, CmvsPs2aCommandStackWordKind::TaggedStringReference), sw(8, CmvsPs2aCommandStackWordKind::OpaqueU32), sw(12, CmvsPs2aCommandStackWordKind::BooleanU32)])),
        161 => Some((0, CmvsPs2aCommandEffectKind::StopAudio, Seq::empty())),
        162 => Some((4, CmvsPs2aCommandEffectKind::FadeOutAudio, seq![sw(4, CmvsPs2aCommandStackWordKind::OpaqueU32)])),
        164 => Some((16, CmvsPs2aCommandEffectKind::PlayPairedAudio, seq![sw(4, CmvsPs2aCommandStackWordKind::TaggedStringReference), sw(8, CmvsPs2aCommandStackWordKind::TaggedStringReference), sw(12, CmvsPs2aCommandStackWordKind::OpaqueU32), sw(16, CmvsPs2aCommandStackWordKind::BooleanU32)])),
        176 => Some((20, CmvsPs2aCommandEffectKind::RegisterResourceChannelSlot { max_slot: 5, table_base_offset: 1608, record_stride_bytes: 52, gate_field_offset: 1556, error_flag_field_offset: 10532, error_flag_mask: 0x200 }, seq![sw(4, CmvsPs2aCommandStackWordKind::OpaqueU32), sw(8, CmvsPs2aCommandStackWordKind::TaggedStringReference), sw(12, CmvsPs2aCommandStackWordKind::BooleanU32), sw(16, CmvsPs2aCommandStackWordKind::BooleanU32), sw(20, CmvsPs2aCommandStackWordKind::OpaqueU32)])),
        177 => Some((8, CmvsPs2aCommandEffectKind::StoreChannelVisibilityRecord { enabled_field_base_offset: 1640, touched_field_base_offset: 1656, record_stride_bytes: 52, notify_gate_field_offset: 1556 }, seq![sw(4, CmvsPs2aCommandStackWordKind::OpaqueU32), sw(8, CmvsPs2aCommandStackWordKind::BooleanU32)])),
        179 => Some((4, CmvsPs2aCommandEffectKind::ResetChannelVisibilityRecord { name_buffer_base_offset: 1608, touched_field_base_offset: 1656, record_stride_bytes: 52, error_flag_mask: 0x200, teardown_slot_table_offset: 2368 }, seq![sw(4, CmvsPs2aCommandStackWordKind::OpaqueU32)])),
        200 => Some((0, CmvsPs2aCommandEffectKind::QueryPointerPosition { x_field_offset: 81224, y_field_offset: 81228 }, Seq::empty())),
        202 => Some((16, CmvsPs2aCommandEffectKind::HitTestPointerRect { result_field_offset: 81220 }, seq![sw(4, CmvsPs2aCommandStackWordKind::OpaqueU32), sw(8, CmvsPs2aCommandStackWordKind::OpaqueU32), sw(12, CmvsPs2aCommandStackWordKind::OpaqueU32), sw(16, CmvsPs2aCommandStackWordKind::OpaqueU32)])),
        203 => Some((28, CmvsPs2aCommandEffectKind::HitTestPointerRegion { result_field_offset: 81220 }, seq![sw(4, CmvsPs2aCommandStackWordKind::OpaqueU32), sw(8, CmvsPs2aCommandStackWordKind::OpaqueU32), sw(12, CmvsPs2aCommandStackWordKind::OpaqueU32), sw(16, CmvsPs2aCommandStackWordKind::OpaqueU32), sw(20, CmvsPs2aCommandStackWordKind::OpaqueU32), sw(24, CmvsPs2aCommandStackWordKind::OpaqueU32), sw(28, CmvsPs2aCommandStackWordKind::OpaqueU32)])),
        212 => Some((4, CmvsPs2aCommandEffectKind::StoreRandomModulo { target_field_offset: 81220 }, seq![sw(4, CmvsPs2aCommandStackWordKind::OpaqueU32)])),
        248 => Some((4, CmvsPs2aCommandEffectKind::StoreStringLength { target_field_offset: 81220 }, seq![sw(4, CmvsPs2aCommandStackWordKind::TaggedStringReference)])),
        276 => Some((8, CmvsPs2aCommandEffectKind::SetEffectPlaybackField { error_mask: 0x0000_1000, field_offset: 41 }, seq![sw(4, CmvsPs2aCommandStackWordKind::OpaqueU32), sw(8, CmvsPs2aCommandStackWordKind::OpaqueU32)])),
        277 => Some((8, CmvsPs2aCommandEffectKind::SetEffectPlaybackField { error_mask: 0x0000_1000, field_offset: 44 }, seq![sw(4, CmvsPs2aCommandStackWordKind::OpaqueU32), sw(8, CmvsPs2aCommandStackWordKind::OpaqueU32)])),
        278 => Some((8, CmvsPs2aCommandEffectKind::SetEffectPlaybackField { error_mask: 0x0000_1000, field_offset: 45 }, seq![sw(4, CmvsPs2aCommandStackWordKind::OpaqueU32), sw(8, CmvsPs2aCommandStackWordKind::OpaqueU32)])),
        279 => Some((8, CmvsPs2aCommandEffectKind::SetEffectPlaybackField { error_mask: 0x0000_1000, field_offset: 46 }, seq![sw(4, CmvsPs2aCommandStackWordKind::OpaqueU32), sw(8, CmvsPs2aCommandStackWordKind::OpaqueU32)])),
        286 => Some((16, CmvsPs2aCommandEffectKind::SetEffectTextSurface { error_mask: 0x0000_1000 }, seq![sw(4, CmvsPs2aCommandStackWordKind::OpaqueU32), sw(8, CmvsPs2aCommandStackWordKind::TaggedStringReference), sw(12, CmvsPs2aCommandStackWordKind::TaggedStringReference), sw(16, CmvsPs2aCommandStackWordKind::OpaqueU32)])),
        294 => Some((0, CmvsPs2aCommandEffectKind::QueryRendererDisplayMode { renderer_field_offset: 1920, result_field_offset: 81224 }, Seq::empty())),
        296 => Some((0, CmvsPs2aCommandEffectKind::RequestSystemStateLoad { path_buffer_offset: 5404 }, Seq::empty())),
        304 => Some((0, CmvsPs2aCommandEffectKind::StoreInterpreterConstant { field_offset: 81220, value: 0 }, Seq::empty())),
        321 => Some((4, CmvsPs2aCommandEffectKind::ClearResourceSlot { max_slot: 7, error_flag_field_offset: 10532, error_flag_mask: 0x10000 }, seq![sw(4, CmvsPs2aCommandStackWordKind::OpaqueU32)])),
        322 => Some((8, CmvsPs2aCommandEffectKind::ForwardEffectChannelWord { effect_table_dword_index: 742, max_channel: 7, error_mask: 0x0001_0000 }, seq![sw(4, CmvsPs2aCommandStackWordKind::OpaqueU32), sw(8, CmvsPs2aCommandStackWordKind::OpaqueU32)])),
        _ => None,
    }
}

/// Looks up the contract fields of the commands 138 to 322.
pub fn lookup(command_id: u16) -> (r: Option<(u8, CmvsPs2aCommandEffectKind, Vec<CmvsPs2aCommandStackWord>)>)
    ensures
        match r {
            Some(f) => spec_lookup(command_id) == Some((f.0, f.1, f.2@)),
            None => spec_lookup(command_id) is None,
        },
{
    Some(match command_id {
        138 => (4, CmvsPs2aCommandEffectKind::ResumeInterpreterCoroutineRecord { record_table_base_offset: 13272, record_stride_bytes: 28, max_index_mask: 63 }, vec![stack_word(4, CmvsPs2aCommandStackWordKind::OpaqueU32)]),
        139 => (4, CmvsPs2aCommandEffectKind::MarkInterpreterRecordUnused { record_table_base_offset: 13280, record_count: 64, record_stride_bytes: 28 }, vec![stack_word(4, CmvsPs2aCommandStackWordKind::OpaqueU32)]),
        143 => (4, CmvsPs2aCommandEffectKind::RequestWindowCaption { prefix_field_offset: Some(10764) }, vec![stack_word(4, CmvsPs2aCommandStackWordKind::TaggedStringReference)]),
        144 => (0, CmvsPs2aCommandEffectKind::StoreInterpreterConstant { field_offset: 2940, value: 1 }, Vec::new()),
        145 => (12, CmvsPs2aCommandEffectKind::MutateProcessFlagRange, vec![stack_word(4, CmvsPs2aCommandStackWordKind::OpaqueU32), stack_word(8, CmvsPs2aCommandStackWordKind::OpaqueU32), stack_word(12, CmvsPs2aCommandStackWordKind::BooleanU32)]),
        146 => (12, CmvsPs2aCommandEffectKind::StoreProcessIndexedRange, vec![stack_word(4, CmvsPs2aCommandStackWordKind::OpaqueU32), stack_word(8, CmvsPs2aCommandStackWordKind::OpaqueU32), stack_word(12, CmvsPs2aCommandStackWordKind::OpaqueU32)]),
        147 => (12, CmvsPs2aCommandEffectKind::StoreProcessFloatRange, vec![stack_word(4, CmvsPs2aCommandStackWordKind::OpaqueU32), stack_word(8, CmvsPs2aCommandStackWordKind::OpaqueU32), stack_word(12, CmvsPs2aCommandStackWordKind::OpaqueU32)]),
        148 => (12, CmvsPs2aCommandEffectKind::StoreProcessStringRange, vec![stack_word(4, CmvsPs2aCommandStackWordKind::OpaqueU32), stack_word(8, CmvsPs2aCommandStackWordKind::OpaqueU32), stack_word(12, CmvsPs2aCommandStackWordKind::TaggedStringReference)]),
        152 => (4, CmvsPs2aCommandEffectKind::AppendPrivateStringToList { list_id: 152, length_field_offset: 81220 }, vec![stack_word(4, CmvsPs2aCommandStackWordKind::TaggedStringReference)]),
        153 => (4, CmvsPs2aCommandEffectKind::SelectSystemCursor { manager_field_offset: 32, current_index_field_offset: 4 }, vec![stack_word(4, CmvsPs2aCommandStackWordKind::OpaqueU32)]),
        156 => (8, CmvsPs2aCommandEffectKind::NoOpCommand, Vec::new()),
        160 => (12, CmvsPs2aCommandEffectKind::PlayAudio, vec![stack_word(4, CmvsPs2aCommandStackWordKind::TaggedStringReference), stack_word(8, CmvsPs2aCommandStackWordKind::OpaqueU32), stack_word(12, CmvsPs2aCommandStackWordKind::BooleanU32)]),
        161 => (0, CmvsPs2aCommandEffectKind::StopAudio, Vec::new()),
        162 => (4, CmvsPs2aCommandEffectKind::FadeOutAudio, vec![stack_word(4, CmvsPs2aCommandStackWordKind::OpaqueU32)]),
        164 => (16, CmvsPs2aCommandEffectKind::PlayPairedAudio, vec![stack_word(4, CmvsPs2aCommandStackWordKind::TaggedStringReference), stack_word(8, CmvsPs2aCommandStackWordKind::TaggedStringReference), stack_word(12, CmvsPs2aCommandStackWordKind::OpaqueU32), stack_word(16, CmvsPs2aCommandStackWordKind::BooleanU32)]),
        176 => (20, CmvsPs2aCommandEffectKind::RegisterResourceChannelSlot { max_slot: 5, table_base_offset: 1608, record_stride_bytes: 52, gate_field_offset: 1556, error_flag_field_offset: 10532, error_flag_mask: 0x200 }, vec![stack_word(4, CmvsPs2aCommandStackWordKind::OpaqueU32), stack_word(8, CmvsPs2aCommandStackWordKind::TaggedStringReference), stack_word(12, CmvsPs2aCommandStackWordKind::BooleanU32), stack_word(16, CmvsPs2aCommandStackWordKind::BooleanU32), stack_word(20, CmvsPs2aCommandStackWordKind::OpaqueU32)]),
        177 => (8, CmvsPs2aCommandEffectKind::StoreChannelVisibilityRecord { enabled_field_base_offset: 1640, touched_field_base_offset: 1656, record_stride_bytes: 52, notify_gate_field_offset: 1556 }, vec![stack_word(4, CmvsPs2aCommandStackWordKind::OpaqueU32), stack_word(8, CmvsPs2aCommandStackWordKind::BooleanU32)]),
        179 => (4, CmvsPs2aCommandEffectKind::ResetChannelVisibilityRecord { name_buffer_base_offset: 1608, touched_field_base_offset: 1656, record_stride_bytes: 52, error_flag_mask: 0x200, teardown_slot_table_offset: 2368 }, vec![stack_word(4, CmvsPs2aCommandStackWordKind::OpaqueU32)]),
        200 => (0, CmvsPs2aCommandEffectKind::QueryPointerPosition { x_field_offset: 81224, y_field_offset: 81228 }, Vec::new()),
        202 => (16, CmvsPs2aCommandEffectKind::HitTestPointerRect { result_field_offset: 81220 }, vec![stack_word(4, CmvsPs2aCommandStackWordKind::OpaqueU32), stack_word(8, CmvsPs2aCommandStackWordKind::OpaqueU32), stack_word(12, CmvsPs2aCommandStackWordKind::OpaqueU32), stack_word(16, CmvsPs2aCommandStackWordKind::OpaqueU32)]),
        203 => (28, CmvsPs2aCommandEffectKind::HitTestPointerRegion { result_field_offset: 81220 }, vec![stack_word(4, CmvsPs2aCommandStackWordKind::OpaqueU32), stack_word(8, CmvsPs2aCommandStackWordKind::OpaqueU32), stack_word(12, CmvsPs2aCommandStackWordKind::OpaqueU32), stack_word(16, CmvsPs2aCommandStackWordKind::OpaqueU32), stack_word(20, CmvsPs2aCommandStackWordKind::OpaqueU32), stack_word(24, CmvsPs2aCommandStackWordKind::OpaqueU32), stack_word(28, CmvsPs2aCommandStackWordKind::OpaqueU32)]),
        212 => (4, CmvsPs2aCommandEffectKind::StoreRandomModulo { target_field_offset: 81220 }, vec![stack_word(4, CmvsPs2aCommandStackWordKind::OpaqueU32)]),
        248 => (4, CmvsPs2aCommandEffectKind::StoreStringLength { target_field_offset: 81220 }, vec![stack_word(4, CmvsPs2aCommandStackWordKind::TaggedStringReference)]),
        276 => (8, CmvsPs2aCommandEffectKind::SetEffectPlaybackField { error_mask: 0x0000_1000, field_offset: 41 }, vec![stack_word(4, CmvsPs2aCommandStackWordKind::OpaqueU32), stack_word(8, CmvsPs2aCommandStackWordKind::OpaqueU32)]),
        277 => (8, CmvsPs2aCommandEffectKind::SetEffectPlaybackField { error_mask: 0x0000_1000, field_offset: 44 }, vec![stack_word(4, CmvsPs2aCommandStackWordKind::OpaqueU32), stack_word(8, CmvsPs2aCommandStackWordKind::OpaqueU32)]),
        278 => (8, CmvsPs2aCommandEffectKind::SetEffectPlaybackField { error_mask: 0x0000_1000, field_offset: 45 }, vec![stack_word(4, CmvsPs2aCommandStackWordKind::OpaqueU32), stack_word(8, CmvsPs2aCommandStackWordKind::OpaqueU32)]),
        279 => (8, CmvsPs2aCommandEffectKind::SetEffectPlaybackField { error_mask: 0x0000_1000, field_offset: 46 }, vec![stack_word(4, CmvsPs2aCommandStackWordKind::OpaqueU32), stack_word(8, CmvsPs2aCommandStackWordKind::OpaqueU32)]),
        286 => (16, CmvsPs2aCommandEffectKind::SetEffectTextSurface { error_mask: 0x0000_1000 }, vec![stack_word(4, CmvsPs2aCommandStackWordKind::OpaqueU32), stack_word(8, CmvsPs2aCommandStackWordKind::TaggedStringReference), stack_word(12, CmvsPs2aCommandStackWordKind::TaggedStringReference), stack_word(16, CmvsPs2aCommandStackWordKind::OpaqueU32)]),
        294 => (0, CmvsPs2aCommandEffectKind::QueryRendererDisplayMode { renderer_field_offset: 1920, result_field_offset: 81224 }, Vec::new()),
        296 => (0, CmvsPs2aCommandEffectKind::RequestSystemStateLoad { path_buffer_offset: 5404 }, Vec::new()),
        304 => (0, CmvsPs2aCommandEffectKind::StoreInterpreterConstant { field_offset: 81220, value: 0 }, Vec::new()),
        321 => (4, CmvsPs2aCommandEffectKind::ClearResourceSlot { max_slot: 7, error_flag_field_offset: 10532, error_flag_mask: 0x10000 }, vec![stack_word(4, CmvsPs2aCommandStackWordKind::OpaqueU32)]),
        322 => (8, CmvsPs2aCommandEffectKind::ForwardEffectChannelWord { effect_table_dword_index: 742, max_channel: 7, error_mask: 0x0001_0000 }, vec![stack_word(4, CmvsPs2aCommandStackWordKind::OpaqueU32), stack_word(8, CmvsPs2aCommandStackWordKind::OpaqueU32)]),
        _ => return None,
    })
}

/// Every entry of this table places its words inside its popped bytes, and
/// pops exactly the words it reads unless it is command 156.
pub proof fn lemma_lookup_checked(command_id: u16)
    ensures
        match spec_lookup(command_id) {
            Some((pop, _effect, words)) => words_well_placed(words, pop) && (command_id == 156 || pop == 4 * words.len()),
            None => true,
        },
{
    reveal_with_fuel(offsets_in_range, 13);
    reveal_with_fuel(offset_unused, 13);
    reveal_with_fuel(offsets_distinct, 13);
    if command_id == 138 {
        assert(spec_lookup(command_id) is Some);
    } else if command_id == 139 {
        assert(spec_lookup(command_id) is Some);
    } else if command_id == 143 {
        assert(spec_lookup(command_id) is Some);
    } else if command_id == 144 {
        assert(spec_lookup(command_id) is Some);
    } else if command_id == 145 {
        assert(spec_lookup(command_id) is Some);
    } else if command_id == 146 {
        assert(spec_lookup(command_id) is Some);
    } else if command_id == 147 {
        assert(spec_lookup(command_id) is Some);
    } else if command_id == 148 {
        assert(spec_lookup(command_id) is Some);
    } else if command_id == 152 {
        assert(spec_lookup(command_id) is Some);
    } else if command_id == 153 {
        assert(spec_lookup(command_id) is Some);
    } else if command_id == 156 {
        assert(spec_lookup(command_id) is Some);
    } else if command_id == 160 {
        assert(spec_lookup(command_id) is Some);
    } else if command_id == 161 {
        assert(spec_lookup(command_id) is Some);
    } else if command_id == 162 {
        assert(spec_lookup(command_id) is Some);
    } else if command_id == 164 {
        assert(spec_lookup(command_id) is Some);
    } else if command_id == 176 {
        assert(spec_lookup(command_id) is Some);
    } else if command_id == 177 {
        assert(spec_lookup(command_id) is Some);
    } else if command_id == 179 {
        assert(spec_lookup(command_id) is Some);
    } else if command_id == 200 {
        assert(spec_lookup(command_id) is Some);
    } else if command_id == 202 {
        assert(spec_lookup(command_id) is Some);
    } else if command_id == 203 {
        assert(spec_lookup(command_id) is Some);
    } else if command_id == 212 {
        assert(spec_lookup(command_id) is Some);
    } else if command_id == 248 {
        assert(spec_lookup(command_id) is Some);
    } else if command_id == 276 {
        assert(spec_lookup(command_id) is Some);
    } else if command_id == 277 {
        assert(spec_lookup(command_id) is Some);
    } else if command_id == 278 {
        assert(spec_lookup(command_id) is Some);
    } else if command_id == 279 {
        assert(spec_lookup(command_id) is Some);
    } else if command_id == 286 {
        assert(spec_lookup(command_id) is Some);
    } else if command_id == 294 {
        assert(spec_lookup(command_id) is Some);
    } else if command_id == 296 {
        assert(spec_lookup(command_id) is Some);
    } else if command_id == 304 {
        assert(spec_lookup(command_id) is Some);
    } else if command_id == 321 {
        assert(spec_lookup(command_id) is Some);
    } else if command_id == 322 {
        assert(spec_lookup(command_id) is Some);
    }
}

} // verus!
