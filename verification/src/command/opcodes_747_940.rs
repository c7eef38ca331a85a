use vstd::prelude::*;
use super::{CmvsPs2aCommandEffectKind, CmvsPs2aCommandStackWord, CmvsPs2aCommandStackWordKind, CmvsResourceChannelBank, sw, stack_word,
    words_well_placed, offsets_in_range, offset_unused, offsets_distinct};

verus! {

/// The recovered contract fields of the commands 747 to 940.
pub open spec fn spec_lookup(command_id: u16) -> Option<(u8, CmvsPs2aCommandEffectKind, Seq<CmvsPs2aCommandStackWord>)> {
    match command_id {
        747 => Some((8, CmvsPs2aCommandEffectKind::InterpreterFlagRoundTrip { flag_field_offset: 1464, result_field_offset: 81220 }, seq![sw(4, CmvsPs2aCommandStackWordKind::OpaqueU32), sw(8, CmvsPs2aCommandStackWordKind::BooleanU32)])),
        750 => Some((0, CmvsPs2aCommandEffectKind::LoadInterpreterWordBooleanToResult { source_field_offset: 1596, result_field_offset: 81220 }, Seq::empty())),
        751 => Some((0, CmvsPs2aCommandEffectKind::StoreTextureReadyFlag { result_field_offset: 81220, override_field_offset: 1464 }, Seq::empty())),
        778 => Some((4, CmvsPs2aCommandEffectKind::DestroyBoundedSlotObject { table_dword_index: 796, max_slot: 2, error_flag_field_offset: 10532, error_flag_mask: 0x0100_0000 }, seq![sw(4, CmvsPs2aCommandStackWordKind::OpaqueU32)])),
        845 => Some((0, CmvsPs2aCommandEffectKind::StoreComponentConstant { component_offset: 0x0cc8, field_offset: 0x0568, value: 1 }, Seq::empty())),
        846 => Some((0, CmvsPs2aCommandEffectKind::StoreInterpreterConstant { field_offset: 81220, value: 0 }, Seq::empty())),
        848 => Some((4, CmvsPs2aCommandEffectKind::StoreSystemSettingBoolean { setting_field_offset: 0 }, seq![sw(4, CmvsPs2aCommandStackWordKind::BooleanU32)])),
        849 => Some((8, CmvsPs2aCommandEffectKind::StoreSystemSettingBooleanPair { first_field_offset: 24, second_field_offset: 28 }, seq![sw(4, CmvsPs2aCommandStackWordKind::BooleanU32), sw(8, CmvsPs2aCommandStackWordKind::BooleanU32)])),
        850 => Some((4, CmvsPs2aCommandEffectKind::StoreSystemSettingBoolean { setting_field_offset: 0 }, seq![sw(4, CmvsPs2aCommandStackWordKind::BooleanU32)])),
        851 => Some((0, CmvsPs2aCommandEffectKind::CopySettingsFieldToInterpreterWord { settings_field_offset: 44, target_field_offset: 81220 }, Seq::empty())),
        853 => Some((4, CmvsPs2aCommandEffectKind::StoreIndexedSettingBoolean { target_field_offset: 81220, max_index: 5 }, seq![sw(4, CmvsPs2aCommandStackWordKind::OpaqueU32)])),
        854 => Some((4, CmvsPs2aCommandEffectKind::StoreSystemSettingBoolean { setting_field_offset: 12 }, seq![sw(4, CmvsPs2aCommandStackWordKind::BooleanU32)])),
        855 => Some((4, CmvsPs2aCommandEffectKind::StoreSystemSettingBoolean { setting_field_offset: 16 }, seq![sw(4, CmvsPs2aCommandStackWordKind::BooleanU32)])),
        856 => Some((4, CmvsPs2aCommandEffectKind::StoreSystemSettingBoolean { setting_field_offset: 20 }, seq![sw(4, CmvsPs2aCommandStackWordKind::BooleanU32)])),
        857 => Some((0, CmvsPs2aCommandEffectKind::StoreDerivedSettingsPair { first_selector_field_offset: 72, second_selector_field_offset: 76, result_field_offset: 80, result_target_field_offset: 81220, flag_target_field_offset: 81236 }, Seq::empty())),
        858 => Some((4, CmvsPs2aCommandEffectKind::StoreSystemSettingBoundedWord { setting_field_offset: 36, minimum: 1, maximum: 90 }, seq![sw(4, CmvsPs2aCommandStackWordKind::OpaqueU32)])),
        859 => Some((4, CmvsPs2aCommandEffectKind::StoreSystemSettingNonNegativeWord { setting_field_offset: 32 }, seq![sw(4, CmvsPs2aCommandStackWordKind::OpaqueU32)])),
        864 => Some((0, CmvsPs2aCommandEffectKind::CopySettingsFieldToInterpreterWord { settings_field_offset: 88, target_field_offset: 81220 }, Seq::empty())),
        866 => Some((4, CmvsPs2aCommandEffectKind::StoreSettingsPredicate { settings_field_offset: 88, target_field_offset: 81220 }, seq![sw(4, CmvsPs2aCommandStackWordKind::OpaqueU32)])),
        868 => Some((4, CmvsPs2aCommandEffectKind::StoreSettingsWordReset { setting_field_offset: 4 }, seq![sw(4, CmvsPs2aCommandStackWordKind::OpaqueU32)])),
        869 => Some((0, CmvsPs2aCommandEffectKind::DeriveSettingsSnapshot { gate_field_offset: 120, copy_source_field_offsets: [100, 104, 124, 128], copy_target_field_offsets: [81236, 81240, 81224, 81228], always_source_field_offset: 176, always_target_field_offset: 81244, gate_target_field_offset: 81220 }, Seq::empty())),
        870 => Some((24, CmvsPs2aCommandEffectKind::StoreSettingsRecord { record_base_field_offset: 188, record_stride_bytes: 20, max_index: 5 }, seq![sw(4, CmvsPs2aCommandStackWordKind::OpaqueU32), sw(8, CmvsPs2aCommandStackWordKind::BooleanU32), sw(12, CmvsPs2aCommandStackWordKind::OpaqueU32), sw(16, CmvsPs2aCommandStackWordKind::OpaqueU32), sw(20, CmvsPs2aCommandStackWordKind::OpaqueU32), sw(24, CmvsPs2aCommandStackWordKind::OpaqueU32)])),
        940 => Some((4, CmvsPs2aCommandEffectKind::StoreProcessGlobalBoolean { address: 0x004f_0580 }, seq![sw(4, CmvsPs2aCommandStackWordKind::BooleanU32)])),
        _ => None,
    }
}

/// Looks up the contract fields of the commands 747 to 940.
pub fn lookup(command_id: u16) -> (r: Option<(u8, CmvsPs2aCommandEffectKind, Vec<CmvsPs2aCommandStackWord>)>)
    ensures
        match r {
            Some(f) => spec_lookup(command_id) == Some((f.0, f.1, f.2@)),
            None => spec_lookup(command_id) is None,
        },
{
    Some(match command_id {
        747 => (8, CmvsPs2aCommandEffectKind::InterpreterFlagRoundTrip { flag_field_offset: 1464, result_field_offset: 81220 }, vec![stack_word(4, CmvsPs2aCommandStackWordKind::OpaqueU32), stack_word(8, CmvsPs2aCommandStackWordKind::BooleanU32)]),
        750 => (0, CmvsPs2aCommandEffectKind::LoadInterpreterWordBooleanToResult { source_field_offset: 1596, result_field_offset: 81220 }, Vec::new()),
        751 => (0, CmvsPs2aCommandEffectKind::StoreTextureReadyFlag { result_field_offset: 81220, override_field_offset: 1464 }, Vec::new()),
        778 => (4, CmvsPs2aCommandEffectKind::DestroyBoundedSlotObject { table_dword_index: 796, max_slot: 2, error_flag_field_offset: 10532, error_flag_mask: 0x0100_0000 }, vec![stack_word(4, CmvsPs2aCommandStackWordKind::OpaqueU32)]),
        845 => (0, CmvsPs2aCommandEffectKind::StoreComponentConstant { component_offset: 0x0cc8, field_offset: 0x0568, value: 1 }, Vec::new()),
        846 => (0, CmvsPs2aCommandEffectKind::StoreInterpreterConstant { field_offset: 81220, value: 0 }, Vec::new()),
        848 => (4, CmvsPs2aCommandEffectKind::StoreSystemSettingBoolean { setting_field_offset: 0 }, vec![stack_word(4, CmvsPs2aCommandStackWordKind::BooleanU32)]),
        849 => (8, CmvsPs2aCommandEffectKind::StoreSystemSettingBooleanPair { first_field_offset: 24, second_field_offset: 28 }, vec![stack_word(4, CmvsPs2aCommandStackWordKind::BooleanU32), stack_word(8, CmvsPs2aCommandStackWordKind::BooleanU32)]),
        850 => (4, CmvsPs2aCommandEffectKind::StoreSystemSettingBoolean { setting_field_offset: 0 }, vec![stack_word(4, CmvsPs2aCommandStackWordKind::BooleanU32)]),
        851 => (0, CmvsPs2aCommandEffectKind::CopySettingsFieldToInterpreterWord { settings_field_offset: 44, target_field_offset: 81220 }, Vec::new()),
        853 => (4, CmvsPs2aCommandEffectKind::StoreIndexedSettingBoolean { target_field_offset: 81220, max_index: 5 }, vec![stack_word(4, CmvsPs2aCommandStackWordKind::OpaqueU32)]),
        854 => (4, CmvsPs2aCommandEffectKind::StoreSystemSettingBoolean { setting_field_offset: 12 }, vec![stack_word(4, CmvsPs2aCommandStackWordKind::BooleanU32)]),
        855 => (4, CmvsPs2aCommandEffectKind::StoreSystemSettingBoolean { setting_field_offset: 16 }, vec![stack_word(4, CmvsPs2aCommandStackWordKind::BooleanU32)]),
        856 => (4, CmvsPs2aCommandEffectKind::StoreSystemSettingBoolean { setting_field_offset: 20 }, vec![stack_word(4, CmvsPs2aCommandStackWordKind::BooleanU32)]),
        857 => (0, CmvsPs2aCommandEffectKind::StoreDerivedSettingsPair { first_selector_field_offset: 72, second_selector_field_offset: 76, result_field_offset: 80, result_target_field_offset: 81220, flag_target_field_offset: 81236 }, Vec::new()),
        858 => (4, CmvsPs2aCommandEffectKind::StoreSystemSettingBoundedWord { setting_field_offset: 36, minimum: 1, maximum: 90 }, vec![stack_word(4, CmvsPs2aCommandStackWordKind::OpaqueU32)]),
        859 => (4, CmvsPs2aCommandEffectKind::StoreSystemSettingNonNegativeWord { setting_field_offset: 32 }, vec![stack_word(4, CmvsPs2aCommandStackWordKind::OpaqueU32)]),
        864 => (0, CmvsPs2aCommandEffectKind::CopySettingsFieldToInterpreterWord { settings_field_offset: 88, target_field_offset: 81220 }, Vec::new()),
        866 => (4, CmvsPs2aCommandEffectKind::StoreSettingsPredicate { settings_field_offset: 88, target_field_offset: 81220 }, vec![stack_word(4, CmvsPs2aCommandStackWordKind::OpaqueU32)]),
        868 => (4, CmvsPs2aCommandEffectKind::StoreSettingsWordReset { setting_field_offset: 4 }, vec![stack_word(4, CmvsPs2aCommandStackWordKind::OpaqueU32)]),
        869 => (0, CmvsPs2aCommandEffectKind::DeriveSettingsSnapshot { gate_field_offset: 120, copy_source_field_offsets: [100, 104, 124, 128], copy_target_field_offsets: [81236, 81240, 81224, 81228], always_source_field_offset: 176, always_target_field_offset: 81244, gate_target_field_offset: 81220 }, Vec::new()),
        870 => (24, CmvsPs2aCommandEffectKind::StoreSettingsRecord { record_base_field_offset: 188, record_stride_bytes: 20, max_index: 5 }, vec![stack_word(4, CmvsPs2aCommandStackWordKind::OpaqueU32), stack_word(8, CmvsPs2aCommandStackWordKind::BooleanU32), stack_word(12, CmvsPs2aCommandStackWordKind::OpaqueU32), stack_word(16, CmvsPs2aCommandStackWordKind::OpaqueU32), stack_word(20, CmvsPs2aCommandStackWordKind::OpaqueU32), stack_word(24, CmvsPs2aCommandStackWordKind::OpaqueU32)]),
        940 => (4, CmvsPs2aCommandEffectKind::StoreProcessGlobalBoolean { address: 0x004f_0580 }, vec![stack_word(4, CmvsPs2aCommandStackWordKind::BooleanU32)]),
        _ => return None,
    })
}

/// Every entry of this table places its words inside its popped bytes, and
/// pops exactly the words it reads unless it is command 156.
pub proof fn lemma_lookup_checked(command_id: u16)
    ensures
        match spec_lookup(command_id) {
            Some((pop, _effect, words)) => words_well_placed(words, pop) && (command_id == 156 || pop == 4 * words.len()),
            None => true,
        },
{
    reveal_with_fuel(offsets_in_range, 13);
    reveal_with_fuel(offset_unused, 13);
    reveal_with_fuel(offsets_distinct, 13);
    if command_id == 747 {
        assert(spec_lookup(command_id) is Some);
    } else if command_id == 750 {
        assert(spec_lookup(command_id) is Some);
    } else if command_id == 751 {
        assert(spec_lookup(command_id) is Some);
    } else if command_id == 778 {
        assert(spec_lookup(command_id) is Some);
    } else if command_id == 845 {
        assert(spec_lookup(command_id) is Some);
    } else if command_id == 846 {
        assert(spec_lookup(command_id) is Some);
    } else if command_id == 848 {
        assert(spec_lookup(command_id) is Some);
    } else if command_id == 849 {
        assert(spec_lookup(command_id) is Some);
    } else if command_id == 850 {
        assert(spec_lookup(command_id) is Some);
    } else if command_id == 851 {
        assert(spec_lookup(command_id) is Some);
    } else if command_id == 853 {
        assert(spec_lookup(command_id) is Some);
    } else if command_id == 854 {
        assert(spec_lookup(command_id) is Some);
    } else if command_id == 855 {
        assert(spec_lookup(command_id) is Some);
    } else if command_id == 856 {
        assert(spec_lookup(command_id) is Some);
    } else if command_id == 857 {
        assert(spec_lookup(command_id) is Some);
    } else if command_id == 858 {
        assert(spec_lookup(command_id) is Some);
    } else if command_id == 859 {
        assert(spec_lookup(command_id) is Some);
    } else if command_id == 864 {
        assert(spec_lookup(command_id) is Some);
    } else if command_id == 866 {
        assert(spec_lookup(command_id) is Some);
    } else if command_id == 868 {
        assert(spec_lookup(command_id) is Some);
    } else if command_id == 869 {
        assert(spec_lookup(command_id) is Some);
    } else if command_id == 870 {
        assert(spec_lookup(command_id) is Some);
    } else if command_id == 940 {
        assert(spec_lookup(command_id) is Some);
    }
}

} // verus!
