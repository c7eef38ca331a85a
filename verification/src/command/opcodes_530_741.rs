use vstd::prelude::*;
use super::{CmvsPs2aCommandEffectKind, CmvsPs2aCommandStackWord, CmvsPs2aCommandStackWordKind, CmvsResourceChannelBank, sw, stack_word,
    words_well_placed, offsets_in_range, offset_unused, offsets_distinct};

verus! {

/// The recovered contract fields of the commands 530 to 741.
pub open spec fn spec_lookup(command_id: u16) -> Option<(u8, CmvsPs2aCommandEffectKind, Seq<CmvsPs2aCommandStackWord>)> {
    match command_id {
        530 => Some((8, CmvsPs2aCommandEffectKind::QueryFilterChainSlot { table_byte_offset: 3196, max_bank: 5, error_flag_field_offset: 10532, error_flag_mask: 0x100000, result_field_offset: 81220 }, seq![sw(4, CmvsPs2aCommandStackWordKind::OpaqueU32), sw(8, CmvsPs2aCommandStackWordKind::OpaqueU32)])),
        531 => Some((24, CmvsPs2aCommandEffectKind::UpdateFilterChainRecord { table_byte_offset: 3196, max_bank: 5, error_flag_field_offset: 10532, error_flag_mask: 0x100000 }, seq![sw(4, CmvsPs2aCommandStackWordKind::OpaqueU32), sw(8, CmvsPs2aCommandStackWordKind::OpaqueU32), sw(12, CmvsPs2aCommandStackWordKind::OpaqueU32), sw(16, CmvsPs2aCommandStackWordKind::OpaqueU32), sw(20, CmvsPs2aCommandStackWordKind::OpaqueU32), sw(24, CmvsPs2aCommandStackWordKind::OpaqueU32)])),
        532 => Some((40, CmvsPs2aCommandEffectKind::UpdateFilterChainParameterBlock { table_byte_offset: 3196, max_bank: 5, backend_mode_address: 0x004f_057c, error_flag_field_offset: 10532, error_flag_mask: 0x100000 }, seq![sw(4, CmvsPs2aCommandStackWordKind::OpaqueU32), sw(8, CmvsPs2aCommandStackWordKind::OpaqueU32), sw(12, CmvsPs2aCommandStackWordKind::OpaqueU32), sw(16, CmvsPs2aCommandStackWordKind::OpaqueU32), sw(20, CmvsPs2aCommandStackWordKind::OpaqueU32), sw(24, CmvsPs2aCommandStackWordKind::OpaqueU32), sw(28, CmvsPs2aCommandStackWordKind::OpaqueU32), sw(32, CmvsPs2aCommandStackWordKind::OpaqueU32), sw(36, CmvsPs2aCommandStackWordKind::OpaqueU32), sw(40, CmvsPs2aCommandStackWordKind::OpaqueU32)])),
        533 => Some((4, CmvsPs2aCommandEffectKind::ApplyFilterChainRecords { table_byte_offset: 3196, max_bank: 5, error_flag_field_offset: 10532, error_flag_mask: 0x100000 }, seq![sw(4, CmvsPs2aCommandStackWordKind::OpaqueU32)])),
        534 => Some((4, CmvsPs2aCommandEffectKind::ReadActiveFilterChainSelection { table_byte_offset: 3196, max_bank: 5, error_flag_field_offset: 10532, error_flag_mask: 0x100000, result_field_offset: 81220 }, seq![sw(4, CmvsPs2aCommandStackWordKind::OpaqueU32)])),
        535 => Some((4, CmvsPs2aCommandEffectKind::PollFilterChainSelection { table_byte_offset: 3196, max_bank: 5, error_flag_field_offset: 10532, error_flag_mask: 0x100000, result_field_offset: 81220 }, seq![sw(4, CmvsPs2aCommandStackWordKind::OpaqueU32)])),
        544 => Some((16, CmvsPs2aCommandEffectKind::CreateSingletonSlotObject { table_byte_offset: 3252, slot: 0, field_offset: 81220, value: 1 }, seq![sw(4, CmvsPs2aCommandStackWordKind::OpaqueU32), sw(8, CmvsPs2aCommandStackWordKind::OpaqueU32), sw(12, CmvsPs2aCommandStackWordKind::OpaqueU32), sw(16, CmvsPs2aCommandStackWordKind::OpaqueU32)])),
        545 => Some((0, CmvsPs2aCommandEffectKind::DestroySingletonSlotObject { table_byte_offset: 3252, slot: 0 }, Seq::empty())),
        548 => Some((4, CmvsPs2aCommandEffectKind::RunFilterGraphControl { table_byte_offset: 3252, slot: 0, field_offset: 81220 }, seq![sw(4, CmvsPs2aCommandStackWordKind::OpaqueU32)])),
        549 => Some((16, CmvsPs2aCommandEffectKind::RecreateSaveImageOwner { handle_field_offset: 3256 }, seq![sw(4, CmvsPs2aCommandStackWordKind::OpaqueU32), sw(8, CmvsPs2aCommandStackWordKind::OpaqueU32), sw(12, CmvsPs2aCommandStackWordKind::OpaqueU32), sw(16, CmvsPs2aCommandStackWordKind::OpaqueU32)])),
        550 => Some((0, CmvsPs2aCommandEffectKind::QuerySaveImageProgress { result_field_offset: 81220 }, Seq::empty())),
        551 => Some((4, CmvsPs2aCommandEffectKind::StoreSaveImageEnabled, seq![sw(4, CmvsPs2aCommandStackWordKind::BooleanU32)])),
        552 => Some((4, CmvsPs2aCommandEffectKind::SaveImageOwnerWaitOrDestroy { result_field_offset: 81220 }, seq![sw(4, CmvsPs2aCommandStackWordKind::BooleanU32)])),
        553 => Some((0, CmvsPs2aCommandEffectKind::DestroySaveImageOwner, Seq::empty())),
        // Command 554 takes five stack words: the tagged PB resource name at
        // offset 4 and opaque words at 8, 12, 16 and 20. These offsets follow
        // the handler's own stack reads, not the order in which its operands
        // are usually described.
        554 => Some((20, CmvsPs2aCommandEffectKind::LoadTextureParentResourceExtended { texture_table_base_offset: 1924, result_field_offset: 81220, error_flag_field_offset: 10532, error_flag_mask: 0x10 }, seq![sw(8, CmvsPs2aCommandStackWordKind::OpaqueU32), sw(4, CmvsPs2aCommandStackWordKind::TaggedStringReference), sw(12, CmvsPs2aCommandStackWordKind::OpaqueU32), sw(16, CmvsPs2aCommandStackWordKind::OpaqueU32), sw(20, CmvsPs2aCommandStackWordKind::OpaqueU32)])),
        555 => Some((4, CmvsPs2aCommandEffectKind::CommitTexturePresentation { result_field_offset: 81220, present_object_field_offset: 3260 }, seq![sw(4, CmvsPs2aCommandStackWordKind::OpaqueU32)])),
        592 => Some((4, CmvsPs2aCommandEffectKind::StoreSettingBooleanPlain { setting_field_offset: 72 }, seq![sw(4, CmvsPs2aCommandStackWordKind::BooleanU32)])),
        688 => Some((8, CmvsPs2aCommandEffectKind::StorePresentationFrameFields { top_field_offset: 10296, second_field_offset: 10300, active_field_offset: 10292 }, seq![sw(4, CmvsPs2aCommandStackWordKind::OpaqueU32), sw(8, CmvsPs2aCommandStackWordKind::OpaqueU32)])),
        691 => Some((4, CmvsPs2aCommandEffectKind::StoreClampedPresentationSize { field_offset: 10452, negative_replacement: 10, maximum: 256 }, seq![sw(4, CmvsPs2aCommandStackWordKind::OpaqueU32)])),
        692 => Some((4, CmvsPs2aCommandEffectKind::TogglePresentationMode { first_field_offset: 1440, second_field_offset: 15064 }, seq![sw(4, CmvsPs2aCommandStackWordKind::BooleanU32)])),
        695 => Some((8, CmvsPs2aCommandEffectKind::QueryNewestSaveSlot { result_field_offset: 81220 }, seq![sw(4, CmvsPs2aCommandStackWordKind::OpaqueU32), sw(8, CmvsPs2aCommandStackWordKind::OpaqueU32)])),
        697 => Some((4, CmvsPs2aCommandEffectKind::StoreInterpreterWord { field_offset: 10312 }, seq![sw(4, CmvsPs2aCommandStackWordKind::OpaqueU32)])),
        715 => Some((4, CmvsPs2aCommandEffectKind::StoreComponentWord { component_field_offset: 1920, field_offset: 76 }, seq![sw(4, CmvsPs2aCommandStackWordKind::OpaqueU32)])),
        717 => Some((4, CmvsPs2aCommandEffectKind::StoreInterpreterWord { field_offset: 10568 }, seq![sw(4, CmvsPs2aCommandStackWordKind::BooleanU32)])),
        718 => Some((0, CmvsPs2aCommandEffectKind::LoadInterpreterWordToResult { source_field_offset: 11792, result_field_offset: 81220 }, Seq::empty())),
        721 => Some((8, CmvsPs2aCommandEffectKind::StoreSystemConfigBoolean { config_field_offset: 1440, skip_flag_field_offset: 1452, result_field_offset: 81220 }, seq![sw(4, CmvsPs2aCommandStackWordKind::OpaqueU32), sw(8, CmvsPs2aCommandStackWordKind::OpaqueU32)])),
        741 => Some((8, CmvsPs2aCommandEffectKind::InterpreterFlagRoundTrip { flag_field_offset: 1500, result_field_offset: 81220 }, seq![sw(4, CmvsPs2aCommandStackWordKind::OpaqueU32), sw(8, CmvsPs2aCommandStackWordKind::BooleanU32)])),
        _ => None,
    }
}

/// Looks up the contract fields of the commands 530 to 741.
pub fn lookup(command_id: u16) -> (r: Option<(u8, CmvsPs2aCommandEffectKind, Vec<CmvsPs2aCommandStackWord>)>)
    ensures
        match r {
            Some(f) => spec_lookup(command_id) == Some((f.0, f.1, f.2@)),
            None => spec_lookup(command_id) is None,
        },
{
    Some(match command_id {
        530 => (8, CmvsPs2aCommandEffectKind::QueryFilterChainSlot { table_byte_offset: 3196, max_bank: 5, error_flag_field_offset: 10532, error_flag_mask: 0x100000, result_field_offset: 81220 }, vec![stack_word(4, CmvsPs2aCommandStackWordKind::OpaqueU32), stack_word(8, CmvsPs2aCommandStackWordKind::OpaqueU32)]),
        531 => (24, CmvsPs2aCommandEffectKind::UpdateFilterChainRecord { table_byte_offset: 3196, max_bank: 5, error_flag_field_offset: 10532, error_flag_mask: 0x100000 }, vec![stack_word(4, CmvsPs2aCommandStackWordKind::OpaqueU32), stack_word(8, CmvsPs2aCommandStackWordKind::OpaqueU32), stack_word(12, CmvsPs2aCommandStackWordKind::OpaqueU32), stack_word(16, CmvsPs2aCommandStackWordKind::OpaqueU32), stack_word(20, CmvsPs2aCommandStackWordKind::OpaqueU32), stack_word(24, CmvsPs2aCommandStackWordKind::OpaqueU32)]),
        532 => (40, CmvsPs2aCommandEffectKind::UpdateFilterChainParameterBlock { table_byte_offset: 3196, max_bank: 5, backend_mode_address: 0x004f_057c, error_flag_field_offset: 10532, error_flag_mask: 0x100000 }, vec![stack_word(4, CmvsPs2aCommandStackWordKind::OpaqueU32), stack_word(8, CmvsPs2aCommandStackWordKind::OpaqueU32), stack_word(12, CmvsPs2aCommandStackWordKind::OpaqueU32), stack_word(16, CmvsPs2aCommandStackWordKind::OpaqueU32), stack_word(20, CmvsPs2aCommandStackWordKind::OpaqueU32), stack_word(24, CmvsPs2aCommandStackWordKind::OpaqueU32), stack_word(28, CmvsPs2aCommandStackWordKind::OpaqueU32), stack_word(32, CmvsPs2aCommandStackWordKind::OpaqueU32), stack_word(36, CmvsPs2aCommandStackWordKind::OpaqueU32), stack_word(40, CmvsPs2aCommandStackWordKind::OpaqueU32)]),
        533 => (4, CmvsPs2aCommandEffectKind::ApplyFilterChainRecords { table_byte_offset: 3196, max_bank: 5, error_flag_field_offset: 10532, error_flag_mask: 0x100000 }, vec![stack_word(4, CmvsPs2aCommandStackWordKind::OpaqueU32)]),
        534 => (4, CmvsPs2aCommandEffectKind::ReadActiveFilterChainSelection { table_byte_offset: 3196, max_bank: 5, error_flag_field_offset: 10532, error_flag_mask: 0x100000, result_field_offset: 81220 }, vec![stack_word(4, CmvsPs2aCommandStackWordKind::OpaqueU32)]),
        535 => (4, CmvsPs2aCommandEffectKind::PollFilterChainSelection { table_byte_offset: 3196, max_bank: 5, error_flag_field_offset: 10532, error_flag_mask: 0x100000, result_field_offset: 81220 }, vec![stack_word(4, CmvsPs2aCommandStackWordKind::OpaqueU32)]),
        544 => (16, CmvsPs2aCommandEffectKind::CreateSingletonSlotObject { table_byte_offset: 3252, slot: 0, field_offset: 81220, value: 1 }, vec![stack_word(4, CmvsPs2aCommandStackWordKind::OpaqueU32), stack_word(8, CmvsPs2aCommandStackWordKind::OpaqueU32), stack_word(12, CmvsPs2aCommandStackWordKind::OpaqueU32), stack_word(16, CmvsPs2aCommandStackWordKind::OpaqueU32)]),
        545 => (0, CmvsPs2aCommandEffectKind::DestroySingletonSlotObject { table_byte_offset: 3252, slot: 0 }, Vec::new()),
        548 => (4, CmvsPs2aCommandEffectKind::RunFilterGraphControl { table_byte_offset: 3252, slot: 0, field_offset: 81220 }, vec![stack_word(4, CmvsPs2aCommandStackWordKind::OpaqueU32)]),
        549 => (16, CmvsPs2aCommandEffectKind::RecreateSaveImageOwner { handle_field_offset: 3256 }, vec![stack_word(4, CmvsPs2aCommandStackWordKind::OpaqueU32), stack_word(8, CmvsPs2aCommandStackWordKind::OpaqueU32), stack_word(12, CmvsPs2aCommandStackWordKind::OpaqueU32), stack_word(16, CmvsPs2aCommandStackWordKind::OpaqueU32)]),
        550 => (0, CmvsPs2aCommandEffectKind::QuerySaveImageProgress { result_field_offset: 81220 }, Vec::new()),
        551 => (4, CmvsPs2aCommandEffectKind::StoreSaveImageEnabled, vec![stack_word(4, CmvsPs2aCommandStackWordKind::BooleanU32)]),
        552 => (4, CmvsPs2aCommandEffectKind::SaveImageOwnerWaitOrDestroy { result_field_offset: 81220 }, vec![stack_word(4, CmvsPs2aCommandStackWordKind::BooleanU32)]),
        553 => (0, CmvsPs2aCommandEffectKind::DestroySaveImageOwner, Vec::new()),
        554 => (20, CmvsPs2aCommandEffectKind::LoadTextureParentResourceExtended { texture_table_base_offset: 1924, result_field_offset: 81220, error_flag_field_offset: 10532, error_flag_mask: 0x10 }, vec![stack_word(8, CmvsPs2aCommandStackWordKind::OpaqueU32), stack_word(4, CmvsPs2aCommandStackWordKind::TaggedStringReference), stack_word(12, CmvsPs2aCommandStackWordKind::OpaqueU32), stack_word(16, CmvsPs2aCommandStackWordKind::OpaqueU32), stack_word(20, CmvsPs2aCommandStackWordKind::OpaqueU32)]),
        555 => (4, CmvsPs2aCommandEffectKind::CommitTexturePresentation { result_field_offset: 81220, present_object_field_offset: 3260 }, vec![stack_word(4, CmvsPs2aCommandStackWordKind::OpaqueU32)]),
        592 => (4, CmvsPs2aCommandEffectKind::StoreSettingBooleanPlain { setting_field_offset: 72 }, vec![stack_word(4, CmvsPs2aCommandStackWordKind::BooleanU32)]),
        688 => (8, CmvsPs2aCommandEffectKind::StorePresentationFrameFields { top_field_offset: 10296, second_field_offset: 10300, active_field_offset: 10292 }, vec![stack_word(4, CmvsPs2aCommandStackWordKind::OpaqueU32), stack_word(8, CmvsPs2aCommandStackWordKind::OpaqueU32)]),
        691 => (4, CmvsPs2aCommandEffectKind::StoreClampedPresentationSize { field_offset: 10452, negative_replacement: 10, maximum: 256 }, vec![stack_word(4, CmvsPs2aCommandStackWordKind::OpaqueU32)]),
        692 => (4, CmvsPs2aCommandEffectKind::TogglePresentationMode { first_field_offset: 1440, second_field_offset: 15064 }, vec![stack_word(4, CmvsPs2aCommandStackWordKind::BooleanU32)]),
        695 => (8, CmvsPs2aCommandEffectKind::QueryNewestSaveSlot { result_field_offset: 81220 }, vec![stack_word(4, CmvsPs2aCommandStackWordKind::OpaqueU32), stack_word(8, CmvsPs2aCommandStackWordKind::OpaqueU32)]),
        697 => (4, CmvsPs2aCommandEffectKind::StoreInterpreterWord { field_offset: 10312 }, vec![stack_word(4, CmvsPs2aCommandStackWordKind::OpaqueU32)]),
        715 => (4, CmvsPs2aCommandEffectKind::StoreComponentWord { component_field_offset: 1920, field_offset: 76 }, vec![stack_word(4, CmvsPs2aCommandStackWordKind::OpaqueU32)]),
        717 => (4, CmvsPs2aCommandEffectKind::StoreInterpreterWord { field_offset: 10568 }, vec![stack_word(4, CmvsPs2aCommandStackWordKind::BooleanU32)]),
        718 => (0, CmvsPs2aCommandEffectKind::LoadInterpreterWordToResult { source_field_offset: 11792, result_field_offset: 81220 }, Vec::new()),
        721 => (8, CmvsPs2aCommandEffectKind::StoreSystemConfigBoolean { config_field_offset: 1440, skip_flag_field_offset: 1452, result_field_offset: 81220 }, vec![stack_word(4, CmvsPs2aCommandStackWordKind::OpaqueU32), stack_word(8, CmvsPs2aCommandStackWordKind::OpaqueU32)]),
        741 => (8, CmvsPs2aCommandEffectKind::InterpreterFlagRoundTrip { flag_field_offset: 1500, result_field_offset: 81220 }, vec![stack_word(4, CmvsPs2aCommandStackWordKind::OpaqueU32), stack_word(8, CmvsPs2aCommandStackWordKind::BooleanU32)]),
        _ => return None,
    })
}

/// Every entry of this table places its words inside its popped bytes, and
/// pops exactly the words it reads unless it is command 156.
pub proof fn lemma_lookup_checked(command_id: u16)
    ensures
        match spec_lookup(command_id) {
            Some((pop, _effect, words)) => words_well_placed(words, pop) && (command_id == 156 || pop == 4 * words.len()),
            None => true,
        },
{
    reveal_with_fuel(offsets_in_range, 13);
    reveal_with_fuel(offset_unused, 13);
    reveal_with_fuel(offsets_distinct, 13);
    if command_id == 530 {
        assert(spec_lookup(command_id) is Some);
    } else if command_id == 531 {
        assert(spec_lookup(command_id) is Some);
    } else if command_id == 532 {
        assert(spec_lookup(command_id) is Some);
    } else if command_id == 533 {
        assert(spec_lookup(command_id) is Some);
    } else if command_id == 534 {
        assert(spec_lookup(command_id) is Some);
    } else if command_id == 535 {
        assert(spec_lookup(command_id) is Some);
    } else if command_id == 544 {
        assert(spec_lookup(command_id) is Some);
    } else if command_id == 545 {
        assert(spec_lookup(command_id) is Some);
    } else if command_id == 548 {
        assert(spec_lookup(command_id) is Some);
    } else if command_id == 549 {
        assert(spec_lookup(command_id) is Some);
    } else if command_id == 550 {
        assert(spec_lookup(command_id) is Some);
    } else if command_id == 551 {
        assert(spec_lookup(command_id) is Some);
    } else if command_id == 552 {
        assert(spec_lookup(command_id) is Some);
    } else if command_id == 553 {
        assert(spec_lookup(command_id) is Some);
    } else if command_id == 554 {
        assert(spec_lookup(command_id) is Some);
    } else if command_id == 555 {
        assert(spec_lookup(command_id) is Some);
    } else if command_id == 592 {
        assert(spec_lookup(command_id) is Some);
    } else if command_id == 688 {
        assert(spec_lookup(command_id) is Some);
    } else if command_id == 691 {
        assert(spec_lookup(command_id) is Some);
    } else if command_id == 692 {
        assert(spec_lookup(command_id) is Some);
    } else if command_id == 695 {
        assert(spec_lookup(command_id) is Some);
    } else if command_id == 697 {
        assert(spec_lookup(command_id) is Some);
    } else if command_id == 715 {
        assert(spec_lookup(command_id) is Some);
    } else if command_id == 717 {
        assert(spec_lookup(command_id) is Some);
    } else if command_id == 718 {
        assert(spec_lookup(command_id) is Some);
    } else if command_id == 721 {
        assert(spec_lookup(command_id) is Some);
    } else if command_id == 741 {
        assert(spec_lookup(command_id) is Some);
    }
}

} // verus!
