//! The PS2A command contracts recovered for CMVS 3.90: for each known
//! command id, the bytes its handler pops, the effect it has and the stack
//! words it reads. Unknown ids have no contract and must block.
use vstd::prelude::*;

pub mod opcodes_0_71;
pub mod opcodes_80_137;
pub mod opcodes_138_322;
pub mod opcodes_323_354;
pub mod opcodes_368_401;
pub mod opcodes_402_529;
pub mod opcodes_530_741;
pub mod opcodes_747_940;

verus! {

/// The effect of a command handler, with the interpreter fields, tables and
/// error masks it uses.
#[derive(Debug, Clone, Copy, PartialEq, Eq)]
pub enum CmvsPs2aCommandEffectKind {
    /// Plays an audio resource on the alternating channels.
    PlayAudio,
    /// Stops both alternating audio channels.
    StopAudio,
    /// Fades out the active audio channel over the consumed duration.
    FadeOutAudio,
    /// Plays a pair of audio resources.
    PlayPairedAudio,
    StopDispatch,
    MessageBody,
    ClearMessagePanel,
    ResetMessagePanel,
    DestroyBoundedSlotObject {
        table_dword_index: u32,
        max_slot: u32,
        error_flag_field_offset: u32,
        error_flag_mask: u32,
    },
    StoreSettingBooleanPlain {
        setting_field_offset: u16,
    },
    SetEffectChannelEnabled {
        effect_table_dword_index: u32,
        max_channel: u32,
        error_mask: u32,
    },
    ForwardEffectChannelWord {
        effect_table_dword_index: u32,
        max_channel: u32,
        error_mask: u32,
    },
    ForwardEffectChannelQuad {
        effect_table_dword_index: u32,
        max_channel: u32,
        error_mask: u32,
    },
    QueryEffectPosition {
        result_x_field_offset: u32,
        result_y_field_offset: u32,
    },
    QueryEffectPointerHit {
        result_field_offset: u32,
    },
    ForwardEffectChannelPair {
        effect_table_dword_index: u32,
        max_channel: u32,
        error_mask: u32,
    },
    ForwardEffectChannelBlock {
        effect_table_dword_index: u32,
        max_channel: u32,
        error_mask: u32,
    },
    SetEffectChildEnabled {
        effect_table_dword_index: u32,
        max_channel: u32,
        error_mask: u32,
    },
    SelectEffectChild {
        effect_table_dword_index: u32,
        max_channel: u32,
        error_mask: u32,
    },
    SelectEffectQuad {
        error_mask: u32,
    },
    DeselectEffectQuad {
        error_mask: u32,
    },
    QueryEffectState {
        first_field_offset: u32,
        second_field_offset: u32,
        third_field_offset: u32,
    },
    QueryTextureManagerState {
        state_field_offset: u32,
        aux_field_offset: u32,
    },
    StoreTextureReadyFlag {
        result_field_offset: u32,
        override_field_offset: u32,
    },
    StoreScriptSlotPresentationState {
        slot_table_dword_index: u32,
        error_mask: u32,
        result_field_offset: u32,
    },
    SetEffectChannelPlaybackFlag {
        effect_table_dword_index: u32,
        error_mask: u32,
        activity_state_key_base: u32,
    },
    QueryEffectQuadActive {
        result_field_offset: u32,
    },
    QueryChannelOccupancy {
        result_field_offset: u32,
        channel_table_dword_index: u32,
        error_mask: u32,
    },
    EffectChildCommand {
        pop_bytes: u16,
    },
    ConfigureEffectQuadGeometry {
        error_mask: u32,
    },
    ConfigureEffectQuadRect {
        error_mask: u32,
    },
    SetEffectChannelOrigin {
        error_mask: u32,
    },
    SetEffectChannelPlaybackMode {
        error_mask: u32,
    },
    SetEffectChannelValuePair {
        error_mask: u32,
    },
    ApplyEffectChannelOperation {
        error_mask: u32,
    },
    CommitScreenParams {
        error_mask: u32,
    },
    WaitScreenCommit {
        error_mask: u32,
        result_field_offset: u32,
    },
    QueryScreenPending {
        result_field_offset: u32,
    },
    ConfigureScreenRgb {
        error_mask: u32,
    },
    ConfigureScreenRotation {
        error_mask: u32,
    },
    ConfigureScreenScale {
        error_mask: u32,
    },
    ConfigureScreenOffset {
        error_mask: u32,
    },
    ConfigureScreenField {
        error_mask: u32,
        field_offset: u32,
    },
    ConfigureScreenScalePair {
        error_mask: u32,
    },
    ConfigureScreenFlag {
        error_mask: u32,
    },
    ConfigureScreenPair {
        error_mask: u32,
    },
    ConfigureScreenOffsetDirect {
        error_mask: u32,
    },
    ConfigureScreenScaleDirect {
        error_mask: u32,
    },
    ConfigureScreenRgbDirect {
        error_mask: u32,
    },
    ConfigureScreenRotationDirect {
        error_mask: u32,
    },
    ConfigureScreenFieldDirect {
        error_mask: u32,
        field_offset: u32,
    },
    ConfigureScreenScalePairDirect {
        error_mask: u32,
    },
    NoOpCommand,
    SetEffectPlaybackField {
        error_mask: u32,
        field_offset: u32,
    },
    SetEffectTextSurface {
        error_mask: u32,
    },
    SetEffectElementVisible {
        error_mask: u32,
    },
    QueryEffectElementExists {
        error_mask: u32,
        result_field_offset: u32,
    },
    SetEffectElementSize {
        error_mask: u32,
    },
    SetEffectElementAuxiliary {
        error_mask: u32,
    },
    SetEffectElementAuxiliaryPair {
        error_mask: u32,
    },
    ApplyEffectElementOperation {
        error_mask: u32,
    },
    PlayChannelSound {
        channel_table_dword_index: u32,
        max_channel: u32,
        play_error_mask: u32,
        channel_error_mask: u32,
    },
    CreateEffectChannel {
        effect_table_dword_index: u32,
        playback_table_dword_index: u32,
        max_channel: u32,
        max_effect: u32,
        channel_error_mask: u32,
        effect_error_mask: u32,
    },
    MessageSpeakerBody,
    StoreInterpreterWord {
        field_offset: u32,
    },
    StoreInterpreterConstant {
        field_offset: u32,
        value: u32,
    },
    ClearInterpreterTableWord {
        table_base_offset: u32,
        table_word_count: u32,
    },
    LoadInterpreterTableWord {
        table_base_offset: u32,
        table_word_count: u32,
        field_offset: u32,
    },
    MarkInterpreterRecordUnused {
        record_table_base_offset: u32,
        record_count: u32,
        record_stride_bytes: u32,
    },
    InterpreterFlagRoundTrip {
        flag_field_offset: u32,
        result_field_offset: u32,
    },
    StorePrefixedInterpreterString {
        buffer_offset: u16,
        prefix_field_offset: u16,
        ensure_directories: bool,
    },
    StoreProcessGlobalWord {
        address: u32,
    },
    StoreProcessGlobalBoolean {
        address: u32,
    },
    MutateProcessFlagRange,
    StoreProcessIndexedRange,
    StoreProcessFloatRange,
    StoreProcessStringRange,
    StoreComponentConstant {
        component_offset: u16,
        field_offset: u16,
        value: u32,
    },
    StartResourceChannel {
        bank: CmvsResourceChannelBank,
    },
    CreateSlotObject {
        table_byte_offset: u16,
    },
    CreateSingletonSlotObject {
        table_byte_offset: u16,
        slot: u8,
        field_offset: u32,
        value: u32,
    },
    RunFilterGraphControl {
        table_byte_offset: u16,
        slot: u8,
        field_offset: u32,
    },
    DestroySingletonSlotObject {
        table_byte_offset: u16,
        slot: u8,
    },
    ReplaceFilterChainSlot {
        table_byte_offset: u16,
        max_bank: u32,
        max_channel_id: u32,
        error_flag_field_offset: u16,
        error_flag_mask: u32,
    },
    DestroyFilterChainSlot {
        table_byte_offset: u16,
        max_bank: u8,
        error_flag_field_offset: u16,
        error_flag_mask: u32,
    },
    QueryFilterChainSlot {
        table_byte_offset: u16,
        max_bank: u32,
        error_flag_field_offset: u16,
        error_flag_mask: u32,
        result_field_offset: u32,
    },
    UpdateFilterChainRecord {
        table_byte_offset: u16,
        max_bank: u8,
        error_flag_field_offset: u16,
        error_flag_mask: u32,
    },
    UpdateFilterChainParameterBlock {
        table_byte_offset: u16,
        max_bank: u8,
        backend_mode_address: u32,
        error_flag_field_offset: u16,
        error_flag_mask: u32,
    },
    ApplyFilterChainRecords {
        table_byte_offset: u16,
        max_bank: u8,
        error_flag_field_offset: u16,
        error_flag_mask: u32,
    },
    PollFilterChainSelection {
        table_byte_offset: u16,
        max_bank: u8,
        error_flag_field_offset: u16,
        error_flag_mask: u32,
        result_field_offset: u32,
    },
    ReadActiveFilterChainSelection {
        table_byte_offset: u16,
        max_bank: u8,
        error_flag_field_offset: u16,
        error_flag_mask: u32,
        result_field_offset: u32,
    },
    DestroySlotObject {
        table_byte_offset: u16,
    },
    MoveSlotObject {
        table_byte_offset: u16,
    },
    RequestWindowCaption {
        prefix_field_offset: Option<u16>,
    },
    StoreBoundedInterpreterString {
        buffer_offset: u16,
        max_text_bytes: u16,
        error_flag_field_offset: u16,
        error_flag_mask: u32,
    },
    BuildPrefixedWindowCaption {
        prefix_field_offset: u16,
        buffer_offset: u16,
    },
    StoreChannelVisibilityRecord {
        enabled_field_base_offset: u16,
        touched_field_base_offset: u16,
        record_stride_bytes: u8,
        notify_gate_field_offset: u16,
    },
    ResetChannelVisibilityRecord {
        name_buffer_base_offset: u16,
        touched_field_base_offset: u16,
        record_stride_bytes: u8,
        error_flag_mask: u32,
        teardown_slot_table_offset: u16,
    },
    StoreComponentWord {
        component_field_offset: u16,
        field_offset: u16,
    },
    StorePresentationFrameFields {
        top_field_offset: u16,
        second_field_offset: u16,
        active_field_offset: u16,
    },
    StoreClampedPresentationSize {
        field_offset: u16,
        negative_replacement: u32,
        maximum: u32,
    },
    CallScript,
    ReloadRootScript,
    StoreInterpreterTimestampedRecord {
        table_base_offset: u16,
        record_stride_bytes: u8,
        max_index: u8,
    },
    ResumeInterpreterCoroutineRecord {
        record_table_base_offset: u16,
        record_stride_bytes: u8,
        max_index_mask: u8,
    },
    RecreateSaveImageOwner {
        handle_field_offset: u16,
    },
    QuerySaveImageProgress {
        result_field_offset: u32,
    },
    StoreSaveImageEnabled,
    SaveImageOwnerWaitOrDestroy {
        result_field_offset: u32,
    },
    DestroySaveImageOwner,
    QuerySaveImageEnabled {
        result_field_offset: u32,
    },
    QueryRendererDisplayMode {
        renderer_field_offset: u32,
        result_field_offset: u32,
    },
    QueryPointerPosition {
        x_field_offset: u32,
        y_field_offset: u32,
    },
    HitTestPointerRect {
        result_field_offset: u32,
    },
    HitTestPointerRegion {
        result_field_offset: u32,
    },
    QueryEffectChannelActivity {
        activity_state_key_base: u32,
        max_channel: u32,
        effect_table_dword_index: u32,
        error_mask: u32,
        result_field_offset: u32,
    },
    LoadInterpreterWordToResult {
        source_field_offset: u32,
        result_field_offset: u32,
    },
    LoadInterpreterWordBooleanToResult {
        source_field_offset: u32,
        result_field_offset: u32,
    },
    QuerySceneLayer {
        base_word: u32,
        result_field_offset: u32,
        aux_field_offset: u32,
    },
    ClearSceneLayer {
        base_word: u32,
    },
    QueryEffectQuadState {
        effect_table_dword_index: u32,
        empty_error_mask: u32,
        missing_error_mask: u32,
        result0_field_offset: u32,
        result1_field_offset: u32,
        result2_field_offset: u32,
        result3_field_offset: u32,
        result8_field_offset: u32,
        result9_field_offset: u32,
    },
    ActivateEffectQuad {
        error_mask: u32,
    },
    QueryNewestSaveSlot {
        result_field_offset: u32,
    },
    StoreSystemSettingBoolean {
        setting_field_offset: u16,
    },
    StoreSettingsWordReset {
        setting_field_offset: u16,
    },
    StoreRandomModulo {
        target_field_offset: u32,
    },
    RegisterResourceChannelSlot {
        max_slot: u8,
        table_base_offset: u16,
        record_stride_bytes: u8,
        gate_field_offset: u16,
        error_flag_field_offset: u16,
        error_flag_mask: u32,
    },
    ResetTextureChild {
        texture_table_base_offset: u32,
        max_parent_slot: u8,
        max_child_id: u16,
        error_flag_field_offset: u32,
        error_flag_mask: u32,
    },
    LoadTextureParentResource {
        texture_table_base_offset: u32,
        max_parent_slot: u8,
        result_field_offset: u32,
        error_flag_field_offset: u32,
        error_flag_mask: u32,
    },
    ResetPresentationBuffers,
    SelectPresentationSlot {
        slot_table_dword_index: u32,
        max_slot: u32,
        error_flag_field_offset: u32,
        error_flag_mask: u32,
    },
    SelectRenderViewport {
        slot_table_dword_index: u32,
        error_flag_field_offset: u32,
        error_flag_mask: u32,
    },
    StoreSystemConfigBoolean {
        config_field_offset: u32,
        skip_flag_field_offset: u32,
        result_field_offset: u32,
    },
    QueryScriptSlotOccupancy {
        slot_table_dword_index: u32,
        max_slot: u32,
        error_flag_field_offset: u32,
        error_flag_mask: u32,
        result_field_offset: u32,
    },
    CommitTexturePresentation {
        result_field_offset: u32,
        present_object_field_offset: u32,
    },
    LoadTextureParentResourceExtended {
        texture_table_base_offset: u32,
        result_field_offset: u32,
        error_flag_field_offset: u32,
        error_flag_mask: u32,
    },
    InitializeTextureParentSurface {
        texture_table_base_offset: u32,
        max_parent_slot: u8,
        error_flag_field_offset: u32,
        error_flag_mask: u32,
    },
    ClearTextureChannelTable {
        channel_table_base_offset: u32,
    },
    StoreStringLength {
        target_field_offset: u32,
    },
    LoadTextureChildResource {
        texture_table_base_offset: u32,
        max_parent_slot: u8,
        max_child_id: u16,
        error_flag_field_offset: u32,
        error_flag_mask: u32,
    },
    InitializeTextureChildSurface {
        texture_table_base_offset: u32,
        max_parent_slot: u8,
        max_child_id: u16,
        error_flag_field_offset: u32,
        error_flag_mask: u32,
    },
    ConfigureTextureChildRect {
        texture_table_base_offset: u32,
        max_parent_slot: u8,
        max_child_id: u16,
        error_flag_field_offset: u32,
        parent_error_mask: u32,
        child_error_mask: u32,
    },
    ConfigureTextureChildPosition {
        texture_table_base_offset: u32,
        max_parent_slot: u8,
        max_child_id: u16,
        error_flag_field_offset: u32,
        parent_error_mask: u32,
        child_error_mask: u32,
    },
    ConfigureTextureAuxiliaryPair {
        texture_table_base_offset: u32,
        max_parent_slot: u8,
        max_child_id: u16,
        error_flag_field_offset: u32,
        parent_error_mask: u32,
        child_error_mask: u32,
    },
    ConfigureTextureAuxiliaryWord {
        texture_table_base_offset: u32,
        max_parent_slot: u8,
        max_child_id: u16,
        error_flag_field_offset: u32,
        parent_error_mask: u32,
        child_error_mask: u32,
    },
    ClearResourceSlot {
        max_slot: u8,
        error_flag_field_offset: u32,
        error_flag_mask: u32,
    },
    CopySettingsFieldToInterpreterWord {
        settings_field_offset: u16,
        target_field_offset: u32,
    },
    StoreIndexedSettingBoolean {
        target_field_offset: u32,
        max_index: u8,
    },
    StoreDerivedSettingsPair {
        first_selector_field_offset: u16,
        second_selector_field_offset: u16,
        result_field_offset: u16,
        result_target_field_offset: u32,
        flag_target_field_offset: u32,
    },
    StoreSettingsPredicate {
        settings_field_offset: u16,
        target_field_offset: u32,
    },
    DeriveSettingsSnapshot {
        gate_field_offset: u16,
        copy_source_field_offsets: [u16; 4],
        copy_target_field_offsets: [u32; 4],
        always_source_field_offset: u16,
        always_target_field_offset: u32,
        gate_target_field_offset: u32,
    },
    StoreSettingsRecord {
        record_base_field_offset: u16,
        record_stride_bytes: u8,
        max_index: u8,
    },
    StoreSystemSettingBooleanPair {
        first_field_offset: u16,
        second_field_offset: u16,
    },
    StoreSystemSettingBoundedWord {
        setting_field_offset: u16,
        minimum: u32,
        maximum: u32,
    },
    StoreSystemSettingNonNegativeWord {
        setting_field_offset: u16,
    },
    TogglePresentationMode {
        first_field_offset: u16,
        second_field_offset: u16,
    },
    AppendPrivateStringToList {
        list_id: u16,
        length_field_offset: u32,
    },
    SelectSystemCursor {
        manager_field_offset: u16,
        current_index_field_offset: u16,
    },
    RequestSystemStateLoad {
        path_buffer_offset: u16,
    },
}

/// A resource-channel bank: a fixed array of channel records.
#[derive(Debug, Clone, Copy, PartialEq, Eq, PartialOrd, Ord, Structural)]
pub enum CmvsResourceChannelBank {
    /// Five channel records of 2052 bytes.
    FiveSlotSetup,
    /// Ten channel records of 2052 bytes.
    TenSlotSetup,
    /// Seven channel records.
    SevenSlotSetup,
    /// Five channel records of the second kind.
    FiveSlotAltSetup,
}

impl CmvsResourceChannelBank {
    /// The number of channel records of the bank.
    pub open spec fn spec_slot_count(self) -> u8 {
        match self {
            CmvsResourceChannelBank::FiveSlotSetup => 5,
            CmvsResourceChannelBank::TenSlotSetup => 10,
            CmvsResourceChannelBank::SevenSlotSetup => 7,
            CmvsResourceChannelBank::FiveSlotAltSetup => 5,
        }
    }

    /// The number of channel records of the bank.
    pub fn slot_count(self) -> (r: u8)
        ensures
            r == self.spec_slot_count(),
    {
        match self {
            CmvsResourceChannelBank::FiveSlotSetup => 5,
            CmvsResourceChannelBank::TenSlotSetup => 10,
            CmvsResourceChannelBank::SevenSlotSetup => 7,
            CmvsResourceChannelBank::FiveSlotAltSetup => 5,
        }
    }
}

/// How a handler reads one four-byte stack word.
#[derive(Debug, Clone, Copy, PartialEq, Eq, Structural)]
pub enum CmvsPs2aCommandStackWordKind {
    /// A tagged string reference, resolved through the string resolver.
    TaggedStringReference,
    /// A word passed on without a known meaning or range.
    OpaqueU32,
    /// A word read as zero or non-zero.
    BooleanU32,
}

/// One stack word a handler reads, by its distance in bytes from the stack
/// top before the pop: the topmost word is four bytes down.
#[derive(Debug, Clone, Copy, PartialEq, Eq, Structural)]
pub struct CmvsPs2aCommandStackWord {
    pub offset_from_top_bytes: u8,
    pub kind: CmvsPs2aCommandStackWordKind,
}

/// The stack word at `offset` read as `kind`.
pub open spec fn sw(offset: u8, kind: CmvsPs2aCommandStackWordKind) -> CmvsPs2aCommandStackWord {
    CmvsPs2aCommandStackWord { offset_from_top_bytes: offset, kind }
}

/// Builds a stack word.
pub fn stack_word(offset: u8, kind: CmvsPs2aCommandStackWordKind) -> (r: CmvsPs2aCommandStackWord)
    ensures
        r == sw(offset, kind),
{
    CmvsPs2aCommandStackWord { offset_from_top_bytes: offset, kind }
}

/// The stack contract of one command: `stack_pop_bytes` is the pop count
/// its handler returns; an empty `stack_words` reads no stack data.
#[derive(Debug, Clone, PartialEq, Eq)]
pub struct CmvsPs2aCommandContract {
    pub command_id: u16,
    pub stack_pop_bytes: u8,
    pub effect_kind: CmvsPs2aCommandEffectKind,
    pub stack_words: Vec<CmvsPs2aCommandStackWord>,
}

/// The recovered fields of `command_id`, from its id range's table.
pub open spec fn spec_command_fields(command_id: u16) -> Option<(u8, CmvsPs2aCommandEffectKind, Seq<CmvsPs2aCommandStackWord>)> {
    match command_id {
        0 | 11 | 12 | 16 | 17 | 18 | 19 | 20 | 21 | 22 | 23 | 24 | 26 | 29 | 30 | 31 | 32 | 33 | 34 | 35 | 39 | 40 | 46 | 47 | 48 | 51 | 56 | 64 | 68 | 69 | 70 | 71 => opcodes_0_71::spec_lookup(command_id),
        80 | 88 | 89 | 90 | 91 | 92 | 93 | 94 | 95 | 96 | 97 | 98 | 99 | 100 | 101 | 102 | 103 | 104 | 105 | 106 | 128 | 129 | 135 | 136 | 137 => opcodes_80_137::spec_lookup(command_id),
        138 | 139 | 143 | 144 | 145 | 146 | 147 | 148 | 152 | 153 | 156 | 160 | 161 | 162 | 164 | 176 | 177 | 179 | 200 | 202 | 203 | 212 | 248 | 276 | 277 | 278 | 279 | 286 | 294 | 296 | 304 | 321 | 322 => opcodes_138_322::spec_lookup(command_id),
        323 | 324 | 325 | 326 | 327 | 328 | 329 | 330 | 331 | 333 | 334 | 336 | 337 | 346 | 347 | 349 | 350 | 351 | 352 | 353 | 354 => opcodes_323_354::spec_lookup(command_id),
        368 | 376 | 377 | 378 | 379 | 380 | 382 | 383 | 384 | 385 | 386 | 387 | 388 | 389 | 390 | 391 | 397 | 400 | 401 => opcodes_368_401::spec_lookup(command_id),
        402 | 403 | 404 | 405 | 406 | 410 | 416 | 424 | 425 | 426 | 427 | 428 | 429 | 430 | 431 | 432 | 433 | 463 | 464 | 465 | 466 | 468 | 469 | 470 | 471 | 524 | 528 | 529 => opcodes_402_529::spec_lookup(command_id),
        530 | 531 | 532 | 533 | 534 | 535 | 544 | 545 | 548 | 549 | 550 | 551 | 552 | 553 | 554 | 555 | 592 | 688 | 691 | 692 | 695 | 697 | 715 | 717 | 718 | 721 | 741 => opcodes_530_741::spec_lookup(command_id),
        747 | 750 | 751 | 778 | 845 | 846 | 848 | 849 | 850 | 851 | 853 | 854 | 855 | 856 | 857 | 858 | 859 | 864 | 866 | 868 | 869 | 870 | 940 => opcodes_747_940::spec_lookup(command_id),
        _ => None,
    }
}

/// The contract of `command_id` as `(id, pop bytes, effect, words)`.
pub open spec fn spec_cmvs390_command_contract(command_id: u16)
    -> Option<(u16, u8, CmvsPs2aCommandEffectKind, Seq<CmvsPs2aCommandStackWord>)>
{
    match spec_command_fields(command_id) {
        Some((pop, effect, words)) => Some((command_id, pop, effect, words)),
        None => None,
    }
}

/// Looks up the contract of a command recovered for CMVS 3.90; any other id
/// has none.
pub fn cmvs390_command_contract(command_id: u16) -> (r: Option<CmvsPs2aCommandContract>)
    ensures
        match r {
            Some(c) => spec_cmvs390_command_contract(command_id)
                == Some((c.command_id, c.stack_pop_bytes, c.effect_kind, c.stack_words@)),
            None => spec_cmvs390_command_contract(command_id) is None,
        },
{
    let fields = match command_id {
        0 | 11 | 12 | 16 | 17 | 18 | 19 | 20 | 21 | 22 | 23 | 24 | 26 | 29 | 30 | 31 | 32 | 33 | 34 | 35 | 39 | 40 | 46 | 47 | 48 | 51 | 56 | 64 | 68 | 69 | 70 | 71 => opcodes_0_71::lookup(command_id),
        80 | 88 | 89 | 90 | 91 | 92 | 93 | 94 | 95 | 96 | 97 | 98 | 99 | 100 | 101 | 102 | 103 | 104 | 105 | 106 | 128 | 129 | 135 | 136 | 137 => opcodes_80_137::lookup(command_id),
        138 | 139 | 143 | 144 | 145 | 146 | 147 | 148 | 152 | 153 | 156 | 160 | 161 | 162 | 164 | 176 | 177 | 179 | 200 | 202 | 203 | 212 | 248 | 276 | 277 | 278 | 279 | 286 | 294 | 296 | 304 | 321 | 322 => opcodes_138_322::lookup(command_id),
        323 | 324 | 325 | 326 | 327 | 328 | 329 | 330 | 331 | 333 | 334 | 336 | 337 | 346 | 347 | 349 | 350 | 351 | 352 | 353 | 354 => opcodes_323_354::lookup(command_id),
        368 | 376 | 377 | 378 | 379 | 380 | 382 | 383 | 384 | 385 | 386 | 387 | 388 | 389 | 390 | 391 | 397 | 400 | 401 => opcodes_368_401::lookup(command_id),
        402 | 403 | 404 | 405 | 406 | 410 | 416 | 424 | 425 | 426 | 427 | 428 | 429 | 430 | 431 | 432 | 433 | 463 | 464 | 465 | 466 | 468 | 469 | 470 | 471 | 524 | 528 | 529 => opcodes_402_529::lookup(command_id),
        530 | 531 | 532 | 533 | 534 | 535 | 544 | 545 | 548 | 549 | 550 | 551 | 552 | 553 | 554 | 555 | 592 | 688 | 691 | 692 | 695 | 697 | 715 | 717 | 718 | 721 | 741 => opcodes_530_741::lookup(command_id),
        747 | 750 | 751 | 778 | 845 | 846 | 848 | 849 | 850 | 851 | 853 | 854 | 855 | 856 | 857 | 858 | 859 | 864 | 866 | 868 | 869 | 870 | 940 => opcodes_747_940::lookup(command_id),
        _ => None,
    };
    match fields {
        Some((stack_pop_bytes, effect_kind, stack_words)) => Some(CmvsPs2aCommandContract {
            command_id,
            stack_pop_bytes,
            effect_kind,
            stack_words,
        }),
        None => None,
    }
}

/// Each of the first `n` words sits at a multiple of four from four to four
/// times the word count.
pub open spec fn offsets_in_range(words: Seq<CmvsPs2aCommandStackWord>, n: nat) -> bool
    decreases n,
{
    if n == 0 || n > words.len() {
        n == 0
    } else {
        let o = words[n - 1].offset_from_top_bytes;
        offsets_in_range(words, (n - 1) as nat) && o % 4 == 0 && 4 <= o && o <= 4 * words.len()
    }
}

/// None of the first `n` words sits at `offset`.
pub open spec fn offset_unused(words: Seq<CmvsPs2aCommandStackWord>, n: nat, offset: u8) -> bool
    decreases n,
{
    if n == 0 || n > words.len() {
        n == 0
    } else {
        offset_unused(words, (n - 1) as nat, offset) && words[n - 1].offset_from_top_bytes != offset
    }
}

/// No two of the first `n` words share an offset.
pub open spec fn offsets_distinct(words: Seq<CmvsPs2aCommandStackWord>, n: nat) -> bool
    decreases n,
{
    if n == 0 || n > words.len() {
        n == 0
    } else {
        offsets_distinct(words, (n - 1) as nat) && offset_unused(words, (n - 1) as nat, words[n - 1].offset_from_top_bytes)
    }
}

/// The words of a contract lie inside the popped stack bytes, each at its
/// own multiple of four, so the topmost word is four bytes down.
pub open spec fn words_well_placed(words: Seq<CmvsPs2aCommandStackWord>, pop: u8) -> bool {
    &&& 4 * words.len() <= pop
    &&& offsets_in_range(words, words.len())
    &&& offsets_distinct(words, words.len())
    &&& (words.len() > 0 ==> !offset_unused(words, words.len(), 4))
}

/// The table check behind the stack-word law, one command id at a time.
pub open spec fn command_words_ok(command_id: u16) -> bool {
    match spec_command_fields(command_id) {
        Some((pop, _effect, words)) => words_well_placed(words, pop),
        None => true,
    }
}

/// A command reads exactly the words it pops, except command 156, which
/// pops eight bytes it does not read.
pub open spec fn command_pop_matches(command_id: u16) -> bool {
    match spec_command_fields(command_id) {
        Some((pop, _effect, words)) => command_id == 156 || pop == 4 * words.len(),
        None => true,
    }
}

proof fn lemma_offsets_in_range(words: Seq<CmvsPs2aCommandStackWord>, n: nat, k: int)
    requires
        offsets_in_range(words, n),
        0 <= k < n,
    ensures
        words[k].offset_from_top_bytes % 4 == 0,
        4 <= words[k].offset_from_top_bytes <= 4 * words.len(),
    decreases n,
{
    if k < n - 1 {
        lemma_offsets_in_range(words, (n - 1) as nat, k);
    }
}

proof fn lemma_offset_unused(words: Seq<CmvsPs2aCommandStackWord>, n: nat, offset: u8, k: int)
    requires
        offset_unused(words, n, offset),
        0 <= k < n,
    ensures
        words[k].offset_from_top_bytes != offset,
    decreases n,
{
    if k < n - 1 {
        lemma_offset_unused(words, (n - 1) as nat, offset, k);
    }
}

proof fn lemma_offset_used(words: Seq<CmvsPs2aCommandStackWord>, n: nat, offset: u8)
    requires
        n <= words.len(),
        !offset_unused(words, n, offset),
    ensures
        exists|k: int| 0 <= k < n && #[trigger] words[k].offset_from_top_bytes == offset,
    decreases n,
{
    if n > 0 && words[n - 1].offset_from_top_bytes != offset {
        lemma_offset_used(words, (n - 1) as nat, offset);
        let k = choose|k: int| 0 <= k < n - 1 && #[trigger] words[k].offset_from_top_bytes == offset;
        assert(words[k].offset_from_top_bytes == offset);
    }
}

proof fn lemma_offsets_distinct(words: Seq<CmvsPs2aCommandStackWord>, n: nat, j: int, k: int)
    requires
        offsets_distinct(words, n),
        0 <= j < k < n,
    ensures
        words[j].offset_from_top_bytes != words[k].offset_from_top_bytes,
    decreases n,
{
    if k < n - 1 {
        lemma_offsets_distinct(words, (n - 1) as nat, j, k);
    } else {
        lemma_offset_unused(words, (n - 1) as nat, words[k].offset_from_top_bytes, j);
    }
}

proof fn lemma_table_checked(id: u16)
    ensures
        command_words_ok(id) && command_pop_matches(id),
{
    opcodes_0_71::lemma_lookup_checked(id);
    opcodes_80_137::lemma_lookup_checked(id);
    opcodes_138_322::lemma_lookup_checked(id);
    opcodes_323_354::lemma_lookup_checked(id);
    opcodes_368_401::lemma_lookup_checked(id);
    opcodes_402_529::lemma_lookup_checked(id);
    opcodes_530_741::lemma_lookup_checked(id);
    opcodes_747_940::lemma_lookup_checked(id);
}

/// Every recovered contract reads its stack words inside the bytes it pops,
/// each word at its own multiple of four from four up to four times the
/// word count, and the topmost word, four bytes down, among them; every
/// contract but that of command 156 pops exactly the words it reads.
pub proof fn lemma_command_stack_words(command_id: u16)
    requires
        spec_cmvs390_command_contract(command_id) is Some,
    ensures
        ({
            let (id, pop, effect, words) = spec_cmvs390_command_contract(command_id)->Some_0;
            &&& id == command_id
            &&& 4 * words.len() <= pop
            &&& command_id != 156 ==> pop == 4 * words.len()
            &&& forall|k: int| 0 <= k < words.len() ==> (#[trigger] words[k]).offset_from_top_bytes % 4 == 0
                && 4 <= words[k].offset_from_top_bytes <= 4 * words.len()
            &&& forall|j: int, k: int| 0 <= j < k < words.len()
                ==> (#[trigger] words[j]).offset_from_top_bytes != (#[trigger] words[k]).offset_from_top_bytes
            &&& words.len() > 0 ==> exists|k: int| 0 <= k < words.len() && (#[trigger] words[k]).offset_from_top_bytes == 4
        }),
{
    lemma_table_checked(command_id);
    let (pop, effect, words) = spec_command_fields(command_id)->Some_0;
    assert forall|k: int| 0 <= k < words.len() implies (#[trigger] words[k]).offset_from_top_bytes % 4 == 0
        && 4 <= words[k].offset_from_top_bytes <= 4 * words.len() by {
        lemma_offsets_in_range(words, words.len(), k);
    }
    assert forall|j: int, k: int| 0 <= j < k < words.len()
        implies (#[trigger] words[j]).offset_from_top_bytes != (#[trigger] words[k]).offset_from_top_bytes by {
        lemma_offsets_distinct(words, words.len(), j, k);
    }
    if words.len() > 0 {
        lemma_offset_used(words, words.len(), 4);
    }
}

} // verus!
