use vstd::prelude::*;

verus! {

/// Stable diagnostic of a rejected input or operation. Each variant stands
/// for exactly one string code, given by [`CmvsError::code`].
#[derive(Debug, Clone, Copy, PartialEq, Eq, Structural)]
pub enum CmvsError {
    ArchiveEmpty,
    ArchiveSource,
    AudioBound,
    CpzArchiveKey,
    CpzChecksum,
    CpzDirectory,
    CpzEntry,
    CpzEntrySize,
    CpzEntryVersion,
    CpzHeader,
    CpzIndexHash,
    CpzIndexRange,
    CpzIndexSize,
    CpzIndexVersion,
    CpzMagic,
    CpzPath,
    CpzProfile,
    CpzRange,
    CpzSecret,
    CpzString,
    CpzVersion,
    EntryDuplicate,
    EntryLimit,
    EntryRange,
    EntrySize,
    Frame,
    InputUnbound,
    JbpAc,
    JbpAcBits,
    JbpAlpha,
    JbpBits,
    JbpBlocks,
    JbpBpp,
    JbpDc,
    JbpDcBits,
    JbpDimensions,
    JbpFormat,
    JbpHeader,
    JbpLayout,
    JbpOutput,
    JbpQuantization,
    JbpTable,
    JbpTree,
    LooseDuplicate,
    LooseIo,
    LooseLimit,
    LooseName,
    LooseSize,
    LooseSource,
    Md5Variant,
    MgvHeader,
    MgvIndex,
    MgvMagic,
    MgvOgg,
    MgvRange,
    MountArchives,
    Pb2Bpp,
    Pb2Control,
    Pb2Data,
    Pb2Layout,
    Pb2Magic,
    Pb2Output,
    Pb2Pixels,
    Pb2Size,
    Pb2Variant,
    Pb3BaseCycle,
    Pb3BaseDimensions,
    Pb3BaseReference,
    Pb3Bpp,
    Pb3Control,
    Pb3Data,
    Pb3InputSize,
    Pb3Layout,
    Pb3Magic,
    Pb3Output,
    Pb3Pixels,
    Pb3Size,
    Pb3Variant,
    PbBpp,
    PbDimensions,
    PbHeader,
    PbLzssControl,
    PbLzssData,
    PbLzssOutput,
    PbLzssSize,
    PbPixels,
    PrivateScheme,
    Profile,
    Ps2aControl,
    Ps2aCount,
    Ps2aEncoding,
    Ps2aExpression,
    Ps2aExpressionDepth,
    Ps2aFrame,
    Ps2aHeader,
    Ps2aIndex,
    Ps2aLayout,
    Ps2aLzss,
    Ps2aMagic,
    Ps2aNameIndex,
    Ps2aOffset,
    Ps2aOpcode,
    Ps2aSize,
    Ps2aStrings,
    Ps2aStringExpression,
    Ps2aStringOffset,
    Ps2aStringRange,
    Ps2aStringSize,
    Ps2aStringTag,
    ScriptBound,
    ScriptFrame,
    ScriptNotFound,
    ScriptRead,
    ScriptUri,
    SessionId,
    SourceChanged,
    SourceDuplicate,
    SourceIo,
    SourceMetadata,
    SourceShortRead,
    TextureGeometry,
    TexturePresentationState,
    Time,
    VfsNotFound,
    VfsReadLimit,
    VfsReadRange,
    VfsUri,
}

/// The stable string code of each diagnostic.
pub open spec fn cmvs_error_code(e: CmvsError) -> &'static str {
    match e {
        CmvsError::ArchiveEmpty => "ASTRA_EMU_CMVS_ARCHIVE_EMPTY",
        CmvsError::ArchiveSource => "ASTRA_EMU_CMVS_ARCHIVE_SOURCE",
        CmvsError::AudioBound => "ASTRA_EMU_CMVS_AUDIO_BOUND",
        CmvsError::CpzArchiveKey => "ASTRA_EMU_CMVS_CPZ_ARCHIVE_KEY",
        CmvsError::CpzChecksum => "ASTRA_EMU_CMVS_CPZ_CHECKSUM",
        CmvsError::CpzDirectory => "ASTRA_EMU_CMVS_CPZ_DIRECTORY",
        CmvsError::CpzEntry => "ASTRA_EMU_CMVS_CPZ_ENTRY",
        CmvsError::CpzEntrySize => "ASTRA_EMU_CMVS_CPZ_ENTRY_SIZE",
        CmvsError::CpzEntryVersion => "ASTRA_EMU_CMVS_CPZ_ENTRY_VERSION",
        CmvsError::CpzHeader => "ASTRA_EMU_CMVS_CPZ_HEADER",
        CmvsError::CpzIndexHash => "ASTRA_EMU_CMVS_CPZ_INDEX_HASH",
        CmvsError::CpzIndexRange => "ASTRA_EMU_CMVS_CPZ_INDEX_RANGE",
        CmvsError::CpzIndexSize => "ASTRA_EMU_CMVS_CPZ_INDEX_SIZE",
        CmvsError::CpzIndexVersion => "ASTRA_EMU_CMVS_CPZ_INDEX_VERSION",
        CmvsError::CpzMagic => "ASTRA_EMU_CMVS_CPZ_MAGIC",
        CmvsError::CpzPath => "ASTRA_EMU_CMVS_CPZ_PATH",
        CmvsError::CpzProfile => "ASTRA_EMU_CMVS_CPZ_PROFILE",
        CmvsError::CpzRange => "ASTRA_EMU_CMVS_CPZ_RANGE",
        CmvsError::CpzSecret => "ASTRA_EMU_CMVS_CPZ_SECRET",
        CmvsError::CpzString => "ASTRA_EMU_CMVS_CPZ_STRING",
        CmvsError::CpzVersion => "ASTRA_EMU_CMVS_CPZ_VERSION",
        CmvsError::EntryDuplicate => "ASTRA_EMU_CMVS_ENTRY_DUPLICATE",
        CmvsError::EntryLimit => "ASTRA_EMU_CMVS_ENTRY_LIMIT",
        CmvsError::EntryRange => "ASTRA_EMU_CMVS_ENTRY_RANGE",
        CmvsError::EntrySize => "ASTRA_EMU_CMVS_ENTRY_SIZE",
        CmvsError::Frame => "ASTRA_EMU_CMVS_FRAME",
        CmvsError::InputUnbound => "ASTRA_EMU_CMVS_INPUT_UNBOUND",
        CmvsError::JbpAc => "ASTRA_EMU_CMVS_JBP_AC",
        CmvsError::JbpAcBits => "ASTRA_EMU_CMVS_JBP_AC_BITS",
        CmvsError::JbpAlpha => "ASTRA_EMU_CMVS_JBP_ALPHA",
        CmvsError::JbpBits => "ASTRA_EMU_CMVS_JBP_BITS",
        CmvsError::JbpBlocks => "ASTRA_EMU_CMVS_JBP_BLOCKS",
        CmvsError::JbpBpp => "ASTRA_EMU_CMVS_JBP_BPP",
        CmvsError::JbpDc => "ASTRA_EMU_CMVS_JBP_DC",
        CmvsError::JbpDcBits => "ASTRA_EMU_CMVS_JBP_DC_BITS",
        CmvsError::JbpDimensions => "ASTRA_EMU_CMVS_JBP_DIMENSIONS",
        CmvsError::JbpFormat => "ASTRA_EMU_CMVS_JBP_FORMAT",
        CmvsError::JbpHeader => "ASTRA_EMU_CMVS_JBP_HEADER",
        CmvsError::JbpLayout => "ASTRA_EMU_CMVS_JBP_LAYOUT",
        CmvsError::JbpOutput => "ASTRA_EMU_CMVS_JBP_OUTPUT",
        CmvsError::JbpQuantization => "ASTRA_EMU_CMVS_JBP_QUANTIZATION",
        CmvsError::JbpTable => "ASTRA_EMU_CMVS_JBP_TABLE",
        CmvsError::JbpTree => "ASTRA_EMU_CMVS_JBP_TREE",
        CmvsError::LooseDuplicate => "ASTRA_EMU_CMVS_LOOSE_DUPLICATE",
        CmvsError::LooseIo => "ASTRA_EMU_CMVS_LOOSE_IO",
        CmvsError::LooseLimit => "ASTRA_EMU_CMVS_LOOSE_LIMIT",
        CmvsError::LooseName => "ASTRA_EMU_CMVS_LOOSE_NAME",
        CmvsError::LooseSize => "ASTRA_EMU_CMVS_LOOSE_SIZE",
        CmvsError::LooseSource => "ASTRA_EMU_CMVS_LOOSE_SOURCE",
        CmvsError::Md5Variant => "ASTRA_EMU_CMVS_MD5_VARIANT",
        CmvsError::MgvHeader => "ASTRA_EMU_CMVS_MGV_HEADER",
        CmvsError::MgvIndex => "ASTRA_EMU_CMVS_MGV_INDEX",
        CmvsError::MgvMagic => "ASTRA_EMU_CMVS_MGV_MAGIC",
        CmvsError::MgvOgg => "ASTRA_EMU_CMVS_MGV_OGG",
        CmvsError::MgvRange => "ASTRA_EMU_CMVS_MGV_RANGE",
        CmvsError::MountArchives => "ASTRA_EMU_CMVS_MOUNT_ARCHIVES",
        CmvsError::Pb2Bpp => "ASTRA_EMU_CMVS_PB2_BPP",
        CmvsError::Pb2Control => "ASTRA_EMU_CMVS_PB2_CONTROL",
        CmvsError::Pb2Data => "ASTRA_EMU_CMVS_PB2_DATA",
        CmvsError::Pb2Layout => "ASTRA_EMU_CMVS_PB2_LAYOUT",
        CmvsError::Pb2Magic => "ASTRA_EMU_CMVS_PB2_MAGIC",
        CmvsError::Pb2Output => "ASTRA_EMU_CMVS_PB2_OUTPUT",
        CmvsError::Pb2Pixels => "ASTRA_EMU_CMVS_PB2_PIXELS",
        CmvsError::Pb2Size => "ASTRA_EMU_CMVS_PB2_SIZE",
        CmvsError::Pb2Variant => "ASTRA_EMU_CMVS_PB2_VARIANT",
        CmvsError::Pb3BaseCycle => "ASTRA_EMU_CMVS_PB3_BASE_CYCLE",
        CmvsError::Pb3BaseDimensions => "ASTRA_EMU_CMVS_PB3_BASE_DIMENSIONS",
        CmvsError::Pb3BaseReference => "ASTRA_EMU_CMVS_PB3_BASE_REFERENCE",
        CmvsError::Pb3Bpp => "ASTRA_EMU_CMVS_PB3_BPP",
        CmvsError::Pb3Control => "ASTRA_EMU_CMVS_PB3_CONTROL",
        CmvsError::Pb3Data => "ASTRA_EMU_CMVS_PB3_DATA",
        CmvsError::Pb3InputSize => "ASTRA_EMU_CMVS_PB3_INPUT_SIZE",
        CmvsError::Pb3Layout => "ASTRA_EMU_CMVS_PB3_LAYOUT",
        CmvsError::Pb3Magic => "ASTRA_EMU_CMVS_PB3_MAGIC",
        CmvsError::Pb3Output => "ASTRA_EMU_CMVS_PB3_OUTPUT",
        CmvsError::Pb3Pixels => "ASTRA_EMU_CMVS_PB3_PIXELS",
        CmvsError::Pb3Size => "ASTRA_EMU_CMVS_PB3_SIZE",
        CmvsError::Pb3Variant => "ASTRA_EMU_CMVS_PB3_VARIANT",
        CmvsError::PbBpp => "ASTRA_EMU_CMVS_PB_BPP",
        CmvsError::PbDimensions => "ASTRA_EMU_CMVS_PB_DIMENSIONS",
        CmvsError::PbHeader => "ASTRA_EMU_CMVS_PB_HEADER",
        CmvsError::PbLzssControl => "ASTRA_EMU_CMVS_PB_LZSS_CONTROL",
        CmvsError::PbLzssData => "ASTRA_EMU_CMVS_PB_LZSS_DATA",
        CmvsError::PbLzssOutput => "ASTRA_EMU_CMVS_PB_LZSS_OUTPUT",
        CmvsError::PbLzssSize => "ASTRA_EMU_CMVS_PB_LZSS_SIZE",
        CmvsError::PbPixels => "ASTRA_EMU_CMVS_PB_PIXELS",
        CmvsError::PrivateScheme => "ASTRA_EMU_CMVS_PRIVATE_SCHEME",
        CmvsError::Profile => "ASTRA_EMU_CMVS_PROFILE",
        CmvsError::Ps2aControl => "ASTRA_EMU_CMVS_PS2A_CONTROL",
        CmvsError::Ps2aCount => "ASTRA_EMU_CMVS_PS2A_COUNT",
        CmvsError::Ps2aEncoding => "ASTRA_EMU_CMVS_PS2A_ENCODING",
        CmvsError::Ps2aExpression => "ASTRA_EMU_CMVS_PS2A_EXPRESSION",
        CmvsError::Ps2aExpressionDepth => "ASTRA_EMU_CMVS_PS2A_EXPRESSION_DEPTH",
        CmvsError::Ps2aFrame => "ASTRA_EMU_CMVS_PS2A_FRAME",
        CmvsError::Ps2aHeader => "ASTRA_EMU_CMVS_PS2A_HEADER",
        CmvsError::Ps2aIndex => "ASTRA_EMU_CMVS_PS2A_INDEX",
        CmvsError::Ps2aLayout => "ASTRA_EMU_CMVS_PS2A_LAYOUT",
        CmvsError::Ps2aLzss => "ASTRA_EMU_CMVS_PS2A_LZSS",
        CmvsError::Ps2aMagic => "ASTRA_EMU_CMVS_PS2A_MAGIC",
        CmvsError::Ps2aNameIndex => "ASTRA_EMU_CMVS_PS2A_NAME_INDEX",
        CmvsError::Ps2aOffset => "ASTRA_EMU_CMVS_PS2A_OFFSET",
        CmvsError::Ps2aOpcode => "ASTRA_EMU_CMVS_PS2A_OPCODE",
        CmvsError::Ps2aSize => "ASTRA_EMU_CMVS_PS2A_SIZE",
        CmvsError::Ps2aStrings => "ASTRA_EMU_CMVS_PS2A_STRINGS",
        CmvsError::Ps2aStringExpression => "ASTRA_EMU_CMVS_PS2A_STRING_EXPRESSION",
        CmvsError::Ps2aStringOffset => "ASTRA_EMU_CMVS_PS2A_STRING_OFFSET",
        CmvsError::Ps2aStringRange => "ASTRA_EMU_CMVS_PS2A_STRING_RANGE",
        CmvsError::Ps2aStringSize => "ASTRA_EMU_CMVS_PS2A_STRING_SIZE",
        CmvsError::Ps2aStringTag => "ASTRA_EMU_CMVS_PS2A_STRING_TAG",
        CmvsError::ScriptBound => "ASTRA_EMU_CMVS_SCRIPT_BOUND",
        CmvsError::ScriptFrame => "ASTRA_EMU_CMVS_SCRIPT_FRAME",
        CmvsError::ScriptNotFound => "ASTRA_EMU_CMVS_SCRIPT_NOT_FOUND",
        CmvsError::ScriptRead => "ASTRA_EMU_CMVS_SCRIPT_READ",
        CmvsError::ScriptUri => "ASTRA_EMU_CMVS_SCRIPT_URI",
        CmvsError::SessionId => "ASTRA_EMU_CMVS_SESSION_ID",
        CmvsError::SourceChanged => "ASTRA_EMU_CMVS_SOURCE_CHANGED",
        CmvsError::SourceDuplicate => "ASTRA_EMU_CMVS_SOURCE_DUPLICATE",
        CmvsError::SourceIo => "ASTRA_EMU_CMVS_SOURCE_IO",
        CmvsError::SourceMetadata => "ASTRA_EMU_CMVS_SOURCE_METADATA",
        CmvsError::SourceShortRead => "ASTRA_EMU_CMVS_SOURCE_SHORT_READ",
        CmvsError::TextureGeometry => "ASTRA_EMU_CMVS_TEXTURE_GEOMETRY",
        CmvsError::TexturePresentationState => "ASTRA_EMU_CMVS_TEXTURE_PRESENTATION_STATE",
        CmvsError::Time => "ASTRA_EMU_CMVS_TIME",
        CmvsError::VfsNotFound => "ASTRA_EMU_VFS_NOT_FOUND",
        CmvsError::VfsReadLimit => "ASTRA_EMU_VFS_READ_LIMIT",
        CmvsError::VfsReadRange => "ASTRA_EMU_VFS_READ_RANGE",
        CmvsError::VfsUri => "ASTRA_EMU_VFS_URI",
    }
}

impl CmvsError {
    /// The stable string code of this diagnostic.
    pub fn code(&self) -> (r: &'static str)
        ensures
            r == cmvs_error_code(*self),
    {
        match self {
            CmvsError::ArchiveEmpty => "ASTRA_EMU_CMVS_ARCHIVE_EMPTY",
            CmvsError::ArchiveSource => "ASTRA_EMU_CMVS_ARCHIVE_SOURCE",
            CmvsError::AudioBound => "ASTRA_EMU_CMVS_AUDIO_BOUND",
            CmvsError::CpzArchiveKey => "ASTRA_EMU_CMVS_CPZ_ARCHIVE_KEY",
            CmvsError::CpzChecksum => "ASTRA_EMU_CMVS_CPZ_CHECKSUM",
            CmvsError::CpzDirectory => "ASTRA_EMU_CMVS_CPZ_DIRECTORY",
            CmvsError::CpzEntry => "ASTRA_EMU_CMVS_CPZ_ENTRY",
            CmvsError::CpzEntrySize => "ASTRA_EMU_CMVS_CPZ_ENTRY_SIZE",
            CmvsError::CpzEntryVersion => "ASTRA_EMU_CMVS_CPZ_ENTRY_VERSION",
            CmvsError::CpzHeader => "ASTRA_EMU_CMVS_CPZ_HEADER",
            CmvsError::CpzIndexHash => "ASTRA_EMU_CMVS_CPZ_INDEX_HASH",
            CmvsError::CpzIndexRange => "ASTRA_EMU_CMVS_CPZ_INDEX_RANGE",
            CmvsError::CpzIndexSize => "ASTRA_EMU_CMVS_CPZ_INDEX_SIZE",
            CmvsError::CpzIndexVersion => "ASTRA_EMU_CMVS_CPZ_INDEX_VERSION",
            CmvsError::CpzMagic => "ASTRA_EMU_CMVS_CPZ_MAGIC",
            CmvsError::CpzPath => "ASTRA_EMU_CMVS_CPZ_PATH",
            CmvsError::CpzProfile => "ASTRA_EMU_CMVS_CPZ_PROFILE",
            CmvsError::CpzRange => "ASTRA_EMU_CMVS_CPZ_RANGE",
            CmvsError::CpzSecret => "ASTRA_EMU_CMVS_CPZ_SECRET",
            CmvsError::CpzString => "ASTRA_EMU_CMVS_CPZ_STRING",
            CmvsError::CpzVersion => "ASTRA_EMU_CMVS_CPZ_VERSION",
            CmvsError::EntryDuplicate => "ASTRA_EMU_CMVS_ENTRY_DUPLICATE",
            CmvsError::EntryLimit => "ASTRA_EMU_CMVS_ENTRY_LIMIT",
            CmvsError::EntryRange => "ASTRA_EMU_CMVS_ENTRY_RANGE",
            CmvsError::EntrySize => "ASTRA_EMU_CMVS_ENTRY_SIZE",
            CmvsError::Frame => "ASTRA_EMU_CMVS_FRAME",
            CmvsError::InputUnbound => "ASTRA_EMU_CMVS_INPUT_UNBOUND",
            CmvsError::JbpAc => "ASTRA_EMU_CMVS_JBP_AC",
            CmvsError::JbpAcBits => "ASTRA_EMU_CMVS_JBP_AC_BITS",
            CmvsError::JbpAlpha => "ASTRA_EMU_CMVS_JBP_ALPHA",
            CmvsError::JbpBits => "ASTRA_EMU_CMVS_JBP_BITS",
            CmvsError::JbpBlocks => "ASTRA_EMU_CMVS_JBP_BLOCKS",
            CmvsError::JbpBpp => "ASTRA_EMU_CMVS_JBP_BPP",
            CmvsError::JbpDc => "ASTRA_EMU_CMVS_JBP_DC",
            CmvsError::JbpDcBits => "ASTRA_EMU_CMVS_JBP_DC_BITS",
            CmvsError::JbpDimensions => "ASTRA_EMU_CMVS_JBP_DIMENSIONS",
            CmvsError::JbpFormat => "ASTRA_EMU_CMVS_JBP_FORMAT",
            CmvsError::JbpHeader => "ASTRA_EMU_CMVS_JBP_HEADER",
            CmvsError::JbpLayout => "ASTRA_EMU_CMVS_JBP_LAYOUT",
            CmvsError::JbpOutput => "ASTRA_EMU_CMVS_JBP_OUTPUT",
            CmvsError::JbpQuantization => "ASTRA_EMU_CMVS_JBP_QUANTIZATION",
            CmvsError::JbpTable => "ASTRA_EMU_CMVS_JBP_TABLE",
            CmvsError::JbpTree => "ASTRA_EMU_CMVS_JBP_TREE",
            CmvsError::LooseDuplicate => "ASTRA_EMU_CMVS_LOOSE_DUPLICATE",
            CmvsError::LooseIo => "ASTRA_EMU_CMVS_LOOSE_IO",
            CmvsError::LooseLimit => "ASTRA_EMU_CMVS_LOOSE_LIMIT",
            CmvsError::LooseName => "ASTRA_EMU_CMVS_LOOSE_NAME",
            CmvsError::LooseSize => "ASTRA_EMU_CMVS_LOOSE_SIZE",
            CmvsError::LooseSource => "ASTRA_EMU_CMVS_LOOSE_SOURCE",
            CmvsError::Md5Variant => "ASTRA_EMU_CMVS_MD5_VARIANT",
            CmvsError::MgvHeader => "ASTRA_EMU_CMVS_MGV_HEADER",
            CmvsError::MgvIndex => "ASTRA_EMU_CMVS_MGV_INDEX",
            CmvsError::MgvMagic => "ASTRA_EMU_CMVS_MGV_MAGIC",
            CmvsError::MgvOgg => "ASTRA_EMU_CMVS_MGV_OGG",
            CmvsError::MgvRange => "ASTRA_EMU_CMVS_MGV_RANGE",
            CmvsError::MountArchives => "ASTRA_EMU_CMVS_MOUNT_ARCHIVES",
            CmvsError::Pb2Bpp => "ASTRA_EMU_CMVS_PB2_BPP",
            CmvsError::Pb2Control => "ASTRA_EMU_CMVS_PB2_CONTROL",
            CmvsError::Pb2Data => "ASTRA_EMU_CMVS_PB2_DATA",
            CmvsError::Pb2Layout => "ASTRA_EMU_CMVS_PB2_LAYOUT",
            CmvsError::Pb2Magic => "ASTRA_EMU_CMVS_PB2_MAGIC",
            CmvsError::Pb2Output => "ASTRA_EMU_CMVS_PB2_OUTPUT",
            CmvsError::Pb2Pixels => "ASTRA_EMU_CMVS_PB2_PIXELS",
            CmvsError::Pb2Size => "ASTRA_EMU_CMVS_PB2_SIZE",
            CmvsError::Pb2Variant => "ASTRA_EMU_CMVS_PB2_VARIANT",
            CmvsError::Pb3BaseCycle => "ASTRA_EMU_CMVS_PB3_BASE_CYCLE",
            CmvsError::Pb3BaseDimensions => "ASTRA_EMU_CMVS_PB3_BASE_DIMENSIONS",
            CmvsError::Pb3BaseReference => "ASTRA_EMU_CMVS_PB3_BASE_REFERENCE",
            CmvsError::Pb3Bpp => "ASTRA_EMU_CMVS_PB3_BPP",
            CmvsError::Pb3Control => "ASTRA_EMU_CMVS_PB3_CONTROL",
            CmvsError::Pb3Data => "ASTRA_EMU_CMVS_PB3_DATA",
            CmvsError::Pb3InputSize => "ASTRA_EMU_CMVS_PB3_INPUT_SIZE",
            CmvsError::Pb3Layout => "ASTRA_EMU_CMVS_PB3_LAYOUT",
            CmvsError::Pb3Magic => "ASTRA_EMU_CMVS_PB3_MAGIC",
            CmvsError::Pb3Output => "ASTRA_EMU_CMVS_PB3_OUTPUT",
            CmvsError::Pb3Pixels => "ASTRA_EMU_CMVS_PB3_PIXELS",
            CmvsError::Pb3Size => "ASTRA_EMU_CMVS_PB3_SIZE",
            CmvsError::Pb3Variant => "ASTRA_EMU_CMVS_PB3_VARIANT",
            CmvsError::PbBpp => "ASTRA_EMU_CMVS_PB_BPP",
            CmvsError::PbDimensions => "ASTRA_EMU_CMVS_PB_DIMENSIONS",
            CmvsError::PbHeader => "ASTRA_EMU_CMVS_PB_HEADER",
            CmvsError::PbLzssControl => "ASTRA_EMU_CMVS_PB_LZSS_CONTROL",
            CmvsError::PbLzssData => "ASTRA_EMU_CMVS_PB_LZSS_DATA",
            CmvsError::PbLzssOutput => "ASTRA_EMU_CMVS_PB_LZSS_OUTPUT",
            CmvsError::PbLzssSize => "ASTRA_EMU_CMVS_PB_LZSS_SIZE",
            CmvsError::PbPixels => "ASTRA_EMU_CMVS_PB_PIXELS",
            CmvsError::PrivateScheme => "ASTRA_EMU_CMVS_PRIVATE_SCHEME",
            CmvsError::Profile => "ASTRA_EMU_CMVS_PROFILE",
            CmvsError::Ps2aControl => "ASTRA_EMU_CMVS_PS2A_CONTROL",
            CmvsError::Ps2aCount => "ASTRA_EMU_CMVS_PS2A_COUNT",
            CmvsError::Ps2aEncoding => "ASTRA_EMU_CMVS_PS2A_ENCODING",
            CmvsError::Ps2aExpression => "ASTRA_EMU_CMVS_PS2A_EXPRESSION",
            CmvsError::Ps2aExpressionDepth => "ASTRA_EMU_CMVS_PS2A_EXPRESSION_DEPTH",
            CmvsError::Ps2aFrame => "ASTRA_EMU_CMVS_PS2A_FRAME",
            CmvsError::Ps2aHeader => "ASTRA_EMU_CMVS_PS2A_HEADER",
            CmvsError::Ps2aIndex => "ASTRA_EMU_CMVS_PS2A_INDEX",
            CmvsError::Ps2aLayout => "ASTRA_EMU_CMVS_PS2A_LAYOUT",
            CmvsError::Ps2aLzss => "ASTRA_EMU_CMVS_PS2A_LZSS",
            CmvsError::Ps2aMagic => "ASTRA_EMU_CMVS_PS2A_MAGIC",
            CmvsError::Ps2aNameIndex => "ASTRA_EMU_CMVS_PS2A_NAME_INDEX",
            CmvsError::Ps2aOffset => "ASTRA_EMU_CMVS_PS2A_OFFSET",
            CmvsError::Ps2aOpcode => "ASTRA_EMU_CMVS_PS2A_OPCODE",
            CmvsError::Ps2aSize => "ASTRA_EMU_CMVS_PS2A_SIZE",
            CmvsError::Ps2aStrings => "ASTRA_EMU_CMVS_PS2A_STRINGS",
            CmvsError::Ps2aStringExpression => "ASTRA_EMU_CMVS_PS2A_STRING_EXPRESSION",
            CmvsError::Ps2aStringOffset => "ASTRA_EMU_CMVS_PS2A_STRING_OFFSET",
            CmvsError::Ps2aStringRange => "ASTRA_EMU_CMVS_PS2A_STRING_RANGE",
            CmvsError::Ps2aStringSize => "ASTRA_EMU_CMVS_PS2A_STRING_SIZE",
            CmvsError::Ps2aStringTag => "ASTRA_EMU_CMVS_PS2A_STRING_TAG",
            CmvsError::ScriptBound => "ASTRA_EMU_CMVS_SCRIPT_BOUND",
            CmvsError::ScriptFrame => "ASTRA_EMU_CMVS_SCRIPT_FRAME",
            CmvsError::ScriptNotFound => "ASTRA_EMU_CMVS_SCRIPT_NOT_FOUND",
            CmvsError::ScriptRead => "ASTRA_EMU_CMVS_SCRIPT_READ",
            CmvsError::ScriptUri => "ASTRA_EMU_CMVS_SCRIPT_URI",
            CmvsError::SessionId => "ASTRA_EMU_CMVS_SESSION_ID",
            CmvsError::SourceChanged => "ASTRA_EMU_CMVS_SOURCE_CHANGED",
            CmvsError::SourceDuplicate => "ASTRA_EMU_CMVS_SOURCE_DUPLICATE",
            CmvsError::SourceIo => "ASTRA_EMU_CMVS_SOURCE_IO",
            CmvsError::SourceMetadata => "ASTRA_EMU_CMVS_SOURCE_METADATA",
            CmvsError::SourceShortRead => "ASTRA_EMU_CMVS_SOURCE_SHORT_READ",
            CmvsError::TextureGeometry => "ASTRA_EMU_CMVS_TEXTURE_GEOMETRY",
            CmvsError::TexturePresentationState => "ASTRA_EMU_CMVS_TEXTURE_PRESENTATION_STATE",
            CmvsError::Time => "ASTRA_EMU_CMVS_TIME",
            CmvsError::VfsNotFound => "ASTRA_EMU_VFS_NOT_FOUND",
            CmvsError::VfsReadLimit => "ASTRA_EMU_VFS_READ_LIMIT",
            CmvsError::VfsReadRange => "ASTRA_EMU_VFS_READ_RANGE",
            CmvsError::VfsUri => "ASTRA_EMU_VFS_URI",
        }
    }

    /// A fixed, payload-free description of this diagnostic.
    pub fn message(&self) -> (r: &'static str)
        ensures
            r == "CMVS input was rejected",
    {
        "CMVS input was rejected"
    }
}

} // verus!
