//! PS2A script container: header, compressed payload, name index, program
//! section, data segment and Shift-JIS string pool.
use vstd::prelude::*;
use crate::error::CmvsError;
use crate::bytes::{read_le_u16, read_le_u32, spec_le_u16, spec_le_u32};

pub mod payload;
pub mod parse;
pub mod expressions;
pub mod instructions;
pub mod strings;

verus! {

/// The four magic bytes `PS2A`.
pub open spec fn spec_is_ps2a_magic(s: Seq<u8>) -> bool {
    s.len() >= 4 && s[0] == 0x50 && s[1] == 0x53 && s[2] == 0x32 && s[3] == 0x41
}

/// Byte size of the fixed PS2A header.
pub const PS2A_HEADER_BYTES: usize = 0x30;

/// Largest decoded script the reader accepts.
pub const PS2A_MAX_SCRIPT_BYTES: usize = 67108864;

/// Fixed header fields of a PS2A script.
#[derive(Debug, Clone, Copy, PartialEq, Eq, Structural)]
pub struct Ps2aHeader {
    pub header_length: u32,
    pub program_key: u32,
    pub name_index_count: u32,
    pub bytecode_size: u32,
    pub metadata_size: u32,
    pub name_index_size: u32,
    /// The program counter installed when the script becomes the active frame.
    pub initial_pc: u32,
    pub compressed_size: u32,
    pub uncompressed_size: u32,
}

/// Reads a little-endian `u16` from `source`, failing with `code` past the end.
pub fn le_u16_or(source: &[u8], offset: usize, code: CmvsError) -> (r: Result<u16, CmvsError>)
    ensures
        r == (if offset + 2 <= source@.len() { Ok(spec_le_u16(source@, offset as int)) } else { Err(code) }),
{
    match read_le_u16(source, offset) {
        Some(v) => Ok(v),
        None => Err(code),
    }
}

/// Reads a little-endian `u32` from `source`, failing with `code` past the end.
pub fn le_u32_or(source: &[u8], offset: usize, code: CmvsError) -> (r: Result<u32, CmvsError>)
    ensures
        r == (if offset + 4 <= source@.len() { Ok(spec_le_u32(source@, offset as int)) } else { Err(code) }),
{
    match read_le_u32(source, offset) {
        Some(v) => Ok(v),
        None => Err(code),
    }
}

/// One validated string-pool entry: its decoded-buffer offset, its byte
/// length without the terminator and the SHA-256 of its bytes.
#[derive(Debug, Clone, PartialEq, Eq)]
pub struct CmvsScriptString {
    pub offset: u32,
    pub byte_length: u32,
    pub text_hash: [u8; 32],
}

impl View for CmvsScriptString {
    type V = (u32, u32, Seq<u8>);

    open spec fn view(&self) -> (u32, u32, Seq<u8>) {
        (self.offset, self.byte_length, self.text_hash@)
    }
}

/// The views of a sequence of string entries.
pub open spec fn spec_strings_view(v: Seq<CmvsScriptString>) -> Seq<(u32, u32, Seq<u8>)> {
    Seq::new(v.len(), |i: int| v[i]@)
}

/// A decoded PS2A script.
#[derive(Debug, Clone, PartialEq, Eq)]
pub struct CmvsScript {
    pub schema: String,
    pub header: Ps2aHeader,
    /// Absolute program counters selected by the name-index table.
    pub name_index: Vec<u32>,
    pub bytecode_offset: u32,
    pub bytecode: Vec<u8>,
    /// The runtime-writable data segment between the program section and the
    /// string pool.
    pub data_segment: Vec<u8>,
    /// The validated Shift-JIS pool, kept for in-process text resolution.
    pub string_pool: Vec<u8>,
    pub strings: Vec<CmvsScriptString>,
    pub decoded_size: u32,
}

/// The abstract content of a decoded script.
pub struct Ps2aScriptView {
    pub schema: Seq<char>,
    pub header: Ps2aHeader,
    pub name_index: Seq<u32>,
    pub bytecode_offset: u32,
    pub bytecode: Seq<u8>,
    pub data_segment: Seq<u8>,
    pub string_pool: Seq<u8>,
    pub strings: Seq<(u32, u32, Seq<u8>)>,
    pub decoded_size: u32,
}

impl View for CmvsScript {
    type V = Ps2aScriptView;

    open spec fn view(&self) -> Ps2aScriptView {
        Ps2aScriptView {
            schema: self.schema@,
            header: self.header,
            name_index: self.name_index@,
            bytecode_offset: self.bytecode_offset,
            bytecode: self.bytecode@,
            data_segment: self.data_segment@,
            string_pool: self.string_pool@,
            strings: spec_strings_view(self.strings@),
            decoded_size: self.decoded_size,
        }
    }
}

/// A bounded span in the decoded program section.
#[derive(Debug, Clone, Copy, PartialEq, Eq, Structural)]
pub struct CmvsPs2aSourceSpan {
    pub offset: u32,
    pub byte_length: u16,
}

/// The PS2A control instructions whose field layout is proven.
#[derive(Debug, Clone, Copy, PartialEq, Eq, Structural)]
pub enum CmvsPs2aControlInstruction {
    AbsoluteJump { span: CmvsPs2aSourceSpan, target: u32 },
    JumpWhenFlagClear { span: CmvsPs2aSourceSpan, target: u32 },
    JumpWhenFlagSet { span: CmvsPs2aSourceSpan, target: u32 },
    JumpWhenValueEquals { span: CmvsPs2aSourceSpan, expected_value: u32, target: u32 },
    /// Transfers to the trailing target after a four-byte field whose meaning
    /// is not recovered.
    JumpWithOpaqueField { span: CmvsPs2aSourceSpan, opaque_field: u32, target: u32 },
    NameIndexJump { span: CmvsPs2aSourceSpan, name_index: u16, target: u32 },
    NameIndexCall { span: CmvsPs2aSourceSpan, name_index: u16, target: u32 },
    StackReturn { span: CmvsPs2aSourceSpan, stack_adjust: u16 },
    StackDrop { span: CmvsPs2aSourceSpan, stack_bytes: u16 },
    FrameReturn { span: CmvsPs2aSourceSpan },
    ScriptReturn { span: CmvsPs2aSourceSpan },
    /// A call whose destination comes from interpreter state.
    StateTargetCall { span: CmvsPs2aSourceSpan },
    PushCurrentCondition { span: CmvsPs2aSourceSpan },
    PushImmediate { span: CmvsPs2aSourceSpan, stack_bytes: u16, value: u32 },
}

/// One token of the `0x201` value-expression form.
#[derive(Debug, PartialEq, Eq)]
pub enum CmvsPs2aValueExpressionToken {
    Value { span: CmvsPs2aSourceSpan, opcode: u16, payload: u32 },
    Operator { span: CmvsPs2aSourceSpan, opcode: u16 },
    NestedStackExpression { span: CmvsPs2aSourceSpan, expression: Box<CmvsPs2aStackExpression> },
}

/// A `0x201` value expression, including its terminating `0x20f` marker.
#[derive(Debug, PartialEq, Eq)]
pub struct CmvsPs2aValueExpression {
    pub span: CmvsPs2aSourceSpan,
    pub tokens: Vec<CmvsPs2aValueExpressionToken>,
}

/// A tag-zero reference to the current string pool.
#[derive(Debug, Clone, Copy, PartialEq, Eq, Structural)]
pub struct CmvsPs2aPrivateStringReference {
    pub relative_offset: u32,
}

/// A node of the `0x200` stack-expression grammar.
#[derive(Debug, PartialEq, Eq)]
pub enum CmvsPs2aStackExpressionNode {
    Value { span: CmvsPs2aSourceSpan, opcode: u16, payload: u32 },
    Operator { span: CmvsPs2aSourceSpan, opcode: u16 },
    Nested { expression: Box<CmvsPs2aStackExpression> },
    Prefix {
        span: CmvsPs2aSourceSpan,
        opcode: u16,
        payload: Option<u32>,
        index: Option<u16>,
        operands: Vec<CmvsPs2aStackExpression>,
    },
}

/// A `0x200` stack expression including its `0x20f` terminator.
#[derive(Debug, PartialEq, Eq)]
pub struct CmvsPs2aStackExpression {
    pub span: CmvsPs2aSourceSpan,
    pub nodes: Vec<CmvsPs2aStackExpressionNode>,
}

/// A node of the `0x202` numeric-expression grammar.
#[derive(Debug, PartialEq, Eq)]
pub enum CmvsPs2aNumericExpressionNode {
    Value { span: CmvsPs2aSourceSpan, opcode: u16, payload: u32 },
    Operator { span: CmvsPs2aSourceSpan, opcode: u16 },
    StackExpression { expression: Box<CmvsPs2aStackExpression> },
    Prefix {
        span: CmvsPs2aSourceSpan,
        opcode: u16,
        payload: Option<u32>,
        index: Option<u16>,
        operands: Vec<CmvsPs2aStackExpression>,
    },
}

/// A `0x202` numeric expression including its `0x20f` terminator.
#[derive(Debug, PartialEq, Eq)]
pub struct CmvsPs2aNumericExpression {
    pub span: CmvsPs2aSourceSpan,
    pub nodes: Vec<CmvsPs2aNumericExpressionNode>,
}

/// One instruction boundary that is safe to advance without interpreting it.
#[derive(Debug, PartialEq, Eq)]
pub enum CmvsPs2aInstructionFrame {
    Control(CmvsPs2aControlInstruction),
    ValueExpression(CmvsPs2aValueExpression),
    StackExpression(CmvsPs2aStackExpression),
    NumericExpression(CmvsPs2aNumericExpression),
    Command { span: CmvsPs2aSourceSpan, command_id: u16 },
}

/// Counts of the string-reference bytecode pattern.
#[derive(Debug, Clone, Copy, PartialEq, Eq, Structural)]
pub struct CmvsPs2aStringReferenceCensus {
    pub candidate_count: u32,
    pub valid_string_start_count: u32,
    pub invalid_offset_count: u32,
}

} // verus!
