//! Single PS2A instructions at an exact program counter: the proven control
//! instructions, the `0x201` value-expression form and instruction framing.
use vstd::prelude::*;
use crate::error::CmvsError;
use crate::bytes::{spec_le_u16, spec_le_u32};
use super::{CmvsScript, CmvsPs2aSourceSpan, CmvsPs2aControlInstruction, CmvsPs2aValueExpression,
    CmvsPs2aValueExpressionToken, CmvsPs2aPrivateStringReference, CmvsPs2aInstructionFrame, le_u16_or, le_u32_or};
use super::expressions::{StackExprV, NumericExprV, stack_expr_view, numeric_expr_view, spec_stack_expr,
    spec_source_span, spec_u16_at, spec_u32_at, source_span, decode_stack_expression_at,
    spec_decode_stack_expression, spec_decode_numeric_expression, decode_ps2a_stack_expression,
    decode_ps2a_numeric_expression, spec_stack_nodes, spec_numeric_nodes, spec_numeric_expr, StackNodeV, NumericNodeV};

verus! {

/// `target` as a program counter: it must lie inside the program section.
pub open spec fn spec_program_counter(bc: Seq<u8>, target: u32) -> Result<u32, CmvsError> {
    if target < bc.len() { Ok(target) } else { Err(CmvsError::Ps2aControl) }
}

/// The span of a control instruction of `n` bytes at `offset`, which must
/// fit in the program section.
pub open spec fn spec_control_span(bc: Seq<u8>, offset: u32, n: u16) -> Result<CmvsPs2aSourceSpan, CmvsError> {
    if offset + n > bc.len() {
        Err(CmvsError::Ps2aControl)
    } else {
        Ok(CmvsPs2aSourceSpan { offset, byte_length: n })
    }
}

/// A jump-class control instruction of `n` bytes whose target word is at
/// `offset + n - 4`, built by `make` from its span and first operand word.
pub open spec fn spec_target_at(bc: Seq<u8>, offset: u32, n: u16) -> Result<(CmvsPs2aSourceSpan, u32), CmvsError> {
    match spec_control_span(bc, offset, n) {
        Err(e) => Err(e),
        Ok(span) => match spec_program_counter(bc, spec_le_u32(bc, offset + n - 4)) {
            Err(e) => Err(e),
            Ok(target) => Ok((span, target)),
        },
    }
}

/// The control instruction at `offset` of a program section `bc` with the
/// name-index table `names`.
pub open spec fn spec_control_instruction(bc: Seq<u8>, names: Seq<u32>, offset: u32)
    -> Result<CmvsPs2aControlInstruction, CmvsError>
{
    match spec_u16_at(bc, offset as int, CmvsError::Ps2aControl) {
        Err(e) => Err(e),
        Ok(op) => if op == 0x400 || op == 0x401 || op == 0x402 {
            match spec_target_at(bc, offset, 6) {
                Err(e) => Err(e),
                Ok((span, target)) => Ok(
                    if op == 0x400 { CmvsPs2aControlInstruction::AbsoluteJump { span, target } }
                    else if op == 0x401 { CmvsPs2aControlInstruction::JumpWhenFlagClear { span, target } }
                    else { CmvsPs2aControlInstruction::JumpWhenFlagSet { span, target } }),
            }
        } else if op == 0x403 || op == 0x407 {
            match spec_target_at(bc, offset, 10) {
                Err(e) => Err(e),
                Ok((span, target)) => {
                    let field = spec_le_u32(bc, offset + 2);
                    Ok(if op == 0x403 {
                        CmvsPs2aControlInstruction::JumpWhenValueEquals { span, expected_value: field, target }
                    } else {
                        CmvsPs2aControlInstruction::JumpWithOpaqueField { span, opaque_field: field, target }
                    })
                },
            }
        } else if op == 0x405 || op == 0x410 {
            match spec_control_span(bc, offset, 4) {
                Err(e) => Err(e),
                Ok(span) => {
                    let name_index = spec_le_u16(bc, offset + 2);
                    if name_index >= names.len() {
                        Err(CmvsError::Ps2aNameIndex)
                    } else {
                        match spec_program_counter(bc, names[name_index as int]) {
                            Err(e) => Err(e),
                            Ok(target) => Ok(if op == 0x405 {
                                CmvsPs2aControlInstruction::NameIndexJump { span, name_index, target }
                            } else {
                                CmvsPs2aControlInstruction::NameIndexCall { span, name_index, target }
                            }),
                        }
                    }
                },
            }
        } else if op == 0x411 || op == 0x412 {
            match spec_control_span(bc, offset, 4) {
                Err(e) => Err(e),
                Ok(span) => {
                    let word = spec_le_u16(bc, offset + 2);
                    Ok(if op == 0x411 {
                        CmvsPs2aControlInstruction::StackReturn { span, stack_adjust: word }
                    } else {
                        CmvsPs2aControlInstruction::StackDrop { span, stack_bytes: word }
                    })
                },
            }
        } else if op == 0x413 || op == 0x414 || op == 0x416 || op == 0x430 {
            match spec_control_span(bc, offset, 2) {
                Err(e) => Err(e),
                Ok(span) => Ok(
                    if op == 0x413 { CmvsPs2aControlInstruction::FrameReturn { span } }
                    else if op == 0x414 { CmvsPs2aControlInstruction::ScriptReturn { span } }
                    else if op == 0x416 { CmvsPs2aControlInstruction::StateTargetCall { span } }
                    else { CmvsPs2aControlInstruction::PushCurrentCondition { span } }),
            }
        } else if op == 0x440 || op == 0x442 {
            match spec_control_span(bc, offset, 8) {
                Err(e) => Err(e),
                Ok(span) => Ok(CmvsPs2aControlInstruction::PushImmediate {
                    span,
                    stack_bytes: spec_le_u16(bc, offset + 2),
                    value: spec_le_u32(bc, offset + 4),
                }),
            }
        } else {
            Err(CmvsError::Ps2aOpcode)
        },
    }
}

/// Checks that `target` lies inside the program section.
pub fn validate_program_counter(script: &CmvsScript, target: u32) -> (r: Result<u32, CmvsError>)
    ensures
        r == spec_program_counter(script.bytecode@, target),
{
    if (target as usize) < script.bytecode.len() {
        Ok(target)
    } else {
        Err(CmvsError::Ps2aControl)
    }
}

fn control_span(script: &CmvsScript, offset: u32, n: u16) -> (r: Result<CmvsPs2aSourceSpan, CmvsError>)
    ensures
        r == spec_control_span(script.bytecode@, offset, n),
{
    let len = script.bytecode.len();
    if offset as usize > len || len - (offset as usize) < n as usize {
        Err(CmvsError::Ps2aControl)
    } else {
        Ok(CmvsPs2aSourceSpan { offset, byte_length: n })
    }
}

fn target_at(script: &CmvsScript, offset: u32, n: u16) -> (r: Result<(CmvsPs2aSourceSpan, u32), CmvsError>)
    requires
        n >= 4,
    ensures
        r == spec_target_at(script.bytecode@, offset, n),
{
    let span = control_span(script, offset, n)?;
    let _len = script.bytecode.len();
    let word = le_u32_or(script.bytecode.as_slice(), offset as usize + (n as usize - 4), CmvsError::Ps2aControl)?;
    let target = validate_program_counter(script, word)?;
    Ok((span, target))
}

/// Decodes the one control instruction at `offset` whose layout is proven;
/// any other opcode is rejected with `Ps2aOpcode` rather than skipped.
pub fn decode_ps2a_control_instruction(script: &CmvsScript, offset: u32)
    -> (r: Result<CmvsPs2aControlInstruction, CmvsError>)
    ensures
        r == spec_control_instruction(script.bytecode@, script.name_index@, offset),
{
    let bc = script.bytecode.as_slice();
    let o = offset as usize;
    let op = le_u16_or(bc, o, CmvsError::Ps2aControl)?;
    let _len = bc.len();
    if op == 0x400 || op == 0x401 || op == 0x402 {
        let (span, target) = target_at(script, offset, 6)?;
        if op == 0x400 {
            Ok(CmvsPs2aControlInstruction::AbsoluteJump { span, target })
        } else if op == 0x401 {
            Ok(CmvsPs2aControlInstruction::JumpWhenFlagClear { span, target })
        } else {
            Ok(CmvsPs2aControlInstruction::JumpWhenFlagSet { span, target })
        }
    } else if op == 0x403 || op == 0x407 {
        let (span, target) = target_at(script, offset, 10)?;
        let field = le_u32_or(bc, o + 2, CmvsError::Ps2aControl)?;
        if op == 0x403 {
            Ok(CmvsPs2aControlInstruction::JumpWhenValueEquals { span, expected_value: field, target })
        } else {
            Ok(CmvsPs2aControlInstruction::JumpWithOpaqueField { span, opaque_field: field, target })
        }
    } else if op == 0x405 || op == 0x410 {
        let span = control_span(script, offset, 4)?;
        let name_index = le_u16_or(bc, o + 2, CmvsError::Ps2aControl)?;
        if name_index as usize >= script.name_index.len() {
            return Err(CmvsError::Ps2aNameIndex);
        }
        let target = validate_program_counter(script, script.name_index[name_index as usize])?;
        if op == 0x405 {
            Ok(CmvsPs2aControlInstruction::NameIndexJump { span, name_index, target })
        } else {
            Ok(CmvsPs2aControlInstruction::NameIndexCall { span, name_index, target })
        }
    } else if op == 0x411 || op == 0x412 {
        let span = control_span(script, offset, 4)?;
        let word = le_u16_or(bc, o + 2, CmvsError::Ps2aControl)?;
        if op == 0x411 {
            Ok(CmvsPs2aControlInstruction::StackReturn { span, stack_adjust: word })
        } else {
            Ok(CmvsPs2aControlInstruction::StackDrop { span, stack_bytes: word })
        }
    } else if op == 0x413 || op == 0x414 || op == 0x416 || op == 0x430 {
        let span = control_span(script, offset, 2)?;
        if op == 0x413 {
            Ok(CmvsPs2aControlInstruction::FrameReturn { span })
        } else if op == 0x414 {
            Ok(CmvsPs2aControlInstruction::ScriptReturn { span })
        } else if op == 0x416 {
            Ok(CmvsPs2aControlInstruction::StateTargetCall { span })
        } else {
            Ok(CmvsPs2aControlInstruction::PushCurrentCondition { span })
        }
    } else if op == 0x440 || op == 0x442 {
        let span = control_span(script, offset, 8)?;
        let stack_bytes = le_u16_or(bc, o + 2, CmvsError::Ps2aControl)?;
        let value = le_u32_or(bc, o + 4, CmvsError::Ps2aControl)?;
        Ok(CmvsPs2aControlInstruction::PushImmediate { span, stack_bytes, value })
    } else {
        Err(CmvsError::Ps2aOpcode)
    }
}


/// The abstract content of a value-expression token.
pub enum ValueTokenV {
    Value { span: CmvsPs2aSourceSpan, opcode: u16, payload: u32 },
    Operator { span: CmvsPs2aSourceSpan, opcode: u16 },
    NestedStackExpression { span: CmvsPs2aSourceSpan, expression: StackExprV },
}

/// The abstract content of a value expression.
pub struct ValueExprV {
    pub span: CmvsPs2aSourceSpan,
    pub tokens: Seq<ValueTokenV>,
}

pub open spec fn value_token_view(t: CmvsPs2aValueExpressionToken) -> ValueTokenV {
    match t {
        CmvsPs2aValueExpressionToken::Value { span, opcode, payload } => ValueTokenV::Value { span, opcode, payload },
        CmvsPs2aValueExpressionToken::Operator { span, opcode } => ValueTokenV::Operator { span, opcode },
        CmvsPs2aValueExpressionToken::NestedStackExpression { span, expression } =>
            ValueTokenV::NestedStackExpression { span, expression: stack_expr_view(*expression) },
    }
}

pub open spec fn value_tokens_view(s: Seq<CmvsPs2aValueExpressionToken>) -> Seq<ValueTokenV> {
    Seq::new(s.len(), |i: int| value_token_view(s[i]))
}

pub open spec fn value_expr_view(e: CmvsPs2aValueExpression) -> ValueExprV {
    ValueExprV { span: e.span, tokens: value_tokens_view(e.tokens@) }
}

/// Largest number of tokens of one expression.
pub const PS2A_MAX_EXPRESSION_TOKENS: usize = 16384;

/// The tokens of a value expression that starts at `offset`, from `cursor`
/// on, after `acc`. Every token costs one unit of a budget of 16384; a
/// `0x121` token holds a nested stack expression with a budget of its own;
/// `0x160..=0x172` are two-byte operators; every other opcode carries a
/// four-byte payload; `0x20f` ends the expression.
pub open spec fn spec_value_tokens(bc: Seq<u8>, offset: int, cursor: int, acc: Seq<ValueTokenV>)
    -> Result<ValueExprV, CmvsError>
    decreases bc.len() - cursor,
{
    if acc.len() >= 16384 {
        Err(CmvsError::Ps2aExpression)
    } else {
        match spec_u16_at(bc, cursor, CmvsError::Ps2aExpression) {
            Err(e) => Err(e),
            Ok(op) => if op == 0x20f {
                match spec_source_span(offset, cursor + 2, CmvsError::Ps2aExpression) {
                    Err(e) => Err(e),
                    Ok(span) => Ok(ValueExprV { span, tokens: acc }),
                }
            } else if op == 0x121 {
                match spec_stack_expr(bc, cursor + 2, 0, 16384) {
                    Err(e) => Err(e),
                    Ok((expression, end, _)) => match spec_source_span(cursor, end, CmvsError::Ps2aExpression) {
                        Err(e) => Err(e),
                        Ok(span) => if end <= cursor || end > bc.len() {
                            Err(CmvsError::Ps2aExpression)
                        } else {
                            spec_value_tokens(bc, offset, end,
                                acc.push(ValueTokenV::NestedStackExpression { span, expression }))
                        },
                    },
                }
            } else if 0x160 <= op <= 0x172 {
                match spec_source_span(cursor, cursor + 2, CmvsError::Ps2aExpression) {
                    Err(e) => Err(e),
                    Ok(span) => spec_value_tokens(bc, offset, cursor + 2, acc.push(ValueTokenV::Operator { span, opcode: op })),
                }
            } else if cursor + 6 > usize::MAX {
                Err(CmvsError::Ps2aExpression)
            } else {
                match spec_source_span(cursor, cursor + 6, CmvsError::Ps2aExpression) {
                    Err(e) => Err(e),
                    Ok(span) => match spec_u32_at(bc, cursor + 2) {
                        Err(e) => Err(e),
                        Ok(payload) => spec_value_tokens(bc, offset, cursor + 6,
                            acc.push(ValueTokenV::Value { span, opcode: op, payload })),
                    },
                }
            },
        }
    }
}

/// The `0x201` value expression at `offset`.
pub open spec fn spec_value_expression(bc: Seq<u8>, offset: int) -> Result<ValueExprV, CmvsError> {
    match spec_u16_at(bc, offset, CmvsError::Ps2aExpression) {
        Err(e) => Err(e),
        Ok(op) => if op != 0x201 {
            Err(CmvsError::Ps2aExpression)
        } else {
            spec_value_tokens(bc, offset, offset + 2, Seq::empty())
        },
    }
}

proof fn lemma_value_tokens_push(s: Seq<CmvsPs2aValueExpressionToken>, t: CmvsPs2aValueExpressionToken)
    ensures
        value_tokens_view(s.push(t)) == value_tokens_view(s).push(value_token_view(t)),
{
    assert(value_tokens_view(s.push(t)) =~= value_tokens_view(s).push(value_token_view(t)));
}

/// Decodes one token of a value expression at `cursor`: on the terminator it
/// returns the expression's span; otherwise it appends the token and
/// advances `cursor`.
fn value_token_step(script: &CmvsScript, offset: usize, cursor: &mut usize,
    tokens: &mut Vec<CmvsPs2aValueExpressionToken>) -> (r: Result<Option<CmvsPs2aSourceSpan>, CmvsError>)
    requires
        offset + 2 <= *old(cursor) <= script.bytecode@.len(),
    ensures
        match r {
            Ok(Some(span)) => spec_value_tokens(script.bytecode@, offset as int, *old(cursor) as int,
                value_tokens_view(old(tokens)@)) == Ok::<ValueExprV, CmvsError>(
                ValueExprV { span, tokens: value_tokens_view(final(tokens)@) }),
            Ok(None) => {
                &&& *old(cursor) < *final(cursor) <= script.bytecode@.len()
                &&& spec_value_tokens(script.bytecode@, offset as int, *old(cursor) as int, value_tokens_view(old(tokens)@))
                    == spec_value_tokens(script.bytecode@, offset as int, *final(cursor) as int, value_tokens_view(final(tokens)@))
            },
            Err(e) => spec_value_tokens(script.bytecode@, offset as int, *old(cursor) as int,
                value_tokens_view(old(tokens)@)) == Err::<ValueExprV, CmvsError>(e),
        },
{
    let bc = script.bytecode.as_slice();
    let len = bc.len();
    let c = *cursor;
    if tokens.len() >= PS2A_MAX_EXPRESSION_TOKENS {
        return Err(CmvsError::Ps2aExpression);
    }
    let op = le_u16_or(bc, c, CmvsError::Ps2aExpression)?;
    if op == 0x20f {
        let span = source_span(offset, c + 2, CmvsError::Ps2aExpression)?;
        return Ok(Some(span));
    }
    if op == 0x121 {
        let mut nested_budget: usize = PS2A_MAX_EXPRESSION_TOKENS;
        let (expression, end) = decode_stack_expression_at(script, c + 2, 0, &mut nested_budget)?;
        let span = source_span(c, end, CmvsError::Ps2aExpression)?;
        let token = CmvsPs2aValueExpressionToken::NestedStackExpression { span, expression: Box::new(expression) };
        proof { lemma_value_tokens_push(tokens@, token); }
        tokens.push(token);
        *cursor = end;
        return Ok(None);
    }
    if 0x160 <= op && op <= 0x172 {
        let span = source_span(c, c + 2, CmvsError::Ps2aExpression)?;
        let token = CmvsPs2aValueExpressionToken::Operator { span, opcode: op };
        proof { lemma_value_tokens_push(tokens@, token); }
        tokens.push(token);
        *cursor = c + 2;
        return Ok(None);
    }
    if c > usize::MAX - 6 {
        return Err(CmvsError::Ps2aExpression);
    }
    let span = source_span(c, c + 6, CmvsError::Ps2aExpression)?;
    let payload = le_u32_or(bc, c + 2, CmvsError::Ps2aControl)?;
    let token = CmvsPs2aValueExpressionToken::Value { span, opcode: op, payload };
    proof { lemma_value_tokens_push(tokens@, token); }
    tokens.push(token);
    *cursor = c + 6;
    Ok(None)
}

/// Decodes the linear `0x201` value expression at `offset` without
/// evaluating it; it stops at the `0x20f` terminator.
pub fn decode_ps2a_value_expression(script: &CmvsScript, offset: u32) -> (r: Result<CmvsPs2aValueExpression, CmvsError>)
    ensures
        match r {
            Ok(e) => spec_value_expression(script.bytecode@, offset as int) == Ok::<ValueExprV, CmvsError>(value_expr_view(e)),
            Err(c) => spec_value_expression(script.bytecode@, offset as int) == Err::<ValueExprV, CmvsError>(c),
        },
{
    let o = offset as usize;
    let op = le_u16_or(script.bytecode.as_slice(), o, CmvsError::Ps2aExpression)?;
    if op != 0x201 {
        return Err(CmvsError::Ps2aExpression);
    }
    let _len = script.bytecode.len();
    let mut cursor = o + 2;
    let mut tokens: Vec<CmvsPs2aValueExpressionToken> = Vec::new();
    assert(value_tokens_view(tokens@) =~= Seq::<ValueTokenV>::empty());
    loop
        invariant
            o + 2 <= cursor <= script.bytecode@.len(),
            spec_value_expression(script.bytecode@, offset as int)
                == spec_value_tokens(script.bytecode@, o as int, cursor as int, value_tokens_view(tokens@)),
        decreases script.bytecode@.len() - cursor,
    {
        match value_token_step(script, o, &mut cursor, &mut tokens)? {
            Some(span) => {
                return Ok(CmvsPs2aValueExpression { span, tokens });
            },
            None => {},
        }
    }
}

/// The string reference of a value expression that is exactly one `0x120`
/// value token: its payload is a tag-zero pool-relative offset.
pub open spec fn spec_private_string_reference(tokens: Seq<CmvsPs2aValueExpressionToken>)
    -> Result<CmvsPs2aPrivateStringReference, CmvsError>
{
    if tokens.len() != 1 {
        Err(CmvsError::Ps2aStringExpression)
    } else {
        match tokens[0] {
            CmvsPs2aValueExpressionToken::Value { opcode, payload, .. } => if opcode == 0x120 {
                Ok(CmvsPs2aPrivateStringReference { relative_offset: payload })
            } else {
                Err(CmvsError::Ps2aStringExpression)
            },
            _ => Err(CmvsError::Ps2aStringExpression),
        }
    }
}

/// Reads a single-token `0x120` value expression as a tag-zero private
/// string reference; every other expression shape is rejected.
pub fn private_string_reference_from_value_expression(expression: &CmvsPs2aValueExpression)
    -> (r: Result<CmvsPs2aPrivateStringReference, CmvsError>)
    ensures
        r == spec_private_string_reference(expression.tokens@),
{
    if expression.tokens.len() == 1 {
        match &expression.tokens[0] {
            CmvsPs2aValueExpressionToken::Value { opcode, payload, .. } => {
                if *opcode == 0x120 {
                    return Ok(CmvsPs2aPrivateStringReference { relative_offset: *payload });
                }
            },
            _ => {},
        }
    }
    Err(CmvsError::Ps2aStringExpression)
}


/// The abstract content of an instruction frame.
pub enum FrameV {
    Control(CmvsPs2aControlInstruction),
    ValueExpression(ValueExprV),
    StackExpression(StackExprV),
    NumericExpression(NumericExprV),
    Command { span: CmvsPs2aSourceSpan, command_id: u16 },
}

pub open spec fn frame_view(f: CmvsPs2aInstructionFrame) -> FrameV {
    match f {
        CmvsPs2aInstructionFrame::Control(i) => FrameV::Control(i),
        CmvsPs2aInstructionFrame::ValueExpression(e) => FrameV::ValueExpression(value_expr_view(e)),
        CmvsPs2aInstructionFrame::StackExpression(e) => FrameV::StackExpression(stack_expr_view(e)),
        CmvsPs2aInstructionFrame::NumericExpression(e) => FrameV::NumericExpression(numeric_expr_view(e)),
        CmvsPs2aInstructionFrame::Command { span, command_id } => FrameV::Command { span, command_id },
    }
}

/// The instruction frame at `offset`: `0x200`, `0x201` and `0x202` open the
/// three expression forms, `0x2000..=0x27ff` is a two-byte command whose id
/// is the low eleven bits, and every other opcode must be a proven control
/// instruction.
pub open spec fn spec_frame(bc: Seq<u8>, names: Seq<u32>, offset: u32) -> Result<FrameV, CmvsError> {
    match spec_u16_at(bc, offset as int, CmvsError::Ps2aFrame) {
        Err(e) => Err(e),
        Ok(op) => if op == 0x200 {
            match spec_decode_stack_expression(bc, offset as int) {
                Err(e) => Err(e),
                Ok(e) => Ok(FrameV::StackExpression(e)),
            }
        } else if op == 0x201 {
            match spec_value_expression(bc, offset as int) {
                Err(e) => Err(e),
                Ok(e) => Ok(FrameV::ValueExpression(e)),
            }
        } else if op == 0x202 {
            match spec_decode_numeric_expression(bc, offset as int) {
                Err(e) => Err(e),
                Ok(e) => Ok(FrameV::NumericExpression(e)),
            }
        } else if 0x2000 <= op <= 0x27ff {
            Ok(FrameV::Command { span: CmvsPs2aSourceSpan { offset, byte_length: 2 }, command_id: (op % 0x800) as u16 })
        } else {
            match spec_control_instruction(bc, names, offset) {
                Err(e) => Err(e),
                Ok(i) => Ok(FrameV::Control(i)),
            }
        },
    }
}

/// Frames the one instruction at `offset` without executing it; an opcode
/// that is neither an expression, a command nor a proven control
/// instruction is rejected. A framed instruction starts at `offset`, is at
/// least one opcode long and lies inside the program section.
pub fn frame_ps2a_instruction(script: &CmvsScript, offset: u32) -> (r: Result<CmvsPs2aInstructionFrame, CmvsError>)
    ensures
        match r {
            Ok(f) => spec_frame(script.bytecode@, script.name_index@, offset) == Ok::<FrameV, CmvsError>(frame_view(f)),
            Err(e) => spec_frame(script.bytecode@, script.name_index@, offset) == Err::<FrameV, CmvsError>(e),
        },
        r matches Ok(f) ==> {
            let span = frame_span(frame_view(f));
            &&& span.offset == offset
            &&& span.byte_length >= 2
            &&& offset + span.byte_length <= script.bytecode@.len()
        },
{
    let r = frame_at(script, offset);
    proof {
        if r is Ok {
            lemma_frame_span(script.bytecode@, script.name_index@, offset);
        }
    }
    r
}

/// The instruction framed at `offset`.
fn frame_at(script: &CmvsScript, offset: u32) -> (r: Result<CmvsPs2aInstructionFrame, CmvsError>)
    ensures
        match r {
            Ok(f) => spec_frame(script.bytecode@, script.name_index@, offset) == Ok::<FrameV, CmvsError>(frame_view(f)),
            Err(e) => spec_frame(script.bytecode@, script.name_index@, offset) == Err::<FrameV, CmvsError>(e),
        },
{
    let o = offset as usize;
    let op = le_u16_or(script.bytecode.as_slice(), o, CmvsError::Ps2aFrame)?;
    if op == 0x200 {
        Ok(CmvsPs2aInstructionFrame::StackExpression(decode_ps2a_stack_expression(script, offset)?))
    } else if op == 0x201 {
        Ok(CmvsPs2aInstructionFrame::ValueExpression(decode_ps2a_value_expression(script, offset)?))
    } else if op == 0x202 {
        Ok(CmvsPs2aInstructionFrame::NumericExpression(decode_ps2a_numeric_expression(script, offset)?))
    } else if 0x2000 <= op && op <= 0x27ff {
        let command_id = op & 0x7ff;
        assert(op & 0x7ff == op % 0x800) by (bit_vector);
        Ok(CmvsPs2aInstructionFrame::Command { span: CmvsPs2aSourceSpan { offset, byte_length: 2 }, command_id })
    } else {
        Ok(CmvsPs2aInstructionFrame::Control(decode_ps2a_control_instruction(script, offset)?))
    }
}

/// The span of a control instruction.
pub open spec fn control_span_of(i: CmvsPs2aControlInstruction) -> CmvsPs2aSourceSpan {
    match i {
        CmvsPs2aControlInstruction::AbsoluteJump { span, .. } => span,
        CmvsPs2aControlInstruction::JumpWhenFlagClear { span, .. } => span,
        CmvsPs2aControlInstruction::JumpWhenFlagSet { span, .. } => span,
        CmvsPs2aControlInstruction::JumpWhenValueEquals { span, .. } => span,
        CmvsPs2aControlInstruction::JumpWithOpaqueField { span, .. } => span,
        CmvsPs2aControlInstruction::NameIndexJump { span, .. } => span,
        CmvsPs2aControlInstruction::NameIndexCall { span, .. } => span,
        CmvsPs2aControlInstruction::StackReturn { span, .. } => span,
        CmvsPs2aControlInstruction::StackDrop { span, .. } => span,
        CmvsPs2aControlInstruction::FrameReturn { span } => span,
        CmvsPs2aControlInstruction::ScriptReturn { span } => span,
        CmvsPs2aControlInstruction::StateTargetCall { span } => span,
        CmvsPs2aControlInstruction::PushCurrentCondition { span } => span,
        CmvsPs2aControlInstruction::PushImmediate { span, .. } => span,
    }
}

/// The span of an instruction frame.
pub open spec fn frame_span(f: FrameV) -> CmvsPs2aSourceSpan {
    match f {
        FrameV::Control(i) => control_span_of(i),
        FrameV::ValueExpression(e) => e.span,
        FrameV::StackExpression(e) => e.span,
        FrameV::NumericExpression(e) => e.span,
        FrameV::Command { span, .. } => span,
    }
}

impl CmvsPs2aInstructionFrame {
    /// The bytes of the program section that this instruction occupies.
    pub fn span(&self) -> (r: CmvsPs2aSourceSpan)
        ensures
            r == frame_span(frame_view(*self)),
    {
        match self {
            CmvsPs2aInstructionFrame::Control(instruction) => match instruction {
                CmvsPs2aControlInstruction::AbsoluteJump { span, .. } => *span,
                CmvsPs2aControlInstruction::JumpWhenFlagClear { span, .. } => *span,
                CmvsPs2aControlInstruction::JumpWhenFlagSet { span, .. } => *span,
                CmvsPs2aControlInstruction::JumpWhenValueEquals { span, .. } => *span,
                CmvsPs2aControlInstruction::JumpWithOpaqueField { span, .. } => *span,
                CmvsPs2aControlInstruction::NameIndexJump { span, .. } => *span,
                CmvsPs2aControlInstruction::NameIndexCall { span, .. } => *span,
                CmvsPs2aControlInstruction::StackReturn { span, .. } => *span,
                CmvsPs2aControlInstruction::StackDrop { span, .. } => *span,
                CmvsPs2aControlInstruction::FrameReturn { span } => *span,
                CmvsPs2aControlInstruction::ScriptReturn { span } => *span,
                CmvsPs2aControlInstruction::StateTargetCall { span } => *span,
                CmvsPs2aControlInstruction::PushCurrentCondition { span } => *span,
                CmvsPs2aControlInstruction::PushImmediate { span, .. } => *span,
            },
            CmvsPs2aInstructionFrame::ValueExpression(expression) => expression.span,
            CmvsPs2aInstructionFrame::StackExpression(expression) => expression.span,
            CmvsPs2aInstructionFrame::NumericExpression(expression) => expression.span,
            CmvsPs2aInstructionFrame::Command { span, .. } => *span,
        }
    }
}

/// A stack expression's nodes end after its start, inside the section, and
/// its span runs from its start to its end.
proof fn lemma_stack_nodes_span(bc: Seq<u8>, start: int, cursor: int, depth: int, budget: int, acc: Seq<StackNodeV>)
    requires
        0 <= start <= cursor,
        spec_stack_nodes(bc, start, cursor, depth, budget, acc) is Ok,
    ensures
        ({
            let (e, end, _b) = spec_stack_nodes(bc, start, cursor, depth, budget, acc)->Ok_0;
            &&& e.span.offset == start
            &&& e.span.byte_length == end - start
            &&& cursor + 2 <= end <= bc.len()
        }),
    decreases bc.len() - cursor,
{
    let op = spec_u16_at(bc, cursor, CmvsError::Ps2aExpression)->Ok_0;
    if op != 0x20f {
        let (node, next, b) = super::expressions::spec_shaped_node(bc, cursor, op, super::expressions::stack_shape(op),
            depth, budget - 1)->Ok_0;
        lemma_stack_nodes_span(bc, start, next, depth, b, acc.push(node));
    }
}

/// A numeric expression's nodes end after its start, inside the section,
/// and its span runs from its start to its end.
proof fn lemma_numeric_nodes_span(bc: Seq<u8>, start: int, cursor: int, depth: int, budget: int, acc: Seq<NumericNodeV>)
    requires
        0 <= start <= cursor,
        spec_numeric_nodes(bc, start, cursor, depth, budget, acc) is Ok,
    ensures
        ({
            let (e, end, _b) = spec_numeric_nodes(bc, start, cursor, depth, budget, acc)->Ok_0;
            &&& e.span.offset == start
            &&& e.span.byte_length == end - start
            &&& cursor + 2 <= end <= bc.len()
        }),
    decreases bc.len() - cursor,
{
    reveal(spec_numeric_nodes);
    let op = spec_u16_at(bc, cursor, CmvsError::Ps2aExpression)->Ok_0;
    if op != 0x20f {
        let (node, next, b) = super::expressions::spec_shaped_node(bc, cursor, op, super::expressions::numeric_shape(op),
            depth, budget - 1)->Ok_0;
        lemma_numeric_nodes_span(bc, start, next, depth, b, acc.push(super::expressions::numeric_from_stack(node)));
    }
}

/// A value expression's span runs from its start past its terminator,
/// inside the section.
proof fn lemma_value_tokens_span(bc: Seq<u8>, offset: int, cursor: int, acc: Seq<ValueTokenV>)
    requires
        0 <= offset <= cursor,
        spec_value_tokens(bc, offset, cursor, acc) is Ok,
    ensures
        ({
            let e = spec_value_tokens(bc, offset, cursor, acc)->Ok_0;
            &&& e.span.offset == offset
            &&& cursor + 2 <= offset + e.span.byte_length <= bc.len()
        }),
    decreases bc.len() - cursor,
{
    let op = spec_u16_at(bc, cursor, CmvsError::Ps2aExpression)->Ok_0;
    if op == 0x20f {
    } else if op == 0x121 {
        let (expression, end, _b) = spec_stack_expr(bc, cursor + 2, 0, 16384)->Ok_0;
        let span = spec_source_span(cursor, end, CmvsError::Ps2aExpression)->Ok_0;
        lemma_value_tokens_span(bc, offset, end, acc.push(ValueTokenV::NestedStackExpression { span, expression }));
    } else if 0x160 <= op <= 0x172 {
        let span = spec_source_span(cursor, cursor + 2, CmvsError::Ps2aExpression)->Ok_0;
        lemma_value_tokens_span(bc, offset, cursor + 2, acc.push(ValueTokenV::Operator { span, opcode: op }));
    } else {
        let span = spec_source_span(cursor, cursor + 6, CmvsError::Ps2aExpression)->Ok_0;
        let payload = spec_u32_at(bc, cursor + 2)->Ok_0;
        lemma_value_tokens_span(bc, offset, cursor + 6, acc.push(ValueTokenV::Value { span, opcode: op, payload }));
    }
}

/// A framed instruction starts at the requested offset, is at least one
/// opcode long and lies inside the program section, so the interpreter can
/// always advance past it without interpreting it.
pub proof fn lemma_frame_span(bc: Seq<u8>, names: Seq<u32>, offset: u32)
    requires
        spec_frame(bc, names, offset) is Ok,
    ensures
        ({
            let span = frame_span(spec_frame(bc, names, offset)->Ok_0);
            &&& span.offset == offset
            &&& span.byte_length >= 2
            &&& offset + span.byte_length <= bc.len()
        }),
{
    let op = spec_u16_at(bc, offset as int, CmvsError::Ps2aFrame)->Ok_0;
    if op == 0x200 {
        lemma_stack_nodes_span(bc, offset as int, offset + 2, 0, 16384, Seq::empty());
    } else if op == 0x201 {
        lemma_value_tokens_span(bc, offset as int, offset + 2, Seq::empty());
    } else if op == 0x202 {
        lemma_numeric_nodes_span(bc, offset as int, offset + 2, 0, 16384, Seq::empty());
    }
}

} // verus!
