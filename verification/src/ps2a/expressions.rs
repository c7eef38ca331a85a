//! The `0x200` stack-expression and `0x202` numeric-expression grammars,
//! decoded without evaluation.
use vstd::prelude::*;
use crate::error::CmvsError;
use crate::bytes::{spec_le_u16, spec_le_u32};
use super::{CmvsScript, CmvsPs2aSourceSpan, CmvsPs2aStackExpression, CmvsPs2aStackExpressionNode,
    CmvsPs2aNumericExpression, CmvsPs2aNumericExpressionNode, le_u16_or, le_u32_or};

verus! {

/// The abstract content of a stack expression.
pub struct StackExprV {
    pub span: CmvsPs2aSourceSpan,
    pub nodes: Seq<StackNodeV>,
}

/// The abstract content of a stack-expression node.
pub enum StackNodeV {
    Value { span: CmvsPs2aSourceSpan, opcode: u16, payload: u32 },
    Operator { span: CmvsPs2aSourceSpan, opcode: u16 },
    Nested { expression: StackExprV },
    Prefix {
        span: CmvsPs2aSourceSpan,
        opcode: u16,
        payload: Option<u32>,
        index: Option<u16>,
        operands: Seq<StackExprV>,
    },
}

/// The abstract content of a numeric expression.
pub struct NumericExprV {
    pub span: CmvsPs2aSourceSpan,
    pub nodes: Seq<NumericNodeV>,
}

/// The abstract content of a numeric-expression node.
pub enum NumericNodeV {
    Value { span: CmvsPs2aSourceSpan, opcode: u16, payload: u32 },
    Operator { span: CmvsPs2aSourceSpan, opcode: u16 },
    StackExpression { expression: StackExprV },
    Prefix {
        span: CmvsPs2aSourceSpan,
        opcode: u16,
        payload: Option<u32>,
        index: Option<u16>,
        operands: Seq<StackExprV>,
    },
}

pub open spec fn stack_expr_view(e: CmvsPs2aStackExpression) -> StackExprV
    decreases e,
{
    StackExprV { span: e.span, nodes: stack_nodes_view(e.nodes@) }
}

pub open spec fn stack_nodes_view(s: Seq<CmvsPs2aStackExpressionNode>) -> Seq<StackNodeV>
    decreases s,
{
    if s.len() == 0 {
        Seq::empty()
    } else {
        stack_nodes_view(s.drop_last()).push(stack_node_view(s.last()))
    }
}

pub open spec fn stack_exprs_view(s: Seq<CmvsPs2aStackExpression>) -> Seq<StackExprV>
    decreases s,
{
    if s.len() == 0 {
        Seq::empty()
    } else {
        stack_exprs_view(s.drop_last()).push(stack_expr_view(s.last()))
    }
}

pub open spec fn stack_node_view(n: CmvsPs2aStackExpressionNode) -> StackNodeV
    decreases n,
{
    match n {
        CmvsPs2aStackExpressionNode::Value { span, opcode, payload } => StackNodeV::Value { span, opcode, payload },
        CmvsPs2aStackExpressionNode::Operator { span, opcode } => StackNodeV::Operator { span, opcode },
        CmvsPs2aStackExpressionNode::Nested { expression } => StackNodeV::Nested { expression: stack_expr_view(*expression) },
        CmvsPs2aStackExpressionNode::Prefix { span, opcode, payload, index, operands } =>
            StackNodeV::Prefix { span, opcode, payload, index, operands: stack_exprs_view(operands@) },
    }
}

pub open spec fn numeric_node_view(n: CmvsPs2aNumericExpressionNode) -> NumericNodeV {
    match n {
        CmvsPs2aNumericExpressionNode::Value { span, opcode, payload } => NumericNodeV::Value { span, opcode, payload },
        CmvsPs2aNumericExpressionNode::Operator { span, opcode } => NumericNodeV::Operator { span, opcode },
        CmvsPs2aNumericExpressionNode::StackExpression { expression } =>
            NumericNodeV::StackExpression { expression: stack_expr_view(*expression) },
        CmvsPs2aNumericExpressionNode::Prefix { span, opcode, payload, index, operands } =>
            NumericNodeV::Prefix { span, opcode, payload, index, operands: stack_exprs_view(operands@) },
    }
}

pub open spec fn numeric_nodes_view(s: Seq<CmvsPs2aNumericExpressionNode>) -> Seq<NumericNodeV> {
    Seq::new(s.len(), |i: int| numeric_node_view(s[i]))
}

/// A stack-expression node read in the numeric grammar: a nested stack
/// expression becomes a numeric `StackExpression` node.
pub open spec fn numeric_from_stack(n: StackNodeV) -> NumericNodeV {
    match n {
        StackNodeV::Value { span, opcode, payload } => NumericNodeV::Value { span, opcode, payload },
        StackNodeV::Operator { span, opcode } => NumericNodeV::Operator { span, opcode },
        StackNodeV::Nested { expression } => NumericNodeV::StackExpression { expression },
        StackNodeV::Prefix { span, opcode, payload, index, operands } =>
            NumericNodeV::Prefix { span, opcode, payload, index, operands },
    }
}

pub open spec fn numeric_expr_view(e: CmvsPs2aNumericExpression) -> NumericExprV {
    NumericExprV { span: e.span, nodes: numeric_nodes_view(e.nodes@) }
}

/// A little-endian `u16` of the program section, failing with `code`.
pub open spec fn spec_u16_at(bc: Seq<u8>, off: int, code: CmvsError) -> Result<u16, CmvsError> {
    if 0 <= off && off + 2 <= bc.len() { Ok(spec_le_u16(bc, off)) } else { Err(code) }
}

/// A little-endian `u32` operand of the program section.
pub open spec fn spec_u32_at(bc: Seq<u8>, off: int) -> Result<u32, CmvsError> {
    if 0 <= off && off + 4 <= bc.len() { Ok(spec_le_u32(bc, off)) } else { Err(CmvsError::Ps2aControl) }
}

/// The span `[start, end)` when its offset fits 32 bits and its length 16 bits.
pub open spec fn spec_source_span(start: int, end: int, code: CmvsError) -> Result<CmvsPs2aSourceSpan, CmvsError> {
    if start > u32::MAX || end - start > 0xffff || end < start || start < 0 {
        Err(code)
    } else {
        Ok(CmvsPs2aSourceSpan { offset: start as u32, byte_length: (end - start) as u16 })
    }
}

/// Prefix opcodes with one operand and no fields.
pub open spec fn is_plain_prefix(op: u16) -> bool {
    op == 0x101 || op == 0x102 || op == 0x12b
}

/// Stack-expression prefix opcodes with a payload word and one operand.
pub open spec fn is_payload_prefix(op: u16) -> bool {
    op == 0x105 || op == 0x109 || op == 0x110 || op == 0x112 || op == 0x12d || op == 0x12f
}

/// Stack-expression prefix opcodes with a payload word, an index and one operand.
pub open spec fn is_indexed_prefix(op: u16) -> bool {
    op == 0x107 || op == 0x10b
}

/// Stack-expression prefix opcodes with a payload word, an index and two operands.
pub open spec fn is_pair_prefix(op: u16) -> bool {
    op == 0x111 || op == 0x113
}

/// Postfix operator opcodes.
pub open spec fn is_operator(op: u16) -> bool {
    0x160 <= op <= 0x17e
}

/// A `0x200` stack expression at `start`, with its end offset and the
/// remaining token budget. Every token, the terminator included, costs one
/// unit of budget; nesting deeper than 64 levels is rejected.
pub open spec fn spec_stack_expr(bc: Seq<u8>, start: int, depth: int, budget: int)
    -> Result<(StackExprV, int, int), CmvsError>
    decreases 65 - depth, bc.len() - start, 0int,
{
    if depth >= 64 {
        Err(CmvsError::Ps2aExpressionDepth)
    } else {
        match spec_u16_at(bc, start, CmvsError::Ps2aExpression) {
            Err(e) => Err(e),
            Ok(op) => if op != 0x200 {
                Err(CmvsError::Ps2aExpression)
            } else {
                spec_stack_nodes(bc, start, start + 2, depth, budget, Seq::empty())
            },
        }
    }
}

/// A nested stack expression at `at`, one level deeper.
pub open spec fn spec_nested(bc: Seq<u8>, at: int, depth: int, budget: int, cursor: int)
    -> Result<(StackExprV, int, int), CmvsError>
    decreases 65 - depth, bc.len() - cursor, 1int,
{
    if depth + 1 > 64 || depth < 0 {
        Err(CmvsError::Ps2aExpressionDepth)
    } else {
        spec_stack_expr(bc, at, depth + 1, budget)
    }
}

/// The byte layout of an expression node, selected by its opcode.
#[derive(Clone, Copy, PartialEq, Eq, Structural)]
pub enum NodeShape {
    /// A nested `0x200` stack expression.
    Nested,
    /// A prefix with one operand and no fields.
    Plain,
    /// A prefix with a payload word and one operand.
    Payload,
    /// A prefix with a payload word, an index and one operand.
    Indexed,
    /// A prefix with a payload word, an index and two operands.
    Pair,
    /// A postfix operator.
    Operator,
    /// An opcode with a payload word.
    Value,
}

/// The node layout of a stack-expression opcode.
pub open spec fn stack_shape(op: u16) -> NodeShape {
    if op == 0x200 { NodeShape::Nested }
    else if is_plain_prefix(op) { NodeShape::Plain }
    else if is_payload_prefix(op) { NodeShape::Payload }
    else if is_indexed_prefix(op) { NodeShape::Indexed }
    else if is_pair_prefix(op) { NodeShape::Pair }
    else if is_operator(op) { NodeShape::Operator }
    else { NodeShape::Value }
}

/// The node layout of a numeric-expression opcode: the stack layouts plus
/// the numeric-only prefix opcodes.
pub open spec fn numeric_shape(op: u16) -> NodeShape {
    if op == 0x130 || op == 0x134 || op == 0x136 { NodeShape::Payload }
    else if op == 0x131 || op == 0x133 { NodeShape::Indexed }
    else if op == 0x135 || op == 0x137 { NodeShape::Pair }
    else { stack_shape(op) }
}

/// One expression node of layout `shape` with opcode `op` at `cursor`.
pub open spec fn spec_shaped_node(bc: Seq<u8>, cursor: int, op: u16, shape: NodeShape, depth: int, budget: int)
    -> Result<(StackNodeV, int, int), CmvsError>
    decreases 65 - depth, bc.len() - cursor, 2int,
{
    if shape == NodeShape::Nested {
        match spec_nested(bc, cursor, depth, budget, cursor) {
            Err(e) => Err(e),
            Ok((e, next, b)) => Ok((StackNodeV::Nested { expression: e }, next, b)),
        }
    } else if shape == NodeShape::Plain {
        match spec_nested(bc, cursor + 2, depth, budget, cursor) {
            Err(e) => Err(e),
            Ok((e, next, b)) => match spec_source_span(cursor, next, CmvsError::Ps2aExpression) {
                Err(e) => Err(e),
                Ok(span) => Ok((StackNodeV::Prefix { span, opcode: op, payload: None, index: None, operands: seq![e] }, next, b)),
            },
        }
    } else if shape == NodeShape::Payload {
        match spec_u32_at(bc, cursor + 2) {
            Err(e) => Err(e),
            Ok(payload) => match spec_nested(bc, cursor + 6, depth, budget, cursor) {
                Err(e) => Err(e),
                Ok((e, next, b)) => match spec_source_span(cursor, next, CmvsError::Ps2aExpression) {
                    Err(e) => Err(e),
                    Ok(span) => Ok((StackNodeV::Prefix {
                        span, opcode: op, payload: Some(payload), index: None, operands: seq![e] }, next, b)),
                },
            },
        }
    } else if shape == NodeShape::Indexed || shape == NodeShape::Pair {
        match spec_u32_at(bc, cursor + 2) {
            Err(e) => Err(e),
            Ok(payload) => match spec_u16_at(bc, cursor + 6, CmvsError::Ps2aExpression) {
                Err(e) => Err(e),
                Ok(index) => match spec_nested(bc, cursor + 8, depth, budget, cursor) {
                    Err(e) => Err(e),
                    Ok((first, next, b)) => if shape == NodeShape::Indexed {
                        match spec_source_span(cursor, next, CmvsError::Ps2aExpression) {
                            Err(e) => Err(e),
                            Ok(span) => Ok((StackNodeV::Prefix {
                                span, opcode: op, payload: Some(payload), index: Some(index), operands: seq![first] },
                                next, b)),
                        }
                    } else {
                        match spec_nested(bc, next, depth, b, cursor) {
                            Err(e) => Err(e),
                            Ok((second, next2, b2)) => match spec_source_span(cursor, next2, CmvsError::Ps2aExpression) {
                                Err(e) => Err(e),
                                Ok(span) => Ok((StackNodeV::Prefix {
                                    span, opcode: op, payload: Some(payload), index: Some(index),
                                    operands: seq![first, second] }, next2, b2)),
                            },
                        }
                    },
                },
            },
        }
    } else if shape == NodeShape::Operator {
        match spec_source_span(cursor, cursor + 2, CmvsError::Ps2aExpression) {
            Err(e) => Err(e),
            Ok(span) => Ok((StackNodeV::Operator { span, opcode: op }, cursor + 2, budget)),
        }
    } else if cursor + 6 > usize::MAX {
        Err(CmvsError::Ps2aExpression)
    } else {
        match spec_source_span(cursor, cursor + 6, CmvsError::Ps2aExpression) {
            Err(e) => Err(e),
            Ok(span) => match spec_u32_at(bc, cursor + 2) {
                Err(e) => Err(e),
                Ok(payload) => Ok((StackNodeV::Value { span, opcode: op, payload }, cursor + 6, budget)),
            },
        }
    }
}

/// The nodes of a stack expression from `cursor` on, after `acc`.
pub open spec fn spec_stack_nodes(bc: Seq<u8>, start: int, cursor: int, depth: int, budget: int, acc: Seq<StackNodeV>)
    -> Result<(StackExprV, int, int), CmvsError>
    decreases 65 - depth, bc.len() - cursor, 4int,
{
    if budget <= 0 {
        Err(CmvsError::Ps2aExpression)
    } else {
        match spec_u16_at(bc, cursor, CmvsError::Ps2aExpression) {
            Err(e) => Err(e),
            Ok(op) => if op == 0x20f {
                match spec_source_span(start, cursor + 2, CmvsError::Ps2aExpression) {
                    Err(e) => Err(e),
                    Ok(span) => Ok((StackExprV { span, nodes: acc }, cursor + 2, budget - 1)),
                }
            } else {
                match spec_shaped_node(bc, cursor, op, stack_shape(op), depth, budget - 1) {
                    Err(e) => Err(e),
                    Ok((node, next, b)) => if next <= cursor || next > bc.len() {
                        Err(CmvsError::Ps2aExpression)
                    } else {
                        spec_stack_nodes(bc, start, next, depth, b, acc.push(node))
                    },
                }
            },
        }
    }
}

pub proof fn lemma_stack_nodes_view_push(s: Seq<CmvsPs2aStackExpressionNode>, n: CmvsPs2aStackExpressionNode)
    ensures
        stack_nodes_view(s.push(n)) == stack_nodes_view(s).push(stack_node_view(n)),
{
    assert(s.push(n).drop_last() =~= s);
}

pub proof fn lemma_stack_exprs_view_one(e: CmvsPs2aStackExpression)
    ensures
        stack_exprs_view(seq![e]) == seq![stack_expr_view(e)],
{
    reveal_with_fuel(stack_exprs_view, 2);
    assert(seq![e].drop_last() =~= Seq::<CmvsPs2aStackExpression>::empty());
    assert(Seq::<StackExprV>::empty().push(stack_expr_view(e)) =~= seq![stack_expr_view(e)]);
}

pub proof fn lemma_stack_exprs_view_two(e: CmvsPs2aStackExpression, f: CmvsPs2aStackExpression)
    ensures
        stack_exprs_view(seq![e, f]) == seq![stack_expr_view(e), stack_expr_view(f)],
{
    assert(seq![e, f].drop_last() =~= seq![e]);
    lemma_stack_exprs_view_one(e);
    assert(seq![stack_expr_view(e)].push(stack_expr_view(f)) =~= seq![stack_expr_view(e), stack_expr_view(f)]);
}

/// Builds the span `[start, end)` of the program section.
pub fn source_span(start: usize, end: usize, code: CmvsError) -> (r: Result<CmvsPs2aSourceSpan, CmvsError>)
    requires
        start <= end,
    ensures
        r == spec_source_span(start as int, end as int, code),
{
    let byte_length = end - start;
    if start > u32::MAX as usize || byte_length > 0xffff {
        return Err(code);
    }
    Ok(CmvsPs2aSourceSpan { offset: start as u32, byte_length: byte_length as u16 })
}

/// Decodes one `0x200` stack expression at `start` at nesting `depth`,
/// charging every token to `budget`; returns the expression and its end.
pub fn decode_stack_expression_at(script: &CmvsScript, start: usize, depth: usize, budget: &mut usize)
    -> (r: Result<(CmvsPs2aStackExpression, usize), CmvsError>)
    requires
        depth <= 64,
    ensures
        match r {
            Ok((e, end)) => {
                &&& spec_stack_expr(script.bytecode@, start as int, depth as int, *old(budget) as int)
                    == Ok::<(StackExprV, int, int), CmvsError>((stack_expr_view(e), end as int, *final(budget) as int))
                &&& start < end <= script.bytecode@.len()
                &&& *final(budget) <= *old(budget)
            },
            Err(c) => spec_stack_expr(script.bytecode@, start as int, depth as int, *old(budget) as int)
                == Err::<(StackExprV, int, int), CmvsError>(c),
        },
    decreases 64 - depth, 3int,
{
    let ghost b0 = *budget as int;
    let len = script.bytecode.len();
    if depth == 64 {
        return Err(CmvsError::Ps2aExpressionDepth);
    }
    let op = le_u16_or(script.bytecode.as_slice(), start, CmvsError::Ps2aExpression)?;
    if op != 0x200 {
        return Err(CmvsError::Ps2aExpression);
    }
    let mut cursor = start + 2;
    let mut nodes: Vec<CmvsPs2aStackExpressionNode> = Vec::new();
    assert(stack_nodes_view(nodes@) =~= Seq::<StackNodeV>::empty());
    loop
        invariant
            depth < 64,
            start + 2 <= cursor <= script.bytecode@.len(),
            *budget <= b0,
            b0 == *old(budget),
            spec_stack_expr(script.bytecode@, start as int, depth as int, b0)
                == spec_stack_nodes(script.bytecode@, start as int, cursor as int, depth as int, *budget as int,
                    stack_nodes_view(nodes@)),
        decreases script.bytecode@.len() - cursor,
    {
        match stack_node_step(script, start, depth, &mut cursor, budget, &mut nodes)? {
            Some((span, end)) => {
                return Ok((CmvsPs2aStackExpression { span, nodes }, end));
            },
            None => {},
        }
    }
}

/// Decodes one node of a stack expression at `cursor`: on the terminator it
/// returns the expression's span and end; otherwise it appends the node and
/// advances `cursor`.
pub fn stack_node_step(
    script: &CmvsScript, start: usize, depth: usize, cursor: &mut usize, budget: &mut usize,
    nodes: &mut Vec<CmvsPs2aStackExpressionNode>,
) -> (r: Result<Option<(CmvsPs2aSourceSpan, usize)>, CmvsError>)
    requires
        depth < 64,
        start + 2 <= *old(cursor) <= script.bytecode@.len(),
    ensures
        match r {
            Ok(Some((span, end))) => {
                &&& spec_stack_nodes(script.bytecode@, start as int, *old(cursor) as int, depth as int,
                    *old(budget) as int, stack_nodes_view(old(nodes)@))
                    == Ok::<(StackExprV, int, int), CmvsError>((StackExprV { span, nodes: stack_nodes_view(old(nodes)@) },
                        end as int, *final(budget) as int))
                &&& final(nodes)@ == old(nodes)@
                &&& start < end <= script.bytecode@.len()
                &&& *final(budget) <= *old(budget)
            },
            Ok(None) => {
                &&& spec_stack_nodes(script.bytecode@, start as int, *old(cursor) as int, depth as int,
                    *old(budget) as int, stack_nodes_view(old(nodes)@))
                    == spec_stack_nodes(script.bytecode@, start as int, *final(cursor) as int, depth as int,
                        *final(budget) as int, stack_nodes_view(final(nodes)@))
                &&& *old(cursor) < *final(cursor) <= script.bytecode@.len()
                &&& *final(budget) <= *old(budget)
            },
            Err(c) => spec_stack_nodes(script.bytecode@, start as int, *old(cursor) as int, depth as int,
                *old(budget) as int, stack_nodes_view(old(nodes)@)) == Err::<(StackExprV, int, int), CmvsError>(c),
        },
    decreases 64 - depth, 2int,
{
    let bc = script.bytecode.as_slice();
    let len = bc.len();
    let c = *cursor;
    if *budget == 0 {
        return Err(CmvsError::Ps2aExpression);
    }
    *budget = *budget - 1;
    let op = le_u16_or(bc, c, CmvsError::Ps2aExpression)?;
    if op == 0x20f {
        let span = source_span(start, c + 2, CmvsError::Ps2aExpression)?;
        return Ok(Some((span, c + 2)));
    }
    let shape = stack_shape_of(op);
    let ghost b1 = *budget as int;
    let ghost acc = stack_nodes_view(nodes@);
    assert(spec_u16_at(bc@, c as int, CmvsError::Ps2aExpression) == Ok::<u16, CmvsError>(op));
    assert(spec_stack_nodes(bc@, start as int, c as int, depth as int, b1 + 1, acc)
        == match spec_shaped_node(bc@, c as int, op, shape, depth as int, b1) {
            Err(e) => Err(e),
            Ok((node, next, b)) => if next <= c || next > bc@.len() {
                Err(CmvsError::Ps2aExpression)
            } else {
                spec_stack_nodes(bc@, start as int, next, depth as int, b, acc.push(node))
            },
        });
    let (node, next) = match shaped_node_decode(script, c, op, shape, depth, budget) {
        Ok(v) => v,
        Err(e) => return Err(e),
    };
    proof { lemma_stack_nodes_view_push(nodes@, node); }
    nodes.push(node);
    *cursor = next;
    Ok(None)
}

/// The node layout of a stack-expression opcode.
pub fn stack_shape_of(op: u16) -> (r: NodeShape)
    ensures
        r == stack_shape(op),
{
    if op == 0x200 { NodeShape::Nested }
    else if op == 0x101 || op == 0x102 || op == 0x12b { NodeShape::Plain }
    else if op == 0x105 || op == 0x109 || op == 0x110 || op == 0x112 || op == 0x12d || op == 0x12f { NodeShape::Payload }
    else if op == 0x107 || op == 0x10b { NodeShape::Indexed }
    else if op == 0x111 || op == 0x113 { NodeShape::Pair }
    else if 0x160 <= op && op <= 0x17e { NodeShape::Operator }
    else { NodeShape::Value }
}

/// The node layout of a numeric-expression opcode.
pub fn numeric_shape_of(op: u16) -> (r: NodeShape)
    ensures
        r == numeric_shape(op),
{
    if op == 0x130 || op == 0x134 || op == 0x136 { NodeShape::Payload }
    else if op == 0x131 || op == 0x133 { NodeShape::Indexed }
    else if op == 0x135 || op == 0x137 { NodeShape::Pair }
    else { stack_shape_of(op) }
}

/// Decodes the node with opcode `op` and layout `shape` at `c`.
pub fn shaped_node_decode(script: &CmvsScript, c: usize, op: u16, shape: NodeShape, depth: usize, budget: &mut usize)
    -> (r: Result<(CmvsPs2aStackExpressionNode, usize), CmvsError>)
    requires
        depth < 64,
        c + 2 <= script.bytecode@.len(),
    ensures
        match r {
            Ok((n, next)) => {
                &&& spec_shaped_node(script.bytecode@, c as int, op, shape, depth as int, *old(budget) as int)
                    == Ok::<(StackNodeV, int, int), CmvsError>((stack_node_view(n), next as int, *final(budget) as int))
                &&& c < next <= script.bytecode@.len()
                &&& *final(budget) <= *old(budget)
            },
            Err(e) => spec_shaped_node(script.bytecode@, c as int, op, shape, depth as int, *old(budget) as int)
                == Err::<(StackNodeV, int, int), CmvsError>(e),
        },
    decreases 64 - depth, 1int,
{
    let bc = script.bytecode.as_slice();
    let len = bc.len();
    match shape {
        NodeShape::Nested => {
            let (expression, next) = match decode_stack_expression_at(script, c, depth + 1, budget) {
                Ok(v) => v,
                Err(e) => return Err(e),
            };
            Ok((CmvsPs2aStackExpressionNode::Nested { expression: Box::new(expression) }, next))
        },
        NodeShape::Plain => {
            let (operand, next) = match decode_stack_expression_at(script, c + 2, depth + 1, budget) {
                Ok(v) => v,
                Err(e) => return Err(e),
            };
            let span = source_span(c, next, CmvsError::Ps2aExpression)?;
            proof { lemma_stack_exprs_view_one(operand); }
            Ok((CmvsPs2aStackExpressionNode::Prefix { span, opcode: op, payload: None, index: None, operands: vec![operand] }, next))
        },
        NodeShape::Payload => {
            let payload = le_u32_or(bc, c + 2, CmvsError::Ps2aControl)?;
            let (operand, next) = match decode_stack_expression_at(script, c + 6, depth + 1, budget) {
                Ok(v) => v,
                Err(e) => return Err(e),
            };
            let span = source_span(c, next, CmvsError::Ps2aExpression)?;
            proof { lemma_stack_exprs_view_one(operand); }
            Ok((CmvsPs2aStackExpressionNode::Prefix {
                span, opcode: op, payload: Some(payload), index: None, operands: vec![operand] }, next))
        },
        NodeShape::Indexed | NodeShape::Pair => indexed_node_decode(script, c, op, shape, depth, budget),
        NodeShape::Operator => {
            let span = source_span(c, c + 2, CmvsError::Ps2aExpression)?;
            Ok((CmvsPs2aStackExpressionNode::Operator { span, opcode: op }, c + 2))
        },
        NodeShape::Value => {
            if c > usize::MAX - 6 {
                return Err(CmvsError::Ps2aExpression);
            }
            let span = source_span(c, c + 6, CmvsError::Ps2aExpression)?;
            let payload = le_u32_or(bc, c + 2, CmvsError::Ps2aControl)?;
            Ok((CmvsPs2aStackExpressionNode::Value { span, opcode: op, payload }, c + 6))
        },
    }
}

/// Decodes an indexed prefix node (one or two operands) at `c`.
pub fn indexed_node_decode(script: &CmvsScript, c: usize, op: u16, shape: NodeShape, depth: usize, budget: &mut usize)
    -> (r: Result<(CmvsPs2aStackExpressionNode, usize), CmvsError>)
    requires
        depth < 64,
        c + 2 <= script.bytecode@.len(),
        shape == NodeShape::Indexed || shape == NodeShape::Pair,
    ensures
        match r {
            Ok((n, next)) => {
                &&& spec_shaped_node(script.bytecode@, c as int, op, shape, depth as int, *old(budget) as int)
                    == Ok::<(StackNodeV, int, int), CmvsError>((stack_node_view(n), next as int, *final(budget) as int))
                &&& c < next <= script.bytecode@.len()
                &&& *final(budget) <= *old(budget)
            },
            Err(e) => spec_shaped_node(script.bytecode@, c as int, op, shape, depth as int, *old(budget) as int)
                == Err::<(StackNodeV, int, int), CmvsError>(e),
        },
    decreases 64 - depth, 0int,
{
    let bc = script.bytecode.as_slice();
    let len = bc.len();
    let payload = le_u32_or(bc, c + 2, CmvsError::Ps2aControl)?;
    let index = le_u16_or(bc, c + 6, CmvsError::Ps2aExpression)?;
    let (first, next) = match decode_stack_expression_at(script, c + 8, depth + 1, budget) {
        Ok(v) => v,
        Err(e) => return Err(e),
    };
    if shape == NodeShape::Indexed {
        let span = source_span(c, next, CmvsError::Ps2aExpression)?;
        proof { lemma_stack_exprs_view_one(first); }
        Ok((CmvsPs2aStackExpressionNode::Prefix {
            span, opcode: op, payload: Some(payload), index: Some(index), operands: vec![first] }, next))
    } else {
        let (second, next2) = match decode_stack_expression_at(script, next, depth + 1, budget) {
            Ok(v) => v,
            Err(e) => return Err(e),
        };
        let span = source_span(c, next2, CmvsError::Ps2aExpression)?;
        proof { lemma_stack_exprs_view_two(first, second); }
        Ok((CmvsPs2aStackExpressionNode::Prefix {
            span, opcode: op, payload: Some(payload), index: Some(index), operands: vec![first, second] }, next2))
    }
}

/// A `0x202` numeric expression at `start`: like a stack expression, but
/// with its own prefix opcodes and with `0x200` children read as stack
/// expressions.
pub open spec fn spec_numeric_expr(bc: Seq<u8>, start: int, depth: int, budget: int)
    -> Result<(NumericExprV, int, int), CmvsError>
{
    if depth >= 64 {
        Err(CmvsError::Ps2aExpressionDepth)
    } else {
        match spec_u16_at(bc, start, CmvsError::Ps2aExpression) {
            Err(e) => Err(e),
            Ok(op) => if op != 0x202 {
                Err(CmvsError::Ps2aExpression)
            } else {
                spec_numeric_nodes(bc, start, start + 2, depth, budget, Seq::empty())
            },
        }
    }
}

/// The nodes of a numeric expression from `cursor` on, after `acc`.
#[verifier::opaque]
pub open spec fn spec_numeric_nodes(bc: Seq<u8>, start: int, cursor: int, depth: int, budget: int, acc: Seq<NumericNodeV>)
    -> Result<(NumericExprV, int, int), CmvsError>
    decreases bc.len() - cursor,
{
    if budget <= 0 {
        Err(CmvsError::Ps2aExpression)
    } else {
        match spec_u16_at(bc, cursor, CmvsError::Ps2aExpression) {
            Err(e) => Err(e),
            Ok(op) => if op == 0x20f {
                match spec_source_span(start, cursor + 2, CmvsError::Ps2aExpression) {
                    Err(e) => Err(e),
                    Ok(span) => Ok((NumericExprV { span, nodes: acc }, cursor + 2, budget - 1)),
                }
            } else {
                match spec_shaped_node(bc, cursor, op, numeric_shape(op), depth, budget - 1) {
                    Err(e) => Err(e),
                    Ok((node, next, b)) => if next <= cursor || next > bc.len() {
                        Err(CmvsError::Ps2aExpression)
                    } else {
                        spec_numeric_nodes(bc, start, next, depth, b, acc.push(numeric_from_stack(node)))
                    },
                }
            },
        }
    }
}

/// Converts a decoded stack-grammar node into a numeric node.
pub fn numeric_node_from(n: CmvsPs2aStackExpressionNode) -> (r: CmvsPs2aNumericExpressionNode)
    ensures
        numeric_node_view(r) == numeric_from_stack(stack_node_view(n)),
{
    match n {
        CmvsPs2aStackExpressionNode::Value { span, opcode, payload } => CmvsPs2aNumericExpressionNode::Value { span, opcode, payload },
        CmvsPs2aStackExpressionNode::Operator { span, opcode } => CmvsPs2aNumericExpressionNode::Operator { span, opcode },
        CmvsPs2aStackExpressionNode::Nested { expression } => CmvsPs2aNumericExpressionNode::StackExpression { expression },
        CmvsPs2aStackExpressionNode::Prefix { span, opcode, payload, index, operands } =>
            CmvsPs2aNumericExpressionNode::Prefix { span, opcode, payload, index, operands },
    }
}

/// Decodes one `0x202` numeric expression at `start`.
pub fn decode_numeric_expression_at(script: &CmvsScript, start: usize, depth: usize, budget: &mut usize)
    -> (r: Result<(CmvsPs2aNumericExpression, usize), CmvsError>)
    requires
        depth <= 64,
    ensures
        match r {
            Ok((e, end)) => {
                &&& spec_numeric_expr(script.bytecode@, start as int, depth as int, *old(budget) as int)
                    == Ok::<(NumericExprV, int, int), CmvsError>((numeric_expr_view(e), end as int, *final(budget) as int))
                &&& start < end <= script.bytecode@.len()
            },
            Err(c) => spec_numeric_expr(script.bytecode@, start as int, depth as int, *old(budget) as int)
                == Err::<(NumericExprV, int, int), CmvsError>(c),
        },
{
    let ghost b0 = *budget as int;
    let bc = script.bytecode.as_slice();
    let len = bc.len();
    if depth == 64 {
        return Err(CmvsError::Ps2aExpressionDepth);
    }
    let op = le_u16_or(bc, start, CmvsError::Ps2aExpression)?;
    if op != 0x202 {
        return Err(CmvsError::Ps2aExpression);
    }
    let mut cursor = start + 2;
    let mut nodes: Vec<CmvsPs2aNumericExpressionNode> = Vec::new();
    assert(numeric_nodes_view(nodes@) =~= Seq::<NumericNodeV>::empty());
    loop
        invariant
            depth < 64,
            len == bc@.len(),
            bc@ == script.bytecode@,
            b0 == *old(budget),
            start + 2 <= cursor <= bc@.len(),
            spec_numeric_expr(bc@, start as int, depth as int, b0)
                == spec_numeric_nodes(bc@, start as int, cursor as int, depth as int, *budget as int,
                    numeric_nodes_view(nodes@)),
        decreases bc@.len() - cursor,
    {
        proof {
            reveal(spec_numeric_nodes);
        }
        if *budget == 0 {
            return Err(CmvsError::Ps2aExpression);
        }
        *budget = *budget - 1;
        let op = le_u16_or(bc, cursor, CmvsError::Ps2aExpression)?;
        if op == 0x20f {
            let span = source_span(start, cursor + 2, CmvsError::Ps2aExpression)?;
            return Ok((CmvsPs2aNumericExpression { span, nodes }, cursor + 2));
        }
        let shape = numeric_shape_of(op);
        let (node, next) = match shaped_node_decode(script, cursor, op, shape, depth, budget) {
            Ok(v) => v,
            Err(e) => return Err(e),
        };
        let numeric = numeric_node_from(node);
        proof {
            assert(numeric_nodes_view(nodes@.push(numeric)) =~= numeric_nodes_view(nodes@).push(numeric_node_view(numeric)));
        }
        nodes.push(numeric);
        cursor = next;
    }
}

/// The stack expression at `offset` with a fresh budget.
pub open spec fn spec_decode_stack_expression(bc: Seq<u8>, offset: int) -> Result<StackExprV, CmvsError> {
    match spec_stack_expr(bc, offset, 0, 16384) {
        Ok((e, _, _)) => Ok(e),
        Err(c) => Err(c),
    }
}

/// The numeric expression at `offset` with a fresh budget.
pub open spec fn spec_decode_numeric_expression(bc: Seq<u8>, offset: int) -> Result<NumericExprV, CmvsError> {
    match spec_numeric_expr(bc, offset, 0, 16384) {
        Ok((e, _, _)) => Ok(e),
        Err(c) => Err(c),
    }
}

/// Decodes the `0x200` stack-expression grammar at `offset` without
/// evaluating it; unknown framing, truncation, nesting deeper than 64 levels
/// and more than 16384 tokens are rejected.
pub fn decode_ps2a_stack_expression(script: &CmvsScript, offset: u32) -> (r: Result<CmvsPs2aStackExpression, CmvsError>)
    ensures
        match r {
            Ok(e) => spec_decode_stack_expression(script.bytecode@, offset as int) == Ok::<StackExprV, CmvsError>(stack_expr_view(e)),
            Err(c) => spec_decode_stack_expression(script.bytecode@, offset as int) == Err::<StackExprV, CmvsError>(c),
        },
{
    let mut budget: usize = 16384;
    let (expression, _) = decode_stack_expression_at(script, offset as usize, 0, &mut budget)?;
    Ok(expression)
}

/// Decodes the `0x202` numeric-expression grammar at `offset` without
/// evaluating it.
pub fn decode_ps2a_numeric_expression(script: &CmvsScript, offset: u32) -> (r: Result<CmvsPs2aNumericExpression, CmvsError>)
    ensures
        match r {
            Ok(e) => spec_decode_numeric_expression(script.bytecode@, offset as int) == Ok::<NumericExprV, CmvsError>(numeric_expr_view(e)),
            Err(c) => spec_decode_numeric_expression(script.bytecode@, offset as int) == Err::<NumericExprV, CmvsError>(c),
        },
{
    let mut budget: usize = 16384;
    let (expression, _) = decode_numeric_expression_at(script, offset as usize, 0, &mut budget)?;
    Ok(expression)
}

} // verus!
