use crate::ast::converting::{
    conclude, goes_on, walked, within, AstConverting, AstNode, Walk,
};
use crate::ast::nodes::{
    NodeArgumentPattern, NodeAtomicExpression, NodeFullExpression, NodeMessageEntry,
    NodePattern, NodePatternMatchExpressionClause, WithMetaData,
};
use crate::ast::traversal::names::{
    visit_builtin_arguments_at, visit_builtin_arguments_at_spec, visit_each_variable_identifier,
    visit_each_variable_identifier_spec, visit_meta_identifier_at,
    visit_meta_identifier_at_spec, visit_variable_identifier_at,
    visit_variable_identifier_at_spec,
};
use crate::ast::traversal::types::{
    visit_each_type_argument, visit_each_type_argument_spec, visit_value_literal_at,
    visit_value_literal_at_spec,
};
use crate::ast::{TraversalResult, TreeTraversalMode};
use crate::error::Error;
use vstd::prelude::*;

verus! {

/// What visiting a pattern node in `state` comes to.
pub open spec fn visit_pattern_spec<C: AstConverting>(
    node: NodePattern,
    state: C::V,
) -> Walk<C::V>
    decreases node,
{
    let entered = C::converted(state, TreeTraversalMode::Enter, AstNode::Pattern(node));
    let children = match node {
        NodePattern::Constructor(name, arguments) => {
            let first = visit_meta_identifier_at_spec::<C>(name, entered.state);
            if !first.passed() {
                first
            } else {
                visit_each_argument_pattern_spec::<C>(arguments@, first.state)
            }
        },
        _ => Walk::proceed(entered.state),
    };
    conclude::<C>(AstNode::Pattern(node), entered, children)
}

/// Visits a pattern node: its enter hook, then its children in order, then its exit hook.
pub fn visit_pattern<C: AstConverting>(
    node: &NodePattern,
    emitter: &mut C,
) -> (result: Result<TraversalResult, Error>)
    ensures
        walked(final(emitter)@, result) == visit_pattern_spec::<C>(
            *node,
            old(emitter)@,
        ),
    decreases node,
{
    match emitter.emit_pattern(TreeTraversalMode::Enter, node)? {
        TraversalResult::SkipChildren => {
            return Ok(TraversalResult::Continue);
        },
        TraversalResult::Continue => {},
    }
    let children = match node {
        NodePattern::Constructor(name, arguments) => {
            let visited = visit_meta_identifier_at(name, emitter);
            if !goes_on(&visited) {
                return visited;
            }
            visit_each_argument_pattern(arguments, emitter)
        },
        _ => Ok(TraversalResult::Continue),
    };
    if !goes_on(&children) {
        return children;
    }
    emitter.emit_pattern(TreeTraversalMode::Exit, node)
}

/// What visiting a pattern node at its place in the source comes to: the place is pushed, the
/// node is visited and the place is popped, whatever the visit returns.
pub open spec fn visit_pattern_at_spec<C: AstConverting>(
    node: WithMetaData<NodePattern>,
    state: C::V,
) -> Walk<C::V>
    decreases node,
{
    within::<C>(visit_pattern_spec::<C>(node.node, C::position_pushed(state, node.start, node.end)))
}

/// Visits a pattern node between a push and a pop of its place in the source.
pub fn visit_pattern_at<C: AstConverting>(
    node: &WithMetaData<NodePattern>,
    emitter: &mut C,
) -> (result: Result<TraversalResult, Error>)
    ensures
        walked(final(emitter)@, result) == visit_pattern_at_spec::<C>(*node, old(emitter)@),
    decreases node,
{
    emitter.push_source_position(&node.start, &node.end);
    let visited = visit_pattern(&node.node, emitter);
    emitter.pop_source_position();
    visited
}

/// What visiting an argument pattern node in `state` comes to.
pub open spec fn visit_argument_pattern_spec<C: AstConverting>(
    node: NodeArgumentPattern,
    state: C::V,
) -> Walk<C::V>
    decreases node,
{
    let entered = C::converted(state, TreeTraversalMode::Enter, AstNode::ArgumentPattern(node));
    let children = match node {
        NodeArgumentPattern::ConstructorArgument(name) => visit_meta_identifier_at_spec::<C>(
            name,
            entered.state,
        ),
        NodeArgumentPattern::PatternArgument(pattern) => visit_pattern_at_spec::<C>(
            *pattern,
            entered.state,
        ),
        _ => Walk::proceed(entered.state),
    };
    conclude::<C>(AstNode::ArgumentPattern(node), entered, children)
}

/// Visits an argument pattern node: its enter hook, then its children in order, then its exit
/// hook.
pub fn visit_argument_pattern<C: AstConverting>(
    node: &NodeArgumentPattern,
    emitter: &mut C,
) -> (result: Result<TraversalResult, Error>)
    ensures
        walked(final(emitter)@, result) == visit_argument_pattern_spec::<C>(
            *node,
            old(emitter)@,
        ),
    decreases node,
{
    match emitter.emit_argument_pattern(TreeTraversalMode::Enter, node)? {
        TraversalResult::SkipChildren => {
            return Ok(TraversalResult::Continue);
        },
        TraversalResult::Continue => {},
    }
    let children = match node {
        NodeArgumentPattern::ConstructorArgument(name) => visit_meta_identifier_at(name, emitter),
        NodeArgumentPattern::PatternArgument(pattern) => visit_pattern_at(pattern, emitter),
        _ => Ok(TraversalResult::Continue),
    };
    if !goes_on(&children) {
        return children;
    }
    emitter.emit_argument_pattern(TreeTraversalMode::Exit, node)
}

/// What visiting an argument pattern node at its place in the source comes to: the place is
/// pushed, the node is visited and the place is popped, whatever the visit returns.
pub open spec fn visit_argument_pattern_at_spec<C: AstConverting>(
    node: WithMetaData<NodeArgumentPattern>,
    state: C::V,
) -> Walk<C::V>
    decreases node,
{
    within::<C>(
        visit_argument_pattern_spec::<C>(
            node.node,
            C::position_pushed(state, node.start, node.end),
        ),
    )
}

/// Visits an argument pattern node between a push and a pop of its place in the source.
pub fn visit_argument_pattern_at<C: AstConverting>(
    node: &WithMetaData<NodeArgumentPattern>,
    emitter: &mut C,
) -> (result: Result<TraversalResult, Error>)
    ensures
        walked(final(emitter)@, result) == visit_argument_pattern_at_spec::<C>(
            *node,
            old(emitter)@,
        ),
    decreases node,
{
    emitter.push_source_position(&node.start, &node.end);
    let visited = visit_argument_pattern(&node.node, emitter);
    emitter.pop_source_position();
    visited
}

/// What visiting a row of argument pattern nodes, starting in `state`, comes to: the first that
/// fails or asks to skip ends the row.
pub open spec fn visit_each_argument_pattern_spec<C: AstConverting>(
    nodes: Seq<WithMetaData<NodeArgumentPattern>>,
    state: C::V,
) -> Walk<C::V>
    decreases nodes,
{
    if nodes.len() == 0 {
        Walk::proceed(state)
    } else {
        let first = visit_argument_pattern_at_spec::<C>(nodes[0], state);
        if !first.passed() {
            first
        } else {
            visit_each_argument_pattern_spec::<C>(nodes.drop_first(), first.state)
        }
    }
}

/// Visits a row of argument pattern nodes in order, up to the first that fails or asks to skip.
pub fn visit_each_argument_pattern<C: AstConverting>(
    nodes: &Vec<WithMetaData<NodeArgumentPattern>>,
    emitter: &mut C,
) -> (result: Result<TraversalResult, Error>)
    ensures
        walked(final(emitter)@, result) == visit_each_argument_pattern_spec::<C>(
            nodes@,
            old(emitter)@,
        ),
    decreases nodes,
{
    let mut i: usize = 0;
    assert(nodes@.skip(0) =~= nodes@);
    while i < nodes.len()
        invariant
            i <= nodes.len(),
            visit_each_argument_pattern_spec::<C>(nodes@.skip(i as int), emitter@)
                == visit_each_argument_pattern_spec::<C>(nodes@, old(emitter)@),
        decreases nodes.len() - i,
    {
        assert(nodes@.skip(i as int).drop_first() =~= nodes@.skip(i as int + 1));
        let visited = visit_argument_pattern_at(&nodes[i], emitter);
        if !goes_on(&visited) {
            return visited;
        }
        i += 1;
    }
    Ok(TraversalResult::Continue)
}

/// A row of argument pattern nodes ends with the first node whose visit fails or asks to skip:
/// what that visit comes to is what the row comes to, and no later node is visited.
pub proof fn lemma_visit_each_argument_pattern_stops<C: AstConverting>(
    nodes: Seq<WithMetaData<NodeArgumentPattern>>,
    state: C::V,
    i: int,
)
    requires
        0 <= i < nodes.len(),
        visit_each_argument_pattern_spec::<C>(nodes.take(i), state).passed(),
        !visit_argument_pattern_at_spec::<C>(
            nodes[i],
            visit_each_argument_pattern_spec::<C>(nodes.take(i), state).state,
        ).passed(),
    ensures
        visit_each_argument_pattern_spec::<C>(nodes, state)
            == visit_argument_pattern_at_spec::<C>(
                nodes[i],
                visit_each_argument_pattern_spec::<C>(nodes.take(i), state).state,
            ),
    decreases i,
{
    if i > 0 {
        assert(nodes.take(i).drop_first() =~= nodes.drop_first().take(i - 1));
        let first = visit_argument_pattern_at_spec::<C>(nodes[0], state);
        lemma_visit_each_argument_pattern_stops::<C>(nodes.drop_first(), first.state, i - 1);
    }
}

/// What visiting an atomic expression node in `state` comes to.
pub open spec fn visit_atomic_expression_spec<C: AstConverting>(
    node: NodeAtomicExpression,
    state: C::V,
) -> Walk<C::V>
{
    let entered = C::converted(state, TreeTraversalMode::Enter, AstNode::AtomicExpression(node));
    let children = match node {
        NodeAtomicExpression::AtomicSid(sid) => visit_variable_identifier_at_spec::<C>(
            sid,
            entered.state,
        ),
        NodeAtomicExpression::AtomicLit(lit) => visit_value_literal_at_spec::<C>(
            lit,
            entered.state,
        ),
    };
    conclude::<C>(AstNode::AtomicExpression(node), entered, children)
}

/// Visits an atomic expression node: its enter hook, then its children in order, then its exit
/// hook.
pub fn visit_atomic_expression<C: AstConverting>(
    node: &NodeAtomicExpression,
    emitter: &mut C,
) -> (result: Result<TraversalResult, Error>)
    ensures
        walked(final(emitter)@, result) == visit_atomic_expression_spec::<C>(
            *node,
            old(emitter)@,
        ),
{
    match emitter.emit_atomic_expression(TreeTraversalMode::Enter, node)? {
        TraversalResult::SkipChildren => {
            return Ok(TraversalResult::Continue);
        },
        TraversalResult::Continue => {},
    }
    let children = match node {
        NodeAtomicExpression::AtomicSid(sid) => visit_variable_identifier_at(sid, emitter),
        NodeAtomicExpression::AtomicLit(lit) => visit_value_literal_at(lit, emitter),
    };
    if !goes_on(&children) {
        return children;
    }
    emitter.emit_atomic_expression(TreeTraversalMode::Exit, node)
}

/// What visiting an atomic expression node at its place in the source comes to: the place is
/// pushed, the node is visited and the place is popped, whatever the visit returns.
pub open spec fn visit_atomic_expression_at_spec<C: AstConverting>(
    node: WithMetaData<NodeAtomicExpression>,
    state: C::V,
) -> Walk<C::V>
{
    within::<C>(
        visit_atomic_expression_spec::<C>(
            node.node,
            C::position_pushed(state, node.start, node.end),
        ),
    )
}

/// Visits an atomic expression node between a push and a pop of its place in the source.
pub fn visit_atomic_expression_at<C: AstConverting>(
    node: &WithMetaData<NodeAtomicExpression>,
    emitter: &mut C,
) -> (result: Result<TraversalResult, Error>)
    ensures
        walked(final(emitter)@, result) == visit_atomic_expression_at_spec::<C>(
            *node,
            old(emitter)@,
        ),
{
    emitter.push_source_position(&node.start, &node.end);
    let visited = visit_atomic_expression(&node.node, emitter);
    emitter.pop_source_position();
    visited
}

/// What visiting a message entry node in `state` comes to.
pub open spec fn visit_message_entry_spec<C: AstConverting>(
    node: NodeMessageEntry,
    state: C::V,
) -> Walk<C::V>
{
    let entered = C::converted(state, TreeTraversalMode::Enter, AstNode::MessageEntry(node));
    let children = match node {
        NodeMessageEntry::MessageLiteral(name, value) => {
            let first = visit_variable_identifier_at_spec::<C>(name, entered.state);
            if !first.passed() {
                first
            } else {
                visit_value_literal_at_spec::<C>(value, first.state)
            }
        },
        NodeMessageEntry::MessageVariable(name, value) => {
            let first = visit_variable_identifier_at_spec::<C>(name, entered.state);
            if !first.passed() {
                first
            } else {
                visit_variable_identifier_at_spec::<C>(value, first.state)
            }
        },
    };
    conclude::<C>(AstNode::MessageEntry(node), entered, children)
}

/// Visits a message entry node: its enter hook, then its children in order, then its exit hook.
pub fn visit_message_entry<C: AstConverting>(
    node: &NodeMessageEntry,
    emitter: &mut C,
) -> (result: Result<TraversalResult, Error>)
    ensures
        walked(final(emitter)@, result) == visit_message_entry_spec::<C>(
            *node,
            old(emitter)@,
        ),
{
    match emitter.emit_message_entry(TreeTraversalMode::Enter, node)? {
        TraversalResult::SkipChildren => {
            return Ok(TraversalResult::Continue);
        },
        TraversalResult::Continue => {},
    }
    let children = match node {
        NodeMessageEntry::MessageLiteral(name, value) => {
            let visited = visit_variable_identifier_at(name, emitter);
            if !goes_on(&visited) {
                return visited;
            }
            visit_value_literal_at(value, emitter)
        },
        NodeMessageEntry::MessageVariable(name, value) => {
            let visited = visit_variable_identifier_at(name, emitter);
            if !goes_on(&visited) {
                return visited;
            }
            visit_variable_identifier_at(value, emitter)
        },
    };
    if !goes_on(&children) {
        return children;
    }
    emitter.emit_message_entry(TreeTraversalMode::Exit, node)
}

/// What visiting a message entry node at its place in the source comes to: the place is pushed,
/// the node is visited and the place is popped, whatever the visit returns.
pub open spec fn visit_message_entry_at_spec<C: AstConverting>(
    node: WithMetaData<NodeMessageEntry>,
    state: C::V,
) -> Walk<C::V>
{
    within::<C>(
        visit_message_entry_spec::<C>(node.node, C::position_pushed(state, node.start, node.end)),
    )
}

/// Visits a message entry node between a push and a pop of its place in the source.
pub fn visit_message_entry_at<C: AstConverting>(
    node: &WithMetaData<NodeMessageEntry>,
    emitter: &mut C,
) -> (result: Result<TraversalResult, Error>)
    ensures
        walked(final(emitter)@, result) == visit_message_entry_at_spec::<C>(*node, old(emitter)@),
{
    emitter.push_source_position(&node.start, &node.end);
    let visited = visit_message_entry(&node.node, emitter);
    emitter.pop_source_position();
    visited
}

/// What visiting a row of message entry nodes, starting in `state`, comes to: the first that
/// fails or asks to skip ends the row.
pub open spec fn visit_each_message_entry_spec<C: AstConverting>(
    nodes: Seq<WithMetaData<NodeMessageEntry>>,
    state: C::V,
) -> Walk<C::V>
    decreases nodes,
{
    if nodes.len() == 0 {
        Walk::proceed(state)
    } else {
        let first = visit_message_entry_at_spec::<C>(nodes[0], state);
        if !first.passed() {
            first
        } else {
            visit_each_message_entry_spec::<C>(nodes.drop_first(), first.state)
        }
    }
}

/// Visits a row of message entry nodes in order, up to the first that fails or asks to skip.
pub fn visit_each_message_entry<C: AstConverting>(
    nodes: &Vec<WithMetaData<NodeMessageEntry>>,
    emitter: &mut C,
) -> (result: Result<TraversalResult, Error>)
    ensures
        walked(final(emitter)@, result) == visit_each_message_entry_spec::<C>(
            nodes@,
            old(emitter)@,
        ),
{
    let mut i: usize = 0;
    assert(nodes@.skip(0) =~= nodes@);
    while i < nodes.len()
        invariant
            i <= nodes.len(),
            visit_each_message_entry_spec::<C>(nodes@.skip(i as int), emitter@)
                == visit_each_message_entry_spec::<C>(nodes@, old(emitter)@),
        decreases nodes.len() - i,
    {
        assert(nodes@.skip(i as int).drop_first() =~= nodes@.skip(i as int + 1));
        let visited = visit_message_entry_at(&nodes[i], emitter);
        if !goes_on(&visited) {
            return visited;
        }
        i += 1;
    }
    Ok(TraversalResult::Continue)
}

/// A row of message entry nodes ends with the first node whose visit fails or asks to skip:
/// what that visit comes to is what the row comes to, and no later node is visited.
pub proof fn lemma_visit_each_message_entry_stops<C: AstConverting>(
    nodes: Seq<WithMetaData<NodeMessageEntry>>,
    state: C::V,
    i: int,
)
    requires
        0 <= i < nodes.len(),
        visit_each_message_entry_spec::<C>(nodes.take(i), state).passed(),
        !visit_message_entry_at_spec::<C>(
            nodes[i],
            visit_each_message_entry_spec::<C>(nodes.take(i), state).state,
        ).passed(),
    ensures
        visit_each_message_entry_spec::<C>(nodes, state)
            == visit_message_entry_at_spec::<C>(
                nodes[i],
                visit_each_message_entry_spec::<C>(nodes.take(i), state).state,
            ),
    decreases i,
{
    if i > 0 {
        assert(nodes.take(i).drop_first() =~= nodes.drop_first().take(i - 1));
        let first = visit_message_entry_at_spec::<C>(nodes[0], state);
        lemma_visit_each_message_entry_stops::<C>(nodes.drop_first(), first.state, i - 1);
    }
}

/// What visiting a full expression node in `state` comes to.
pub open spec fn visit_full_expression_spec<C: AstConverting>(
    node: NodeFullExpression,
    state: C::V,
) -> Walk<C::V>
    decreases node,
{
    let entered = C::converted(state, TreeTraversalMode::Enter, AstNode::FullExpression(node));
    let children = match node {
        NodeFullExpression::LocalVariableDeclaration { expression, containing_expression, .. } => {
            let first = visit_full_expression_at_spec::<C>(*expression, entered.state);
            if !first.passed() {
                first
            } else {
                visit_full_expression_at_spec::<C>(*containing_expression, first.state)
            }
        },
        NodeFullExpression::FunctionDeclaration { expression, .. } =>
            visit_full_expression_at_spec::<C>(
                *expression,
                entered.state,
            ),
        NodeFullExpression::FunctionCall { function_name, argument_list } => {
            let first = visit_variable_identifier_at_spec::<C>(function_name, entered.state);
            if !first.passed() {
                first
            } else {
                visit_each_variable_identifier_spec::<C>(argument_list@, first.state)
            }
        },
        NodeFullExpression::ExpressionAtomic(atom) => visit_atomic_expression_at_spec::<C>(
            *atom,
            entered.state,
        ),
        NodeFullExpression::ExpressionBuiltin { xs, .. } => visit_builtin_arguments_at_spec::<C>(
            xs,
            entered.state,
        ),
        NodeFullExpression::Message(entries) => visit_each_message_entry_spec::<C>(
            entries@,
            entered.state,
        ),
        NodeFullExpression::Match { match_expression, clauses } => {
            let first = visit_variable_identifier_at_spec::<C>(match_expression, entered.state);
            if !first.passed() {
                first
            } else {
                visit_each_pattern_match_expression_clause_spec::<C>(clauses@, first.state)
            }
        },
        NodeFullExpression::ConstructorCall { identifier_name, argument_list, .. } => {
            let first = visit_meta_identifier_at_spec::<C>(identifier_name, entered.state);
            if !first.passed() {
                first
            } else {
                visit_each_variable_identifier_spec::<C>(argument_list@, first.state)
            }
        },
        NodeFullExpression::TemplateFunction { expression, .. } =>
            visit_full_expression_at_spec::<C>(
                *expression,
                entered.state,
            ),
        NodeFullExpression::TApp { identifier_name, type_arguments } => {
            let first = visit_variable_identifier_at_spec::<C>(identifier_name, entered.state);
            if !first.passed() {
                first
            } else {
                visit_each_type_argument_spec::<C>(type_arguments@, first.state)
            }
        },
    };
    conclude::<C>(AstNode::FullExpression(node), entered, children)
}

/// Visits a full expression node: its enter hook, then its children in order, then its exit
/// hook.
pub fn visit_full_expression<C: AstConverting>(
    node: &NodeFullExpression,
    emitter: &mut C,
) -> (result: Result<TraversalResult, Error>)
    ensures
        walked(final(emitter)@, result) == visit_full_expression_spec::<C>(
            *node,
            old(emitter)@,
        ),
    decreases node,
{
    match emitter.emit_full_expression(TreeTraversalMode::Enter, node)? {
        TraversalResult::SkipChildren => {
            return Ok(TraversalResult::Continue);
        },
        TraversalResult::Continue => {},
    }
    let children = match node {
        NodeFullExpression::LocalVariableDeclaration { expression, containing_expression, .. } => {
            let visited = visit_full_expression_at(expression, emitter);
            if !goes_on(&visited) {
                return visited;
            }
            visit_full_expression_at(containing_expression, emitter)
        },
        NodeFullExpression::FunctionDeclaration { expression, .. } => visit_full_expression_at(
            expression,
            emitter,
        ),
        NodeFullExpression::FunctionCall { function_name, argument_list } => {
            let visited = visit_variable_identifier_at(function_name, emitter);
            if !goes_on(&visited) {
                return visited;
            }
            visit_each_variable_identifier(argument_list, emitter)
        },
        NodeFullExpression::ExpressionAtomic(atom) => visit_atomic_expression_at(atom, emitter),
        NodeFullExpression::ExpressionBuiltin { xs, .. } => visit_builtin_arguments_at(xs, emitter),
        NodeFullExpression::Message(entries) => visit_each_message_entry(entries, emitter),
        NodeFullExpression::Match { match_expression, clauses } => {
            let visited = visit_variable_identifier_at(match_expression, emitter);
            if !goes_on(&visited) {
                return visited;
            }
            visit_each_pattern_match_expression_clause(clauses, emitter)
        },
        NodeFullExpression::ConstructorCall { identifier_name, argument_list, .. } => {
            let visited = visit_meta_identifier_at(identifier_name, emitter);
            if !goes_on(&visited) {
                return visited;
            }
            visit_each_variable_identifier(argument_list, emitter)
        },
        NodeFullExpression::TemplateFunction { expression, .. } => visit_full_expression_at(
            expression,
            emitter,
        ),
        NodeFullExpression::TApp { identifier_name, type_arguments } => {
            let visited = visit_variable_identifier_at(identifier_name, emitter);
            if !goes_on(&visited) {
                return visited;
            }
            visit_each_type_argument(type_arguments, emitter)
        },
    };
    if !goes_on(&children) {
        return children;
    }
    emitter.emit_full_expression(TreeTraversalMode::Exit, node)
}

/// What visiting a full expression node at its place in the source comes to: the place is
/// pushed, the node is visited and the place is popped, whatever the visit returns.
pub open spec fn visit_full_expression_at_spec<C: AstConverting>(
    node: WithMetaData<NodeFullExpression>,
    state: C::V,
) -> Walk<C::V>
    decreases node,
{
    within::<C>(
        visit_full_expression_spec::<C>(node.node, C::position_pushed(state, node.start, node.end)),
    )
}

/// Visits a full expression node between a push and a pop of its place in the source.
pub fn visit_full_expression_at<C: AstConverting>(
    node: &WithMetaData<NodeFullExpression>,
    emitter: &mut C,
) -> (result: Result<TraversalResult, Error>)
    ensures
        walked(final(emitter)@, result) == visit_full_expression_at_spec::<C>(*node, old(emitter)@),
    decreases node,
{
    emitter.push_source_position(&node.start, &node.end);
    let visited = visit_full_expression(&node.node, emitter);
    emitter.pop_source_position();
    visited
}

/// What visiting a pattern match expression clause node in `state` comes to.
pub open spec fn visit_pattern_match_expression_clause_spec<C: AstConverting>(
    node: NodePatternMatchExpressionClause,
    state: C::V,
) -> Walk<C::V>
    decreases node,
{
    let entered = C::converted(
        state,
        TreeTraversalMode::Enter,
        AstNode::PatternMatchExpressionClause(node),
    );
    let children = {
        let first = visit_pattern_at_spec::<C>(node.pattern, entered.state);
        if !first.passed() {
            first
        } else {
            visit_full_expression_at_spec::<C>(node.expression, first.state)
        }
    };
    conclude::<C>(AstNode::PatternMatchExpressionClause(node), entered, children)
}

/// Visits a pattern match expression clause node: its enter hook, then its children in order,
/// then its exit hook.
pub fn visit_pattern_match_expression_clause<C: AstConverting>(
    node: &NodePatternMatchExpressionClause,
    emitter: &mut C,
) -> (result: Result<TraversalResult, Error>)
    ensures
        walked(final(emitter)@, result) == visit_pattern_match_expression_clause_spec::<C>(
            *node,
            old(emitter)@,
        ),
    decreases node,
{
    match emitter.emit_pattern_match_expression_clause(TreeTraversalMode::Enter, node)? {
        TraversalResult::SkipChildren => {
            return Ok(TraversalResult::Continue);
        },
        TraversalResult::Continue => {},
    }
    let children = {
        let visited = visit_pattern_at(&node.pattern, emitter);
        if !goes_on(&visited) {
            return visited;
        }
        visit_full_expression_at(&node.expression, emitter)
    };
    if !goes_on(&children) {
        return children;
    }
    emitter.emit_pattern_match_expression_clause(TreeTraversalMode::Exit, node)
}

/// What visiting a pattern match expression clause node at its place in the source comes to:
/// the place is pushed, the node is visited and the place is popped, whatever the visit
/// returns.
pub open spec fn visit_pattern_match_expression_clause_at_spec<C: AstConverting>(
    node: WithMetaData<NodePatternMatchExpressionClause>,
    state: C::V,
) -> Walk<C::V>
    decreases node,
{
    within::<C>(
        visit_pattern_match_expression_clause_spec::<C>(
            node.node,
            C::position_pushed(state, node.start, node.end),
        ),
    )
}

/// Visits a pattern match expression clause node between a push and a pop of its place in the
/// source.
pub fn visit_pattern_match_expression_clause_at<C: AstConverting>(
    node: &WithMetaData<NodePatternMatchExpressionClause>,
    emitter: &mut C,
) -> (result: Result<TraversalResult, Error>)
    ensures
        walked(final(emitter)@, result) == visit_pattern_match_expression_clause_at_spec::<C>(
            *node,
            old(emitter)@,
        ),
    decreases node,
{
    emitter.push_source_position(&node.start, &node.end);
    let visited = visit_pattern_match_expression_clause(&node.node, emitter);
    emitter.pop_source_position();
    visited
}

/// What visiting a row of pattern match expression clause nodes, starting in `state`, comes to:
/// the first that fails or asks to skip ends the row.
pub open spec fn visit_each_pattern_match_expression_clause_spec<C: AstConverting>(
    nodes: Seq<WithMetaData<NodePatternMatchExpressionClause>>,
    state: C::V,
) -> Walk<C::V>
    decreases nodes,
{
    if nodes.len() == 0 {
        Walk::proceed(state)
    } else {
        let first = visit_pattern_match_expression_clause_at_spec::<C>(nodes[0], state);
        if !first.passed() {
            first
        } else {
            visit_each_pattern_match_expression_clause_spec::<C>(nodes.drop_first(), first.state)
        }
    }
}

/// Visits a row of pattern match expression clause nodes in order, up to the first that fails
/// or asks to skip.
pub fn visit_each_pattern_match_expression_clause<C: AstConverting>(
    nodes: &Vec<WithMetaData<NodePatternMatchExpressionClause>>,
    emitter: &mut C,
) -> (result: Result<TraversalResult, Error>)
    ensures
        walked(final(emitter)@, result) == visit_each_pattern_match_expression_clause_spec::<C>(
            nodes@,
            old(emitter)@,
        ),
    decreases nodes,
{
    let mut i: usize = 0;
    assert(nodes@.skip(0) =~= nodes@);
    while i < nodes.len()
        invariant
            i <= nodes.len(),
            visit_each_pattern_match_expression_clause_spec::<C>(nodes@.skip(i as int), emitter@)
                == visit_each_pattern_match_expression_clause_spec::<C>(nodes@, old(emitter)@),
        decreases nodes.len() - i,
    {
        assert(nodes@.skip(i as int).drop_first() =~= nodes@.skip(i as int + 1));
        let visited = visit_pattern_match_expression_clause_at(&nodes[i], emitter);
        if !goes_on(&visited) {
            return visited;
        }
        i += 1;
    }
    Ok(TraversalResult::Continue)
}

/// A row of pattern match expression clause nodes ends with the first node whose visit fails or
/// asks to skip: what that visit comes to is what the row comes to, and no later node is
/// visited.
pub proof fn lemma_visit_each_pattern_match_expression_clause_stops<C: AstConverting>(
    nodes: Seq<WithMetaData<NodePatternMatchExpressionClause>>,
    state: C::V,
    i: int,
)
    requires
        0 <= i < nodes.len(),
        visit_each_pattern_match_expression_clause_spec::<C>(nodes.take(i), state).passed(),
        !visit_pattern_match_expression_clause_at_spec::<C>(
            nodes[i],
            visit_each_pattern_match_expression_clause_spec::<C>(nodes.take(i), state).state,
        ).passed(),
    ensures
        visit_each_pattern_match_expression_clause_spec::<C>(nodes, state)
            == visit_pattern_match_expression_clause_at_spec::<C>(
                nodes[i],
                visit_each_pattern_match_expression_clause_spec::<C>(nodes.take(i), state).state,
            ),
    decreases i,
{
    if i > 0 {
        assert(nodes.take(i).drop_first() =~= nodes.drop_first().take(i - 1));
        let first = visit_pattern_match_expression_clause_at_spec::<C>(nodes[0], state);
        lemma_visit_each_pattern_match_expression_clause_stops::<C>(
            nodes.drop_first(),
            first.state,
            i - 1,
        );
    }
}

} // verus!
