use crate::ast::converting::{
    conclude, goes_on, walked, within, AstConverting, AstNode, Walk,
};
use crate::ast::nodes::{
    NodePatternMatchClause, NodeRemoteFetchStatement, NodeStatement, NodeStatementBlock,
    WithMetaData,
};
use crate::ast::traversal::expressions::{
    visit_full_expression_at, visit_full_expression_at_spec, visit_pattern_at,
    visit_pattern_at_spec,
};
use crate::ast::traversal::names::{
    visit_blockchain_fetch_arguments, visit_blockchain_fetch_arguments_spec,
    visit_component_id_at, visit_component_id_at_spec, visit_each_map_access,
    visit_each_map_access_spec, visit_each_variable_identifier,
    visit_each_variable_identifier_spec, visit_variable_identifier_at,
    visit_variable_identifier_at_spec,
};
use crate::ast::traversal::types::{visit_address_type_at, visit_address_type_at_spec};
use crate::ast::{TraversalResult, TreeTraversalMode};
use crate::error::Error;
use vstd::prelude::*;

verus! {

/// What visiting a remote fetch statement node in `state` comes to.
pub open spec fn visit_remote_fetch_statement_spec<C: AstConverting>(
    node: NodeRemoteFetchStatement,
    state: C::V,
) -> Walk<C::V>
{
    let entered = C::converted(
        state,
        TreeTraversalMode::Enter,
        AstNode::RemoteFetchStatement(node),
    );
    let children = match node {
        NodeRemoteFetchStatement::ReadStateMutable(_, _, variable) =>
            visit_variable_identifier_at_spec::<C>(
                variable,
                entered.state,
            ),
        NodeRemoteFetchStatement::ReadStateMutableSpecialId(_, _, _) => Walk::proceed(
            entered.state,
        ),
        NodeRemoteFetchStatement::ReadStateMutableMapAccess(_, _, _, accesses) =>
            visit_each_map_access_spec::<C>(
                accesses@,
                entered.state,
            ),
        NodeRemoteFetchStatement::ReadStateMutableMapAccessExists(_, _, _, accesses) =>
            visit_each_map_access_spec::<C>(
                accesses@,
                entered.state,
            ),
        NodeRemoteFetchStatement::ReadStateMutableCastAddress(_, variable, address) => {
            let first = visit_variable_identifier_at_spec::<C>(variable, entered.state);
            if !first.passed() {
                first
            } else {
                visit_address_type_at_spec::<C>(address, first.state)
            }
        },
    };
    conclude::<C>(AstNode::RemoteFetchStatement(node), entered, children)
}

/// Visits a remote fetch statement node: its enter hook, then its children in order, then its
/// exit hook.
pub fn visit_remote_fetch_statement<C: AstConverting>(
    node: &NodeRemoteFetchStatement,
    emitter: &mut C,
) -> (result: Result<TraversalResult, Error>)
    ensures
        walked(final(emitter)@, result) == visit_remote_fetch_statement_spec::<C>(
            *node,
            old(emitter)@,
        ),
{
    match emitter.emit_remote_fetch_statement(TreeTraversalMode::Enter, node)? {
        TraversalResult::SkipChildren => {
            return Ok(TraversalResult::Continue);
        },
        TraversalResult::Continue => {},
    }
    let children = match node {
        NodeRemoteFetchStatement::ReadStateMutable(_, _, variable) => visit_variable_identifier_at(
            variable,
            emitter,
        ),
        NodeRemoteFetchStatement::ReadStateMutableSpecialId(_, _, _) => Ok(
            TraversalResult::Continue,
        ),
        NodeRemoteFetchStatement::ReadStateMutableMapAccess(_, _, _, accesses) =>
            visit_each_map_access(
                accesses,
                emitter,
            ),
        NodeRemoteFetchStatement::ReadStateMutableMapAccessExists(_, _, _, accesses) =>
            visit_each_map_access(
                accesses,
                emitter,
            ),
        NodeRemoteFetchStatement::ReadStateMutableCastAddress(_, variable, address) => {
            let visited = visit_variable_identifier_at(variable, emitter);
            if !goes_on(&visited) {
                return visited;
            }
            visit_address_type_at(address, emitter)
        },
    };
    if !goes_on(&children) {
        return children;
    }
    emitter.emit_remote_fetch_statement(TreeTraversalMode::Exit, node)
}

/// What visiting a statement node in `state` comes to.
pub open spec fn visit_statement_spec<C: AstConverting>(
    node: NodeStatement,
    state: C::V,
) -> Walk<C::V>
    decreases node,
{
    let entered = C::converted(state, TreeTraversalMode::Enter, AstNode::Statement(node));
    let children = match node {
        NodeStatement::Load { right_hand_side, .. } => visit_variable_identifier_at_spec::<C>(
            right_hand_side,
            entered.state,
        ),
        NodeStatement::RemoteFetch(fetch) => visit_remote_fetch_statement_spec::<C>(
            *fetch,
            entered.state,
        ),
        NodeStatement::Store { right_hand_side, .. } => visit_variable_identifier_at_spec::<C>(
            right_hand_side,
            entered.state,
        ),
        NodeStatement::Bind { right_hand_side, .. } => visit_full_expression_at_spec::<C>(
            *right_hand_side,
            entered.state,
        ),
        NodeStatement::ReadFromBC { arguments, .. } => match arguments {
            Some(inner) => visit_blockchain_fetch_arguments_spec::<C>(inner, entered.state),
            None => Walk::proceed(entered.state),
        },
        NodeStatement::MapGet { keys, .. } => visit_each_map_access_spec::<C>(keys@, entered.state),
        NodeStatement::MapGetExists { keys, .. } => visit_each_map_access_spec::<C>(
            keys@,
            entered.state,
        ),
        NodeStatement::MapUpdate { keys, .. } => visit_each_map_access_spec::<C>(
            keys@,
            entered.state,
        ),
        NodeStatement::MapUpdateDelete { keys, .. } => visit_each_map_access_spec::<C>(
            keys@,
            entered.state,
        ),
        NodeStatement::Accept => Walk::proceed(entered.state),
        NodeStatement::Send { identifier_name } => visit_variable_identifier_at_spec::<C>(
            identifier_name,
            entered.state,
        ),
        NodeStatement::CreateEvnt { identifier_name } => visit_variable_identifier_at_spec::<C>(
            identifier_name,
            entered.state,
        ),
        NodeStatement::Throw { error_variable } => match error_variable {
            Some(inner) => visit_variable_identifier_at_spec::<C>(inner, entered.state),
            None => Walk::proceed(entered.state),
        },
        NodeStatement::MatchStmt { variable, clauses } => {
            let first = visit_variable_identifier_at_spec::<C>(variable, entered.state);
            if !first.passed() {
                first
            } else {
                visit_each_pattern_match_clause_spec::<C>(clauses@, first.state)
            }
        },
        NodeStatement::CallProc { component_id, arguments } => {
            let first = visit_component_id_at_spec::<C>(component_id, entered.state);
            if !first.passed() {
                first
            } else {
                visit_each_variable_identifier_spec::<C>(arguments@, first.state)
            }
        },
        NodeStatement::Iterate { identifier_name, component_id } => {
            let first = visit_variable_identifier_at_spec::<C>(identifier_name, entered.state);
            if !first.passed() {
                first
            } else {
                visit_component_id_at_spec::<C>(component_id, first.state)
            }
        },
    };
    conclude::<C>(AstNode::Statement(node), entered, children)
}

/// Visits a statement node: its enter hook, then its children in order, then its exit hook.
pub fn visit_statement<C: AstConverting>(
    node: &NodeStatement,
    emitter: &mut C,
) -> (result: Result<TraversalResult, Error>)
    ensures
        walked(final(emitter)@, result) == visit_statement_spec::<C>(
            *node,
            old(emitter)@,
        ),
    decreases node,
{
    match emitter.emit_statement(TreeTraversalMode::Enter, node)? {
        TraversalResult::SkipChildren => {
            return Ok(TraversalResult::Continue);
        },
        TraversalResult::Continue => {},
    }
    let children = match node {
        NodeStatement::Load { right_hand_side, .. } => visit_variable_identifier_at(
            right_hand_side,
            emitter,
        ),
        NodeStatement::RemoteFetch(fetch) => visit_remote_fetch_statement(fetch, emitter),
        NodeStatement::Store { right_hand_side, .. } => visit_variable_identifier_at(
            right_hand_side,
            emitter,
        ),
        NodeStatement::Bind { right_hand_side, .. } => visit_full_expression_at(
            right_hand_side,
            emitter,
        ),
        NodeStatement::ReadFromBC { arguments, .. } => {
            match arguments {
                Some(inner) => visit_blockchain_fetch_arguments(inner, emitter),
                None => Ok(TraversalResult::Continue),
            }
        },
        NodeStatement::MapGet { keys, .. } => visit_each_map_access(keys, emitter),
        NodeStatement::MapGetExists { keys, .. } => visit_each_map_access(keys, emitter),
        NodeStatement::MapUpdate { keys, .. } => visit_each_map_access(keys, emitter),
        NodeStatement::MapUpdateDelete { keys, .. } => visit_each_map_access(keys, emitter),
        NodeStatement::Accept => Ok(TraversalResult::Continue),
        NodeStatement::Send { identifier_name } => visit_variable_identifier_at(
            identifier_name,
            emitter,
        ),
        NodeStatement::CreateEvnt { identifier_name } => visit_variable_identifier_at(
            identifier_name,
            emitter,
        ),
        NodeStatement::Throw { error_variable } => {
            match error_variable {
                Some(inner) => visit_variable_identifier_at(inner, emitter),
                None => Ok(TraversalResult::Continue),
            }
        },
        NodeStatement::MatchStmt { variable, clauses } => {
            let visited = visit_variable_identifier_at(variable, emitter);
            if !goes_on(&visited) {
                return visited;
            }
            visit_each_pattern_match_clause(clauses, emitter)
        },
        NodeStatement::CallProc { component_id, arguments } => {
            let visited = visit_component_id_at(component_id, emitter);
            if !goes_on(&visited) {
                return visited;
            }
            visit_each_variable_identifier(arguments, emitter)
        },
        NodeStatement::Iterate { identifier_name, component_id } => {
            let visited = visit_variable_identifier_at(identifier_name, emitter);
            if !goes_on(&visited) {
                return visited;
            }
            visit_component_id_at(component_id, emitter)
        },
    };
    if !goes_on(&children) {
        return children;
    }
    emitter.emit_statement(TreeTraversalMode::Exit, node)
}

/// What visiting a row of statement nodes, starting in `state`, comes to: the first that fails
/// or asks to skip ends the row.
pub open spec fn visit_each_statement_spec<C: AstConverting>(
    nodes: Seq<NodeStatement>,
    state: C::V,
) -> Walk<C::V>
    decreases nodes,
{
    if nodes.len() == 0 {
        Walk::proceed(state)
    } else {
        let first = visit_statement_spec::<C>(nodes[0], state);
        if !first.passed() {
            first
        } else {
            visit_each_statement_spec::<C>(nodes.drop_first(), first.state)
        }
    }
}

/// Visits a row of statement nodes in order, up to the first that fails or asks to skip.
pub fn visit_each_statement<C: AstConverting>(
    nodes: &Vec<NodeStatement>,
    emitter: &mut C,
) -> (result: Result<TraversalResult, Error>)
    ensures
        walked(final(emitter)@, result) == visit_each_statement_spec::<C>(
            nodes@,
            old(emitter)@,
        ),
    decreases nodes,
{
    let mut i: usize = 0;
    assert(nodes@.skip(0) =~= nodes@);
    while i < nodes.len()
        invariant
            i <= nodes.len(),
            visit_each_statement_spec::<C>(nodes@.skip(i as int), emitter@)
                == visit_each_statement_spec::<C>(nodes@, old(emitter)@),
        decreases nodes.len() - i,
    {
        assert(nodes@.skip(i as int).drop_first() =~= nodes@.skip(i as int + 1));
        let visited = visit_statement(&nodes[i], emitter);
        if !goes_on(&visited) {
            return visited;
        }
        i += 1;
    }
    Ok(TraversalResult::Continue)
}

/// A row of statement nodes ends with the first node whose visit fails or asks to skip: what
/// that visit comes to is what the row comes to, and no later node is visited.
pub proof fn lemma_visit_each_statement_stops<C: AstConverting>(
    nodes: Seq<NodeStatement>,
    state: C::V,
    i: int,
)
    requires
        0 <= i < nodes.len(),
        visit_each_statement_spec::<C>(nodes.take(i), state).passed(),
        !visit_statement_spec::<C>(
            nodes[i],
            visit_each_statement_spec::<C>(nodes.take(i), state).state,
        ).passed(),
    ensures
        visit_each_statement_spec::<C>(nodes, state)
            == visit_statement_spec::<C>(
                nodes[i],
                visit_each_statement_spec::<C>(nodes.take(i), state).state,
            ),
    decreases i,
{
    if i > 0 {
        assert(nodes.take(i).drop_first() =~= nodes.drop_first().take(i - 1));
        let first = visit_statement_spec::<C>(nodes[0], state);
        lemma_visit_each_statement_stops::<C>(nodes.drop_first(), first.state, i - 1);
    }
}

/// What visiting a pattern match clause node in `state` comes to.
pub open spec fn visit_pattern_match_clause_spec<C: AstConverting>(
    node: NodePatternMatchClause,
    state: C::V,
) -> Walk<C::V>
    decreases node,
{
    let entered = C::converted(state, TreeTraversalMode::Enter, AstNode::PatternMatchClause(node));
    let children = {
        let first = visit_pattern_at_spec::<C>(*node.pattern_expression, entered.state);
        if !first.passed() {
            first
        } else {
            match node.statement_block {
                Some(inner) => visit_statement_block_at_spec::<C>(inner, first.state),
                None => Walk::proceed(first.state),
            }
        }
    };
    conclude::<C>(AstNode::PatternMatchClause(node), entered, children)
}

/// Visits a pattern match clause node: its enter hook, then its children in order, then its
/// exit hook.
pub fn visit_pattern_match_clause<C: AstConverting>(
    node: &NodePatternMatchClause,
    emitter: &mut C,
) -> (result: Result<TraversalResult, Error>)
    ensures
        walked(final(emitter)@, result) == visit_pattern_match_clause_spec::<C>(
            *node,
            old(emitter)@,
        ),
    decreases node,
{
    match emitter.emit_pattern_match_clause(TreeTraversalMode::Enter, node)? {
        TraversalResult::SkipChildren => {
            return Ok(TraversalResult::Continue);
        },
        TraversalResult::Continue => {},
    }
    let children = {
        let visited = visit_pattern_at(&node.pattern_expression, emitter);
        if !goes_on(&visited) {
            return visited;
        }
        match &node.statement_block {
            Some(inner) => visit_statement_block_at(inner, emitter),
            None => Ok(TraversalResult::Continue),
        }
    };
    if !goes_on(&children) {
        return children;
    }
    emitter.emit_pattern_match_clause(TreeTraversalMode::Exit, node)
}

/// What visiting a pattern match clause node at its place in the source comes to: the place is
/// pushed, the node is visited and the place is popped, whatever the visit returns.
pub open spec fn visit_pattern_match_clause_at_spec<C: AstConverting>(
    node: WithMetaData<NodePatternMatchClause>,
    state: C::V,
) -> Walk<C::V>
    decreases node,
{
    within::<C>(
        visit_pattern_match_clause_spec::<C>(
            node.node,
            C::position_pushed(state, node.start, node.end),
        ),
    )
}

/// Visits a pattern match clause node between a push and a pop of its place in the source.
pub fn visit_pattern_match_clause_at<C: AstConverting>(
    node: &WithMetaData<NodePatternMatchClause>,
    emitter: &mut C,
) -> (result: Result<TraversalResult, Error>)
    ensures
        walked(final(emitter)@, result) == visit_pattern_match_clause_at_spec::<C>(
            *node,
            old(emitter)@,
        ),
    decreases node,
{
    emitter.push_source_position(&node.start, &node.end);
    let visited = visit_pattern_match_clause(&node.node, emitter);
    emitter.pop_source_position();
    visited
}

/// What visiting a row of pattern match clause nodes, starting in `state`, comes to: the first
/// that fails or asks to skip ends the row.
pub open spec fn visit_each_pattern_match_clause_spec<C: AstConverting>(
    nodes: Seq<WithMetaData<NodePatternMatchClause>>,
    state: C::V,
) -> Walk<C::V>
    decreases nodes,
{
    if nodes.len() == 0 {
        Walk::proceed(state)
    } else {
        let first = visit_pattern_match_clause_at_spec::<C>(nodes[0], state);
        if !first.passed() {
            first
        } else {
            visit_each_pattern_match_clause_spec::<C>(nodes.drop_first(), first.state)
        }
    }
}

/// Visits a row of pattern match clause nodes in order, up to the first that fails or asks to
/// skip.
pub fn visit_each_pattern_match_clause<C: AstConverting>(
    nodes: &Vec<WithMetaData<NodePatternMatchClause>>,
    emitter: &mut C,
) -> (result: Result<TraversalResult, Error>)
    ensures
        walked(final(emitter)@, result) == visit_each_pattern_match_clause_spec::<C>(
            nodes@,
            old(emitter)@,
        ),
    decreases nodes,
{
    let mut i: usize = 0;
    assert(nodes@.skip(0) =~= nodes@);
    while i < nodes.len()
        invariant
            i <= nodes.len(),
            visit_each_pattern_match_clause_spec::<C>(nodes@.skip(i as int), emitter@)
                == visit_each_pattern_match_clause_spec::<C>(nodes@, old(emitter)@),
        decreases nodes.len() - i,
    {
        assert(nodes@.skip(i as int).drop_first() =~= nodes@.skip(i as int + 1));
        let visited = visit_pattern_match_clause_at(&nodes[i], emitter);
        if !goes_on(&visited) {
            return visited;
        }
        i += 1;
    }
    Ok(TraversalResult::Continue)
}

/// A row of pattern match clause nodes ends with the first node whose visit fails or asks to
/// skip: what that visit comes to is what the row comes to, and no later node is visited.
pub proof fn lemma_visit_each_pattern_match_clause_stops<C: AstConverting>(
    nodes: Seq<WithMetaData<NodePatternMatchClause>>,
    state: C::V,
    i: int,
)
    requires
        0 <= i < nodes.len(),
        visit_each_pattern_match_clause_spec::<C>(nodes.take(i), state).passed(),
        !visit_pattern_match_clause_at_spec::<C>(
            nodes[i],
            visit_each_pattern_match_clause_spec::<C>(nodes.take(i), state).state,
        ).passed(),
    ensures
        visit_each_pattern_match_clause_spec::<C>(nodes, state)
            == visit_pattern_match_clause_at_spec::<C>(
                nodes[i],
                visit_each_pattern_match_clause_spec::<C>(nodes.take(i), state).state,
            ),
    decreases i,
{
    if i > 0 {
        assert(nodes.take(i).drop_first() =~= nodes.drop_first().take(i - 1));
        let first = visit_pattern_match_clause_at_spec::<C>(nodes[0], state);
        lemma_visit_each_pattern_match_clause_stops::<C>(nodes.drop_first(), first.state, i - 1);
    }
}

/// What visiting a statement block node in `state` comes to.
pub open spec fn visit_statement_block_spec<C: AstConverting>(
    node: NodeStatementBlock,
    state: C::V,
) -> Walk<C::V>
    decreases node,
{
    let entered = C::converted(state, TreeTraversalMode::Enter, AstNode::StatementBlock(node));
    let children = visit_each_statement_spec::<C>(node.statements@, entered.state);
    conclude::<C>(AstNode::StatementBlock(node), entered, children)
}

/// Visits a statement block node: its enter hook, then its children in order, then its exit
/// hook.
pub fn visit_statement_block<C: AstConverting>(
    node: &NodeStatementBlock,
    emitter: &mut C,
) -> (result: Result<TraversalResult, Error>)
    ensures
        walked(final(emitter)@, result) == visit_statement_block_spec::<C>(
            *node,
            old(emitter)@,
        ),
    decreases node,
{
    match emitter.emit_statement_block(TreeTraversalMode::Enter, node)? {
        TraversalResult::SkipChildren => {
            return Ok(TraversalResult::Continue);
        },
        TraversalResult::Continue => {},
    }
    let children = visit_each_statement(&node.statements, emitter);
    if !goes_on(&children) {
        return children;
    }
    emitter.emit_statement_block(TreeTraversalMode::Exit, node)
}

/// What visiting a statement block node at its place in the source comes to: the place is
/// pushed, the node is visited and the place is popped, whatever the visit returns.
pub open spec fn visit_statement_block_at_spec<C: AstConverting>(
    node: WithMetaData<NodeStatementBlock>,
    state: C::V,
) -> Walk<C::V>
    decreases node,
{
    within::<C>(
        visit_statement_block_spec::<C>(node.node, C::position_pushed(state, node.start, node.end)),
    )
}

/// Visits a statement block node between a push and a pop of its place in the source.
pub fn visit_statement_block_at<C: AstConverting>(
    node: &WithMetaData<NodeStatementBlock>,
    emitter: &mut C,
) -> (result: Result<TraversalResult, Error>)
    ensures
        walked(final(emitter)@, result) == visit_statement_block_at_spec::<C>(*node, old(emitter)@),
    decreases node,
{
    emitter.push_source_position(&node.start, &node.end);
    let visited = visit_statement_block(&node.node, emitter);
    emitter.pop_source_position();
    visited
}

} // verus!
