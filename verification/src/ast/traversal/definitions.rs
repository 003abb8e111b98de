use crate::ast::converting::{
    conclude, goes_on, walked, within, AstConverting, AstNode, Walk,
};
use crate::ast::nodes::{
    NodeComponentBody, NodeComponentDefinition, NodeComponentParameters, NodeContractDefinition,
    NodeContractField, NodeLibraryDefinition, NodeLibrarySingleDefinition, NodeParameterPair,
    NodeProcedureDefinition, NodeProgram, NodeTransitionDefinition, NodeWithConstraint,
    WithMetaData,
};
use crate::ast::traversal::expressions::{visit_full_expression_at, visit_full_expression_at_spec};
use crate::ast::traversal::names::{
    visit_component_id_at, visit_component_id_at_spec, visit_import_declarations_at,
    visit_import_declarations_at_spec, visit_type_name_identifier_at,
    visit_type_name_identifier_at_spec,
};
use crate::ast::traversal::statements::{visit_statement_block_at, visit_statement_block_at_spec};
use crate::ast::traversal::types::{
    visit_each_type_alternative_clause, visit_each_type_alternative_clause_spec,
    visit_typed_identifier_at, visit_typed_identifier_at_spec,
};
use crate::ast::{TraversalResult, TreeTraversalMode};
use crate::error::Error;
use vstd::prelude::*;

verus! {

/// What visiting a parameter pair node in `state` comes to.
pub open spec fn visit_parameter_pair_spec<C: AstConverting>(
    node: NodeParameterPair,
    state: C::V,
) -> Walk<C::V>
{
    let entered = C::converted(state, TreeTraversalMode::Enter, AstNode::ParameterPair(node));
    let children = visit_typed_identifier_at_spec::<C>(node.identifier_with_type, entered.state);
    conclude::<C>(AstNode::ParameterPair(node), entered, children)
}

/// Visits a parameter pair node: its enter hook, then its children in order, then its exit
/// hook.
pub fn visit_parameter_pair<C: AstConverting>(
    node: &NodeParameterPair,
    emitter: &mut C,
) -> (result: Result<TraversalResult, Error>)
    ensures
        walked(final(emitter)@, result) == visit_parameter_pair_spec::<C>(
            *node,
            old(emitter)@,
        ),
{
    match emitter.emit_parameter_pair(TreeTraversalMode::Enter, node)? {
        TraversalResult::SkipChildren => {
            return Ok(TraversalResult::Continue);
        },
        TraversalResult::Continue => {},
    }
    let children = visit_typed_identifier_at(&node.identifier_with_type, emitter);
    if !goes_on(&children) {
        return children;
    }
    emitter.emit_parameter_pair(TreeTraversalMode::Exit, node)
}

/// What visiting a parameter pair node at its place in the source comes to: the place is
/// pushed, the node is visited and the place is popped, whatever the visit returns.
pub open spec fn visit_parameter_pair_at_spec<C: AstConverting>(
    node: WithMetaData<NodeParameterPair>,
    state: C::V,
) -> Walk<C::V>
{
    within::<C>(
        visit_parameter_pair_spec::<C>(node.node, C::position_pushed(state, node.start, node.end)),
    )
}

/// Visits a parameter pair node between a push and a pop of its place in the source.
pub fn visit_parameter_pair_at<C: AstConverting>(
    node: &WithMetaData<NodeParameterPair>,
    emitter: &mut C,
) -> (result: Result<TraversalResult, Error>)
    ensures
        walked(final(emitter)@, result) == visit_parameter_pair_at_spec::<C>(*node, old(emitter)@),
{
    emitter.push_source_position(&node.start, &node.end);
    let visited = visit_parameter_pair(&node.node, emitter);
    emitter.pop_source_position();
    visited
}

/// What visiting a row of parameter pair nodes, starting in `state`, comes to: the first that
/// fails or asks to skip ends the row.
pub open spec fn visit_each_parameter_pair_spec<C: AstConverting>(
    nodes: Seq<WithMetaData<NodeParameterPair>>,
    state: C::V,
) -> Walk<C::V>
    decreases nodes,
{
    if nodes.len() == 0 {
        Walk::proceed(state)
    } else {
        let first = visit_parameter_pair_at_spec::<C>(nodes[0], state);
        if !first.passed() {
            first
        } else {
            visit_each_parameter_pair_spec::<C>(nodes.drop_first(), first.state)
        }
    }
}

/// Visits a row of parameter pair nodes in order, up to the first that fails or asks to skip.
pub fn visit_each_parameter_pair<C: AstConverting>(
    nodes: &Vec<WithMetaData<NodeParameterPair>>,
    emitter: &mut C,
) -> (result: Result<TraversalResult, Error>)
    ensures
        walked(final(emitter)@, result) == visit_each_parameter_pair_spec::<C>(
            nodes@,
            old(emitter)@,
        ),
{
    let mut i: usize = 0;
    assert(nodes@.skip(0) =~= nodes@);
    while i < nodes.len()
        invariant
            i <= nodes.len(),
            visit_each_parameter_pair_spec::<C>(nodes@.skip(i as int), emitter@)
                == visit_each_parameter_pair_spec::<C>(nodes@, old(emitter)@),
        decreases nodes.len() - i,
    {
        assert(nodes@.skip(i as int).drop_first() =~= nodes@.skip(i as int + 1));
        let visited = visit_parameter_pair_at(&nodes[i], emitter);
        if !goes_on(&visited) {
            return visited;
        }
        i += 1;
    }
    Ok(TraversalResult::Continue)
}

/// A row of parameter pair nodes ends with the first node whose visit fails or asks to skip:
/// what that visit comes to is what the row comes to, and no later node is visited.
pub proof fn lemma_visit_each_parameter_pair_stops<C: AstConverting>(
    nodes: Seq<WithMetaData<NodeParameterPair>>,
    state: C::V,
    i: int,
)
    requires
        0 <= i < nodes.len(),
        visit_each_parameter_pair_spec::<C>(nodes.take(i), state).passed(),
        !visit_parameter_pair_at_spec::<C>(
            nodes[i],
            visit_each_parameter_pair_spec::<C>(nodes.take(i), state).state,
        ).passed(),
    ensures
        visit_each_parameter_pair_spec::<C>(nodes, state)
            == visit_parameter_pair_at_spec::<C>(
                nodes[i],
                visit_each_parameter_pair_spec::<C>(nodes.take(i), state).state,
            ),
    decreases i,
{
    if i > 0 {
        assert(nodes.take(i).drop_first() =~= nodes.drop_first().take(i - 1));
        let first = visit_parameter_pair_at_spec::<C>(nodes[0], state);
        lemma_visit_each_parameter_pair_stops::<C>(nodes.drop_first(), first.state, i - 1);
    }
}

/// What visiting a component parameters node in `state` comes to.
pub open spec fn visit_component_parameters_spec<C: AstConverting>(
    node: NodeComponentParameters,
    state: C::V,
) -> Walk<C::V>
{
    let entered = C::converted(state, TreeTraversalMode::Enter, AstNode::ComponentParameters(node));
    let children = visit_each_parameter_pair_spec::<C>(node.parameters@, entered.state);
    conclude::<C>(AstNode::ComponentParameters(node), entered, children)
}

/// Visits a component parameters node: its enter hook, then its children in order, then its
/// exit hook.
pub fn visit_component_parameters<C: AstConverting>(
    node: &NodeComponentParameters,
    emitter: &mut C,
) -> (result: Result<TraversalResult, Error>)
    ensures
        walked(final(emitter)@, result) == visit_component_parameters_spec::<C>(
            *node,
            old(emitter)@,
        ),
{
    match emitter.emit_component_parameters(TreeTraversalMode::Enter, node)? {
        TraversalResult::SkipChildren => {
            return Ok(TraversalResult::Continue);
        },
        TraversalResult::Continue => {},
    }
    let children = visit_each_parameter_pair(&node.parameters, emitter);
    if !goes_on(&children) {
        return children;
    }
    emitter.emit_component_parameters(TreeTraversalMode::Exit, node)
}

/// What visiting a component parameters node at its place in the source comes to: the place is
/// pushed, the node is visited and the place is popped, whatever the visit returns.
pub open spec fn visit_component_parameters_at_spec<C: AstConverting>(
    node: WithMetaData<NodeComponentParameters>,
    state: C::V,
) -> Walk<C::V>
{
    within::<C>(
        visit_component_parameters_spec::<C>(
            node.node,
            C::position_pushed(state, node.start, node.end),
        ),
    )
}

/// Visits a component parameters node between a push and a pop of its place in the source.
pub fn visit_component_parameters_at<C: AstConverting>(
    node: &WithMetaData<NodeComponentParameters>,
    emitter: &mut C,
) -> (result: Result<TraversalResult, Error>)
    ensures
        walked(final(emitter)@, result) == visit_component_parameters_at_spec::<C>(
            *node,
            old(emitter)@,
        ),
{
    emitter.push_source_position(&node.start, &node.end);
    let visited = visit_component_parameters(&node.node, emitter);
    emitter.pop_source_position();
    visited
}

/// What visiting a component body node in `state` comes to.
pub open spec fn visit_component_body_spec<C: AstConverting>(
    node: NodeComponentBody,
    state: C::V,
) -> Walk<C::V>
{
    let entered = C::converted(state, TreeTraversalMode::Enter, AstNode::ComponentBody(node));
    let children = match node.statement_block {
        Some(inner) => visit_statement_block_at_spec::<C>(inner, entered.state),
        None => Walk::proceed(entered.state),
    };
    conclude::<C>(AstNode::ComponentBody(node), entered, children)
}

/// Visits a component body node: its enter hook, then its children in order, then its exit
/// hook.
pub fn visit_component_body<C: AstConverting>(
    node: &NodeComponentBody,
    emitter: &mut C,
) -> (result: Result<TraversalResult, Error>)
    ensures
        walked(final(emitter)@, result) == visit_component_body_spec::<C>(
            *node,
            old(emitter)@,
        ),
{
    match emitter.emit_component_body(TreeTraversalMode::Enter, node)? {
        TraversalResult::SkipChildren => {
            return Ok(TraversalResult::Continue);
        },
        TraversalResult::Continue => {},
    }
    let children = match &node.statement_block {
        Some(inner) => visit_statement_block_at(inner, emitter),
        None => Ok(TraversalResult::Continue),
    };
    if !goes_on(&children) {
        return children;
    }
    emitter.emit_component_body(TreeTraversalMode::Exit, node)
}

/// What visiting a component body node at its place in the source comes to: the place is
/// pushed, the node is visited and the place is popped, whatever the visit returns.
pub open spec fn visit_component_body_at_spec<C: AstConverting>(
    node: WithMetaData<NodeComponentBody>,
    state: C::V,
) -> Walk<C::V>
{
    within::<C>(
        visit_component_body_spec::<C>(node.node, C::position_pushed(state, node.start, node.end)),
    )
}

/// Visits a component body node between a push and a pop of its place in the source.
pub fn visit_component_body_at<C: AstConverting>(
    node: &WithMetaData<NodeComponentBody>,
    emitter: &mut C,
) -> (result: Result<TraversalResult, Error>)
    ensures
        walked(final(emitter)@, result) == visit_component_body_at_spec::<C>(*node, old(emitter)@),
{
    emitter.push_source_position(&node.start, &node.end);
    let visited = visit_component_body(&node.node, emitter);
    emitter.pop_source_position();
    visited
}

/// What visiting a with constraint node in `state` comes to.
pub open spec fn visit_with_constraint_spec<C: AstConverting>(
    node: NodeWithConstraint,
    state: C::V,
) -> Walk<C::V>
{
    let entered = C::converted(state, TreeTraversalMode::Enter, AstNode::WithConstraint(node));
    let children = visit_full_expression_at_spec::<C>(*node.expression, entered.state);
    conclude::<C>(AstNode::WithConstraint(node), entered, children)
}

/// Visits a with constraint node: its enter hook, then its children in order, then its exit
/// hook.
pub fn visit_with_constraint<C: AstConverting>(
    node: &NodeWithConstraint,
    emitter: &mut C,
) -> (result: Result<TraversalResult, Error>)
    ensures
        walked(final(emitter)@, result) == visit_with_constraint_spec::<C>(
            *node,
            old(emitter)@,
        ),
{
    match emitter.emit_with_constraint(TreeTraversalMode::Enter, node)? {
        TraversalResult::SkipChildren => {
            return Ok(TraversalResult::Continue);
        },
        TraversalResult::Continue => {},
    }
    let children = visit_full_expression_at(&node.expression, emitter);
    if !goes_on(&children) {
        return children;
    }
    emitter.emit_with_constraint(TreeTraversalMode::Exit, node)
}

/// What visiting a with constraint node at its place in the source comes to: the place is
/// pushed, the node is visited and the place is popped, whatever the visit returns.
pub open spec fn visit_with_constraint_at_spec<C: AstConverting>(
    node: WithMetaData<NodeWithConstraint>,
    state: C::V,
) -> Walk<C::V>
{
    within::<C>(
        visit_with_constraint_spec::<C>(node.node, C::position_pushed(state, node.start, node.end)),
    )
}

/// Visits a with constraint node between a push and a pop of its place in the source.
pub fn visit_with_constraint_at<C: AstConverting>(
    node: &WithMetaData<NodeWithConstraint>,
    emitter: &mut C,
) -> (result: Result<TraversalResult, Error>)
    ensures
        walked(final(emitter)@, result) == visit_with_constraint_at_spec::<C>(*node, old(emitter)@),
{
    emitter.push_source_position(&node.start, &node.end);
    let visited = visit_with_constraint(&node.node, emitter);
    emitter.pop_source_position();
    visited
}

/// What visiting a contract field node in `state` comes to.
pub open spec fn visit_contract_field_spec<C: AstConverting>(
    node: NodeContractField,
    state: C::V,
) -> Walk<C::V>
{
    let entered = C::converted(state, TreeTraversalMode::Enter, AstNode::ContractField(node));
    let children = {
        let first = visit_typed_identifier_at_spec::<C>(node.typed_identifier, entered.state);
        if !first.passed() {
            first
        } else {
            visit_full_expression_at_spec::<C>(node.right_hand_side, first.state)
        }
    };
    conclude::<C>(AstNode::ContractField(node), entered, children)
}

/// Visits a contract field node: its enter hook, then its children in order, then its exit
/// hook.
pub fn visit_contract_field<C: AstConverting>(
    node: &NodeContractField,
    emitter: &mut C,
) -> (result: Result<TraversalResult, Error>)
    ensures
        walked(final(emitter)@, result) == visit_contract_field_spec::<C>(
            *node,
            old(emitter)@,
        ),
{
    match emitter.emit_contract_field(TreeTraversalMode::Enter, node)? {
        TraversalResult::SkipChildren => {
            return Ok(TraversalResult::Continue);
        },
        TraversalResult::Continue => {},
    }
    let children = {
        let visited = visit_typed_identifier_at(&node.typed_identifier, emitter);
        if !goes_on(&visited) {
            return visited;
        }
        visit_full_expression_at(&node.right_hand_side, emitter)
    };
    if !goes_on(&children) {
        return children;
    }
    emitter.emit_contract_field(TreeTraversalMode::Exit, node)
}

/// What visiting a contract field node at its place in the source comes to: the place is
/// pushed, the node is visited and the place is popped, whatever the visit returns.
pub open spec fn visit_contract_field_at_spec<C: AstConverting>(
    node: WithMetaData<NodeContractField>,
    state: C::V,
) -> Walk<C::V>
{
    within::<C>(
        visit_contract_field_spec::<C>(node.node, C::position_pushed(state, node.start, node.end)),
    )
}

/// Visits a contract field node between a push and a pop of its place in the source.
pub fn visit_contract_field_at<C: AstConverting>(
    node: &WithMetaData<NodeContractField>,
    emitter: &mut C,
) -> (result: Result<TraversalResult, Error>)
    ensures
        walked(final(emitter)@, result) == visit_contract_field_at_spec::<C>(*node, old(emitter)@),
{
    emitter.push_source_position(&node.start, &node.end);
    let visited = visit_contract_field(&node.node, emitter);
    emitter.pop_source_position();
    visited
}

/// What visiting a row of contract field nodes, starting in `state`, comes to: the first that
/// fails or asks to skip ends the row.
pub open spec fn visit_each_contract_field_spec<C: AstConverting>(
    nodes: Seq<WithMetaData<NodeContractField>>,
    state: C::V,
) -> Walk<C::V>
    decreases nodes,
{
    if nodes.len() == 0 {
        Walk::proceed(state)
    } else {
        let first = visit_contract_field_at_spec::<C>(nodes[0], state);
        if !first.passed() {
            first
        } else {
            visit_each_contract_field_spec::<C>(nodes.drop_first(), first.state)
        }
    }
}

/// Visits a row of contract field nodes in order, up to the first that fails or asks to skip.
pub fn visit_each_contract_field<C: AstConverting>(
    nodes: &Vec<WithMetaData<NodeContractField>>,
    emitter: &mut C,
) -> (result: Result<TraversalResult, Error>)
    ensures
        walked(final(emitter)@, result) == visit_each_contract_field_spec::<C>(
            nodes@,
            old(emitter)@,
        ),
{
    let mut i: usize = 0;
    assert(nodes@.skip(0) =~= nodes@);
    while i < nodes.len()
        invariant
            i <= nodes.len(),
            visit_each_contract_field_spec::<C>(nodes@.skip(i as int), emitter@)
                == visit_each_contract_field_spec::<C>(nodes@, old(emitter)@),
        decreases nodes.len() - i,
    {
        assert(nodes@.skip(i as int).drop_first() =~= nodes@.skip(i as int + 1));
        let visited = visit_contract_field_at(&nodes[i], emitter);
        if !goes_on(&visited) {
            return visited;
        }
        i += 1;
    }
    Ok(TraversalResult::Continue)
}

/// A row of contract field nodes ends with the first node whose visit fails or asks to skip:
/// what that visit comes to is what the row comes to, and no later node is visited.
pub proof fn lemma_visit_each_contract_field_stops<C: AstConverting>(
    nodes: Seq<WithMetaData<NodeContractField>>,
    state: C::V,
    i: int,
)
    requires
        0 <= i < nodes.len(),
        visit_each_contract_field_spec::<C>(nodes.take(i), state).passed(),
        !visit_contract_field_at_spec::<C>(
            nodes[i],
            visit_each_contract_field_spec::<C>(nodes.take(i), state).state,
        ).passed(),
    ensures
        visit_each_contract_field_spec::<C>(nodes, state)
            == visit_contract_field_at_spec::<C>(
                nodes[i],
                visit_each_contract_field_spec::<C>(nodes.take(i), state).state,
            ),
    decreases i,
{
    if i > 0 {
        assert(nodes.take(i).drop_first() =~= nodes.drop_first().take(i - 1));
        let first = visit_contract_field_at_spec::<C>(nodes[0], state);
        lemma_visit_each_contract_field_stops::<C>(nodes.drop_first(), first.state, i - 1);
    }
}

/// What visiting a procedure definition node in `state` comes to.
pub open spec fn visit_procedure_definition_spec<C: AstConverting>(
    node: NodeProcedureDefinition,
    state: C::V,
) -> Walk<C::V>
{
    let entered = C::converted(state, TreeTraversalMode::Enter, AstNode::ProcedureDefinition(node));
    let children = {
        let first = visit_component_id_at_spec::<C>(node.name, entered.state);
        if !first.passed() {
            first
        } else {
            {
                let second = visit_component_parameters_at_spec::<C>(node.parameters, first.state);
                if !second.passed() {
                    second
                } else {
                    visit_component_body_at_spec::<C>(node.body, second.state)
                }
            }
        }
    };
    conclude::<C>(AstNode::ProcedureDefinition(node), entered, children)
}

/// Visits a procedure definition node: its enter hook, then its children in order, then its
/// exit hook.
pub fn visit_procedure_definition<C: AstConverting>(
    node: &NodeProcedureDefinition,
    emitter: &mut C,
) -> (result: Result<TraversalResult, Error>)
    ensures
        walked(final(emitter)@, result) == visit_procedure_definition_spec::<C>(
            *node,
            old(emitter)@,
        ),
{
    match emitter.emit_procedure_definition(TreeTraversalMode::Enter, node)? {
        TraversalResult::SkipChildren => {
            return Ok(TraversalResult::Continue);
        },
        TraversalResult::Continue => {},
    }
    let children = {
        let visited = visit_component_id_at(&node.name, emitter);
        if !goes_on(&visited) {
            return visited;
        }
        let visited = visit_component_parameters_at(&node.parameters, emitter);
        if !goes_on(&visited) {
            return visited;
        }
        visit_component_body_at(&node.body, emitter)
    };
    if !goes_on(&children) {
        return children;
    }
    emitter.emit_procedure_definition(TreeTraversalMode::Exit, node)
}

/// What visiting a procedure definition node at its place in the source comes to: the place is
/// pushed, the node is visited and the place is popped, whatever the visit returns.
pub open spec fn visit_procedure_definition_at_spec<C: AstConverting>(
    node: WithMetaData<NodeProcedureDefinition>,
    state: C::V,
) -> Walk<C::V>
{
    within::<C>(
        visit_procedure_definition_spec::<C>(
            node.node,
            C::position_pushed(state, node.start, node.end),
        ),
    )
}

/// Visits a procedure definition node between a push and a pop of its place in the source.
pub fn visit_procedure_definition_at<C: AstConverting>(
    node: &WithMetaData<NodeProcedureDefinition>,
    emitter: &mut C,
) -> (result: Result<TraversalResult, Error>)
    ensures
        walked(final(emitter)@, result) == visit_procedure_definition_at_spec::<C>(
            *node,
            old(emitter)@,
        ),
{
    emitter.push_source_position(&node.start, &node.end);
    let visited = visit_procedure_definition(&node.node, emitter);
    emitter.pop_source_position();
    visited
}

/// What visiting a transition definition node in `state` comes to.
pub open spec fn visit_transition_definition_spec<C: AstConverting>(
    node: NodeTransitionDefinition,
    state: C::V,
) -> Walk<C::V>
{
    let entered = C::converted(
        state,
        TreeTraversalMode::Enter,
        AstNode::TransitionDefinition(node),
    );
    let children = {
        let first = visit_component_id_at_spec::<C>(node.name, entered.state);
        if !first.passed() {
            first
        } else {
            {
                let second = visit_component_parameters_at_spec::<C>(node.parameters, first.state);
                if !second.passed() {
                    second
                } else {
                    visit_component_body_at_spec::<C>(node.body, second.state)
                }
            }
        }
    };
    conclude::<C>(AstNode::TransitionDefinition(node), entered, children)
}

/// Visits a transition definition node: its enter hook, then its children in order, then its
/// exit hook.
pub fn visit_transition_definition<C: AstConverting>(
    node: &NodeTransitionDefinition,
    emitter: &mut C,
) -> (result: Result<TraversalResult, Error>)
    ensures
        walked(final(emitter)@, result) == visit_transition_definition_spec::<C>(
            *node,
            old(emitter)@,
        ),
{
    match emitter.emit_transition_definition(TreeTraversalMode::Enter, node)? {
        TraversalResult::SkipChildren => {
            return Ok(TraversalResult::Continue);
        },
        TraversalResult::Continue => {},
    }
    let children = {
        let visited = visit_component_id_at(&node.name, emitter);
        if !goes_on(&visited) {
            return visited;
        }
        let visited = visit_component_parameters_at(&node.parameters, emitter);
        if !goes_on(&visited) {
            return visited;
        }
        visit_component_body_at(&node.body, emitter)
    };
    if !goes_on(&children) {
        return children;
    }
    emitter.emit_transition_definition(TreeTraversalMode::Exit, node)
}

/// What visiting a transition definition node at its place in the source comes to: the place is
/// pushed, the node is visited and the place is popped, whatever the visit returns.
pub open spec fn visit_transition_definition_at_spec<C: AstConverting>(
    node: WithMetaData<NodeTransitionDefinition>,
    state: C::V,
) -> Walk<C::V>
{
    within::<C>(
        visit_transition_definition_spec::<C>(
            node.node,
            C::position_pushed(state, node.start, node.end),
        ),
    )
}

/// Visits a transition definition node between a push and a pop of its place in the source.
pub fn visit_transition_definition_at<C: AstConverting>(
    node: &WithMetaData<NodeTransitionDefinition>,
    emitter: &mut C,
) -> (result: Result<TraversalResult, Error>)
    ensures
        walked(final(emitter)@, result) == visit_transition_definition_at_spec::<C>(
            *node,
            old(emitter)@,
        ),
{
    emitter.push_source_position(&node.start, &node.end);
    let visited = visit_transition_definition(&node.node, emitter);
    emitter.pop_source_position();
    visited
}

/// What visiting a component definition node in `state` comes to.
pub open spec fn visit_component_definition_spec<C: AstConverting>(
    node: NodeComponentDefinition,
    state: C::V,
) -> Walk<C::V>
{
    let entered = C::converted(state, TreeTraversalMode::Enter, AstNode::ComponentDefinition(node));
    let children = match node {
        NodeComponentDefinition::TransitionComponent(transition) =>
            visit_transition_definition_at_spec::<C>(
                *transition,
                entered.state,
            ),
        NodeComponentDefinition::ProcedureComponent(procedure) =>
            visit_procedure_definition_at_spec::<C>(
                *procedure,
                entered.state,
            ),
    };
    conclude::<C>(AstNode::ComponentDefinition(node), entered, children)
}

/// Visits a component definition node: its enter hook, then its children in order, then its
/// exit hook.
pub fn visit_component_definition<C: AstConverting>(
    node: &NodeComponentDefinition,
    emitter: &mut C,
) -> (result: Result<TraversalResult, Error>)
    ensures
        walked(final(emitter)@, result) == visit_component_definition_spec::<C>(
            *node,
            old(emitter)@,
        ),
{
    match emitter.emit_component_definition(TreeTraversalMode::Enter, node)? {
        TraversalResult::SkipChildren => {
            return Ok(TraversalResult::Continue);
        },
        TraversalResult::Continue => {},
    }
    let children = match node {
        NodeComponentDefinition::TransitionComponent(transition) => visit_transition_definition_at(
            transition,
            emitter,
        ),
        NodeComponentDefinition::ProcedureComponent(procedure) => visit_procedure_definition_at(
            procedure,
            emitter,
        ),
    };
    if !goes_on(&children) {
        return children;
    }
    emitter.emit_component_definition(TreeTraversalMode::Exit, node)
}

/// What visiting a component definition node at its place in the source comes to: the place is
/// pushed, the node is visited and the place is popped, whatever the visit returns.
pub open spec fn visit_component_definition_at_spec<C: AstConverting>(
    node: WithMetaData<NodeComponentDefinition>,
    state: C::V,
) -> Walk<C::V>
{
    within::<C>(
        visit_component_definition_spec::<C>(
            node.node,
            C::position_pushed(state, node.start, node.end),
        ),
    )
}

/// Visits a component definition node between a push and a pop of its place in the source.
pub fn visit_component_definition_at<C: AstConverting>(
    node: &WithMetaData<NodeComponentDefinition>,
    emitter: &mut C,
) -> (result: Result<TraversalResult, Error>)
    ensures
        walked(final(emitter)@, result) == visit_component_definition_at_spec::<C>(
            *node,
            old(emitter)@,
        ),
{
    emitter.push_source_position(&node.start, &node.end);
    let visited = visit_component_definition(&node.node, emitter);
    emitter.pop_source_position();
    visited
}

/// What visiting a row of component definition nodes, starting in `state`, comes to: the first
/// that fails or asks to skip ends the row.
pub open spec fn visit_each_component_definition_spec<C: AstConverting>(
    nodes: Seq<WithMetaData<NodeComponentDefinition>>,
    state: C::V,
) -> Walk<C::V>
    decreases nodes,
{
    if nodes.len() == 0 {
        Walk::proceed(state)
    } else {
        let first = visit_component_definition_at_spec::<C>(nodes[0], state);
        if !first.passed() {
            first
        } else {
            visit_each_component_definition_spec::<C>(nodes.drop_first(), first.state)
        }
    }
}

/// Visits a row of component definition nodes in order, up to the first that fails or asks to
/// skip.
pub fn visit_each_component_definition<C: AstConverting>(
    nodes: &Vec<WithMetaData<NodeComponentDefinition>>,
    emitter: &mut C,
) -> (result: Result<TraversalResult, Error>)
    ensures
        walked(final(emitter)@, result) == visit_each_component_definition_spec::<C>(
            nodes@,
            old(emitter)@,
        ),
{
    let mut i: usize = 0;
    assert(nodes@.skip(0) =~= nodes@);
    while i < nodes.len()
        invariant
            i <= nodes.len(),
            visit_each_component_definition_spec::<C>(nodes@.skip(i as int), emitter@)
                == visit_each_component_definition_spec::<C>(nodes@, old(emitter)@),
        decreases nodes.len() - i,
    {
        assert(nodes@.skip(i as int).drop_first() =~= nodes@.skip(i as int + 1));
        let visited = visit_component_definition_at(&nodes[i], emitter);
        if !goes_on(&visited) {
            return visited;
        }
        i += 1;
    }
    Ok(TraversalResult::Continue)
}

/// A row of component definition nodes ends with the first node whose visit fails or asks to
/// skip: what that visit comes to is what the row comes to, and no later node is visited.
pub proof fn lemma_visit_each_component_definition_stops<C: AstConverting>(
    nodes: Seq<WithMetaData<NodeComponentDefinition>>,
    state: C::V,
    i: int,
)
    requires
        0 <= i < nodes.len(),
        visit_each_component_definition_spec::<C>(nodes.take(i), state).passed(),
        !visit_component_definition_at_spec::<C>(
            nodes[i],
            visit_each_component_definition_spec::<C>(nodes.take(i), state).state,
        ).passed(),
    ensures
        visit_each_component_definition_spec::<C>(nodes, state)
            == visit_component_definition_at_spec::<C>(
                nodes[i],
                visit_each_component_definition_spec::<C>(nodes.take(i), state).state,
            ),
    decreases i,
{
    if i > 0 {
        assert(nodes.take(i).drop_first() =~= nodes.drop_first().take(i - 1));
        let first = visit_component_definition_at_spec::<C>(nodes[0], state);
        lemma_visit_each_component_definition_stops::<C>(nodes.drop_first(), first.state, i - 1);
    }
}

/// What visiting a contract definition node in `state` comes to.
pub open spec fn visit_contract_definition_spec<C: AstConverting>(
    node: NodeContractDefinition,
    state: C::V,
) -> Walk<C::V>
{
    let entered = C::converted(state, TreeTraversalMode::Enter, AstNode::ContractDefinition(node));
    let children = {
        let first = visit_component_parameters_at_spec::<C>(node.parameters, entered.state);
        if !first.passed() {
            first
        } else {
            {
                let second = match node.constraint {
                    Some(inner) => visit_with_constraint_at_spec::<C>(inner, first.state),
                    None => Walk::proceed(first.state),
                };
                if !second.passed() {
                    second
                } else {
                    {
                        let third = visit_each_contract_field_spec::<C>(node.fields@, second.state);
                        if !third.passed() {
                            third
                        } else {
                            visit_each_component_definition_spec::<C>(node.components@, third.state)
                        }
                    }
                }
            }
        }
    };
    conclude::<C>(AstNode::ContractDefinition(node), entered, children)
}

/// Visits a contract definition node: its enter hook, then its children in order, then its exit
/// hook.
pub fn visit_contract_definition<C: AstConverting>(
    node: &NodeContractDefinition,
    emitter: &mut C,
) -> (result: Result<TraversalResult, Error>)
    ensures
        walked(final(emitter)@, result) == visit_contract_definition_spec::<C>(
            *node,
            old(emitter)@,
        ),
{
    match emitter.emit_contract_definition(TreeTraversalMode::Enter, node)? {
        TraversalResult::SkipChildren => {
            return Ok(TraversalResult::Continue);
        },
        TraversalResult::Continue => {},
    }
    let children = {
        let visited = visit_component_parameters_at(&node.parameters, emitter);
        if !goes_on(&visited) {
            return visited;
        }
        if let Some(inner) = &node.constraint {
            let visited = visit_with_constraint_at(inner, emitter);
            if !goes_on(&visited) {
                return visited;
            }
        }
        let visited = visit_each_contract_field(&node.fields, emitter);
        if !goes_on(&visited) {
            return visited;
        }
        visit_each_component_definition(&node.components, emitter)
    };
    if !goes_on(&children) {
        return children;
    }
    emitter.emit_contract_definition(TreeTraversalMode::Exit, node)
}

/// What visiting a contract definition node at its place in the source comes to: the place is
/// pushed, the node is visited and the place is popped, whatever the visit returns.
pub open spec fn visit_contract_definition_at_spec<C: AstConverting>(
    node: WithMetaData<NodeContractDefinition>,
    state: C::V,
) -> Walk<C::V>
{
    within::<C>(
        visit_contract_definition_spec::<C>(
            node.node,
            C::position_pushed(state, node.start, node.end),
        ),
    )
}

/// Visits a contract definition node between a push and a pop of its place in the source.
pub fn visit_contract_definition_at<C: AstConverting>(
    node: &WithMetaData<NodeContractDefinition>,
    emitter: &mut C,
) -> (result: Result<TraversalResult, Error>)
    ensures
        walked(final(emitter)@, result) == visit_contract_definition_at_spec::<C>(
            *node,
            old(emitter)@,
        ),
{
    emitter.push_source_position(&node.start, &node.end);
    let visited = visit_contract_definition(&node.node, emitter);
    emitter.pop_source_position();
    visited
}

/// What visiting a library single definition node in `state` comes to.
pub open spec fn visit_library_single_definition_spec<C: AstConverting>(
    node: NodeLibrarySingleDefinition,
    state: C::V,
) -> Walk<C::V>
{
    let entered = C::converted(
        state,
        TreeTraversalMode::Enter,
        AstNode::LibrarySingleDefinition(node),
    );
    let children = match node {
        NodeLibrarySingleDefinition::LetDefinition { expression, .. } =>
            visit_full_expression_at_spec::<C>(
                expression,
                entered.state,
            ),
        NodeLibrarySingleDefinition::TypeDefinition(name, clauses) => {
            let first = visit_type_name_identifier_at_spec::<C>(name, entered.state);
            if !first.passed() {
                first
            } else {
                match clauses {
                    Some(inner) => visit_each_type_alternative_clause_spec::<C>(
                        inner@,
                        first.state,
                    ),
                    None => Walk::proceed(first.state),
                }
            }
        },
    };
    conclude::<C>(AstNode::LibrarySingleDefinition(node), entered, children)
}

/// Visits a library single definition node: its enter hook, then its children in order, then
/// its exit hook.
pub fn visit_library_single_definition<C: AstConverting>(
    node: &NodeLibrarySingleDefinition,
    emitter: &mut C,
) -> (result: Result<TraversalResult, Error>)
    ensures
        walked(final(emitter)@, result) == visit_library_single_definition_spec::<C>(
            *node,
            old(emitter)@,
        ),
{
    match emitter.emit_library_single_definition(TreeTraversalMode::Enter, node)? {
        TraversalResult::SkipChildren => {
            return Ok(TraversalResult::Continue);
        },
        TraversalResult::Continue => {},
    }
    let children = match node {
        NodeLibrarySingleDefinition::LetDefinition { expression, .. } => visit_full_expression_at(
            expression,
            emitter,
        ),
        NodeLibrarySingleDefinition::TypeDefinition(name, clauses) => {
            let visited = visit_type_name_identifier_at(name, emitter);
            if !goes_on(&visited) {
                return visited;
            }
            match clauses {
                Some(inner) => visit_each_type_alternative_clause(inner, emitter),
                None => Ok(TraversalResult::Continue),
            }
        },
    };
    if !goes_on(&children) {
        return children;
    }
    emitter.emit_library_single_definition(TreeTraversalMode::Exit, node)
}

/// What visiting a library single definition node at its place in the source comes to: the
/// place is pushed, the node is visited and the place is popped, whatever the visit returns.
pub open spec fn visit_library_single_definition_at_spec<C: AstConverting>(
    node: WithMetaData<NodeLibrarySingleDefinition>,
    state: C::V,
) -> Walk<C::V>
{
    within::<C>(
        visit_library_single_definition_spec::<C>(
            node.node,
            C::position_pushed(state, node.start, node.end),
        ),
    )
}

/// Visits a library single definition node between a push and a pop of its place in the source.
pub fn visit_library_single_definition_at<C: AstConverting>(
    node: &WithMetaData<NodeLibrarySingleDefinition>,
    emitter: &mut C,
) -> (result: Result<TraversalResult, Error>)
    ensures
        walked(final(emitter)@, result) == visit_library_single_definition_at_spec::<C>(
            *node,
            old(emitter)@,
        ),
{
    emitter.push_source_position(&node.start, &node.end);
    let visited = visit_library_single_definition(&node.node, emitter);
    emitter.pop_source_position();
    visited
}

/// What visiting a row of library single definition nodes, starting in `state`, comes to: the
/// first that fails or asks to skip ends the row.
pub open spec fn visit_each_library_single_definition_spec<C: AstConverting>(
    nodes: Seq<WithMetaData<NodeLibrarySingleDefinition>>,
    state: C::V,
) -> Walk<C::V>
    decreases nodes,
{
    if nodes.len() == 0 {
        Walk::proceed(state)
    } else {
        let first = visit_library_single_definition_at_spec::<C>(nodes[0], state);
        if !first.passed() {
            first
        } else {
            visit_each_library_single_definition_spec::<C>(nodes.drop_first(), first.state)
        }
    }
}

/// Visits a row of library single definition nodes in order, up to the first that fails or asks
/// to skip.
pub fn visit_each_library_single_definition<C: AstConverting>(
    nodes: &Vec<WithMetaData<NodeLibrarySingleDefinition>>,
    emitter: &mut C,
) -> (result: Result<TraversalResult, Error>)
    ensures
        walked(final(emitter)@, result) == visit_each_library_single_definition_spec::<C>(
            nodes@,
            old(emitter)@,
        ),
{
    let mut i: usize = 0;
    assert(nodes@.skip(0) =~= nodes@);
    while i < nodes.len()
        invariant
            i <= nodes.len(),
            visit_each_library_single_definition_spec::<C>(nodes@.skip(i as int), emitter@)
                == visit_each_library_single_definition_spec::<C>(nodes@, old(emitter)@),
        decreases nodes.len() - i,
    {
        assert(nodes@.skip(i as int).drop_first() =~= nodes@.skip(i as int + 1));
        let visited = visit_library_single_definition_at(&nodes[i], emitter);
        if !goes_on(&visited) {
            return visited;
        }
        i += 1;
    }
    Ok(TraversalResult::Continue)
}

/// A row of library single definition nodes ends with the first node whose visit fails or asks
/// to skip: what that visit comes to is what the row comes to, and no later node is visited.
pub proof fn lemma_visit_each_library_single_definition_stops<C: AstConverting>(
    nodes: Seq<WithMetaData<NodeLibrarySingleDefinition>>,
    state: C::V,
    i: int,
)
    requires
        0 <= i < nodes.len(),
        visit_each_library_single_definition_spec::<C>(nodes.take(i), state).passed(),
        !visit_library_single_definition_at_spec::<C>(
            nodes[i],
            visit_each_library_single_definition_spec::<C>(nodes.take(i), state).state,
        ).passed(),
    ensures
        visit_each_library_single_definition_spec::<C>(nodes, state)
            == visit_library_single_definition_at_spec::<C>(
                nodes[i],
                visit_each_library_single_definition_spec::<C>(nodes.take(i), state).state,
            ),
    decreases i,
{
    if i > 0 {
        assert(nodes.take(i).drop_first() =~= nodes.drop_first().take(i - 1));
        let first = visit_library_single_definition_at_spec::<C>(nodes[0], state);
        lemma_visit_each_library_single_definition_stops::<C>(
            nodes.drop_first(),
            first.state,
            i - 1,
        );
    }
}

/// What visiting a library definition node in `state` comes to.
pub open spec fn visit_library_definition_spec<C: AstConverting>(
    node: NodeLibraryDefinition,
    state: C::V,
) -> Walk<C::V>
{
    let entered = C::converted(state, TreeTraversalMode::Enter, AstNode::LibraryDefinition(node));
    let children = visit_each_library_single_definition_spec::<C>(node.definitions@, entered.state);
    conclude::<C>(AstNode::LibraryDefinition(node), entered, children)
}

/// Visits a library definition node: its enter hook, then its children in order, then its exit
/// hook.
pub fn visit_library_definition<C: AstConverting>(
    node: &NodeLibraryDefinition,
    emitter: &mut C,
) -> (result: Result<TraversalResult, Error>)
    ensures
        walked(final(emitter)@, result) == visit_library_definition_spec::<C>(
            *node,
            old(emitter)@,
        ),
{
    match emitter.emit_library_definition(TreeTraversalMode::Enter, node)? {
        TraversalResult::SkipChildren => {
            return Ok(TraversalResult::Continue);
        },
        TraversalResult::Continue => {},
    }
    let children = visit_each_library_single_definition(&node.definitions, emitter);
    if !goes_on(&children) {
        return children;
    }
    emitter.emit_library_definition(TreeTraversalMode::Exit, node)
}

/// What visiting a library definition node at its place in the source comes to: the place is
/// pushed, the node is visited and the place is popped, whatever the visit returns.
pub open spec fn visit_library_definition_at_spec<C: AstConverting>(
    node: WithMetaData<NodeLibraryDefinition>,
    state: C::V,
) -> Walk<C::V>
{
    within::<C>(
        visit_library_definition_spec::<C>(
            node.node,
            C::position_pushed(state, node.start, node.end),
        ),
    )
}

/// Visits a library definition node between a push and a pop of its place in the source.
pub fn visit_library_definition_at<C: AstConverting>(
    node: &WithMetaData<NodeLibraryDefinition>,
    emitter: &mut C,
) -> (result: Result<TraversalResult, Error>)
    ensures
        walked(final(emitter)@, result) == visit_library_definition_at_spec::<C>(
            *node,
            old(emitter)@,
        ),
{
    emitter.push_source_position(&node.start, &node.end);
    let visited = visit_library_definition(&node.node, emitter);
    emitter.pop_source_position();
    visited
}

/// What visiting a program node in `state` comes to.
pub open spec fn visit_program_spec<C: AstConverting>(
    node: NodeProgram,
    state: C::V,
) -> Walk<C::V>
{
    let entered = C::converted(state, TreeTraversalMode::Enter, AstNode::Program(node));
    let children = {
        let first = match node.import_declarations {
            Some(inner) => visit_import_declarations_at_spec::<C>(inner, entered.state),
            None => Walk::proceed(entered.state),
        };
        if !first.passed() {
            first
        } else {
            {
                let second = match node.library_definition {
                    Some(inner) => visit_library_definition_at_spec::<C>(inner, first.state),
                    None => Walk::proceed(first.state),
                };
                if !second.passed() {
                    second
                } else {
                    visit_contract_definition_at_spec::<C>(node.contract_definition, second.state)
                }
            }
        }
    };
    conclude::<C>(AstNode::Program(node), entered, children)
}

/// Visits a program node: its enter hook, then its children in order, then its exit hook.
pub fn visit_program<C: AstConverting>(
    node: &NodeProgram,
    emitter: &mut C,
) -> (result: Result<TraversalResult, Error>)
    ensures
        walked(final(emitter)@, result) == visit_program_spec::<C>(
            *node,
            old(emitter)@,
        ),
{
    match emitter.emit_program(TreeTraversalMode::Enter, node)? {
        TraversalResult::SkipChildren => {
            return Ok(TraversalResult::Continue);
        },
        TraversalResult::Continue => {},
    }
    let children = {
        if let Some(inner) = &node.import_declarations {
            let visited = visit_import_declarations_at(inner, emitter);
            if !goes_on(&visited) {
                return visited;
            }
        }
        if let Some(inner) = &node.library_definition {
            let visited = visit_library_definition_at(inner, emitter);
            if !goes_on(&visited) {
                return visited;
            }
        }
        visit_contract_definition_at(&node.contract_definition, emitter)
    };
    if !goes_on(&children) {
        return children;
    }
    emitter.emit_program(TreeTraversalMode::Exit, node)
}

} // verus!
