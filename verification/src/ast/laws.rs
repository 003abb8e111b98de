use crate::ast::converting::{conclude, within, AstConverting, AstNode, Walk};
use crate::ast::traversal::definitions::{
    visit_component_body_spec, visit_component_definition_spec,
    visit_component_parameters_spec, visit_contract_definition_spec, visit_contract_field_spec,
    visit_library_definition_spec, visit_library_single_definition_spec,
    visit_parameter_pair_spec, visit_procedure_definition_spec, visit_program_spec,
    visit_transition_definition_spec, visit_with_constraint_spec,
};
use crate::ast::traversal::expressions::{
    visit_argument_pattern_spec, visit_atomic_expression_spec, visit_full_expression_spec,
    visit_message_entry_spec, visit_pattern_match_expression_clause_spec, visit_pattern_spec,
};
use crate::ast::traversal::names::{
    visit_blockchain_fetch_arguments_spec, visit_builtin_arguments_spec, visit_byte_str_spec,
    visit_component_id_spec, visit_import_declarations_spec, visit_imported_name_spec,
    visit_map_access_spec, visit_meta_identifier_spec, visit_type_name_identifier_spec,
    visit_variable_identifier_spec,
};
use crate::ast::traversal::statements::{
    visit_pattern_match_clause_spec, visit_remote_fetch_statement_spec,
    visit_statement_block_spec, visit_statement_spec,
};
use crate::ast::traversal::types::{
    visit_address_type_field_spec, visit_address_type_spec, visit_contract_type_arguments_spec,
    visit_scilla_type_spec, visit_type_alternative_clause_spec, visit_type_annotation_spec,
    visit_type_argument_spec, visit_type_map_entry_spec, visit_type_map_key_spec,
    visit_type_map_value_allowing_type_arguments_spec, visit_type_map_value_arguments_spec,
    visit_type_map_value_spec, visit_typed_identifier_spec, visit_value_literal_spec,
};
use crate::ast::{TraversalResult, TreeTraversalMode};
use crate::error::ErrorView;
use vstd::prelude::*;

verus! {

/// What visiting a node of any kind in `state` comes to.
pub open spec fn visit_node_spec<C: AstConverting>(node: AstNode, state: C::V) -> Walk<C::V> {
    match node {
        AstNode::ByteStr(n) => visit_byte_str_spec::<C>(n, state),
        AstNode::TypeNameIdentifier(n) => visit_type_name_identifier_spec::<C>(n, state),
        AstNode::ImportedName(n) => visit_imported_name_spec::<C>(n, state),
        AstNode::ImportDeclarations(n) => visit_import_declarations_spec::<C>(n, state),
        AstNode::MetaIdentifier(n) => visit_meta_identifier_spec::<C>(n, state),
        AstNode::VariableIdentifier(n) => visit_variable_identifier_spec::<C>(n, state),
        AstNode::BuiltinArguments(n) => visit_builtin_arguments_spec::<C>(n, state),
        AstNode::TypeMapKey(n) => visit_type_map_key_spec::<C>(n, state),
        AstNode::TypeMapValue(n) => visit_type_map_value_spec::<C>(n, state),
        AstNode::TypeArgument(n) => visit_type_argument_spec::<C>(n, state),
        AstNode::ScillaType(n) => visit_scilla_type_spec::<C>(n, state),
        AstNode::TypeMapEntry(n) => visit_type_map_entry_spec::<C>(n, state),
        AstNode::AddressTypeField(n) => visit_address_type_field_spec::<C>(n, state),
        AstNode::AddressType(n) => visit_address_type_spec::<C>(n, state),
        AstNode::FullExpression(n) => visit_full_expression_spec::<C>(n, state),
        AstNode::MessageEntry(n) => visit_message_entry_spec::<C>(n, state),
        AstNode::PatternMatchExpressionClause(n) => visit_pattern_match_expression_clause_spec::<C>(
            n,
            state,
        ),
        AstNode::AtomicExpression(n) => visit_atomic_expression_spec::<C>(n, state),
        AstNode::ContractTypeArguments(n) => visit_contract_type_arguments_spec::<C>(n, state),
        AstNode::ValueLiteral(n) => visit_value_literal_spec::<C>(n, state),
        AstNode::MapAccess(n) => visit_map_access_spec::<C>(n, state),
        AstNode::Pattern(n) => visit_pattern_spec::<C>(n, state),
        AstNode::ArgumentPattern(n) => visit_argument_pattern_spec::<C>(n, state),
        AstNode::PatternMatchClause(n) => visit_pattern_match_clause_spec::<C>(n, state),
        AstNode::BlockchainFetchArguments(n) => visit_blockchain_fetch_arguments_spec::<C>(
            n,
            state,
        ),
        AstNode::Statement(n) => visit_statement_spec::<C>(n, state),
        AstNode::RemoteFetchStatement(n) => visit_remote_fetch_statement_spec::<C>(n, state),
        AstNode::ComponentId(n) => visit_component_id_spec::<C>(n, state),
        AstNode::ComponentParameters(n) => visit_component_parameters_spec::<C>(n, state),
        AstNode::ParameterPair(n) => visit_parameter_pair_spec::<C>(n, state),
        AstNode::ComponentBody(n) => visit_component_body_spec::<C>(n, state),
        AstNode::StatementBlock(n) => visit_statement_block_spec::<C>(n, state),
        AstNode::TypedIdentifier(n) => visit_typed_identifier_spec::<C>(n, state),
        AstNode::TypeAnnotation(n) => visit_type_annotation_spec::<C>(n, state),
        AstNode::Program(n) => visit_program_spec::<C>(n, state),
        AstNode::LibraryDefinition(n) => visit_library_definition_spec::<C>(n, state),
        AstNode::LibrarySingleDefinition(n) => visit_library_single_definition_spec::<C>(n, state),
        AstNode::ContractDefinition(n) => visit_contract_definition_spec::<C>(n, state),
        AstNode::ContractField(n) => visit_contract_field_spec::<C>(n, state),
        AstNode::WithConstraint(n) => visit_with_constraint_spec::<C>(n, state),
        AstNode::ComponentDefinition(n) => visit_component_definition_spec::<C>(n, state),
        AstNode::ProcedureDefinition(n) => visit_procedure_definition_spec::<C>(n, state),
        AstNode::TransitionDefinition(n) => visit_transition_definition_spec::<C>(n, state),
        AstNode::TypeAlternativeClause(n) => visit_type_alternative_clause_spec::<C>(n, state),
        AstNode::TypeMapValueArguments(n) => visit_type_map_value_arguments_spec::<C>(n, state),
        AstNode::TypeMapValueAllowingTypeArguments(n) =>
            visit_type_map_value_allowing_type_arguments_spec::<C>(
                n,
                state,
            ),
    }
}

/// If the enter hook of a node asks to skip the children, the visit of the node ends
/// there: the backend is left in the state in which the enter hook left it, so that
/// no hook has run for a child and the exit hook has not run, and the visit asks its
/// caller to continue.
pub proof fn law_skip_children<C: AstConverting>(node: AstNode, state: C::V)
    requires
        C::converted(state, TreeTraversalMode::Enter, node).outcome == Ok::<
            TraversalResult,
            ErrorView,
        >(TraversalResult::SkipChildren),
    ensures
        visit_node_spec::<C>(node, state) == Walk::proceed(
            C::converted(state, TreeTraversalMode::Enter, node).state,
        ),
{
}

/// If the enter hook of a node fails, the visit of the node fails with that error and
/// leaves the backend in the state in which the enter hook left it: no hook has run
/// for a child, and the exit hook has not run.
pub proof fn law_fail_fast_on_enter<C: AstConverting>(node: AstNode, state: C::V)
    requires
        C::converted(state, TreeTraversalMode::Enter, node).failed(),
    ensures
        visit_node_spec::<C>(node, state) == C::converted(state, TreeTraversalMode::Enter, node),
{
}

/// If the visit of the children of a node fails, or one of them asks to skip, that is
/// what the visit of the node comes to: the exit hook of the node does not run.
pub proof fn law_fail_fast_on_children<C: AstConverting>(
    node: AstNode,
    entered: Walk<C::V>,
    children: Walk<C::V>,
)
    requires
        entered.passed(),
        !children.passed(),
    ensures
        conclude::<C>(node, entered, children) == children,
{
}

/// If the enter hook and all children of a node ask to continue, the exit hook runs
/// in the state that the children left, and its result is the result of the visit.
pub proof fn law_exit_follows_children<C: AstConverting>(
    node: AstNode,
    entered: Walk<C::V>,
    children: Walk<C::V>,
)
    requires
        entered.passed(),
        children.passed(),
    ensures
        conclude::<C>(node, entered, children) == C::converted(
            children.state,
            TreeTraversalMode::Exit,
            node,
        ),
{
}

/// A node with its place in the source returns what the node returns, failure
/// included, and the place is popped in either case.
pub proof fn law_position_scoped<C: AstConverting>(inner: Walk<C::V>)
    ensures
        within::<C>(inner).outcome == inner.outcome,
        within::<C>(inner).state == C::position_popped(inner.state),
{
}

} // verus!
