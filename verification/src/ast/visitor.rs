use crate::ast::converting::{within, walked, AstConverting, Walk};
use crate::ast::nodes::{
    NodeAddressType, NodeAddressTypeField, NodeArgumentPattern, NodeAtomicExpression,
    NodeBlockchainFetchArguments, NodeBuiltinArguments, NodeByteStr, NodeComponentBody,
    NodeComponentDefinition, NodeComponentId, NodeComponentParameters, NodeContractDefinition,
    NodeContractField, NodeContractTypeArguments, NodeFullExpression, NodeImportDeclarations,
    NodeImportedName, NodeLibraryDefinition, NodeLibrarySingleDefinition, NodeMapAccess,
    NodeMessageEntry, NodeMetaIdentifier, NodeParameterPair, NodePattern,
    NodePatternMatchClause, NodePatternMatchExpressionClause, NodeProcedureDefinition,
    NodeProgram, NodeRemoteFetchStatement, NodeScillaType, NodeStatement, NodeStatementBlock,
    NodeTransitionDefinition, NodeTypeAlternativeClause, NodeTypeAnnotation, NodeTypeArgument,
    NodeTypeMapEntry, NodeTypeMapKey, NodeTypeMapValue, NodeTypeMapValueAllowingTypeArguments,
    NodeTypeMapValueArguments, NodeTypeNameIdentifier, NodeTypedIdentifier, NodeValueLiteral,
    NodeVariableIdentifier, NodeWithConstraint, WithMetaData,
};
use crate::ast::traversal::definitions::{
    visit_component_body, visit_component_body_spec, visit_component_definition,
    visit_component_definition_spec, visit_component_parameters,
    visit_component_parameters_spec, visit_contract_definition, visit_contract_definition_spec,
    visit_contract_field, visit_contract_field_spec, visit_library_definition,
    visit_library_definition_spec, visit_library_single_definition,
    visit_library_single_definition_spec, visit_parameter_pair, visit_parameter_pair_spec,
    visit_procedure_definition, visit_procedure_definition_spec, visit_program,
    visit_program_spec, visit_transition_definition, visit_transition_definition_spec,
    visit_with_constraint, visit_with_constraint_spec,
};
use crate::ast::traversal::expressions::{
    visit_argument_pattern, visit_argument_pattern_spec, visit_atomic_expression,
    visit_atomic_expression_spec, visit_full_expression, visit_full_expression_spec,
    visit_message_entry, visit_message_entry_spec, visit_pattern,
    visit_pattern_match_expression_clause, visit_pattern_match_expression_clause_spec,
    visit_pattern_spec,
};
use crate::ast::traversal::names::{
    visit_blockchain_fetch_arguments, visit_blockchain_fetch_arguments_spec,
    visit_builtin_arguments, visit_builtin_arguments_spec, visit_byte_str, visit_byte_str_spec,
    visit_component_id, visit_component_id_spec, visit_import_declarations,
    visit_import_declarations_spec, visit_imported_name, visit_imported_name_spec,
    visit_map_access, visit_map_access_spec, visit_meta_identifier, visit_meta_identifier_spec,
    visit_type_name_identifier, visit_type_name_identifier_spec, visit_variable_identifier,
    visit_variable_identifier_spec,
};
use crate::ast::traversal::statements::{
    visit_pattern_match_clause, visit_pattern_match_clause_spec, visit_remote_fetch_statement,
    visit_remote_fetch_statement_spec, visit_statement, visit_statement_block,
    visit_statement_block_spec, visit_statement_spec,
};
use crate::ast::traversal::types::{
    visit_address_type, visit_address_type_field, visit_address_type_field_spec,
    visit_address_type_spec, visit_contract_type_arguments, visit_contract_type_arguments_spec,
    visit_scilla_type, visit_scilla_type_spec, visit_type_alternative_clause,
    visit_type_alternative_clause_spec, visit_type_annotation, visit_type_annotation_spec,
    visit_type_argument, visit_type_argument_spec, visit_type_map_entry,
    visit_type_map_entry_spec, visit_type_map_key, visit_type_map_key_spec,
    visit_type_map_value, visit_type_map_value_allowing_type_arguments,
    visit_type_map_value_allowing_type_arguments_spec, visit_type_map_value_arguments,
    visit_type_map_value_arguments_spec, visit_type_map_value_spec, visit_typed_identifier,
    visit_typed_identifier_spec, visit_value_literal, visit_value_literal_spec,
};
use crate::ast::TraversalResult;
use crate::error::Error;
use vstd::prelude::*;

verus! {

/// The `AstVisitor` trait is used for implementing the visiting behaviour for each AST node
/// of the Scilla AST. Each node in the AST implements this trait to define how it should be
/// visited during the tree traversal. The `visit` method is called with an `emitter` that
/// implements the `AstConverting` trait, which is responsible for converting the AST to some
/// other form. The `visit` method returns a `Result` with a `TraversalResult` that informs
/// the visitor algorithm how to proceed, or an `Error`.
pub trait AstVisitor<C: AstConverting> {
    /// What visiting the node with a backend in `state` comes to: the state that the
    /// backend is left in, and what the visit returns.
    spec fn visited(&self, state: C::V) -> Walk<C::V>;

    fn visit(&self, emitter: &mut C) -> (result: Result<TraversalResult, Error>)
        ensures
            walked(final(emitter)@, result) == self.visited(old(emitter)@),
    ;
}

/// A node with its place in the source is visited between a push and a pop of that
/// place; the pop happens whatever the visit of the node returns.
impl<C: AstConverting, T: AstVisitor<C>> AstVisitor<C> for WithMetaData<T> {
    open spec fn visited(&self, state: C::V) -> Walk<C::V> {
        within::<C>(self.node.visited(C::position_pushed(state, self.start, self.end)))
    }

    fn visit(&self, emitter: &mut C) -> (result: Result<TraversalResult, Error>) {
        emitter.push_source_position(&self.start, &self.end);
        let ret = self.node.visit(emitter);
        emitter.pop_source_position();
        ret
    }
}

impl<C: AstConverting> AstVisitor<C> for NodeByteStr {
    open spec fn visited(&self, state: C::V) -> Walk<C::V> {
        visit_byte_str_spec::<C>(*self, state)
    }

    fn visit(&self, emitter: &mut C) -> (result: Result<TraversalResult, Error>) {
        visit_byte_str(self, emitter)
    }
}

impl<C: AstConverting> AstVisitor<C> for NodeTypeNameIdentifier {
    open spec fn visited(&self, state: C::V) -> Walk<C::V> {
        visit_type_name_identifier_spec::<C>(*self, state)
    }

    fn visit(&self, emitter: &mut C) -> (result: Result<TraversalResult, Error>) {
        visit_type_name_identifier(self, emitter)
    }
}

impl<C: AstConverting> AstVisitor<C> for NodeImportedName {
    open spec fn visited(&self, state: C::V) -> Walk<C::V> {
        visit_imported_name_spec::<C>(*self, state)
    }

    fn visit(&self, emitter: &mut C) -> (result: Result<TraversalResult, Error>) {
        visit_imported_name(self, emitter)
    }
}

impl<C: AstConverting> AstVisitor<C> for NodeImportDeclarations {
    open spec fn visited(&self, state: C::V) -> Walk<C::V> {
        visit_import_declarations_spec::<C>(*self, state)
    }

    fn visit(&self, emitter: &mut C) -> (result: Result<TraversalResult, Error>) {
        visit_import_declarations(self, emitter)
    }
}

impl<C: AstConverting> AstVisitor<C> for NodeMetaIdentifier {
    open spec fn visited(&self, state: C::V) -> Walk<C::V> {
        visit_meta_identifier_spec::<C>(*self, state)
    }

    fn visit(&self, emitter: &mut C) -> (result: Result<TraversalResult, Error>) {
        visit_meta_identifier(self, emitter)
    }
}

impl<C: AstConverting> AstVisitor<C> for NodeVariableIdentifier {
    open spec fn visited(&self, state: C::V) -> Walk<C::V> {
        visit_variable_identifier_spec::<C>(*self, state)
    }

    fn visit(&self, emitter: &mut C) -> (result: Result<TraversalResult, Error>) {
        visit_variable_identifier(self, emitter)
    }
}

impl<C: AstConverting> AstVisitor<C> for NodeBuiltinArguments {
    open spec fn visited(&self, state: C::V) -> Walk<C::V> {
        visit_builtin_arguments_spec::<C>(*self, state)
    }

    fn visit(&self, emitter: &mut C) -> (result: Result<TraversalResult, Error>) {
        visit_builtin_arguments(self, emitter)
    }
}

impl<C: AstConverting> AstVisitor<C> for NodeTypeMapKey {
    open spec fn visited(&self, state: C::V) -> Walk<C::V> {
        visit_type_map_key_spec::<C>(*self, state)
    }

    fn visit(&self, emitter: &mut C) -> (result: Result<TraversalResult, Error>) {
        visit_type_map_key(self, emitter)
    }
}

impl<C: AstConverting> AstVisitor<C> for NodeTypeMapValue {
    open spec fn visited(&self, state: C::V) -> Walk<C::V> {
        visit_type_map_value_spec::<C>(*self, state)
    }

    fn visit(&self, emitter: &mut C) -> (result: Result<TraversalResult, Error>) {
        visit_type_map_value(self, emitter)
    }
}

impl<C: AstConverting> AstVisitor<C> for NodeTypeArgument {
    open spec fn visited(&self, state: C::V) -> Walk<C::V> {
        visit_type_argument_spec::<C>(*self, state)
    }

    fn visit(&self, emitter: &mut C) -> (result: Result<TraversalResult, Error>) {
        visit_type_argument(self, emitter)
    }
}

impl<C: AstConverting> AstVisitor<C> for NodeScillaType {
    open spec fn visited(&self, state: C::V) -> Walk<C::V> {
        visit_scilla_type_spec::<C>(*self, state)
    }

    fn visit(&self, emitter: &mut C) -> (result: Result<TraversalResult, Error>) {
        visit_scilla_type(self, emitter)
    }
}

impl<C: AstConverting> AstVisitor<C> for NodeTypeMapEntry {
    open spec fn visited(&self, state: C::V) -> Walk<C::V> {
        visit_type_map_entry_spec::<C>(*self, state)
    }

    fn visit(&self, emitter: &mut C) -> (result: Result<TraversalResult, Error>) {
        visit_type_map_entry(self, emitter)
    }
}

impl<C: AstConverting> AstVisitor<C> for NodeAddressTypeField {
    open spec fn visited(&self, state: C::V) -> Walk<C::V> {
        visit_address_type_field_spec::<C>(*self, state)
    }

    fn visit(&self, emitter: &mut C) -> (result: Result<TraversalResult, Error>) {
        visit_address_type_field(self, emitter)
    }
}

impl<C: AstConverting> AstVisitor<C> for NodeAddressType {
    open spec fn visited(&self, state: C::V) -> Walk<C::V> {
        visit_address_type_spec::<C>(*self, state)
    }

    fn visit(&self, emitter: &mut C) -> (result: Result<TraversalResult, Error>) {
        visit_address_type(self, emitter)
    }
}

impl<C: AstConverting> AstVisitor<C> for NodeFullExpression {
    open spec fn visited(&self, state: C::V) -> Walk<C::V> {
        visit_full_expression_spec::<C>(*self, state)
    }

    fn visit(&self, emitter: &mut C) -> (result: Result<TraversalResult, Error>) {
        visit_full_expression(self, emitter)
    }
}

impl<C: AstConverting> AstVisitor<C> for NodeMessageEntry {
    open spec fn visited(&self, state: C::V) -> Walk<C::V> {
        visit_message_entry_spec::<C>(*self, state)
    }

    fn visit(&self, emitter: &mut C) -> (result: Result<TraversalResult, Error>) {
        visit_message_entry(self, emitter)
    }
}

impl<C: AstConverting> AstVisitor<C> for NodePatternMatchExpressionClause {
    open spec fn visited(&self, state: C::V) -> Walk<C::V> {
        visit_pattern_match_expression_clause_spec::<C>(*self, state)
    }

    fn visit(&self, emitter: &mut C) -> (result: Result<TraversalResult, Error>) {
        visit_pattern_match_expression_clause(self, emitter)
    }
}

impl<C: AstConverting> AstVisitor<C> for NodeAtomicExpression {
    open spec fn visited(&self, state: C::V) -> Walk<C::V> {
        visit_atomic_expression_spec::<C>(*self, state)
    }

    fn visit(&self, emitter: &mut C) -> (result: Result<TraversalResult, Error>) {
        visit_atomic_expression(self, emitter)
    }
}

impl<C: AstConverting> AstVisitor<C> for NodeContractTypeArguments {
    open spec fn visited(&self, state: C::V) -> Walk<C::V> {
        visit_contract_type_arguments_spec::<C>(*self, state)
    }

    fn visit(&self, emitter: &mut C) -> (result: Result<TraversalResult, Error>) {
        visit_contract_type_arguments(self, emitter)
    }
}

impl<C: AstConverting> AstVisitor<C> for NodeValueLiteral {
    open spec fn visited(&self, state: C::V) -> Walk<C::V> {
        visit_value_literal_spec::<C>(*self, state)
    }

    fn visit(&self, emitter: &mut C) -> (result: Result<TraversalResult, Error>) {
        visit_value_literal(self, emitter)
    }
}

impl<C: AstConverting> AstVisitor<C> for NodeMapAccess {
    open spec fn visited(&self, state: C::V) -> Walk<C::V> {
        visit_map_access_spec::<C>(*self, state)
    }

    fn visit(&self, emitter: &mut C) -> (result: Result<TraversalResult, Error>) {
        visit_map_access(self, emitter)
    }
}

impl<C: AstConverting> AstVisitor<C> for NodePattern {
    open spec fn visited(&self, state: C::V) -> Walk<C::V> {
        visit_pattern_spec::<C>(*self, state)
    }

    fn visit(&self, emitter: &mut C) -> (result: Result<TraversalResult, Error>) {
        visit_pattern(self, emitter)
    }
}

impl<C: AstConverting> AstVisitor<C> for NodeArgumentPattern {
    open spec fn visited(&self, state: C::V) -> Walk<C::V> {
        visit_argument_pattern_spec::<C>(*self, state)
    }

    fn visit(&self, emitter: &mut C) -> (result: Result<TraversalResult, Error>) {
        visit_argument_pattern(self, emitter)
    }
}

impl<C: AstConverting> AstVisitor<C> for NodePatternMatchClause {
    open spec fn visited(&self, state: C::V) -> Walk<C::V> {
        visit_pattern_match_clause_spec::<C>(*self, state)
    }

    fn visit(&self, emitter: &mut C) -> (result: Result<TraversalResult, Error>) {
        visit_pattern_match_clause(self, emitter)
    }
}

impl<C: AstConverting> AstVisitor<C> for NodeBlockchainFetchArguments {
    open spec fn visited(&self, state: C::V) -> Walk<C::V> {
        visit_blockchain_fetch_arguments_spec::<C>(*self, state)
    }

    fn visit(&self, emitter: &mut C) -> (result: Result<TraversalResult, Error>) {
        visit_blockchain_fetch_arguments(self, emitter)
    }
}

impl<C: AstConverting> AstVisitor<C> for NodeStatement {
    open spec fn visited(&self, state: C::V) -> Walk<C::V> {
        visit_statement_spec::<C>(*self, state)
    }

    fn visit(&self, emitter: &mut C) -> (result: Result<TraversalResult, Error>) {
        visit_statement(self, emitter)
    }
}

impl<C: AstConverting> AstVisitor<C> for NodeRemoteFetchStatement {
    open spec fn visited(&self, state: C::V) -> Walk<C::V> {
        visit_remote_fetch_statement_spec::<C>(*self, state)
    }

    fn visit(&self, emitter: &mut C) -> (result: Result<TraversalResult, Error>) {
        visit_remote_fetch_statement(self, emitter)
    }
}

impl<C: AstConverting> AstVisitor<C> for NodeComponentId {
    open spec fn visited(&self, state: C::V) -> Walk<C::V> {
        visit_component_id_spec::<C>(*self, state)
    }

    fn visit(&self, emitter: &mut C) -> (result: Result<TraversalResult, Error>) {
        visit_component_id(self, emitter)
    }
}

impl<C: AstConverting> AstVisitor<C> for NodeComponentParameters {
    open spec fn visited(&self, state: C::V) -> Walk<C::V> {
        visit_component_parameters_spec::<C>(*self, state)
    }

    fn visit(&self, emitter: &mut C) -> (result: Result<TraversalResult, Error>) {
        visit_component_parameters(self, emitter)
    }
}

impl<C: AstConverting> AstVisitor<C> for NodeParameterPair {
    open spec fn visited(&self, state: C::V) -> Walk<C::V> {
        visit_parameter_pair_spec::<C>(*self, state)
    }

    fn visit(&self, emitter: &mut C) -> (result: Result<TraversalResult, Error>) {
        visit_parameter_pair(self, emitter)
    }
}

impl<C: AstConverting> AstVisitor<C> for NodeComponentBody {
    open spec fn visited(&self, state: C::V) -> Walk<C::V> {
        visit_component_body_spec::<C>(*self, state)
    }

    fn visit(&self, emitter: &mut C) -> (result: Result<TraversalResult, Error>) {
        visit_component_body(self, emitter)
    }
}

impl<C: AstConverting> AstVisitor<C> for NodeStatementBlock {
    open spec fn visited(&self, state: C::V) -> Walk<C::V> {
        visit_statement_block_spec::<C>(*self, state)
    }

    fn visit(&self, emitter: &mut C) -> (result: Result<TraversalResult, Error>) {
        visit_statement_block(self, emitter)
    }
}

impl<C: AstConverting> AstVisitor<C> for NodeTypedIdentifier {
    open spec fn visited(&self, state: C::V) -> Walk<C::V> {
        visit_typed_identifier_spec::<C>(*self, state)
    }

    fn visit(&self, emitter: &mut C) -> (result: Result<TraversalResult, Error>) {
        visit_typed_identifier(self, emitter)
    }
}

impl<C: AstConverting> AstVisitor<C> for NodeTypeAnnotation {
    open spec fn visited(&self, state: C::V) -> Walk<C::V> {
        visit_type_annotation_spec::<C>(*self, state)
    }

    fn visit(&self, emitter: &mut C) -> (result: Result<TraversalResult, Error>) {
        visit_type_annotation(self, emitter)
    }
}

impl<C: AstConverting> AstVisitor<C> for NodeProgram {
    open spec fn visited(&self, state: C::V) -> Walk<C::V> {
        visit_program_spec::<C>(*self, state)
    }

    fn visit(&self, emitter: &mut C) -> (result: Result<TraversalResult, Error>) {
        visit_program(self, emitter)
    }
}

impl<C: AstConverting> AstVisitor<C> for NodeLibraryDefinition {
    open spec fn visited(&self, state: C::V) -> Walk<C::V> {
        visit_library_definition_spec::<C>(*self, state)
    }

    fn visit(&self, emitter: &mut C) -> (result: Result<TraversalResult, Error>) {
        visit_library_definition(self, emitter)
    }
}

impl<C: AstConverting> AstVisitor<C> for NodeLibrarySingleDefinition {
    open spec fn visited(&self, state: C::V) -> Walk<C::V> {
        visit_library_single_definition_spec::<C>(*self, state)
    }

    fn visit(&self, emitter: &mut C) -> (result: Result<TraversalResult, Error>) {
        visit_library_single_definition(self, emitter)
    }
}

impl<C: AstConverting> AstVisitor<C> for NodeContractDefinition {
    open spec fn visited(&self, state: C::V) -> Walk<C::V> {
        visit_contract_definition_spec::<C>(*self, state)
    }

    fn visit(&self, emitter: &mut C) -> (result: Result<TraversalResult, Error>) {
        visit_contract_definition(self, emitter)
    }
}

impl<C: AstConverting> AstVisitor<C> for NodeContractField {
    open spec fn visited(&self, state: C::V) -> Walk<C::V> {
        visit_contract_field_spec::<C>(*self, state)
    }

    fn visit(&self, emitter: &mut C) -> (result: Result<TraversalResult, Error>) {
        visit_contract_field(self, emitter)
    }
}

impl<C: AstConverting> AstVisitor<C> for NodeWithConstraint {
    open spec fn visited(&self, state: C::V) -> Walk<C::V> {
        visit_with_constraint_spec::<C>(*self, state)
    }

    fn visit(&self, emitter: &mut C) -> (result: Result<TraversalResult, Error>) {
        visit_with_constraint(self, emitter)
    }
}

impl<C: AstConverting> AstVisitor<C> for NodeComponentDefinition {
    open spec fn visited(&self, state: C::V) -> Walk<C::V> {
        visit_component_definition_spec::<C>(*self, state)
    }

    fn visit(&self, emitter: &mut C) -> (result: Result<TraversalResult, Error>) {
        visit_component_definition(self, emitter)
    }
}

impl<C: AstConverting> AstVisitor<C> for NodeProcedureDefinition {
    open spec fn visited(&self, state: C::V) -> Walk<C::V> {
        visit_procedure_definition_spec::<C>(*self, state)
    }

    fn visit(&self, emitter: &mut C) -> (result: Result<TraversalResult, Error>) {
        visit_procedure_definition(self, emitter)
    }
}

impl<C: AstConverting> AstVisitor<C> for NodeTransitionDefinition {
    open spec fn visited(&self, state: C::V) -> Walk<C::V> {
        visit_transition_definition_spec::<C>(*self, state)
    }

    fn visit(&self, emitter: &mut C) -> (result: Result<TraversalResult, Error>) {
        visit_transition_definition(self, emitter)
    }
}

impl<C: AstConverting> AstVisitor<C> for NodeTypeAlternativeClause {
    open spec fn visited(&self, state: C::V) -> Walk<C::V> {
        visit_type_alternative_clause_spec::<C>(*self, state)
    }

    fn visit(&self, emitter: &mut C) -> (result: Result<TraversalResult, Error>) {
        visit_type_alternative_clause(self, emitter)
    }
}

impl<C: AstConverting> AstVisitor<C> for NodeTypeMapValueArguments {
    open spec fn visited(&self, state: C::V) -> Walk<C::V> {
        visit_type_map_value_arguments_spec::<C>(*self, state)
    }

    fn visit(&self, emitter: &mut C) -> (result: Result<TraversalResult, Error>) {
        visit_type_map_value_arguments(self, emitter)
    }
}

impl<C: AstConverting> AstVisitor<C> for NodeTypeMapValueAllowingTypeArguments {
    open spec fn visited(&self, state: C::V) -> Walk<C::V> {
        visit_type_map_value_allowing_type_arguments_spec::<C>(*self, state)
    }

    fn visit(&self, emitter: &mut C) -> (result: Result<TraversalResult, Error>) {
        visit_type_map_value_allowing_type_arguments(self, emitter)
    }
}

} // verus!
