use crate::ast::nodes::{
    NodeAddressType, NodeAddressTypeField, NodeArgumentPattern, NodeAtomicExpression,
    NodeBlockchainFetchArguments, NodeBuiltinArguments, NodeByteStr, NodeComponentBody,
    NodeComponentDefinition, NodeComponentId, NodeComponentParameters, NodeContractDefinition,
    NodeContractField, NodeContractTypeArguments, NodeFullExpression, NodeImportDeclarations,
    NodeImportedName, NodeLibraryDefinition, NodeLibrarySingleDefinition, NodeMapAccess,
    NodeMessageEntry, NodeMetaIdentifier, NodeParameterPair, NodePattern, NodePatternMatchClause,
    NodePatternMatchExpressionClause, NodeProcedureDefinition, NodeProgram,
    NodeRemoteFetchStatement, NodeScillaType, NodeStatement, NodeStatementBlock,
    NodeTransitionDefinition, NodeTypeAlternativeClause, NodeTypeAnnotation, NodeTypeArgument,
    NodeTypeMapEntry, NodeTypeMapKey, NodeTypeMapValue, NodeTypeMapValueAllowingTypeArguments,
    NodeTypeMapValueArguments, NodeTypeNameIdentifier, NodeTypedIdentifier, NodeValueLiteral,
    NodeVariableIdentifier, NodeWithConstraint, SourcePosition,
};
use crate::ast::{TraversalResult, TreeTraversalMode};
use crate::error::{Error, ErrorView};
use vstd::prelude::*;

verus! {

/// A syntax tree node of any kind: the tagged union that hooks are stated over.
pub enum AstNode {
    ByteStr(NodeByteStr),
    TypeNameIdentifier(NodeTypeNameIdentifier),
    ImportedName(NodeImportedName),
    ImportDeclarations(NodeImportDeclarations),
    MetaIdentifier(NodeMetaIdentifier),
    VariableIdentifier(NodeVariableIdentifier),
    BuiltinArguments(NodeBuiltinArguments),
    TypeMapKey(NodeTypeMapKey),
    TypeMapValue(NodeTypeMapValue),
    TypeArgument(NodeTypeArgument),
    ScillaType(NodeScillaType),
    TypeMapEntry(NodeTypeMapEntry),
    AddressTypeField(NodeAddressTypeField),
    AddressType(NodeAddressType),
    FullExpression(NodeFullExpression),
    MessageEntry(NodeMessageEntry),
    PatternMatchExpressionClause(NodePatternMatchExpressionClause),
    AtomicExpression(NodeAtomicExpression),
    ContractTypeArguments(NodeContractTypeArguments),
    ValueLiteral(NodeValueLiteral),
    MapAccess(NodeMapAccess),
    Pattern(NodePattern),
    ArgumentPattern(NodeArgumentPattern),
    PatternMatchClause(NodePatternMatchClause),
    BlockchainFetchArguments(NodeBlockchainFetchArguments),
    Statement(NodeStatement),
    RemoteFetchStatement(NodeRemoteFetchStatement),
    ComponentId(NodeComponentId),
    ComponentParameters(NodeComponentParameters),
    ParameterPair(NodeParameterPair),
    ComponentBody(NodeComponentBody),
    StatementBlock(NodeStatementBlock),
    TypedIdentifier(NodeTypedIdentifier),
    TypeAnnotation(NodeTypeAnnotation),
    Program(NodeProgram),
    LibraryDefinition(NodeLibraryDefinition),
    LibrarySingleDefinition(NodeLibrarySingleDefinition),
    ContractDefinition(NodeContractDefinition),
    ContractField(NodeContractField),
    WithConstraint(NodeWithConstraint),
    ComponentDefinition(NodeComponentDefinition),
    ProcedureDefinition(NodeProcedureDefinition),
    TransitionDefinition(NodeTransitionDefinition),
    TypeAlternativeClause(NodeTypeAlternativeClause),
    TypeMapValueArguments(NodeTypeMapValueArguments),
    TypeMapValueAllowingTypeArguments(NodeTypeMapValueAllowingTypeArguments),
}

/// Where a traversal stands: the state that the backend is in, and what the last step
/// returned.
pub struct Walk<S> {
    pub state: S,
    pub outcome: Result<TraversalResult, ErrorView>,
}

impl<S> Walk<S> {
    /// Nothing has been visited yet, or all that was visited asked to continue.
    pub open spec fn proceed(state: S) -> Walk<S> {
        Walk { state, outcome: Ok(TraversalResult::Continue) }
    }

    /// Whether the traversal goes on to what comes next.
    pub open spec fn passed(self) -> bool {
        self.outcome == Ok::<TraversalResult, ErrorView>(TraversalResult::Continue)
    }

    /// Whether the traversal has failed.
    pub open spec fn failed(self) -> bool {
        self.outcome is Err
    }

    /// What the visit of a node comes to when this is what its enter hook did and the
    /// hook did not ask for the children: the failure of the hook, or a request to
    /// continue in the state that the hook left.
    pub open spec fn adopted(self) -> Walk<S> {
        match self.outcome {
            Ok(_) => Walk::proceed(self.state),
            Err(_) => self,
        }
    }
}

/// The state of a backend together with the value of what a step returned.
pub open spec fn walked<S>(state: S, result: Result<TraversalResult, Error>) -> Walk<S> {
    Walk {
        state,
        outcome: match result {
            Ok(signal) => Ok(signal),
            Err(error) => Err(error@),
        },
    }
}

/// Whether a visit asked its caller to go on with what comes next.
pub fn goes_on(result: &Result<TraversalResult, Error>) -> (yes: bool)
    ensures
        yes == (*result matches Ok(TraversalResult::Continue)),
{
    match result {
        Ok(TraversalResult::Continue) => true,
        _ => false,
    }
}

/// The `AstConverting` trait is the interface that a conversion of the Scilla AST implements:
/// one hook per kind of node, called with `Enter` before the node's children are visited
/// and with `Exit` after them, and two hooks that follow the source position.
///
/// What a hook does is a function of the backend's state, the mode and the node:
/// `converted` gives the state that the hook leaves and what it returns.
pub trait AstConverting: View + Sized {
    /// The state after `push_source_position`.
    spec fn position_pushed(state: Self::V, start: SourcePosition, end: SourcePosition) -> Self::V;

    /// The state after `pop_source_position`.
    spec fn position_popped(state: Self::V) -> Self::V;

    /// The state that the hook for `node` leaves when it is called in `state`, and what
    /// it returns.
    spec fn converted(state: Self::V, mode: TreeTraversalMode, node: AstNode) -> Walk<Self::V>;

    /// Pushes the source position of a specific AST node to the stack.
    fn push_source_position(&mut self, start: &SourcePosition, end: &SourcePosition)
        ensures
            final(self)@ == Self::position_pushed(old(self)@, *start, *end),
    ;

    /// Pops the source position of a specific AST node from the stack.
    fn pop_source_position(&mut self)
        ensures
            final(self)@ == Self::position_popped(old(self)@),
    ;

    /// Converts a `NodeByteStr` node.
    fn emit_byte_str(
        &mut self,
        mode: TreeTraversalMode,
        node: &NodeByteStr,
    ) -> (result: Result<TraversalResult, Error>)
        ensures
            walked(final(self)@, result) == Self::converted(
                old(self)@,
                mode,
                AstNode::ByteStr(*node),
            ),
    ;

    /// Converts a `NodeTypeNameIdentifier` node.
    fn emit_type_name_identifier(
        &mut self,
        mode: TreeTraversalMode,
        node: &NodeTypeNameIdentifier,
    ) -> (result: Result<TraversalResult, Error>)
        ensures
            walked(final(self)@, result) == Self::converted(
                old(self)@,
                mode,
                AstNode::TypeNameIdentifier(*node),
            ),
    ;

    /// Converts a `NodeImportedName` node.
    fn emit_imported_name(
        &mut self,
        mode: TreeTraversalMode,
        node: &NodeImportedName,
    ) -> (result: Result<TraversalResult, Error>)
        ensures
            walked(final(self)@, result) == Self::converted(
                old(self)@,
                mode,
                AstNode::ImportedName(*node),
            ),
    ;

    /// Converts a `NodeImportDeclarations` node.
    fn emit_import_declarations(
        &mut self,
        mode: TreeTraversalMode,
        node: &NodeImportDeclarations,
    ) -> (result: Result<TraversalResult, Error>)
        ensures
            walked(final(self)@, result) == Self::converted(
                old(self)@,
                mode,
                AstNode::ImportDeclarations(*node),
            ),
    ;

    /// Converts a `NodeMetaIdentifier` node.
    fn emit_meta_identifier(
        &mut self,
        mode: TreeTraversalMode,
        node: &NodeMetaIdentifier,
    ) -> (result: Result<TraversalResult, Error>)
        ensures
            walked(final(self)@, result) == Self::converted(
                old(self)@,
                mode,
                AstNode::MetaIdentifier(*node),
            ),
    ;

    /// Converts a `NodeVariableIdentifier` node.
    fn emit_variable_identifier(
        &mut self,
        mode: TreeTraversalMode,
        node: &NodeVariableIdentifier,
    ) -> (result: Result<TraversalResult, Error>)
        ensures
            walked(final(self)@, result) == Self::converted(
                old(self)@,
                mode,
                AstNode::VariableIdentifier(*node),
            ),
    ;

    /// Converts a `NodeBuiltinArguments` node.
    fn emit_builtin_arguments(
        &mut self,
        mode: TreeTraversalMode,
        node: &NodeBuiltinArguments,
    ) -> (result: Result<TraversalResult, Error>)
        ensures
            walked(final(self)@, result) == Self::converted(
                old(self)@,
                mode,
                AstNode::BuiltinArguments(*node),
            ),
    ;

    /// Converts a `NodeTypeMapKey` node.
    fn emit_type_map_key(
        &mut self,
        mode: TreeTraversalMode,
        node: &NodeTypeMapKey,
    ) -> (result: Result<TraversalResult, Error>)
        ensures
            walked(final(self)@, result) == Self::converted(
                old(self)@,
                mode,
                AstNode::TypeMapKey(*node),
            ),
    ;

    /// Converts a `NodeTypeMapValue` node.
    fn emit_type_map_value(
        &mut self,
        mode: TreeTraversalMode,
        node: &NodeTypeMapValue,
    ) -> (result: Result<TraversalResult, Error>)
        ensures
            walked(final(self)@, result) == Self::converted(
                old(self)@,
                mode,
                AstNode::TypeMapValue(*node),
            ),
    ;

    /// Converts a `NodeTypeArgument` node.
    fn emit_type_argument(
        &mut self,
        mode: TreeTraversalMode,
        node: &NodeTypeArgument,
    ) -> (result: Result<TraversalResult, Error>)
        ensures
            walked(final(self)@, result) == Self::converted(
                old(self)@,
                mode,
                AstNode::TypeArgument(*node),
            ),
    ;

    /// Converts a `NodeScillaType` node.
    fn emit_scilla_type(
        &mut self,
        mode: TreeTraversalMode,
        node: &NodeScillaType,
    ) -> (result: Result<TraversalResult, Error>)
        ensures
            walked(final(self)@, result) == Self::converted(
                old(self)@,
                mode,
                AstNode::ScillaType(*node),
            ),
    ;

    /// Converts a `NodeTypeMapEntry` node.
    fn emit_type_map_entry(
        &mut self,
        mode: TreeTraversalMode,
        node: &NodeTypeMapEntry,
    ) -> (result: Result<TraversalResult, Error>)
        ensures
            walked(final(self)@, result) == Self::converted(
                old(self)@,
                mode,
                AstNode::TypeMapEntry(*node),
            ),
    ;

    /// Converts a `NodeAddressTypeField` node.
    fn emit_address_type_field(
        &mut self,
        mode: TreeTraversalMode,
        node: &NodeAddressTypeField,
    ) -> (result: Result<TraversalResult, Error>)
        ensures
            walked(final(self)@, result) == Self::converted(
                old(self)@,
                mode,
                AstNode::AddressTypeField(*node),
            ),
    ;

    /// Converts a `NodeAddressType` node.
    fn emit_address_type(
        &mut self,
        mode: TreeTraversalMode,
        node: &NodeAddressType,
    ) -> (result: Result<TraversalResult, Error>)
        ensures
            walked(final(self)@, result) == Self::converted(
                old(self)@,
                mode,
                AstNode::AddressType(*node),
            ),
    ;

    /// Converts a `NodeFullExpression` node.
    fn emit_full_expression(
        &mut self,
        mode: TreeTraversalMode,
        node: &NodeFullExpression,
    ) -> (result: Result<TraversalResult, Error>)
        ensures
            walked(final(self)@, result) == Self::converted(
                old(self)@,
                mode,
                AstNode::FullExpression(*node),
            ),
    ;

    /// Converts a `NodeMessageEntry` node.
    fn emit_message_entry(
        &mut self,
        mode: TreeTraversalMode,
        node: &NodeMessageEntry,
    ) -> (result: Result<TraversalResult, Error>)
        ensures
            walked(final(self)@, result) == Self::converted(
                old(self)@,
                mode,
                AstNode::MessageEntry(*node),
            ),
    ;

    /// Converts a `NodePatternMatchExpressionClause` node.
    fn emit_pattern_match_expression_clause(
        &mut self,
        mode: TreeTraversalMode,
        node: &NodePatternMatchExpressionClause,
    ) -> (result: Result<TraversalResult, Error>)
        ensures
            walked(final(self)@, result) == Self::converted(
                old(self)@,
                mode,
                AstNode::PatternMatchExpressionClause(*node),
            ),
    ;

    /// Converts a `NodeAtomicExpression` node.
    fn emit_atomic_expression(
        &mut self,
        mode: TreeTraversalMode,
        node: &NodeAtomicExpression,
    ) -> (result: Result<TraversalResult, Error>)
        ensures
            walked(final(self)@, result) == Self::converted(
                old(self)@,
                mode,
                AstNode::AtomicExpression(*node),
            ),
    ;

    /// Converts a `NodeContractTypeArguments` node.
    fn emit_contract_type_arguments(
        &mut self,
        mode: TreeTraversalMode,
        node: &NodeContractTypeArguments,
    ) -> (result: Result<TraversalResult, Error>)
        ensures
            walked(final(self)@, result) == Self::converted(
                old(self)@,
                mode,
                AstNode::ContractTypeArguments(*node),
            ),
    ;

    /// Converts a `NodeValueLiteral` node.
    fn emit_value_literal(
        &mut self,
        mode: TreeTraversalMode,
        node: &NodeValueLiteral,
    ) -> (result: Result<TraversalResult, Error>)
        ensures
            walked(final(self)@, result) == Self::converted(
                old(self)@,
                mode,
                AstNode::ValueLiteral(*node),
            ),
    ;

    /// Converts a `NodeMapAccess` node.
    fn emit_map_access(
        &mut self,
        mode: TreeTraversalMode,
        node: &NodeMapAccess,
    ) -> (result: Result<TraversalResult, Error>)
        ensures
            walked(final(self)@, result) == Self::converted(
                old(self)@,
                mode,
                AstNode::MapAccess(*node),
            ),
    ;

    /// Converts a `NodePattern` node.
    fn emit_pattern(
        &mut self,
        mode: TreeTraversalMode,
        node: &NodePattern,
    ) -> (result: Result<TraversalResult, Error>)
        ensures
            walked(final(self)@, result) == Self::converted(
                old(self)@,
                mode,
                AstNode::Pattern(*node),
            ),
    ;

    /// Converts a `NodeArgumentPattern` node.
    fn emit_argument_pattern(
        &mut self,
        mode: TreeTraversalMode,
        node: &NodeArgumentPattern,
    ) -> (result: Result<TraversalResult, Error>)
        ensures
            walked(final(self)@, result) == Self::converted(
                old(self)@,
                mode,
                AstNode::ArgumentPattern(*node),
            ),
    ;

    /// Converts a `NodePatternMatchClause` node.
    fn emit_pattern_match_clause(
        &mut self,
        mode: TreeTraversalMode,
        node: &NodePatternMatchClause,
    ) -> (result: Result<TraversalResult, Error>)
        ensures
            walked(final(self)@, result) == Self::converted(
                old(self)@,
                mode,
                AstNode::PatternMatchClause(*node),
            ),
    ;

    /// Converts a `NodeBlockchainFetchArguments` node.
    fn emit_blockchain_fetch_arguments(
        &mut self,
        mode: TreeTraversalMode,
        node: &NodeBlockchainFetchArguments,
    ) -> (result: Result<TraversalResult, Error>)
        ensures
            walked(final(self)@, result) == Self::converted(
                old(self)@,
                mode,
                AstNode::BlockchainFetchArguments(*node),
            ),
    ;

    /// Converts a `NodeStatement` node.
    fn emit_statement(
        &mut self,
        mode: TreeTraversalMode,
        node: &NodeStatement,
    ) -> (result: Result<TraversalResult, Error>)
        ensures
            walked(final(self)@, result) == Self::converted(
                old(self)@,
                mode,
                AstNode::Statement(*node),
            ),
    ;

    /// Converts a `NodeRemoteFetchStatement` node.
    fn emit_remote_fetch_statement(
        &mut self,
        mode: TreeTraversalMode,
        node: &NodeRemoteFetchStatement,
    ) -> (result: Result<TraversalResult, Error>)
        ensures
            walked(final(self)@, result) == Self::converted(
                old(self)@,
                mode,
                AstNode::RemoteFetchStatement(*node),
            ),
    ;

    /// Converts a `NodeComponentId` node.
    fn emit_component_id(
        &mut self,
        mode: TreeTraversalMode,
        node: &NodeComponentId,
    ) -> (result: Result<TraversalResult, Error>)
        ensures
            walked(final(self)@, result) == Self::converted(
                old(self)@,
                mode,
                AstNode::ComponentId(*node),
            ),
    ;

    /// Converts a `NodeComponentParameters` node.
    fn emit_component_parameters(
        &mut self,
        mode: TreeTraversalMode,
        node: &NodeComponentParameters,
    ) -> (result: Result<TraversalResult, Error>)
        ensures
            walked(final(self)@, result) == Self::converted(
                old(self)@,
                mode,
                AstNode::ComponentParameters(*node),
            ),
    ;

    /// Converts a `NodeParameterPair` node.
    fn emit_parameter_pair(
        &mut self,
        mode: TreeTraversalMode,
        node: &NodeParameterPair,
    ) -> (result: Result<TraversalResult, Error>)
        ensures
            walked(final(self)@, result) == Self::converted(
                old(self)@,
                mode,
                AstNode::ParameterPair(*node),
            ),
    ;

    /// Converts a `NodeComponentBody` node.
    fn emit_component_body(
        &mut self,
        mode: TreeTraversalMode,
        node: &NodeComponentBody,
    ) -> (result: Result<TraversalResult, Error>)
        ensures
            walked(final(self)@, result) == Self::converted(
                old(self)@,
                mode,
                AstNode::ComponentBody(*node),
            ),
    ;

    /// Converts a `NodeStatementBlock` node.
    fn emit_statement_block(
        &mut self,
        mode: TreeTraversalMode,
        node: &NodeStatementBlock,
    ) -> (result: Result<TraversalResult, Error>)
        ensures
            walked(final(self)@, result) == Self::converted(
                old(self)@,
                mode,
                AstNode::StatementBlock(*node),
            ),
    ;

    /// Converts a `NodeTypedIdentifier` node.
    fn emit_typed_identifier(
        &mut self,
        mode: TreeTraversalMode,
        node: &NodeTypedIdentifier,
    ) -> (result: Result<TraversalResult, Error>)
        ensures
            walked(final(self)@, result) == Self::converted(
                old(self)@,
                mode,
                AstNode::TypedIdentifier(*node),
            ),
    ;

    /// Converts a `NodeTypeAnnotation` node.
    fn emit_type_annotation(
        &mut self,
        mode: TreeTraversalMode,
        node: &NodeTypeAnnotation,
    ) -> (result: Result<TraversalResult, Error>)
        ensures
            walked(final(self)@, result) == Self::converted(
                old(self)@,
                mode,
                AstNode::TypeAnnotation(*node),
            ),
    ;

    /// Converts a `NodeProgram` node.
    fn emit_program(
        &mut self,
        mode: TreeTraversalMode,
        node: &NodeProgram,
    ) -> (result: Result<TraversalResult, Error>)
        ensures
            walked(final(self)@, result) == Self::converted(
                old(self)@,
                mode,
                AstNode::Program(*node),
            ),
    ;

    /// Converts a `NodeLibraryDefinition` node.
    fn emit_library_definition(
        &mut self,
        mode: TreeTraversalMode,
        node: &NodeLibraryDefinition,
    ) -> (result: Result<TraversalResult, Error>)
        ensures
            walked(final(self)@, result) == Self::converted(
                old(self)@,
                mode,
                AstNode::LibraryDefinition(*node),
            ),
    ;

    /// Converts a `NodeLibrarySingleDefinition` node.
    fn emit_library_single_definition(
        &mut self,
        mode: TreeTraversalMode,
        node: &NodeLibrarySingleDefinition,
    ) -> (result: Result<TraversalResult, Error>)
        ensures
            walked(final(self)@, result) == Self::converted(
                old(self)@,
                mode,
                AstNode::LibrarySingleDefinition(*node),
            ),
    ;

    /// Converts a `NodeContractDefinition` node.
    fn emit_contract_definition(
        &mut self,
        mode: TreeTraversalMode,
        node: &NodeContractDefinition,
    ) -> (result: Result<TraversalResult, Error>)
        ensures
            walked(final(self)@, result) == Self::converted(
                old(self)@,
                mode,
                AstNode::ContractDefinition(*node),
            ),
    ;

    /// Converts a `NodeContractField` node.
    fn emit_contract_field(
        &mut self,
        mode: TreeTraversalMode,
        node: &NodeContractField,
    ) -> (result: Result<TraversalResult, Error>)
        ensures
            walked(final(self)@, result) == Self::converted(
                old(self)@,
                mode,
                AstNode::ContractField(*node),
            ),
    ;

    /// Converts a `NodeWithConstraint` node.
    fn emit_with_constraint(
        &mut self,
        mode: TreeTraversalMode,
        node: &NodeWithConstraint,
    ) -> (result: Result<TraversalResult, Error>)
        ensures
            walked(final(self)@, result) == Self::converted(
                old(self)@,
                mode,
                AstNode::WithConstraint(*node),
            ),
    ;

    /// Converts a `NodeComponentDefinition` node.
    fn emit_component_definition(
        &mut self,
        mode: TreeTraversalMode,
        node: &NodeComponentDefinition,
    ) -> (result: Result<TraversalResult, Error>)
        ensures
            walked(final(self)@, result) == Self::converted(
                old(self)@,
                mode,
                AstNode::ComponentDefinition(*node),
            ),
    ;

    /// Converts a `NodeProcedureDefinition` node.
    fn emit_procedure_definition(
        &mut self,
        mode: TreeTraversalMode,
        node: &NodeProcedureDefinition,
    ) -> (result: Result<TraversalResult, Error>)
        ensures
            walked(final(self)@, result) == Self::converted(
                old(self)@,
                mode,
                AstNode::ProcedureDefinition(*node),
            ),
    ;

    /// Converts a `NodeTransitionDefinition` node.
    fn emit_transition_definition(
        &mut self,
        mode: TreeTraversalMode,
        node: &NodeTransitionDefinition,
    ) -> (result: Result<TraversalResult, Error>)
        ensures
            walked(final(self)@, result) == Self::converted(
                old(self)@,
                mode,
                AstNode::TransitionDefinition(*node),
            ),
    ;

    /// Converts a `NodeTypeAlternativeClause` node.
    fn emit_type_alternative_clause(
        &mut self,
        mode: TreeTraversalMode,
        node: &NodeTypeAlternativeClause,
    ) -> (result: Result<TraversalResult, Error>)
        ensures
            walked(final(self)@, result) == Self::converted(
                old(self)@,
                mode,
                AstNode::TypeAlternativeClause(*node),
            ),
    ;

    /// Converts a `NodeTypeMapValueArguments` node.
    fn emit_type_map_value_arguments(
        &mut self,
        mode: TreeTraversalMode,
        node: &NodeTypeMapValueArguments,
    ) -> (result: Result<TraversalResult, Error>)
        ensures
            walked(final(self)@, result) == Self::converted(
                old(self)@,
                mode,
                AstNode::TypeMapValueArguments(*node),
            ),
    ;

    /// Converts a `NodeTypeMapValueAllowingTypeArguments` node.
    fn emit_type_map_value_allowing_type_arguments(
        &mut self,
        mode: TreeTraversalMode,
        node: &NodeTypeMapValueAllowingTypeArguments,
    ) -> (result: Result<TraversalResult, Error>)
        ensures
            walked(final(self)@, result) == Self::converted(
                old(self)@,
                mode,
                AstNode::TypeMapValueAllowingTypeArguments(*node),
            ),
    ;
}

/// The traversal after the node that was entered with a pushed source position has been
/// left again.
pub open spec fn within<C: AstConverting>(inner: Walk<C::V>) -> Walk<C::V> {
    Walk { state: C::position_popped(inner.state), outcome: inner.outcome }
}

/// What the visit of `node` comes to, given what its enter hook did and what the visit
/// of its children, started in the state that the enter hook left, came to.
///
/// A failed enter hook fails the visit. An enter hook that asks to skip the children
/// ends the visit, which asks its caller to continue. Otherwise the children decide:
/// when all of them ask to continue, the exit hook runs and its result is the visit's;
/// when one of them fails or asks to skip, that is the visit's result and the exit hook
/// does not run.
pub open spec fn conclude<C: AstConverting>(
    node: AstNode,
    entered: Walk<C::V>,
    children: Walk<C::V>,
) -> Walk<C::V> {
    match entered.outcome {
        Err(_) => entered,
        Ok(TraversalResult::SkipChildren) => Walk::proceed(entered.state),
        Ok(TraversalResult::Continue) => if children.passed() {
            C::converted(children.state, TreeTraversalMode::Exit, node)
        } else {
            children
        },
    }
}

} // verus!
