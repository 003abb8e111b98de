use crate::ast::converting::{AstConverting, AstNode, Walk};
use crate::ast::nodes::{
    NodeAddressType, NodeAddressTypeField, NodeArgumentPattern, NodeAtomicExpression,
    NodeBlockchainFetchArguments, NodeBuiltinArguments, NodeByteStr, NodeComponentBody,
    NodeComponentDefinition, NodeComponentId, NodeComponentParameters, NodeContractDefinition,
    NodeContractField, NodeContractTypeArguments, NodeFullExpression, NodeImportDeclarations,
    NodeImportedName, NodeLibraryDefinition, NodeLibrarySingleDefinition, NodeMapAccess,
    NodeMessageEntry, NodeMetaIdentifier, NodeParameterPair, NodePattern,
    NodePatternMatchClause, NodePatternMatchExpressionClause, NodeProcedureDefinition,
    NodeProgram, NodeRemoteFetchStatement, NodeScillaType, NodeStatement, NodeStatementBlock,
    NodeTransitionDefinition, NodeTypeAlternativeClause, NodeTypeAnnotation, NodeTypeArgument,
    NodeTypeMapEntry, NodeTypeMapKey, NodeTypeMapValue, NodeTypeMapValueAllowingTypeArguments,
    NodeTypeMapValueArguments, NodeTypeNameIdentifier, NodeTypedIdentifier, NodeValueLiteral,
    NodeVariableIdentifier, NodeWithConstraint, SourcePosition,
};
use crate::ast::{TraversalResult, TreeTraversalMode};
use crate::error::Error;
use crate::simplified_representation::emitter::{halted, halted_error, EmitterState, SrEmitter};
use crate::simplified_representation::lowering::{
    address_descriptor, address_field, allowing_descriptor, as_declaration, as_type,
    extended_contract, key_object, meta_name, parameter_fields,
    scilla_type_descriptor, transition_signature, type_argument_descriptor, typed_field,
    unknown, unsupported, value_argument_descriptor, value_descriptor, StackObjectView,
};
use crate::simplified_representation::primitives::{SrIdentifierKind, SrIdentifierView};
use vstd::prelude::*;

verus! {

/// The name of the construct that `node` is, where the lowering does not cover it.
pub open spec fn outside_scope(node: AstNode) -> Option<Seq<char>> {
    match node {
        AstNode::ImportedName(_) => Some("import"@),
        AstNode::ImportDeclarations(_) => Some("import"@),
        AstNode::BuiltinArguments(_) => Some("arguments of a builtin"@),
        AstNode::MessageEntry(_) => Some("message entry"@),
        AstNode::PatternMatchExpressionClause(_) => Some("clause of a match expression"@),
        AstNode::AtomicExpression(_) => Some("atomic expression"@),
        AstNode::ContractTypeArguments(_) => Some("type arguments of a constructor"@),
        AstNode::MapAccess(_) => Some("map access"@),
        AstNode::ArgumentPattern(_) => Some("argument pattern"@),
        AstNode::PatternMatchClause(_) => Some("clause of a match statement"@),
        AstNode::BlockchainFetchArguments(_) => Some("arguments of a blockchain fetch"@),
        AstNode::RemoteFetchStatement(_) => Some("remote fetch"@),
        AstNode::LibrarySingleDefinition(_) => Some("library definition"@),
        _ => None,
    }
}

/// Whether `node` is of a kind that the lowering passes over together with all that is
/// below it: expressions, statements, patterns, bodies, procedures and the like.
pub open spec fn passed_over(node: AstNode) -> bool {
    match node {
        AstNode::VariableIdentifier(_) => true,
        AstNode::FullExpression(_) => true,
        AstNode::ValueLiteral(_) => true,
        AstNode::Pattern(_) => true,
        AstNode::Statement(_) => true,
        AstNode::ComponentBody(_) => true,
        AstNode::ProcedureDefinition(_) => true,
        AstNode::TypeAlternativeClause(_) => true,
        _ => false,
    }
}

/// What the enter hook for `node` does in a state that has not failed.
///
/// A name-bearing leaf leaves an identifier: a type name, the byte string marker among
/// the meta identifiers, the name of a component. The event type, which bears no name,
/// leaves nothing. A type expression leaves the descriptor of its type, a typed name
/// its declaration; a declaration of the contract extends the description.
/// Expressions, statements, patterns, bodies and procedures are skipped. A library
/// opens a namespace. What the lowering does not cover fails.
pub open spec fn entered(state: EmitterState, node: AstNode) -> Walk<EmitterState> {
    match outside_scope(node) {
        Some(what) => state.refused(unsupported(what)),
        None => if passed_over(node) {
            state.kept(TraversalResult::SkipChildren)
        } else {
            match node {
                AstNode::TypeNameIdentifier(node) => if node is EventType {
                    state.kept(TraversalResult::Continue)
                } else {
                    state.pushed(unknown(node.text())).kept(TraversalResult::Continue)
                },
                AstNode::MetaIdentifier(node) => if node is ByteString {
                    state.delivered(Ok(unknown(meta_name(node))))
                } else {
                    state.kept(TraversalResult::Continue)
                },
                AstNode::TypeMapKey(node) => state.delivered(key_object(node)),
                AstNode::TypeMapValue(node) => state.mapped(value_descriptor(node)),
                AstNode::TypeArgument(node) => state.delivered(
                    as_type(type_argument_descriptor(node)),
                ),
                AstNode::ScillaType(node) => state.delivered(as_type(scilla_type_descriptor(node))),
                AstNode::AddressTypeField(node) => state.delivered(
                    as_declaration(address_field(node)),
                ),
                AstNode::AddressType(node) => state.delivered(as_type(address_descriptor(node))),
                AstNode::ComponentId(node) => state.delivered(
                    Ok(
                        StackObjectView::IrIdentifier(
                            SrIdentifierView::named(node.text(), SrIdentifierKind::ComponentName),
                        ),
                    ),
                ),
                AstNode::ComponentParameters(node) => state.with_init_params(
                    parameter_fields(node.parameters@),
                ),
                AstNode::TypedIdentifier(node) => state.delivered(
                    as_declaration(typed_field(node)),
                ),
                AstNode::LibraryDefinition(node) => state.opened(node.name.node.text()).kept(
                    TraversalResult::Continue,
                ),
                AstNode::ContractDefinition(node) => state.recorded(
                    extended_contract(state.contract, node),
                ),
                AstNode::ContractField(node) => state.with_field(
                    typed_field(node.typed_identifier.node),
                ),
                AstNode::TransitionDefinition(node) => state.with_transition(
                    transition_signature(node),
                ),
                AstNode::TypeMapValueArguments(node) => state.delivered(
                    as_type(value_argument_descriptor(node)),
                ),
                AstNode::TypeMapValueAllowingTypeArguments(node) => state.delivered(
                    as_type(allowing_descriptor(node)),
                ),
                _ => state.kept(TraversalResult::Continue),
            }
        },
    }
}

/// Whether the hook for `node` runs its rule whatever the mode it is called with.
pub open spec fn in_either_mode(node: AstNode) -> bool {
    match node {
        AstNode::MetaIdentifier(_) => true,
        AstNode::TypeMapKey(_) => true,
        AstNode::TypeArgument(_) => true,
        AstNode::ScillaType(_) => true,
        AstNode::ComponentId(_) => true,
        AstNode::TypedIdentifier(_) => true,
        AstNode::ContractDefinition(_) => true,
        AstNode::ContractField(_) => true,
        AstNode::TransitionDefinition(_) => true,
        _ => false,
    }
}

/// Whether the hook for `node`, which runs its rule on entry only, asks to skip when it
/// is called on exit.
pub open spec fn skips_on_exit(node: AstNode) -> bool {
    match node {
        AstNode::TypeMapValue(_) => true,
        AstNode::AddressTypeField(_) => true,
        AstNode::AddressType(_) => true,
        AstNode::TypeMapValueArguments(_) => true,
        AstNode::TypeMapValueAllowingTypeArguments(_) => true,
        _ => false,
    }
}

/// What the exit hook for `node` does in a state that has not failed. A rule that runs
/// whatever the mode does on exit what it does on entry. A library closes its
/// namespace. Every other hook changes nothing: what is passed over asks to skip as on
/// entry, so do the rules for map values and address types, and the rest asks to
/// continue.
pub open spec fn exited(state: EmitterState, node: AstNode) -> Walk<EmitterState> {
    match outside_scope(node) {
        Some(what) => state.refused(unsupported(what)),
        None => if in_either_mode(node) {
            entered(state, node)
        } else if passed_over(node) || skips_on_exit(node) {
            state.kept(TraversalResult::SkipChildren)
        } else {
            match node {
                AstNode::LibraryDefinition(_) => state.closed().kept(TraversalResult::Continue),
                _ => state.kept(TraversalResult::Continue),
            }
        },
    }
}

/// What a hook does: nothing but fail once the lowering has failed, else what the mode
/// asks for.
pub open spec fn hooked(state: EmitterState, mode: TreeTraversalMode, node: AstNode) -> Walk<
    EmitterState,
> {
    if state.failed {
        Walk { state, outcome: Err(halted()) }
    } else {
        match mode {
            TreeTraversalMode::Enter => entered(state, node),
            TreeTraversalMode::Exit => exited(state, node),
        }
    }
}

impl AstConverting for SrEmitter {
    open spec fn position_pushed(
        state: EmitterState,
        start: SourcePosition,
        end: SourcePosition,
    ) -> EmitterState {
        state.at(start, end)
    }

    open spec fn position_popped(state: EmitterState) -> EmitterState {
        state.back()
    }

    open spec fn converted(state: EmitterState, mode: TreeTraversalMode, node: AstNode) -> Walk<
        EmitterState,
    > {
        hooked(state, mode, node)
    }

    fn push_source_position(&mut self, start: &SourcePosition, end: &SourcePosition) {
        self.enter(start, end);
    }

    fn pop_source_position(&mut self) {
        self.leave();
    }

    fn emit_byte_str(
        &mut self,
        _mode: TreeTraversalMode,
        _node: &NodeByteStr,
    ) -> (result: Result<TraversalResult, Error>) {
        self.pass(TraversalResult::Continue)
    }

    fn emit_type_name_identifier(
        &mut self,
        mode: TreeTraversalMode,
        node: &NodeTypeNameIdentifier,
    ) -> (result: Result<TraversalResult, Error>) {
        if self.has_failed() {
            return Err(halted_error());
        }
        match mode {
            TreeTraversalMode::Enter => self.lower_type_name_identifier(node),
            TreeTraversalMode::Exit => Ok(TraversalResult::Continue),
        }
    }

    fn emit_imported_name(
        &mut self,
        _mode: TreeTraversalMode,
        _node: &NodeImportedName,
    ) -> (result: Result<TraversalResult, Error>) {
        self.reject("import")
    }

    fn emit_import_declarations(
        &mut self,
        _mode: TreeTraversalMode,
        _node: &NodeImportDeclarations,
    ) -> (result: Result<TraversalResult, Error>) {
        self.reject("import")
    }

    fn emit_meta_identifier(
        &mut self,
        _mode: TreeTraversalMode,
        node: &NodeMetaIdentifier,
    ) -> (result: Result<TraversalResult, Error>) {
        if self.has_failed() {
            return Err(halted_error());
        }
        self.lower_meta_identifier(node)
    }

    fn emit_variable_identifier(
        &mut self,
        _mode: TreeTraversalMode,
        _node: &NodeVariableIdentifier,
    ) -> (result: Result<TraversalResult, Error>) {
        self.pass(TraversalResult::SkipChildren)
    }

    fn emit_builtin_arguments(
        &mut self,
        _mode: TreeTraversalMode,
        _node: &NodeBuiltinArguments,
    ) -> (result: Result<TraversalResult, Error>) {
        self.reject("arguments of a builtin")
    }

    fn emit_type_map_key(
        &mut self,
        _mode: TreeTraversalMode,
        node: &NodeTypeMapKey,
    ) -> (result: Result<TraversalResult, Error>) {
        if self.has_failed() {
            return Err(halted_error());
        }
        self.lower_type_map_key(node)
    }

    fn emit_type_map_value(
        &mut self,
        mode: TreeTraversalMode,
        node: &NodeTypeMapValue,
    ) -> (result: Result<TraversalResult, Error>) {
        if self.has_failed() {
            return Err(halted_error());
        }
        match mode {
            TreeTraversalMode::Enter => self.lower_type_map_value(node),
            TreeTraversalMode::Exit => Ok(TraversalResult::SkipChildren),
        }
    }

    fn emit_type_argument(
        &mut self,
        _mode: TreeTraversalMode,
        node: &NodeTypeArgument,
    ) -> (result: Result<TraversalResult, Error>) {
        if self.has_failed() {
            return Err(halted_error());
        }
        self.lower_type_argument(node)
    }

    fn emit_scilla_type(
        &mut self,
        _mode: TreeTraversalMode,
        node: &NodeScillaType,
    ) -> (result: Result<TraversalResult, Error>) {
        if self.has_failed() {
            return Err(halted_error());
        }
        self.lower_scilla_type(node)
    }

    fn emit_type_map_entry(
        &mut self,
        _mode: TreeTraversalMode,
        _node: &NodeTypeMapEntry,
    ) -> (result: Result<TraversalResult, Error>) {
        self.pass(TraversalResult::Continue)
    }

    fn emit_address_type_field(
        &mut self,
        mode: TreeTraversalMode,
        node: &NodeAddressTypeField,
    ) -> (result: Result<TraversalResult, Error>) {
        if self.has_failed() {
            return Err(halted_error());
        }
        match mode {
            TreeTraversalMode::Enter => self.lower_address_type_field(node),
            TreeTraversalMode::Exit => Ok(TraversalResult::SkipChildren),
        }
    }

    fn emit_address_type(
        &mut self,
        mode: TreeTraversalMode,
        node: &NodeAddressType,
    ) -> (result: Result<TraversalResult, Error>) {
        if self.has_failed() {
            return Err(halted_error());
        }
        match mode {
            TreeTraversalMode::Enter => self.lower_address_type(node),
            TreeTraversalMode::Exit => Ok(TraversalResult::SkipChildren),
        }
    }

    fn emit_full_expression(
        &mut self,
        _mode: TreeTraversalMode,
        _node: &NodeFullExpression,
    ) -> (result: Result<TraversalResult, Error>) {
        self.pass(TraversalResult::SkipChildren)
    }

    fn emit_message_entry(
        &mut self,
        _mode: TreeTraversalMode,
        _node: &NodeMessageEntry,
    ) -> (result: Result<TraversalResult, Error>) {
        self.reject("message entry")
    }

    fn emit_pattern_match_expression_clause(
        &mut self,
        _mode: TreeTraversalMode,
        _node: &NodePatternMatchExpressionClause,
    ) -> (result: Result<TraversalResult, Error>) {
        self.reject("clause of a match expression")
    }

    fn emit_atomic_expression(
        &mut self,
        _mode: TreeTraversalMode,
        _node: &NodeAtomicExpression,
    ) -> (result: Result<TraversalResult, Error>) {
        self.reject("atomic expression")
    }

    fn emit_contract_type_arguments(
        &mut self,
        _mode: TreeTraversalMode,
        _node: &NodeContractTypeArguments,
    ) -> (result: Result<TraversalResult, Error>) {
        self.reject("type arguments of a constructor")
    }

    fn emit_value_literal(
        &mut self,
        _mode: TreeTraversalMode,
        _node: &NodeValueLiteral,
    ) -> (result: Result<TraversalResult, Error>) {
        self.pass(TraversalResult::SkipChildren)
    }

    fn emit_map_access(
        &mut self,
        _mode: TreeTraversalMode,
        _node: &NodeMapAccess,
    ) -> (result: Result<TraversalResult, Error>) {
        self.reject("map access")
    }

    fn emit_pattern(
        &mut self,
        _mode: TreeTraversalMode,
        _node: &NodePattern,
    ) -> (result: Result<TraversalResult, Error>) {
        self.pass(TraversalResult::SkipChildren)
    }

    fn emit_argument_pattern(
        &mut self,
        _mode: TreeTraversalMode,
        _node: &NodeArgumentPattern,
    ) -> (result: Result<TraversalResult, Error>) {
        self.reject("argument pattern")
    }

    fn emit_pattern_match_clause(
        &mut self,
        _mode: TreeTraversalMode,
        _node: &NodePatternMatchClause,
    ) -> (result: Result<TraversalResult, Error>) {
        self.reject("clause of a match statement")
    }

    fn emit_blockchain_fetch_arguments(
        &mut self,
        _mode: TreeTraversalMode,
        _node: &NodeBlockchainFetchArguments,
    ) -> (result: Result<TraversalResult, Error>) {
        self.reject("arguments of a blockchain fetch")
    }

    fn emit_statement(
        &mut self,
        _mode: TreeTraversalMode,
        _node: &NodeStatement,
    ) -> (result: Result<TraversalResult, Error>) {
        self.pass(TraversalResult::SkipChildren)
    }

    fn emit_remote_fetch_statement(
        &mut self,
        _mode: TreeTraversalMode,
        _node: &NodeRemoteFetchStatement,
    ) -> (result: Result<TraversalResult, Error>) {
        self.reject("remote fetch")
    }

    fn emit_component_id(
        &mut self,
        _mode: TreeTraversalMode,
        node: &NodeComponentId,
    ) -> (result: Result<TraversalResult, Error>) {
        if self.has_failed() {
            return Err(halted_error());
        }
        self.lower_component_id(node)
    }

    fn emit_component_parameters(
        &mut self,
        mode: TreeTraversalMode,
        node: &NodeComponentParameters,
    ) -> (result: Result<TraversalResult, Error>) {
        if self.has_failed() {
            return Err(halted_error());
        }
        match mode {
            TreeTraversalMode::Enter => self.lower_component_parameters(node),
            TreeTraversalMode::Exit => Ok(TraversalResult::Continue),
        }
    }

    fn emit_parameter_pair(
        &mut self,
        _mode: TreeTraversalMode,
        _node: &NodeParameterPair,
    ) -> (result: Result<TraversalResult, Error>) {
        self.pass(TraversalResult::Continue)
    }

    fn emit_component_body(
        &mut self,
        _mode: TreeTraversalMode,
        _node: &NodeComponentBody,
    ) -> (result: Result<TraversalResult, Error>) {
        self.pass(TraversalResult::SkipChildren)
    }

    fn emit_statement_block(
        &mut self,
        _mode: TreeTraversalMode,
        _node: &NodeStatementBlock,
    ) -> (result: Result<TraversalResult, Error>) {
        self.pass(TraversalResult::Continue)
    }

    fn emit_typed_identifier(
        &mut self,
        _mode: TreeTraversalMode,
        node: &NodeTypedIdentifier,
    ) -> (result: Result<TraversalResult, Error>) {
        if self.has_failed() {
            return Err(halted_error());
        }
        self.lower_typed_identifier(node)
    }

    fn emit_type_annotation(
        &mut self,
        _mode: TreeTraversalMode,
        _node: &NodeTypeAnnotation,
    ) -> (result: Result<TraversalResult, Error>) {
        self.pass(TraversalResult::Continue)
    }

    fn emit_program(
        &mut self,
        _mode: TreeTraversalMode,
        _node: &NodeProgram,
    ) -> (result: Result<TraversalResult, Error>) {
        self.pass(TraversalResult::Continue)
    }

    fn emit_library_definition(
        &mut self,
        mode: TreeTraversalMode,
        node: &NodeLibraryDefinition,
    ) -> (result: Result<TraversalResult, Error>) {
        if self.has_failed() {
            return Err(halted_error());
        }
        match mode {
            TreeTraversalMode::Enter => self.lower_library_definition(node),
            TreeTraversalMode::Exit => {
                self.close_namespace();
                Ok(TraversalResult::Continue)
            },
        }
    }

    fn emit_library_single_definition(
        &mut self,
        _mode: TreeTraversalMode,
        _node: &NodeLibrarySingleDefinition,
    ) -> (result: Result<TraversalResult, Error>) {
        self.reject("library definition")
    }

    fn emit_contract_definition(
        &mut self,
        _mode: TreeTraversalMode,
        node: &NodeContractDefinition,
    ) -> (result: Result<TraversalResult, Error>) {
        if self.has_failed() {
            return Err(halted_error());
        }
        self.lower_contract_definition(node)
    }

    fn emit_contract_field(
        &mut self,
        _mode: TreeTraversalMode,
        node: &NodeContractField,
    ) -> (result: Result<TraversalResult, Error>) {
        if self.has_failed() {
            return Err(halted_error());
        }
        self.lower_contract_field(node)
    }

    fn emit_with_constraint(
        &mut self,
        _mode: TreeTraversalMode,
        _node: &NodeWithConstraint,
    ) -> (result: Result<TraversalResult, Error>) {
        self.pass(TraversalResult::Continue)
    }

    fn emit_component_definition(
        &mut self,
        _mode: TreeTraversalMode,
        _node: &NodeComponentDefinition,
    ) -> (result: Result<TraversalResult, Error>) {
        self.pass(TraversalResult::Continue)
    }

    fn emit_procedure_definition(
        &mut self,
        _mode: TreeTraversalMode,
        _node: &NodeProcedureDefinition,
    ) -> (result: Result<TraversalResult, Error>) {
        self.pass(TraversalResult::SkipChildren)
    }

    fn emit_transition_definition(
        &mut self,
        _mode: TreeTraversalMode,
        node: &NodeTransitionDefinition,
    ) -> (result: Result<TraversalResult, Error>) {
        if self.has_failed() {
            return Err(halted_error());
        }
        self.lower_transition_definition(node)
    }

    fn emit_type_alternative_clause(
        &mut self,
        _mode: TreeTraversalMode,
        _node: &NodeTypeAlternativeClause,
    ) -> (result: Result<TraversalResult, Error>) {
        self.pass(TraversalResult::SkipChildren)
    }

    fn emit_type_map_value_arguments(
        &mut self,
        mode: TreeTraversalMode,
        node: &NodeTypeMapValueArguments,
    ) -> (result: Result<TraversalResult, Error>) {
        if self.has_failed() {
            return Err(halted_error());
        }
        match mode {
            TreeTraversalMode::Enter => self.lower_type_map_value_arguments(node),
            TreeTraversalMode::Exit => Ok(TraversalResult::SkipChildren),
        }
    }

    fn emit_type_map_value_allowing_type_arguments(
        &mut self,
        mode: TreeTraversalMode,
        node: &NodeTypeMapValueAllowingTypeArguments,
    ) -> (result: Result<TraversalResult, Error>) {
        if self.has_failed() {
            return Err(halted_error());
        }
        match mode {
            TreeTraversalMode::Enter => self.lower_type_map_value_allowing_type_arguments(node),
            TreeTraversalMode::Exit => Ok(TraversalResult::SkipChildren),
        }
    }
}

} // verus!
