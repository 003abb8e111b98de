use scilla_parser::ast::converting::{goes_on, AstConverting, AstNode, Walk};
use scilla_parser::ast::nodes::{
    NodeAddressType, NodeAddressTypeField, NodeArgumentPattern, NodeAtomicExpression,
    NodeBlockchainFetchArguments, NodeBuiltinArguments, NodeByteStr, NodeComponentBody,
    NodeComponentDefinition, NodeComponentId, NodeComponentParameters, NodeContractDefinition,
    NodeContractField, NodeContractTypeArguments, NodeFullExpression, NodeImportDeclarations,
    NodeImportedName, NodeLibraryDefinition, NodeLibrarySingleDefinition, NodeMapAccess,
    NodeMessageEntry, NodeMetaIdentifier, NodeParameterPair, NodePattern,
    NodePatternMatchClause, NodePatternMatchExpressionClause, NodeProcedureDefinition,
    NodeProgram, NodeRemoteFetchStatement, NodeScillaType, NodeStatement, NodeStatementBlock,
    NodeTransitionDefinition, NodeTypeAlternativeClause, NodeTypeAnnotation, NodeTypeArgument,
    NodeTypeMapEntry, NodeTypeMapKey, NodeTypeMapValue, NodeTypeMapValueAllowingTypeArguments,
    NodeTypeMapValueArguments, NodeTypeNameIdentifier, NodeTypedIdentifier, NodeValueLiteral,
    NodeVariableIdentifier, NodeWithConstraint, SourcePosition, WithMetaData,
};
use scilla_parser::ast::traversal::statements::visit_each_statement;
use scilla_parser::ast::traversal::types::{visit_scilla_type, visit_type_map_entry};
use scilla_parser::ast::visitor::AstVisitor;
use scilla_parser::ast::{TraversalResult, TreeTraversalMode};
use scilla_parser::Error;
use vstd::view::View;

/// A backend that writes down every call it gets and answers as it was told to.
struct Recorder {
    events: Vec<String>,
    skip_on: Option<&'static str>,
    skip_on_exit: Option<&'static str>,
    fail_on: Option<(&'static str, TreeTraversalMode)>,
    depth: usize,
    deepest: usize,
}

impl Recorder {
    fn new() -> Recorder {
        Recorder {
            events: vec![],
            skip_on: None,
            skip_on_exit: None,
            fail_on: None,
            depth: 0,
            deepest: 0,
        }
    }

    fn hook(
        &mut self,
        kind: &'static str,
        mode: TreeTraversalMode,
    ) -> Result<TraversalResult, Error> {
        let word = match mode {
            TreeTraversalMode::Enter => "enter",
            TreeTraversalMode::Exit => "exit",
        };
        self.events.push(format!("{} {}", word, kind));
        if self.fail_on == Some((kind, mode)) {
            return Err(Error::AstVisitError(format!("{} {}", word, kind)));
        }
        if mode == TreeTraversalMode::Enter && self.skip_on == Some(kind) {
            return Ok(TraversalResult::SkipChildren);
        }
        if mode == TreeTraversalMode::Exit && self.skip_on_exit == Some(kind) {
            return Ok(TraversalResult::SkipChildren);
        }
        Ok(TraversalResult::Continue)
    }

    fn hooks(&self) -> Vec<&str> {
        self.events
            .iter()
            .map(|e| e.as_str())
            .filter(|e| *e != "push" && *e != "pop")
            .collect()
    }

    fn count(&self, event: &str) -> usize {
        self.events.iter().filter(|e| e.as_str() == event).count()
    }
}

impl View for Recorder {
    type V = ();

    fn view(&self) {}
}

impl AstConverting for Recorder {
    fn position_pushed(_state: (), _start: SourcePosition, _end: SourcePosition) {}

    fn position_popped(_state: ()) {}

    fn converted(_state: (), _mode: TreeTraversalMode, _node: AstNode) -> Walk<()> {
        unreachable!()
    }

    fn push_source_position(&mut self, _start: &SourcePosition, _end: &SourcePosition) {
        self.depth += 1;
        if self.depth > self.deepest {
            self.deepest = self.depth;
        }
        self.events.push("push".to_string());
    }

    fn pop_source_position(&mut self) {
        self.depth -= 1;
        self.events.push("pop".to_string());
    }

    fn emit_byte_str(
        &mut self,
        mode: TreeTraversalMode,
        _node: &NodeByteStr,
    ) -> Result<TraversalResult, Error> {
        self.hook("byte_str", mode)
    }

    fn emit_type_name_identifier(
        &mut self,
        mode: TreeTraversalMode,
        _node: &NodeTypeNameIdentifier,
    ) -> Result<TraversalResult, Error> {
        self.hook("type_name_identifier", mode)
    }

    fn emit_imported_name(
        &mut self,
        mode: TreeTraversalMode,
        _node: &NodeImportedName,
    ) -> Result<TraversalResult, Error> {
        self.hook("imported_name", mode)
    }

    fn emit_import_declarations(
        &mut self,
        mode: TreeTraversalMode,
        _node: &NodeImportDeclarations,
    ) -> Result<TraversalResult, Error> {
        self.hook("import_declarations", mode)
    }

    fn emit_meta_identifier(
        &mut self,
        mode: TreeTraversalMode,
        _node: &NodeMetaIdentifier,
    ) -> Result<TraversalResult, Error> {
        self.hook("meta_identifier", mode)
    }

    fn emit_variable_identifier(
        &mut self,
        mode: TreeTraversalMode,
        _node: &NodeVariableIdentifier,
    ) -> Result<TraversalResult, Error> {
        self.hook("variable_identifier", mode)
    }

    fn emit_builtin_arguments(
        &mut self,
        mode: TreeTraversalMode,
        _node: &NodeBuiltinArguments,
    ) -> Result<TraversalResult, Error> {
        self.hook("builtin_arguments", mode)
    }

    fn emit_type_map_key(
        &mut self,
        mode: TreeTraversalMode,
        _node: &NodeTypeMapKey,
    ) -> Result<TraversalResult, Error> {
        self.hook("type_map_key", mode)
    }

    fn emit_type_map_value(
        &mut self,
        mode: TreeTraversalMode,
        _node: &NodeTypeMapValue,
    ) -> Result<TraversalResult, Error> {
        self.hook("type_map_value", mode)
    }

    fn emit_type_argument(
        &mut self,
        mode: TreeTraversalMode,
        _node: &NodeTypeArgument,
    ) -> Result<TraversalResult, Error> {
        self.hook("type_argument", mode)
    }

    fn emit_scilla_type(
        &mut self,
        mode: TreeTraversalMode,
        _node: &NodeScillaType,
    ) -> Result<TraversalResult, Error> {
        self.hook("scilla_type", mode)
    }

    fn emit_type_map_entry(
        &mut self,
        mode: TreeTraversalMode,
        _node: &NodeTypeMapEntry,
    ) -> Result<TraversalResult, Error> {
        self.hook("type_map_entry", mode)
    }

    fn emit_address_type_field(
        &mut self,
        mode: TreeTraversalMode,
        _node: &NodeAddressTypeField,
    ) -> Result<TraversalResult, Error> {
        self.hook("address_type_field", mode)
    }

    fn emit_address_type(
        &mut self,
        mode: TreeTraversalMode,
        _node: &NodeAddressType,
    ) -> Result<TraversalResult, Error> {
        self.hook("address_type", mode)
    }

    fn emit_full_expression(
        &mut self,
        mode: TreeTraversalMode,
        _node: &NodeFullExpression,
    ) -> Result<TraversalResult, Error> {
        self.hook("full_expression", mode)
    }

    fn emit_message_entry(
        &mut self,
        mode: TreeTraversalMode,
        _node: &NodeMessageEntry,
    ) -> Result<TraversalResult, Error> {
        self.hook("message_entry", mode)
    }

    fn emit_pattern_match_expression_clause(
        &mut self,
        mode: TreeTraversalMode,
        _node: &NodePatternMatchExpressionClause,
    ) -> Result<TraversalResult, Error> {
        self.hook("pattern_match_expression_clause", mode)
    }

    fn emit_atomic_expression(
        &mut self,
        mode: TreeTraversalMode,
        _node: &NodeAtomicExpression,
    ) -> Result<TraversalResult, Error> {
        self.hook("atomic_expression", mode)
    }

    fn emit_contract_type_arguments(
        &mut self,
        mode: TreeTraversalMode,
        _node: &NodeContractTypeArguments,
    ) -> Result<TraversalResult, Error> {
        self.hook("contract_type_arguments", mode)
    }

    fn emit_value_literal(
        &mut self,
        mode: TreeTraversalMode,
        _node: &NodeValueLiteral,
    ) -> Result<TraversalResult, Error> {
        self.hook("value_literal", mode)
    }

    fn emit_map_access(
        &mut self,
        mode: TreeTraversalMode,
        _node: &NodeMapAccess,
    ) -> Result<TraversalResult, Error> {
        self.hook("map_access", mode)
    }

    fn emit_pattern(
        &mut self,
        mode: TreeTraversalMode,
        _node: &NodePattern,
    ) -> Result<TraversalResult, Error> {
        self.hook("pattern", mode)
    }

    fn emit_argument_pattern(
        &mut self,
        mode: TreeTraversalMode,
        _node: &NodeArgumentPattern,
    ) -> Result<TraversalResult, Error> {
        self.hook("argument_pattern", mode)
    }

    fn emit_pattern_match_clause(
        &mut self,
        mode: TreeTraversalMode,
        _node: &NodePatternMatchClause,
    ) -> Result<TraversalResult, Error> {
        self.hook("pattern_match_clause", mode)
    }

    fn emit_blockchain_fetch_arguments(
        &mut self,
        mode: TreeTraversalMode,
        _node: &NodeBlockchainFetchArguments,
    ) -> Result<TraversalResult, Error> {
        self.hook("blockchain_fetch_arguments", mode)
    }

    fn emit_statement(
        &mut self,
        mode: TreeTraversalMode,
        _node: &NodeStatement,
    ) -> Result<TraversalResult, Error> {
        self.hook("statement", mode)
    }

    fn emit_remote_fetch_statement(
        &mut self,
        mode: TreeTraversalMode,
        _node: &NodeRemoteFetchStatement,
    ) -> Result<TraversalResult, Error> {
        self.hook("remote_fetch_statement", mode)
    }

    fn emit_component_id(
        &mut self,
        mode: TreeTraversalMode,
        _node: &NodeComponentId,
    ) -> Result<TraversalResult, Error> {
        self.hook("component_id", mode)
    }

    fn emit_component_parameters(
        &mut self,
        mode: TreeTraversalMode,
        _node: &NodeComponentParameters,
    ) -> Result<TraversalResult, Error> {
        self.hook("component_parameters", mode)
    }

    fn emit_parameter_pair(
        &mut self,
        mode: TreeTraversalMode,
        _node: &NodeParameterPair,
    ) -> Result<TraversalResult, Error> {
        self.hook("parameter_pair", mode)
    }

    fn emit_component_body(
        &mut self,
        mode: TreeTraversalMode,
        _node: &NodeComponentBody,
    ) -> Result<TraversalResult, Error> {
        self.hook("component_body", mode)
    }

    fn emit_statement_block(
        &mut self,
        mode: TreeTraversalMode,
        _node: &NodeStatementBlock,
    ) -> Result<TraversalResult, Error> {
        self.hook("statement_block", mode)
    }

    fn emit_typed_identifier(
        &mut self,
        mode: TreeTraversalMode,
        _node: &NodeTypedIdentifier,
    ) -> Result<TraversalResult, Error> {
        self.hook("typed_identifier", mode)
    }

    fn emit_type_annotation(
        &mut self,
        mode: TreeTraversalMode,
        _node: &NodeTypeAnnotation,
    ) -> Result<TraversalResult, Error> {
        self.hook("type_annotation", mode)
    }

    fn emit_program(
        &mut self,
        mode: TreeTraversalMode,
        _node: &NodeProgram,
    ) -> Result<TraversalResult, Error> {
        self.hook("program", mode)
    }

    fn emit_library_definition(
        &mut self,
        mode: TreeTraversalMode,
        _node: &NodeLibraryDefinition,
    ) -> Result<TraversalResult, Error> {
        self.hook("library_definition", mode)
    }

    fn emit_library_single_definition(
        &mut self,
        mode: TreeTraversalMode,
        _node: &NodeLibrarySingleDefinition,
    ) -> Result<TraversalResult, Error> {
        self.hook("library_single_definition", mode)
    }

    fn emit_contract_definition(
        &mut self,
        mode: TreeTraversalMode,
        _node: &NodeContractDefinition,
    ) -> Result<TraversalResult, Error> {
        self.hook("contract_definition", mode)
    }

    fn emit_contract_field(
        &mut self,
        mode: TreeTraversalMode,
        _node: &NodeContractField,
    ) -> Result<TraversalResult, Error> {
        self.hook("contract_field", mode)
    }

    fn emit_with_constraint(
        &mut self,
        mode: TreeTraversalMode,
        _node: &NodeWithConstraint,
    ) -> Result<TraversalResult, Error> {
        self.hook("with_constraint", mode)
    }

    fn emit_component_definition(
        &mut self,
        mode: TreeTraversalMode,
        _node: &NodeComponentDefinition,
    ) -> Result<TraversalResult, Error> {
        self.hook("component_definition", mode)
    }

    fn emit_procedure_definition(
        &mut self,
        mode: TreeTraversalMode,
        _node: &NodeProcedureDefinition,
    ) -> Result<TraversalResult, Error> {
        self.hook("procedure_definition", mode)
    }

    fn emit_transition_definition(
        &mut self,
        mode: TreeTraversalMode,
        _node: &NodeTransitionDefinition,
    ) -> Result<TraversalResult, Error> {
        self.hook("transition_definition", mode)
    }

    fn emit_type_alternative_clause(
        &mut self,
        mode: TreeTraversalMode,
        _node: &NodeTypeAlternativeClause,
    ) -> Result<TraversalResult, Error> {
        self.hook("type_alternative_clause", mode)
    }

    fn emit_type_map_value_arguments(
        &mut self,
        mode: TreeTraversalMode,
        _node: &NodeTypeMapValueArguments,
    ) -> Result<TraversalResult, Error> {
        self.hook("type_map_value_arguments", mode)
    }

    fn emit_type_map_value_allowing_type_arguments(
        &mut self,
        mode: TreeTraversalMode,
        _node: &NodeTypeMapValueAllowingTypeArguments,
    ) -> Result<TraversalResult, Error> {
        self.hook("type_map_value_allowing_type_arguments", mode)
    }
}

fn at<T>(node: T) -> WithMetaData<T> {
    WithMetaData {
        node,
        start: SourcePosition { position: 3, line: 1, column: 3 },
        end: SourcePosition { position: 9, line: 1, column: 9 },
    }
}

fn text(s: &str) -> WithMetaData<String> {
    at(s.to_string())
}

fn named(name: &str) -> WithMetaData<NodeMetaIdentifier> {
    at(NodeMetaIdentifier::MetaName(at(NodeTypeNameIdentifier::TypeOrEnumLikeIdentifier(text(
        name,
    )))))
}

fn variable(name: &str) -> WithMetaData<NodeVariableIdentifier> {
    at(NodeVariableIdentifier::VariableName(text(name)))
}

fn map_type() -> NodeScillaType {
    NodeScillaType::MapType(
        at(NodeTypeMapKey::GenericMapKey(named("String"))),
        at(NodeTypeMapValue::MapValueTypeOrEnumLikeIdentifier(named("BNum"))),
    )
}

fn pair_type() -> NodeScillaType {
    NodeScillaType::GenericTypeWithArgs(
        named("Pair"),
        vec![
            at(NodeTypeArgument::GenericTypeArgument(named("Uint32"))),
            at(NodeTypeArgument::GenericTypeArgument(named("Uint64"))),
        ],
    )
}

fn statements() -> Vec<NodeStatement> {
    vec![
        NodeStatement::Accept,
        NodeStatement::Send { identifier_name: variable("msgs") },
        NodeStatement::Throw { error_variable: None },
        NodeStatement::CreateEvnt { identifier_name: variable("e") },
    ]
}

#[test]
fn hooks_fire_in_source_order_outer_before_inner() {
    let mut recorder = Recorder::new();
    let result = visit_scilla_type(&map_type(), &mut recorder);
    assert!(matches!(result, Ok(TraversalResult::Continue)));
    assert_eq!(
        recorder.hooks(),
        vec![
            "enter scilla_type",
            "enter type_map_key",
            "enter meta_identifier",
            "enter type_name_identifier",
            "exit type_name_identifier",
            "exit meta_identifier",
            "exit type_map_key",
            "enter type_map_value",
            "enter meta_identifier",
            "enter type_name_identifier",
            "exit type_name_identifier",
            "exit meta_identifier",
            "exit type_map_value",
            "exit scilla_type",
        ]
    );
}

#[test]
fn arguments_are_visited_left_to_right_after_the_head() {
    let mut recorder = Recorder::new();
    let result = visit_scilla_type(&pair_type(), &mut recorder);
    assert!(matches!(result, Ok(TraversalResult::Continue)));
    assert_eq!(recorder.count("enter meta_identifier"), 3);
    assert_eq!(recorder.count("enter type_argument"), 2);
    let hooks = recorder.hooks();
    assert_eq!(hooks[0], "enter scilla_type");
    assert_eq!(hooks[1], "enter meta_identifier");
    assert_eq!(hooks[5], "enter type_argument");
    assert_eq!(hooks[hooks.len() - 1], "exit scilla_type");
}

#[test]
fn every_wrapped_node_is_bracketed_by_push_and_pop() {
    let mut recorder = Recorder::new();
    let wrapped = at(map_type());
    let result = wrapped.visit(&mut recorder);
    assert!(matches!(result, Ok(TraversalResult::Continue)));
    assert_eq!(recorder.events[0], "push");
    assert_eq!(recorder.events[recorder.events.len() - 1], "pop");
    assert_eq!(recorder.count("push"), recorder.count("pop"));
    assert_eq!(recorder.count("push"), 7);
    assert_eq!(recorder.depth, 0);
    assert_eq!(recorder.deepest, 4);
}

#[test]
fn skip_children_keeps_every_child_and_the_exit_hook_from_running() {
    let mut recorder = Recorder::new();
    recorder.skip_on = Some("scilla_type");
    let result = visit_scilla_type(&map_type(), &mut recorder);
    assert!(matches!(result, Ok(TraversalResult::Continue)));
    assert_eq!(recorder.events, vec!["enter scilla_type"]);
}

#[test]
fn skip_children_of_an_inner_node_lets_its_siblings_be_visited() {
    let mut recorder = Recorder::new();
    recorder.skip_on = Some("type_map_key");
    let result = visit_scilla_type(&map_type(), &mut recorder);
    assert!(matches!(result, Ok(TraversalResult::Continue)));
    assert_eq!(
        recorder.hooks(),
        vec![
            "enter scilla_type",
            "enter type_map_key",
            "enter type_map_value",
            "enter meta_identifier",
            "enter type_name_identifier",
            "exit type_name_identifier",
            "exit meta_identifier",
            "exit type_map_value",
            "exit scilla_type",
        ]
    );
}

#[test]
fn failing_enter_hook_stops_everything_after_it() {
    let mut recorder = Recorder::new();
    recorder.fail_on = Some(("type_map_value", TreeTraversalMode::Enter));
    let wrapped = at(map_type());
    let result = wrapped.visit(&mut recorder);
    match result {
        Err(Error::AstVisitError(message)) => assert_eq!(message, "enter type_map_value"),
        other => panic!("unexpected {:?}", other),
    }
    assert_eq!(
        recorder.hooks(),
        vec![
            "enter scilla_type",
            "enter type_map_key",
            "enter meta_identifier",
            "enter type_name_identifier",
            "exit type_name_identifier",
            "exit meta_identifier",
            "exit type_map_key",
            "enter type_map_value",
        ]
    );
    assert_eq!(recorder.count("push"), recorder.count("pop"));
    assert_eq!(recorder.depth, 0);
}

#[test]
fn failing_exit_hook_of_a_child_keeps_ancestors_from_exiting() {
    let mut recorder = Recorder::new();
    recorder.fail_on = Some(("type_name_identifier", TreeTraversalMode::Exit));
    let result = visit_scilla_type(&map_type(), &mut recorder);
    match result {
        Err(Error::AstVisitError(message)) => assert_eq!(message, "exit type_name_identifier"),
        other => panic!("unexpected {:?}", other),
    }
    assert_eq!(
        recorder.hooks(),
        vec![
            "enter scilla_type",
            "enter type_map_key",
            "enter meta_identifier",
            "enter type_name_identifier",
            "exit type_name_identifier",
        ]
    );
    assert_eq!(recorder.depth, 0);
}

#[test]
fn skip_answer_of_an_exit_hook_is_handed_up_without_exit_hooks() {
    let mut recorder = Recorder::new();
    recorder.skip_on_exit = Some("type_map_key");
    let result = visit_scilla_type(&map_type(), &mut recorder);
    assert!(matches!(result, Ok(TraversalResult::SkipChildren)));
    assert_eq!(
        recorder.hooks(),
        vec![
            "enter scilla_type",
            "enter type_map_key",
            "enter meta_identifier",
            "enter type_name_identifier",
            "exit type_name_identifier",
            "exit meta_identifier",
            "exit type_map_key",
        ]
    );
}

#[test]
fn row_of_statements_stops_at_the_first_failure() {
    let mut recorder = Recorder::new();
    recorder.fail_on = Some(("variable_identifier", TreeTraversalMode::Enter));
    let result = visit_each_statement(&statements(), &mut recorder);
    assert!(matches!(result, Err(Error::AstVisitError(_))));
    assert_eq!(
        recorder.hooks(),
        vec![
            "enter statement",
            "exit statement",
            "enter statement",
            "enter variable_identifier",
        ]
    );
    assert_eq!(recorder.depth, 0);
}

#[test]
fn row_of_statements_is_visited_in_order() {
    let mut recorder = Recorder::new();
    let result = visit_each_statement(&statements(), &mut recorder);
    assert!(matches!(result, Ok(TraversalResult::Continue)));
    assert_eq!(recorder.count("enter statement"), 4);
    assert_eq!(recorder.count("exit statement"), 4);
    assert_eq!(recorder.count("enter variable_identifier"), 2);
}

#[test]
fn map_entry_visits_key_then_value() {
    let mut recorder = Recorder::new();
    let entry = NodeTypeMapEntry {
        key: at(NodeTypeMapKey::GenericMapKey(named("String"))),
        value: at(NodeTypeMapValue::MapValueTypeOrEnumLikeIdentifier(named("BNum"))),
    };
    let result = visit_type_map_entry(&entry, &mut recorder);
    assert!(matches!(result, Ok(TraversalResult::Continue)));
    let hooks = recorder.hooks();
    let key_at = hooks.iter().position(|e| *e == "enter type_map_key").unwrap();
    let value_at = hooks.iter().position(|e| *e == "enter type_map_value").unwrap();
    assert!(key_at < value_at);
    assert_eq!(hooks[0], "enter type_map_entry");
    assert_eq!(hooks[hooks.len() - 1], "exit type_map_entry");
}

#[test]
fn only_a_request_to_continue_goes_on() {
    assert!(goes_on(&Ok(TraversalResult::Continue)));
    assert!(!goes_on(&Ok(TraversalResult::SkipChildren)));
    assert!(!goes_on(&Err(Error::AstVisitError("stop".to_string()))));
    assert!(!goes_on(&Err(Error::Internal("stop".to_string()))));
}
