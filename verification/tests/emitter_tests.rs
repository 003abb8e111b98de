use scilla_parser::ast::converting::AstConverting;
use scilla_parser::ast::nodes::{
    NodeAddressType, NodeAddressTypeField, NodeAtomicExpression, NodeByteStr, NodeComponentBody,
    NodeComponentDefinition, NodeComponentId, NodeComponentParameters, NodeContractDefinition,
    NodeContractField, NodeFullExpression, NodeImportDeclarations, NodeImportedName,
    NodeLibraryDefinition, NodeLibrarySingleDefinition, NodeMetaIdentifier, NodeParameterPair,
    NodeProcedureDefinition, NodeProgram, NodeScillaType, NodeStatement,
    NodeTransitionDefinition, NodeTypeAnnotation, NodeTypeArgument, NodeTypeMapEntry,
    NodeTypeMapKey, NodeTypeMapValue, NodeTypeMapValueAllowingTypeArguments,
    NodeTypeMapValueArguments, NodeTypeNameIdentifier, NodeTypedIdentifier, NodeValueLiteral,
    NodeVariableIdentifier, NodeWithConstraint, SourcePosition, WithMetaData,
};
use scilla_parser::ast::traversal::definitions::{visit_contract_definition_at, visit_program};
use scilla_parser::ast::traversal::names::visit_meta_identifier_at;
use scilla_parser::ast::traversal::types::{visit_scilla_type_at, visit_type_map_entry_at};
use scilla_parser::ast::visitor::AstVisitor;
use scilla_parser::ast::{TraversalResult, TreeTraversalMode};
use scilla_parser::simplified_representation::emitter::SrEmitter;
use scilla_parser::simplified_representation::primitives::SrIdentifierKind;
use scilla_parser::{Contract, Error, Field, FieldList, Transition, TransitionList, Type};

fn at<T>(node: T) -> WithMetaData<T> {
    WithMetaData {
        node,
        start: SourcePosition { position: 1, line: 1, column: 1 },
        end: SourcePosition { position: 2, line: 1, column: 2 },
    }
}

fn text(s: &str) -> WithMetaData<String> {
    at(s.to_string())
}

fn name_of_type(name: &str) -> WithMetaData<NodeTypeNameIdentifier> {
    if name.starts_with("ByStr") {
        at(NodeTypeNameIdentifier::ByteStringType(at(NodeByteStr::Type(text(name)))))
    } else {
        at(NodeTypeNameIdentifier::TypeOrEnumLikeIdentifier(text(name)))
    }
}

fn meta(name: &str) -> WithMetaData<NodeMetaIdentifier> {
    if name == "ByStr" {
        at(NodeMetaIdentifier::ByteString)
    } else {
        at(NodeMetaIdentifier::MetaName(name_of_type(name)))
    }
}

fn simple(name: &str) -> NodeScillaType {
    NodeScillaType::GenericTypeWithArgs(meta(name), vec![])
}

fn applied(name: &str, arguments: Vec<NodeTypeArgument>) -> NodeScillaType {
    NodeScillaType::GenericTypeWithArgs(meta(name), arguments.into_iter().map(at).collect())
}

fn argument(name: &str) -> NodeTypeArgument {
    NodeTypeArgument::GenericTypeArgument(meta(name))
}

fn enclosed(t: NodeScillaType) -> NodeTypeArgument {
    NodeTypeArgument::EnclosedTypeArgument(Box::new(at(t)))
}

fn key(name: &str) -> WithMetaData<NodeTypeMapKey> {
    at(NodeTypeMapKey::GenericMapKey(meta(name)))
}

fn map_of(key_name: &str, value: NodeTypeMapValue) -> NodeScillaType {
    NodeScillaType::MapType(key(key_name), at(value))
}

fn value_named(name: &str) -> NodeTypeMapValue {
    NodeTypeMapValue::MapValueTypeOrEnumLikeIdentifier(meta(name))
}

fn value_applied(name: &str, arguments: Vec<&str>) -> NodeTypeMapValue {
    NodeTypeMapValue::MapValueParenthesizedType(Box::new(at(
        NodeTypeMapValueAllowingTypeArguments::TypeMapValueWithArgs(
            meta(name),
            arguments
                .into_iter()
                .map(|a| at(NodeTypeMapValueArguments::GenericMapValueArgument(meta(a))))
                .collect(),
        ),
    )))
}

fn value_nested(key_name: &str, value: NodeTypeMapValue) -> NodeTypeMapValue {
    NodeTypeMapValue::MapValueParenthesizedType(Box::new(at(
        NodeTypeMapValueAllowingTypeArguments::TypeMapValueNoArgs(at(
            NodeTypeMapValue::MapKeyValue(Box::new(at(NodeTypeMapEntry {
                key: key(key_name),
                value: at(value),
            }))),
        )),
    )))
}

fn address(what: &str, fields: Vec<(&str, NodeScillaType)>) -> NodeAddressType {
    NodeAddressType {
        identifier: name_of_type("ByStr20"),
        typename: text(what),
        address_fields: fields
            .into_iter()
            .map(|(name, t)| {
                at(NodeAddressTypeField {
                    identifier: at(NodeVariableIdentifier::VariableName(text(name))),
                    typename: at(t),
                })
            })
            .collect(),
    }
}

fn address_type(what: &str, fields: Vec<(&str, NodeScillaType)>) -> NodeScillaType {
    NodeScillaType::ScillaAddresseType(Box::new(at(address(what, fields))))
}

fn typed(name: &str, t: NodeScillaType) -> WithMetaData<NodeTypedIdentifier> {
    at(NodeTypedIdentifier {
        identifier_name: text(name),
        annotation: at(NodeTypeAnnotation { typename: at(t) }),
    })
}

fn parameters(list: Vec<(&str, NodeScillaType)>) -> WithMetaData<NodeComponentParameters> {
    at(NodeComponentParameters {
        parameters: list
            .into_iter()
            .map(|(name, t)| at(NodeParameterPair { identifier_with_type: typed(name, t) }))
            .collect(),
    })
}

fn literal() -> WithMetaData<NodeFullExpression> {
    at(NodeFullExpression::ExpressionAtomic(Box::new(at(NodeAtomicExpression::AtomicLit(at(
        NodeValueLiteral::LiteralString(text("")),
    ))))))
}

fn field(name: &str, t: NodeScillaType) -> WithMetaData<NodeContractField> {
    at(NodeContractField { typed_identifier: typed(name, t), right_hand_side: literal() })
}

fn transition(
    name: &str,
    list: Vec<(&str, NodeScillaType)>,
) -> WithMetaData<NodeComponentDefinition> {
    at(NodeComponentDefinition::TransitionComponent(Box::new(at(NodeTransitionDefinition {
        name: at(NodeComponentId::WithTypeLikeName(name_of_type(name))),
        parameters: parameters(list),
        body: at(NodeComponentBody { statement_block: None }),
    }))))
}

fn lower_case_transition(
    name: &str,
    list: Vec<(&str, NodeScillaType)>,
) -> WithMetaData<NodeComponentDefinition> {
    at(NodeComponentDefinition::TransitionComponent(Box::new(at(NodeTransitionDefinition {
        name: at(NodeComponentId::WithRegularId(text(name))),
        parameters: parameters(list),
        body: at(NodeComponentBody { statement_block: None }),
    }))))
}

fn procedure(
    name: &str,
    list: Vec<(&str, NodeScillaType)>,
) -> WithMetaData<NodeComponentDefinition> {
    at(NodeComponentDefinition::ProcedureComponent(Box::new(at(NodeProcedureDefinition {
        name: at(NodeComponentId::WithTypeLikeName(name_of_type(name))),
        parameters: parameters(list),
        body: at(NodeComponentBody { statement_block: None }),
    }))))
}

fn program(
    name: &str,
    init: Vec<(&str, NodeScillaType)>,
    fields: Vec<WithMetaData<NodeContractField>>,
    components: Vec<WithMetaData<NodeComponentDefinition>>,
) -> NodeProgram {
    NodeProgram {
        version: text("0"),
        import_declarations: None,
        library_definition: None,
        contract_definition: at(NodeContractDefinition {
            contract_name: name_of_type(name),
            parameters: parameters(init),
            constraint: None,
            fields,
            components,
        }),
    }
}

fn lower(program: &NodeProgram) -> Result<Contract, Error> {
    SrEmitter::new().emit(program)
}

fn lower_field_type(t: NodeScillaType) -> Result<Type, Error> {
    let contract = lower(&program("C", vec![], vec![field("f", t)], vec![]))?;
    let mut fields = contract.fields.0;
    assert_eq!(fields.len(), 1);
    let only = fields.remove(0);
    assert_eq!(only.name, "f");
    Ok(only.ty)
}

#[test]
fn hello_world_contract_is_lowered() {
    let hello = program(
        "HelloWorld",
        vec![("owner", simple("ByStr20"))],
        vec![field("welcome_msg", simple("String"))],
        vec![
            lower_case_transition("setHello", vec![("msg", simple("String"))]),
            lower_case_transition("getHello", vec![]),
        ],
    );
    assert_eq!(
        lower(&hello).unwrap(),
        Contract {
            name: "HelloWorld".to_string(),
            init_params: FieldList(vec![Field::new("owner", Type::ByStr20)]),
            fields: FieldList(vec![Field::new("welcome_msg", Type::String)]),
            transitions: TransitionList(vec![
                Transition::new("setHello", FieldList(vec![Field::new("msg", Type::String)])),
                Transition::new_without_param("getHello")
            ])
        }
    );
}

#[test]
fn map_with_pair_value_is_resolved() {
    let t = map_of("String", value_applied("Pair", vec!["ByStr20", "BNum"]));
    assert_eq!(
        lower_field_type(t).unwrap(),
        Type::Mapping(
            Box::new(Type::String),
            Box::new(Type::Pair(Box::new(Type::ByStr20), Box::new(Type::BNum)))
        )
    );
}

#[test]
fn address_with_interface_is_resolved() {
    let balances = map_of("ByStr20", value_named("Uint128"));
    let hello = program(
        "Holder",
        vec![("token", address_type("contract", vec![("balances", balances)]))],
        vec![],
        vec![],
    );
    let contract = lower(&hello).unwrap();
    assert_eq!(
        contract.init_params,
        FieldList(vec![Field::new(
            "token",
            Type::ByStr20With {
                typename: "contract".to_string(),
                fields: FieldList(vec![Field::new(
                    "balances",
                    Type::Mapping(Box::new(Type::ByStr20), Box::new(Type::Uint128))
                )])
            }
        )])
    );
}

#[test]
fn transition_without_parameters_has_empty_list() {
    let p = program("C", vec![], vec![], vec![transition("Ping", vec![])]);
    let contract = lower(&p).unwrap();
    assert_eq!(contract.transitions.0.len(), 1);
    assert_eq!(contract.transitions.0[0].name, "Ping");
    assert_eq!(contract.transitions.0[0].params, FieldList::default());
    assert_eq!(contract.transitions.0[0], Transition::new_without_param("Ping"));
}

#[test]
fn declaration_order_is_kept() {
    let p = program(
        "Ordered",
        vec![("a", simple("Uint32")), ("b", simple("Uint64")), ("c", simple("Uint128"))],
        vec![field("x", simple("Int32")), field("y", simple("Int64")), field("z", simple("Bool"))],
        vec![
            transition("First", vec![("p", simple("String")), ("q", simple("BNum"))]),
            procedure("Hidden", vec![("h", simple("String"))]),
            transition("Second", vec![("r", simple("Uint256")), ("s", simple("Int256"))]),
        ],
    );
    assert_eq!(
        lower(&p).unwrap(),
        Contract {
            name: "Ordered".to_string(),
            init_params: FieldList(vec![
                Field::new("a", Type::Uint32),
                Field::new("b", Type::Uint64),
                Field::new("c", Type::Uint128)
            ]),
            fields: FieldList(vec![
                Field::new("x", Type::Int32),
                Field::new("y", Type::Int64),
                Field::new("z", Type::Bool)
            ]),
            transitions: TransitionList(vec![
                Transition::new(
                    "First",
                    FieldList(vec![Field::new("p", Type::String), Field::new("q", Type::BNum)])
                ),
                Transition::new(
                    "Second",
                    FieldList(vec![Field::new("r", Type::Uint256), Field::new("s", Type::Int256)])
                )
            ])
        }
    );
}

#[test]
fn lowering_twice_gives_equal_contracts() {
    let build = || {
        program(
            "Twice",
            vec![("owner", simple("ByStr20"))],
            vec![field("m", map_of("ByStr20", value_nested("ByStr20", value_named("Uint128"))))],
            vec![transition("Go", vec![("x", applied("Option", vec![argument("Bool")]))])],
        )
    };
    let first = lower(&build()).unwrap();
    let second = lower(&build()).unwrap();
    assert_eq!(first, second);
    assert_eq!(
        first.fields,
        FieldList(vec![Field::new(
            "m",
            Type::Mapping(
                Box::new(Type::ByStr20),
                Box::new(Type::Mapping(Box::new(Type::ByStr20), Box::new(Type::Uint128)))
            )
        )])
    );
}

#[test]
fn generic_types_take_arguments_in_source_order() {
    assert_eq!(
        lower_field_type(applied("Pair", vec![argument("Uint32"), argument("String")])).unwrap(),
        Type::Pair(Box::new(Type::Uint32), Box::new(Type::String))
    );
    assert_eq!(
        lower_field_type(applied(
            "List",
            vec![enclosed(applied("Pair", vec![argument("ByStr20"), argument("Uint128")]))]
        ))
        .unwrap(),
        Type::List(Box::new(Type::Pair(Box::new(Type::ByStr20), Box::new(Type::Uint128))))
    );
    assert_eq!(
        lower_field_type(applied(
            "Option",
            vec![enclosed(address_type("contract", vec![]))]
        ))
        .unwrap(),
        Type::Option(Box::new(Type::ByStr20With {
            typename: "contract".to_string(),
            fields: FieldList::default()
        }))
    );
}

#[test]
fn byte_string_names_are_resolved() {
    assert_eq!(lower_field_type(simple("ByStr")).unwrap(), Type::ByStr);
    assert_eq!(lower_field_type(simple("ByStr32")).unwrap(), Type::ByStrX(32));
    assert_eq!(lower_field_type(simple("ByStr20")).unwrap(), Type::ByStr20);
    assert_eq!(
        lower_field_type(simple("RewardParam")).unwrap(),
        Type::Other("RewardParam".to_string())
    );
}

#[test]
fn map_value_in_parentheses_is_a_plain_type() {
    let value = NodeTypeMapValue::MapValueParenthesizedType(Box::new(at(
        NodeTypeMapValueAllowingTypeArguments::TypeMapValueNoArgs(at(value_named("BNum"))),
    )));
    assert_eq!(
        lower_field_type(map_of("String", value)).unwrap(),
        Type::Mapping(Box::new(Type::String), Box::new(Type::BNum))
    );
}

#[test]
fn map_value_that_is_a_map_is_combined_with_its_key() {
    let inner = NodeTypeMapValue::MapKeyValue(Box::new(at(NodeTypeMapEntry {
        key: key("String"),
        value: at(value_named("Uint32")),
    })));
    assert_eq!(
        lower_field_type(map_of("ByStr20", inner)).unwrap(),
        Type::Mapping(
            Box::new(Type::ByStr20),
            Box::new(Type::Mapping(Box::new(Type::String), Box::new(Type::Uint32)))
        )
    );
}

#[test]
fn qualified_name_resolves_to_its_last_part() {
    let qualified = NodeScillaType::GenericTypeWithArgs(
        at(NodeMetaIdentifier::MetaNameInNamespace(name_of_type("Lib"), name_of_type("Item"))),
        vec![],
    );
    assert_eq!(lower_field_type(qualified).unwrap(), Type::Other("Item".to_string()));
}

#[test]
fn function_type_is_reported_as_unsupported() {
    let f = NodeScillaType::FunctionType(
        Box::new(at(simple("Uint32"))),
        Box::new(at(simple("Uint32"))),
    );
    match lower_field_type(f) {
        Err(Error::AstVisitError(message)) => {
            assert_eq!(message, "Unsupported syntax: function type")
        }
        other => panic!("unexpected {:?}", other),
    }
    match lower_field_type(NodeScillaType::TypeVarType(text("'A"))) {
        Err(Error::AstVisitError(message)) => {
            assert_eq!(message, "Unsupported syntax: type variable")
        }
        other => panic!("unexpected {:?}", other),
    }
    match lower_field_type(NodeScillaType::PolyFunctionType(
        text("'A"),
        Box::new(at(simple("Uint32"))),
    )) {
        Err(Error::AstVisitError(message)) => {
            assert_eq!(message, "Unsupported syntax: polymorphic function type")
        }
        other => panic!("unexpected {:?}", other),
    }
}

#[test]
fn type_constructor_without_argument_is_reported() {
    match lower_field_type(simple("Option")) {
        Err(Error::AstVisitError(message)) => {
            assert_eq!(message, "Type constructor is applied to too few type arguments.")
        }
        other => panic!("unexpected {:?}", other),
    }
    match lower_field_type(applied("Pair", vec![argument("Uint32")])) {
        Err(Error::AstVisitError(_)) => {}
        other => panic!("unexpected {:?}", other),
    }
}

#[test]
fn address_typed_map_key_is_a_stack_mismatch() {
    let t = NodeScillaType::MapType(
        at(NodeTypeMapKey::AddressMapKeyType(at(address("contract", vec![])))),
        at(value_named("Uint128")),
    );
    match lower_field_type(t) {
        Err(Error::Internal(message)) => {
            assert_eq!(message, "Expected symbol name, but found type definition.")
        }
        other => panic!("unexpected {:?}", other),
    }
}

#[test]
fn first_failure_is_the_one_reported() {
    let p = program(
        "C",
        vec![("ok", simple("Uint32"))],
        vec![
            field("good", simple("String")),
            field("bad", NodeScillaType::TypeVarType(text("'A"))),
            field("worse", simple("Option")),
        ],
        vec![transition("T", vec![("x", NodeScillaType::FunctionType(
            Box::new(at(simple("Uint32"))),
            Box::new(at(simple("Uint32"))),
        ))])],
    );
    match lower(&p) {
        Err(Error::AstVisitError(message)) => {
            assert_eq!(message, "Unsupported syntax: type variable")
        }
        other => panic!("unexpected {:?}", other),
    }
}

#[test]
fn pops_on_an_empty_stack_are_stack_mismatches() {
    let mut emitter = SrEmitter::new();
    match emitter.pop_ir_identifier() {
        Err(Error::Internal(message)) => {
            assert_eq!(message, "Expected symbol name, but found nothing.")
        }
        other => panic!("unexpected {:?}", other),
    }
    let mut emitter = SrEmitter::new();
    match emitter.pop_variable_declaration() {
        Err(Error::Internal(message)) => {
            assert_eq!(message, "Expected variable declaration, but found nothing.")
        }
        other => panic!("unexpected {:?}", other),
    }
    let mut emitter = SrEmitter::new();
    match emitter.pop_type_definition() {
        Err(Error::Internal(message)) => {
            assert_eq!(message, "Expected type definition, but found nothing.")
        }
        other => panic!("unexpected {:?}", other),
    }
}

#[test]
fn emitter_that_failed_refuses_further_work() {
    let mut emitter = SrEmitter::new();
    assert!(emitter.pop_ir_identifier().is_err());
    match emitter.pop_ir_identifier() {
        Err(Error::AstVisitError(message)) => {
            assert_eq!(message, "The lowering has failed before.")
        }
        other => panic!("unexpected {:?}", other),
    }
    match emitter.emit(&program("C", vec![], vec![], vec![])) {
        Err(Error::AstVisitError(message)) => {
            assert_eq!(message, "The lowering has failed before.")
        }
        other => panic!("unexpected {:?}", other),
    }
}

fn sample() -> NodeProgram {
    program(
        "Sample",
        vec![("owner", simple("ByStr20")), ("limit", simple("Uint128"))],
        vec![
            field("balances", map_of("ByStr20", value_named("Uint128"))),
            field("token", address_type("contract", vec![("supply", simple("Uint128"))])),
        ],
        vec![
            transition("Move", vec![("to", simple("ByStr20")), ("amount", simple("Uint128"))]),
            procedure("Check", vec![("who", simple("ByStr20"))]),
            transition("Stop", vec![]),
        ],
    )
}

#[test]
fn stacks_are_empty_after_lowering() {
    let p = sample();
    let mut emitter = SrEmitter::new();
    let result = visit_contract_definition_at(&p.contract_definition, &mut emitter);
    assert!(matches!(result, Ok(TraversalResult::Continue)));
    assert!(!emitter.has_failed());
    assert_eq!(emitter.operand_count(), 0);
    assert_eq!(emitter.position_count(), 0);
    assert!(emitter.current_namespace().is_none());
    let contract = emitter.finish().unwrap();
    assert_eq!(contract, lower(&sample()).unwrap());
    assert_eq!(contract.name, "Sample");
    assert_eq!(contract.init_params.len(), 2);
    assert_eq!(contract.fields.len(), 2);
    assert_eq!(contract.transitions.len(), 2);
}

#[test]
fn visitor_trait_drives_the_lowering() {
    let p = sample();
    let mut emitter = SrEmitter::new();
    let result = p.contract_definition.visit(&mut emitter);
    assert!(matches!(result, Ok(TraversalResult::Continue)));
    assert_eq!(emitter.operand_count(), 0);
    assert_eq!(emitter.position_count(), 0);
    assert_eq!(emitter.finish().unwrap(), lower(&sample()).unwrap());
}

#[test]
fn whole_program_without_library_is_lowered_from_its_root() {
    let p = sample();
    let mut emitter = SrEmitter::new();
    let result = visit_program(&p, &mut emitter);
    assert!(matches!(result, Ok(TraversalResult::Continue)));
    assert_eq!(emitter.operand_count(), 0);
    assert_eq!(emitter.position_count(), 0);
    assert_eq!(emitter.finish().unwrap(), lower(&sample()).unwrap());
}

#[test]
fn constraint_of_a_contract_is_passed_over() {
    let mut p = sample();
    p.contract_definition.node.constraint =
        Some(at(NodeWithConstraint { expression: Box::new(literal()) }));
    assert_eq!(lower(&p).unwrap(), lower(&sample()).unwrap());
    let mut emitter = SrEmitter::new();
    let result = visit_program(&p, &mut emitter);
    assert!(matches!(result, Ok(TraversalResult::Continue)));
    assert_eq!(emitter.finish().unwrap(), lower(&sample()).unwrap());
}

#[test]
fn failure_leaves_the_position_stack_balanced() {
    let p = program(
        "C",
        vec![],
        vec![field(
            "bad",
            applied("List", vec![enclosed(NodeScillaType::TypeVarType(text("'A")))]),
        )],
        vec![],
    );
    let mut emitter = SrEmitter::new();
    let result = visit_contract_definition_at(&p.contract_definition, &mut emitter);
    assert!(matches!(result, Err(Error::AstVisitError(_))));
    assert!(emitter.has_failed());
    assert_eq!(emitter.position_count(), 0);
    assert_eq!(emitter.operand_count(), 0);
    assert!(emitter.current_namespace().is_none());
    assert!(matches!(emitter.finish(), Err(Error::AstVisitError(_))));
}

#[test]
fn type_visit_leaves_one_descriptor() {
    let mut emitter = SrEmitter::new();
    let t = at(map_of("String", value_applied("Pair", vec!["ByStr20", "BNum"])));
    let result = visit_scilla_type_at(&t, &mut emitter);
    assert!(matches!(result, Ok(TraversalResult::Continue)));
    assert_eq!(emitter.operand_count(), 1);
    assert_eq!(emitter.position_count(), 0);
    let d = emitter.pop_type_definition().unwrap();
    assert_eq!(emitter.operand_count(), 0);
    assert_eq!(d.main_type, "Map");
    assert_eq!(d.sub_types.len(), 2);
    assert_eq!(d.sub_types[0].main_type, "String");
    assert_eq!(d.sub_types[1].main_type, "Pair");
    assert_eq!(d.sub_types[1].sub_types.len(), 2);
    assert_eq!(d.sub_types[1].sub_types[0].main_type, "ByStr20");
    assert_eq!(d.sub_types[1].sub_types[1].main_type, "BNum");
}

#[test]
fn map_value_hook_takes_its_key_from_the_stack() {
    let mut emitter = SrEmitter::new();
    let k = NodeTypeMapKey::GenericMapKey(meta("ByStr20"));
    let v = value_named("Uint128");
    assert!(matches!(
        emitter.emit_type_map_key(TreeTraversalMode::Enter, &k),
        Ok(TraversalResult::SkipChildren)
    ));
    assert_eq!(emitter.operand_count(), 1);
    assert!(matches!(
        emitter.emit_type_map_value(TreeTraversalMode::Enter, &v),
        Ok(TraversalResult::SkipChildren)
    ));
    assert_eq!(emitter.operand_count(), 1);
    assert!(matches!(
        emitter.emit_type_map_value(TreeTraversalMode::Exit, &v),
        Ok(TraversalResult::SkipChildren)
    ));
    assert_eq!(emitter.operand_count(), 1);
    let d = emitter.pop_type_definition().unwrap();
    assert_eq!(d.main_type, "Map");
    assert_eq!(d.sub_types[0].main_type, "ByStr20");
    assert_eq!(d.sub_types[1].main_type, "Uint128");

    let mut emitter = SrEmitter::new();
    match emitter.emit_type_map_value(TreeTraversalMode::Enter, &v) {
        Err(Error::Internal(message)) => {
            assert_eq!(message, "Expected symbol name, but found nothing.")
        }
        other => panic!("unexpected {:?}", other),
    }
    assert!(emitter.has_failed());
}

#[test]
fn pop_of_the_wrong_kind_names_what_was_found() {
    let mut emitter = SrEmitter::new();
    let name = NodeTypeNameIdentifier::TypeOrEnumLikeIdentifier(text("Foo"));
    assert!(matches!(
        emitter.emit_type_name_identifier(TreeTraversalMode::Enter, &name),
        Ok(TraversalResult::Continue)
    ));
    match emitter.pop_type_definition() {
        Err(Error::Internal(message)) => {
            assert_eq!(message, "Expected type definition, but found symbol name.")
        }
        other => panic!("unexpected {:?}", other),
    }
    let mut emitter = SrEmitter::new();
    let typed = typed("x", simple("Bool"));
    assert!(matches!(
        emitter.emit_typed_identifier(TreeTraversalMode::Enter, &typed.node),
        Ok(TraversalResult::SkipChildren)
    ));
    match emitter.pop_ir_identifier() {
        Err(Error::Internal(message)) => {
            assert_eq!(message, "Expected symbol name, but found variable declaration.")
        }
        other => panic!("unexpected {:?}", other),
    }
    let mut emitter = SrEmitter::new();
    assert!(emitter.emit_scilla_type(TreeTraversalMode::Enter, &simple("Bool")).is_ok());
    match emitter.pop_variable_declaration() {
        Err(Error::Internal(message)) => {
            assert_eq!(message, "Expected variable declaration, but found type definition.")
        }
        other => panic!("unexpected {:?}", other),
    }
}

#[test]
fn name_bearing_leaves_push_identifiers() {
    let mut emitter = SrEmitter::new();
    let name = NodeTypeNameIdentifier::TypeOrEnumLikeIdentifier(text("Foo"));
    assert!(emitter.emit_type_name_identifier(TreeTraversalMode::Enter, &name).is_ok());
    assert!(emitter.emit_type_name_identifier(TreeTraversalMode::Exit, &name).is_ok());
    let id = emitter.pop_ir_identifier().unwrap();
    assert_eq!(id.unresolved, "Foo");
    assert_eq!(id.kind, SrIdentifierKind::Unknown);
    assert!(!id.is_definition);

    for mode in [TreeTraversalMode::Enter, TreeTraversalMode::Exit] {
        assert!(matches!(
            emitter.emit_type_name_identifier(mode, &NodeTypeNameIdentifier::EventType),
            Ok(TraversalResult::Continue)
        ));
        assert_eq!(emitter.operand_count(), 0);
    }

    assert!(matches!(
        emitter.emit_meta_identifier(TreeTraversalMode::Enter, &NodeMetaIdentifier::ByteString),
        Ok(TraversalResult::SkipChildren)
    ));
    assert_eq!(emitter.pop_ir_identifier().unwrap().unresolved, "ByStr");

    let hex = at(NodeMetaIdentifier::MetaNameInHexspace(text("0x12"), name_of_type("Item")));
    for mode in [TreeTraversalMode::Enter, TreeTraversalMode::Exit] {
        assert!(matches!(
            emitter.emit_meta_identifier(mode, &hex.node),
            Ok(TraversalResult::Continue)
        ));
        assert_eq!(emitter.operand_count(), 0);
    }
    assert!(matches!(visit_meta_identifier_at(&hex, &mut emitter), Ok(TraversalResult::Continue)));
    assert_eq!(emitter.operand_count(), 1);
    assert_eq!(emitter.position_count(), 0);
    assert_eq!(emitter.pop_ir_identifier().unwrap().unresolved, "Item");

    let qualified =
        at(NodeMetaIdentifier::MetaNameInNamespace(name_of_type("Lib"), name_of_type("Item")));
    assert!(matches!(
        visit_meta_identifier_at(&qualified, &mut emitter),
        Ok(TraversalResult::Continue)
    ));
    assert_eq!(emitter.operand_count(), 2);
    assert_eq!(emitter.pop_ir_identifier().unwrap().unresolved, "Item");
    assert_eq!(emitter.pop_ir_identifier().unwrap().unresolved, "Lib");

    let component = NodeComponentId::WithRegularId(text("transfer"));
    assert!(matches!(
        emitter.emit_component_id(TreeTraversalMode::Enter, &component),
        Ok(TraversalResult::SkipChildren)
    ));
    let id = emitter.pop_ir_identifier().unwrap();
    assert_eq!(id.unresolved, "transfer");
    assert_eq!(id.kind, SrIdentifierKind::ComponentName);
    assert_eq!(emitter.operand_count(), 0);
}

#[test]
fn library_opens_and_closes_a_namespace() {
    let library = NodeLibraryDefinition { name: name_of_type("Helpers"), definitions: vec![] };
    let mut emitter = SrEmitter::new();
    assert!(emitter.current_namespace().is_none());
    assert!(matches!(
        emitter.emit_library_definition(TreeTraversalMode::Enter, &library),
        Ok(TraversalResult::Continue)
    ));
    let inside = emitter.current_namespace().unwrap();
    assert_eq!(inside.unresolved, "Helpers");
    assert_eq!(inside.kind, SrIdentifierKind::Namespace);
    assert_eq!(emitter.operand_count(), 0);
    assert!(matches!(
        emitter.emit_library_definition(TreeTraversalMode::Exit, &library),
        Ok(TraversalResult::Continue)
    ));
    assert!(emitter.current_namespace().is_none());

    let mut p = sample();
    p.library_definition = Some(at(library));
    let mut emitter = SrEmitter::new();
    assert!(matches!(visit_program(&p, &mut emitter), Ok(TraversalResult::Continue)));
    assert!(emitter.current_namespace().is_none());
    assert_eq!(emitter.finish().unwrap(), lower(&sample()).unwrap());
}

#[test]
fn what_the_lowering_does_not_cover_is_reported() {
    let mut p = sample();
    p.library_definition = Some(at(NodeLibraryDefinition {
        name: name_of_type("Helpers"),
        definitions: vec![at(NodeLibrarySingleDefinition::TypeDefinition(
            name_of_type("Colour"),
            None,
        ))],
    }));
    let mut emitter = SrEmitter::new();
    match visit_program(&p, &mut emitter) {
        Err(Error::AstVisitError(message)) => {
            assert_eq!(message, "Unsupported syntax: library definition")
        }
        other => panic!("unexpected {:?}", other),
    }
    assert_eq!(emitter.position_count(), 0);
    // the contract itself is lowered all the same when the lowering starts at the contract
    assert_eq!(lower(&p).unwrap(), lower(&sample()).unwrap());

    let mut p = sample();
    p.import_declarations = Some(at(NodeImportDeclarations {
        import_list: vec![at(NodeImportedName::RegularImport(name_of_type("BoolUtils")))],
    }));
    let mut emitter = SrEmitter::new();
    match visit_program(&p, &mut emitter) {
        Err(Error::AstVisitError(message)) => assert_eq!(message, "Unsupported syntax: import"),
        other => panic!("unexpected {:?}", other),
    }
    assert_eq!(lower(&p).unwrap(), lower(&sample()).unwrap());
}

#[test]
fn statements_and_expressions_are_skipped_in_both_modes() {
    let mut emitter = SrEmitter::new();
    for mode in [TreeTraversalMode::Enter, TreeTraversalMode::Exit] {
        assert!(matches!(
            emitter.emit_statement(mode, &NodeStatement::Accept),
            Ok(TraversalResult::SkipChildren)
        ));
        assert!(matches!(
            emitter.emit_full_expression(mode, &literal().node),
            Ok(TraversalResult::SkipChildren)
        ));
        assert!(matches!(
            emitter.emit_component_body(mode, &NodeComponentBody { statement_block: None }),
            Ok(TraversalResult::SkipChildren)
        ));
    }
    assert_eq!(emitter.operand_count(), 0);
    assert!(!emitter.has_failed());
}

#[test]
fn address_field_needs_a_plain_name() {
    let a = NodeAddressType {
        identifier: name_of_type("ByStr20"),
        typename: text("contract"),
        address_fields: vec![at(NodeAddressTypeField {
            identifier: at(NodeVariableIdentifier::SpecialIdentifier(text("_balance"))),
            typename: at(simple("Uint128")),
        })],
    };
    match lower_field_type(NodeScillaType::ScillaAddresseType(Box::new(at(a)))) {
        Err(Error::AstVisitError(message)) => assert_eq!(
            message,
            "Unsupported syntax: qualified or special name of an address field"
        ),
        other => panic!("unexpected {:?}", other),
    }
}

#[test]
fn unsupported_type_arguments_are_reported() {
    let template = applied("List", vec![NodeTypeArgument::TemplateTypeArgument(text("'A"))]);
    match lower_field_type(template) {
        Err(Error::AstVisitError(message)) => {
            assert_eq!(message, "Unsupported syntax: type variable as a type argument")
        }
        other => panic!("unexpected {:?}", other),
    }
    let address_argument = applied(
        "List",
        vec![NodeTypeArgument::AddressTypeArgument(at(address("contract", vec![])))],
    );
    match lower_field_type(address_argument) {
        Err(Error::AstVisitError(message)) => {
            assert_eq!(message, "Unsupported syntax: address type as a type argument")
        }
        other => panic!("unexpected {:?}", other),
    }
    let map_argument = applied(
        "List",
        vec![NodeTypeArgument::MapTypeArgument(key("String"), at(value_named("Bool")))],
    );
    match lower_field_type(map_argument) {
        Err(Error::AstVisitError(message)) => {
            assert_eq!(message, "Unsupported syntax: map as a type argument")
        }
        other => panic!("unexpected {:?}", other),
    }
    let enclosed_value = NodeTypeMapValue::MapValueParenthesizedType(Box::new(at(
        NodeTypeMapValueAllowingTypeArguments::TypeMapValueWithArgs(
            meta("List"),
            vec![at(NodeTypeMapValueArguments::MapKeyValueType(
                key("String"),
                at(value_named("Bool")),
            ))],
        ),
    )));
    match lower_field_type(map_of("String", enclosed_value)) {
        Err(Error::AstVisitError(message)) => {
            assert_eq!(message, "Unsupported syntax: map as an argument of a map value")
        }
        other => panic!("unexpected {:?}", other),
    }
}

fn is_plain(t: &Type) -> bool {
    !matches!(
        t,
        Type::Mapping(_, _)
            | Type::Option(_)
            | Type::Pair(_, _)
            | Type::List(_)
            | Type::ByStr20With { .. }
    )
}

fn as_argument(t: &Type) -> NodeTypeArgument {
    if is_plain(t) {
        argument(&t.to_string())
    } else {
        enclosed(spell(t))
    }
}

fn as_value(t: &Type) -> NodeTypeMapValue {
    match t {
        Type::Mapping(k, v) => value_nested(&k.to_string(), as_value(v)),
        Type::Option(a) => value_applied("Option", vec![&a.to_string()]),
        Type::List(a) => value_applied("List", vec![&a.to_string()]),
        Type::Pair(a, b) => value_applied("Pair", vec![&a.to_string(), &b.to_string()]),
        Type::ByStr20With { typename, fields } => NodeTypeMapValue::MapValueAddressType(
            Box::new(at(address(typename, spell_fields(fields)))),
        ),
        plain => value_named(&plain.to_string()),
    }
}

fn spell_fields(fields: &FieldList) -> Vec<(&str, NodeScillaType)> {
    fields.iter().map(|f| (f.name.as_str(), spell(&f.ty))).collect()
}

/// A syntax tree that spells the type.
fn spell(t: &Type) -> NodeScillaType {
    match t {
        Type::Mapping(k, v) => map_of(&k.to_string(), as_value(v)),
        Type::Option(a) => applied("Option", vec![as_argument(a)]),
        Type::List(a) => applied("List", vec![as_argument(a)]),
        Type::Pair(a, b) => applied("Pair", vec![as_argument(a), as_argument(b)]),
        Type::ByStr20With { typename, fields } => address_type(typename, spell_fields(fields)),
        plain => simple(&plain.to_string()),
    }
}

/// A program that spells the contract.
fn spell_contract(contract: &Contract) -> NodeProgram {
    program(
        &contract.name,
        spell_fields(&contract.init_params),
        contract.fields.iter().map(|f| field(&f.name, spell(&f.ty))).collect(),
        contract
            .transitions
            .iter()
            .map(|t| transition(&t.name, spell_fields(&t.params)))
            .collect(),
    )
}

fn map(k: Type, v: Type) -> Type {
    Type::Mapping(Box::new(k), Box::new(v))
}

fn pair(a: Type, b: Type) -> Type {
    Type::Pair(Box::new(a), Box::new(b))
}

fn list(a: Type) -> Type {
    Type::List(Box::new(a))
}

fn option(a: Type) -> Type {
    Type::Option(Box::new(a))
}

fn token_interface() -> Type {
    Type::ByStr20With {
        typename: "contract".to_string(),
        fields: FieldList(vec![
            Field::new("allowances", map(Type::ByStr20, map(Type::ByStr20, Type::Uint128))),
            Field::new("balances", map(Type::ByStr20, Type::Uint128)),
            Field::new("total_supply", Type::Uint128),
        ]),
    }
}

#[test]
fn spelled_types_are_lowered_to_themselves() {
    let types = vec![
        Type::Int32,
        Type::Int64,
        Type::Int128,
        Type::Int256,
        Type::Uint32,
        Type::Uint64,
        Type::Uint128,
        Type::Uint256,
        Type::String,
        Type::BNum,
        Type::Bool,
        Type::ByStr,
        Type::ByStr20,
        Type::ByStrX(32),
        Type::ByStrX(33),
        Type::Other("RewardParam".to_string()),
        option(Type::ByStr20),
        option(Type::Int32),
        pair(Type::String, Type::Uint32),
        list(Type::Int32),
        list(pair(Type::String, Type::String)),
        list(pair(Type::ByStr20, list(pair(Type::ByStr20, Type::Uint32)))),
        list(pair(
            Type::ByStr20,
            list(pair(Type::ByStr20, list(pair(Type::Uint32, Type::Uint128)))),
        )),
        list(pair(Type::ByStr20, list(pair(Type::BNum, Type::Uint128)))),
        map(Type::String, Type::BNum),
        map(Type::String, pair(Type::ByStr20, Type::BNum)),
        map(Type::ByStr20, list(Type::Uint128)),
        map(Type::ByStr20, list(Type::Other("RewardParam".to_string()))),
        map(Type::ByStr20, Type::Other("Stake".to_string())),
        map(Type::ByStr20, map(Type::ByStr20, Type::Uint128)),
        map(Type::ByStr20, map(Type::ByStr20, map(Type::String, Type::Bool))),
        map(Type::String, Type::ByStrX(33)),
        Type::ByStr20With { typename: "library".to_string(), fields: FieldList::default() },
        Type::ByStr20With { typename: "contract".to_string(), fields: FieldList::default() },
        token_interface(),
        option(token_interface()),
        map(Type::String, token_interface()),
        Type::ByStr20With {
            typename: "contract".to_string(),
            fields: FieldList(vec![
                Field::new(
                    "implementation",
                    Type::ByStr20With {
                        typename: "contract".to_string(),
                        fields: FieldList(vec![
                            Field::new("services", map(Type::String, Type::ByStr20)),
                            Field::new("utility", map(Type::String, Type::Uint128)),
                        ]),
                    },
                ),
                Field::new("dns", map(Type::String, Type::ByStr20)),
                Field::new(
                    "guardians",
                    map(
                        Type::String,
                        Type::ByStr20With {
                            typename: "contract".to_string(),
                            fields: FieldList(vec![Field::new(
                                "verification_methods",
                                map(Type::String, Type::ByStrX(33)),
                            )]),
                        },
                    ),
                ),
            ]),
        },
    ];
    for t in types {
        assert_eq!(lower_field_type(spell(&t)).unwrap(), t, "{}", t.to_string());
    }
}

#[test]
fn spelled_contract_is_lowered_to_itself() {
    let staking = Contract {
        name: "StakingContract".to_string(),
        init_params: FieldList(vec![
            Field::new("initial_owner", Type::ByStr20),
            Field::new("initial_staking_token_address", token_interface()),
        ]),
        fields: FieldList(vec![
            Field::new("owner", Type::ByStr20),
            Field::new("paused", Type::Bool),
            Field::new(
                "reward_pairs",
                map(Type::ByStr20, list(Type::Other("RewardParam".to_string()))),
            ),
            Field::new("stakes", map(Type::ByStr20, Type::Other("Stake".to_string()))),
            Field::new("rewards", map(Type::ByStr20, map(Type::ByStr20, Type::Uint128))),
            Field::new("administrators", map(Type::ByStr20, Type::Bool)),
            Field::new("total_staked_amount", Type::Uint128),
        ]),
        transitions: TransitionList(vec![
            Transition::new(
                "AddStake",
                FieldList(vec![
                    Field::new("amount", Type::Uint128),
                    Field::new("expiration_time", Type::Uint64),
                    Field::new("penalty_fee_bps", Type::Uint128),
                ]),
            ),
            Transition::new("RemoveStake", FieldList(vec![Field::new("amount", Type::Uint128)])),
            Transition::new("ClaimRewards", FieldList::default()),
            Transition::new(
                "TransferFromSuccessCallBack",
                FieldList(vec![
                    Field::new("initiator", Type::ByStr20),
                    Field::new("sender", Type::ByStr20),
                    Field::new("recipient", Type::ByStr20),
                    Field::new("amount", Type::Uint128),
                ]),
            ),
            Transition::new("AddFunds", FieldList::default()),
        ]),
    };
    assert_eq!(lower(&spell_contract(&staking)).unwrap(), staking);

    let empty = Contract {
        name: "Nothing".to_string(),
        init_params: FieldList::default(),
        fields: FieldList::default(),
        transitions: TransitionList::default(),
    };
    assert_eq!(lower(&spell_contract(&empty)).unwrap(), empty);
}

#[test]
fn event_type_is_called_event_where_a_name_is_needed() {
    let named_event = NodeProgram {
        version: text("0"),
        import_declarations: None,
        library_definition: None,
        contract_definition: at(NodeContractDefinition {
            contract_name: at(NodeTypeNameIdentifier::EventType),
            parameters: parameters(vec![]),
            constraint: None,
            fields: vec![field(
                "last",
                NodeScillaType::GenericTypeWithArgs(
                    at(NodeMetaIdentifier::MetaName(at(NodeTypeNameIdentifier::EventType))),
                    vec![],
                ),
            )],
            components: vec![],
        }),
    };
    let mut emitter = SrEmitter::new();
    let result = visit_contract_definition_at(&named_event.contract_definition, &mut emitter);
    assert!(matches!(result, Ok(TraversalResult::Continue)));
    assert_eq!(emitter.operand_count(), 0);
    let contract = emitter.finish().unwrap();
    assert_eq!(contract.name, "Event");
    assert_eq!(
        contract.fields,
        FieldList(vec![Field::new("last", Type::Other("Event".to_string()))])
    );
}

#[test]
fn type_rule_runs_in_either_mode() {
    for mode in [TreeTraversalMode::Enter, TreeTraversalMode::Exit] {
        let mut emitter = SrEmitter::new();
        let pair = applied("Pair", vec![argument("Uint32"), enclosed(simple("String"))]);
        assert!(matches!(
            emitter.emit_scilla_type(mode, &pair),
            Ok(TraversalResult::SkipChildren)
        ));
        assert_eq!(emitter.operand_count(), 1);
        let d = emitter.pop_type_definition().unwrap();
        assert_eq!(d.main_type, "Pair");
        assert!(d.address_type.is_none());
        assert_eq!(d.sub_types.len(), 2);
        assert_eq!(d.sub_types[0].main_type, "Uint32");
        assert_eq!(d.sub_types[1].main_type, "String");
        assert_eq!(emitter.description(), &Contract::new());

        for unsupported in [
            NodeScillaType::FunctionType(
                Box::new(at(simple("Uint32"))),
                Box::new(at(simple("Uint32"))),
            ),
            NodeScillaType::PolyFunctionType(text("'A"), Box::new(at(simple("Uint32")))),
            NodeScillaType::TypeVarType(text("'A")),
        ] {
            let mut emitter = SrEmitter::new();
            assert!(matches!(
                emitter.emit_scilla_type(mode, &unsupported),
                Err(Error::AstVisitError(_))
            ));
            assert!(emitter.has_failed());
        }

        let mut emitter = SrEmitter::new();
        assert!(matches!(
            emitter.emit_meta_identifier(mode, &NodeMetaIdentifier::ByteString),
            Ok(TraversalResult::SkipChildren)
        ));
        assert!(matches!(
            emitter.emit_type_map_key(mode, &key("ByStr20").node),
            Ok(TraversalResult::SkipChildren)
        ));
        assert!(matches!(
            emitter.emit_type_argument(mode, &argument("Bool")),
            Ok(TraversalResult::SkipChildren)
        ));
        assert!(matches!(
            emitter.emit_component_id(mode, &NodeComponentId::WithRegularId(text("go"))),
            Ok(TraversalResult::SkipChildren)
        ));
        assert!(matches!(
            emitter.emit_typed_identifier(mode, &typed("x", simple("Bool")).node),
            Ok(TraversalResult::SkipChildren)
        ));
        assert_eq!(emitter.operand_count(), 5);
    }
}

#[test]
fn declaration_rules_run_in_either_mode() {
    for mode in [TreeTraversalMode::Enter, TreeTraversalMode::Exit] {
        let mut emitter = SrEmitter::new();
        let first = lower_case_transition("setHello", vec![("msg", simple("String"))]);
        let second = transition("Stop", vec![]);
        for component in [&first, &second] {
            match &component.node {
                NodeComponentDefinition::TransitionComponent(t) => {
                    assert!(matches!(
                        emitter.emit_transition_definition(mode, &t.node),
                        Ok(TraversalResult::SkipChildren)
                    ));
                }
                _ => unreachable!(),
            }
        }
        assert!(matches!(
            emitter.emit_contract_field(mode, &field("total", simple("Uint128")).node),
            Ok(TraversalResult::SkipChildren)
        ));
        assert_eq!(emitter.operand_count(), 0);
        let contract = emitter.finish().unwrap();
        assert_eq!(contract.name, "");
        assert_eq!(contract.init_params, FieldList::default());
        assert_eq!(contract.fields, FieldList(vec![Field::new("total", Type::Uint128)]));
        assert_eq!(
            contract.transitions,
            TransitionList(vec![
                Transition::new("setHello", FieldList(vec![Field::new("msg", Type::String)])),
                Transition::new_without_param("Stop")
            ])
        );

        let mut emitter = SrEmitter::new();
        let p = sample();
        assert!(matches!(
            emitter.emit_contract_definition(mode, &p.contract_definition.node),
            Ok(TraversalResult::SkipChildren)
        ));
        assert_eq!(emitter.finish().unwrap(), lower(&sample()).unwrap());
    }
}

#[test]
fn rules_that_run_on_entry_do_nothing_on_exit() {
    let mut emitter = SrEmitter::new();
    let a = address("contract", vec![("supply", simple("Uint128"))]);
    assert!(matches!(
        emitter.emit_address_type(TreeTraversalMode::Exit, &a),
        Ok(TraversalResult::SkipChildren)
    ));
    assert!(matches!(
        emitter.emit_address_type_field(TreeTraversalMode::Exit, &a.address_fields[0].node),
        Ok(TraversalResult::SkipChildren)
    ));
    assert!(matches!(
        emitter.emit_component_parameters(
            TreeTraversalMode::Exit,
            &parameters(vec![("x", simple("Bool"))]).node
        ),
        Ok(TraversalResult::Continue)
    ));
    assert!(matches!(
        emitter.emit_type_name_identifier(TreeTraversalMode::Exit, &name_of_type("Foo").node),
        Ok(TraversalResult::Continue)
    ));
    assert_eq!(emitter.operand_count(), 0);
    assert_eq!(emitter.description(), &Contract::new());
    assert!(matches!(
        emitter.emit_address_type(TreeTraversalMode::Enter, &a),
        Ok(TraversalResult::SkipChildren)
    ));
    assert_eq!(emitter.operand_count(), 1);
}

#[test]
fn failure_keeps_the_description_as_it_was() {
    let mut emitter = SrEmitter::new();
    assert!(emitter
        .emit_contract_field(TreeTraversalMode::Enter, &field("total", simple("Uint128")).node)
        .is_ok());
    let before = emitter.description().clone();
    assert_eq!(before.fields, FieldList(vec![Field::new("total", Type::Uint128)]));
    match emitter.pop_ir_identifier() {
        Err(Error::Internal(message)) => {
            assert_eq!(message, "Expected symbol name, but found nothing.")
        }
        other => panic!("unexpected {:?}", other),
    }
    assert!(emitter.has_failed());
    assert_eq!(emitter.operand_count(), 0);
    assert_eq!(emitter.description(), &before);

    // a contract that fails half way leaves the description as it found it
    let mut emitter = SrEmitter::new();
    assert!(emitter
        .emit_contract_field(TreeTraversalMode::Enter, &field("total", simple("Uint128")).node)
        .is_ok());
    let broken = program(
        "Broken",
        vec![("owner", simple("ByStr20"))],
        vec![field("fine", simple("Bool")), field("bad", simple("Option"))],
        vec![],
    );
    let result = visit_contract_definition_at(&broken.contract_definition, &mut emitter);
    assert!(matches!(result, Err(Error::AstVisitError(_))));
    assert_eq!(emitter.description(), &before);
    assert_eq!(emitter.position_count(), 0);
}

#[test]
fn map_entry_is_lowered_by_the_hooks_of_its_key_and_value() {
    let entry = at(NodeTypeMapEntry { key: key("String"), value: at(value_named("BNum")) });
    let mut emitter = SrEmitter::new();
    for mode in [TreeTraversalMode::Enter, TreeTraversalMode::Exit] {
        assert!(matches!(
            emitter.emit_type_map_entry(mode, &entry.node),
            Ok(TraversalResult::Continue)
        ));
        assert_eq!(emitter.operand_count(), 0);
    }
    assert!(matches!(visit_type_map_entry_at(&entry, &mut emitter), Ok(TraversalResult::Continue)));
    assert_eq!(emitter.operand_count(), 1);
    assert_eq!(emitter.position_count(), 0);
    let d = emitter.pop_type_definition().unwrap();
    assert_eq!(d.main_type, "Map");
    assert_eq!(d.sub_types.len(), 2);
    assert_eq!(d.sub_types[0].main_type, "String");
    assert_eq!(d.sub_types[1].main_type, "BNum");
}
