use lalrpop_util::ParseError;
use scilla_parser::ast::nodes::{
    NodeByteStr, NodeComponentId, NodeTypeNameIdentifier, SourcePosition, WithMetaData,
};
use scilla_parser::simplified_representation::name_generator::NameGenerator;
use scilla_parser::simplified_representation::primitives::{
    AddressType, SrIdentifier, SrIdentifierKind, SrType,
};
use scilla_parser::text::{decimal_string, parse_usize_from, same_text, starts_with};
use scilla_parser::{Contract, Error, Field, FieldList, Transition, TransitionList, Type};

fn at<T>(node: T) -> WithMetaData<T> {
    WithMetaData {
        node,
        start: SourcePosition::start_position(),
        end: SourcePosition::invalid_position(),
    }
}

fn descriptor(name: &str, sub_types: Vec<SrType>) -> SrType {
    SrType { main_type: name.to_string(), sub_types, address_type: None }
}

fn plain(name: &str) -> SrType {
    descriptor(name, vec![])
}

#[test]
fn decimal_spelling_of_numbers() {
    assert_eq!(decimal_string(0), "0");
    assert_eq!(decimal_string(7), "7");
    assert_eq!(decimal_string(10), "10");
    assert_eq!(decimal_string(120), "120");
    assert_eq!(decimal_string(9007199254740993), "9007199254740993");
    assert_eq!(decimal_string(u64::MAX), "18446744073709551615");
}

#[test]
fn unsigned_numbers_are_read_like_the_standard_library_reads_them() {
    for text in [
        "0", "7", "007", "+7", "32", "18446744073709551615", "18446744073709551616", "", "+",
        "-", "-0", "++1", "+-1", "1+", "1 ", " 1", "12a", "a12", "٣", "99999999999999999999999",
        "180000000000000000000", "+0", "00000000000000000000000000001",
    ] {
        assert_eq!(parse_usize_from(text, 0), text.parse::<usize>().ok(), "{:?}", text);
    }
    assert_eq!(parse_usize_from("ByStr32", 5), Some(32));
    assert_eq!(parse_usize_from("ByStr", 5), None);
    assert_eq!(parse_usize_from("éa12", 2), Some(12));
}

#[test]
fn texts_are_compared_by_characters() {
    assert!(same_text("", ""));
    assert!(same_text("Map", "Map"));
    assert!(!same_text("Map", "Mab"));
    assert!(!same_text("Map", "Maps"));
    assert!(!same_text("Maps", "Map"));
    assert!(same_text("héllo", "héllo"));
    assert!(starts_with("ByStr20", "ByStr"));
    assert!(starts_with("ByStr", "ByStr"));
    assert!(!starts_with("BySt", "ByStr"));
    assert!(!starts_with("ByStx20", "ByStr"));
    assert!(starts_with("anything", ""));
}

#[test]
fn scalar_names_resolve_to_their_variants() {
    let cases = vec![
        ("Int32", Type::Int32),
        ("Int64", Type::Int64),
        ("Int128", Type::Int128),
        ("Int256", Type::Int256),
        ("Uint32", Type::Uint32),
        ("Uint64", Type::Uint64),
        ("Uint128", Type::Uint128),
        ("Uint256", Type::Uint256),
        ("String", Type::String),
        ("ByStr", Type::ByStr),
        ("BNum", Type::BNum),
        ("Bool", Type::Bool),
        ("ByStr20", Type::ByStr20),
        ("ByStr32", Type::ByStrX(32)),
        ("ByStr033", Type::ByStrX(33)),
        ("ByStr+7", Type::ByStrX(7)),
        ("ByStr0", Type::ByStrX(0)),
        ("ByStrX", Type::Other("ByStrX".to_string())),
        ("ByStr-1", Type::Other("ByStr-1".to_string())),
        ("ByStr 1", Type::Other("ByStr 1".to_string())),
        (
            "ByStr99999999999999999999999",
            Type::Other("ByStr99999999999999999999999".to_string()),
        ),
        ("Foo", Type::Other("Foo".to_string())),
        ("", Type::Other("".to_string())),
        ("int32", Type::Other("int32".to_string())),
    ];
    for (name, expected) in cases {
        assert_eq!(Type::from_descriptor(plain(name)).unwrap(), expected, "{}", name);
    }
}

#[test]
fn constructors_take_their_arguments_from_the_end() {
    assert_eq!(
        Type::from_descriptor(descriptor("Option", vec![plain("Bool")])).unwrap(),
        Type::Option(Box::new(Type::Bool))
    );
    assert_eq!(
        Type::from_descriptor(descriptor("Option", vec![plain("Bool"), plain("Int32")])).unwrap(),
        Type::Option(Box::new(Type::Int32))
    );
    assert_eq!(
        Type::from_descriptor(descriptor("List", vec![plain("String")])).unwrap(),
        Type::List(Box::new(Type::String))
    );
    assert_eq!(
        Type::from_descriptor(descriptor("Pair", vec![plain("Uint32"), plain("String")])).unwrap(),
        Type::Pair(Box::new(Type::Uint32), Box::new(Type::String))
    );
    assert_eq!(
        Type::from_descriptor(descriptor(
            "Pair",
            vec![plain("Option"), plain("Uint32"), plain("String")]
        ))
        .unwrap(),
        Type::Pair(Box::new(Type::Uint32), Box::new(Type::String))
    );
    assert_eq!(
        Type::from_descriptor(descriptor("Map", vec![plain("ByStr20"), plain("Uint128")]))
            .unwrap(),
        Type::Mapping(Box::new(Type::ByStr20), Box::new(Type::Uint128))
    );
    assert_eq!(
        Type::from_descriptor(descriptor(
            "Map",
            vec![
                plain("String"),
                descriptor("Pair", vec![plain("ByStr20"), plain("BNum")])
            ]
        ))
        .unwrap(),
        Type::Mapping(
            Box::new(Type::String),
            Box::new(Type::Pair(Box::new(Type::ByStr20), Box::new(Type::BNum)))
        )
    );
}

#[test]
fn constructors_without_enough_arguments_are_refused() {
    for d in [
        plain("Option"),
        plain("List"),
        plain("Pair"),
        descriptor("Pair", vec![plain("Bool")]),
        plain("Map"),
        descriptor("Map", vec![plain("Bool")]),
        descriptor("List", vec![plain("Option")]),
        descriptor("Pair", vec![plain("Bool"), plain("List")]),
        descriptor("Map", vec![plain("Pair"), plain("Bool")]),
    ] {
        match Type::from_descriptor(d) {
            Err(Error::AstVisitError(message)) => {
                assert_eq!(message, "Type constructor is applied to too few type arguments.")
            }
            other => panic!("unexpected {:?}", other),
        }
    }
}

#[test]
fn address_descriptor_resolves_to_annotated_address() {
    let fields = FieldList(vec![Field::new("balance", Type::Uint128)]);
    let d = SrType {
        main_type: "ByStr20".to_string(),
        sub_types: vec![],
        address_type: Some(AddressType { typename: "contract".to_string(), fields }),
    };
    assert_eq!(
        Type::from_descriptor(d).unwrap(),
        Type::ByStr20With {
            typename: "contract".to_string(),
            fields: FieldList(vec![Field::new("balance", Type::Uint128)])
        }
    );
    let other = SrType {
        main_type: "Uint32".to_string(),
        sub_types: vec![],
        address_type: Some(AddressType {
            typename: "contract".to_string(),
            fields: FieldList::default(),
        }),
    };
    assert_eq!(Type::from_descriptor(other).unwrap(), Type::Uint32);
}

#[test]
fn types_are_spelled_as_in_source() {
    assert_eq!(Type::Int32.to_string(), "Int32");
    assert_eq!(Type::Int64.to_string(), "Int64");
    assert_eq!(Type::Int128.to_string(), "Int128");
    assert_eq!(Type::Int256.to_string(), "Int256");
    assert_eq!(Type::Uint32.to_string(), "Uint32");
    assert_eq!(Type::Uint64.to_string(), "Uint64");
    assert_eq!(Type::Uint128.to_string(), "Uint128");
    assert_eq!(Type::Uint256.to_string(), "Uint256");
    assert_eq!(Type::String.to_string(), "String");
    assert_eq!(Type::BNum.to_string(), "BNum");
    assert_eq!(Type::Bool.to_string(), "Bool");
    assert_eq!(Type::ByStr.to_string(), "ByStr");
    assert_eq!(Type::ByStr20.to_string(), "ByStr20");
    assert_eq!(Type::ByStrX(33).to_string(), "ByStr33");
    assert_eq!(Type::ByStrX(0).to_string(), "ByStr0");
    assert_eq!(Type::Other("Foo".to_string()).to_string(), "Foo");
    assert_eq!(
        Type::Mapping(Box::new(Type::String), Box::new(Type::Uint128)).to_string(),
        "(Map String, Uint128)"
    );
    assert_eq!(Type::Option(Box::new(Type::Bool)).to_string(), "(Option Bool)");
    assert_eq!(Type::List(Box::new(Type::Bool)).to_string(), "(List Bool)");
    assert_eq!(
        Type::Pair(Box::new(Type::Bool), Box::new(Type::BNum)).to_string(),
        "(Pair Bool BNum)"
    );
    assert_eq!(
        Type::ByStr20With { typename: "contract".to_string(), fields: FieldList::default() }
            .to_string(),
        "ByStr20 with contract end"
    );
    assert_eq!(
        Type::ByStr20With {
            typename: "contract".to_string(),
            fields: FieldList(vec![Field::new("a", Type::Uint32)])
        }
        .to_string(),
        "ByStr20 with contract field a: Uint32 end"
    );
    assert_eq!(
        Type::ByStr20With {
            typename: "library".to_string(),
            fields: FieldList(vec![
                Field::new("a", Type::Uint32),
                Field::new("m", Type::Mapping(Box::new(Type::ByStr20), Box::new(Type::Bool))),
                Field::new("o", Type::Other("T".to_string()))
            ])
        }
        .to_string(),
        "ByStr20 with library field a: Uint32, field m: (Map ByStr20, Bool), field o: T end"
    );
    let balances = Type::ByStr20With {
        typename: "contract".to_string(),
        fields: FieldList(vec![Field::new(
            "balances",
            Type::Mapping(Box::new(Type::ByStr20), Box::new(Type::Uint128)),
        )]),
    };
    assert_eq!(
        balances.to_string(),
        "ByStr20 with contract field balances: (Map ByStr20, Uint128) end"
    );
    let mut out = String::from("type: ");
    Type::Bool.write_to(&mut out);
    assert_eq!(out, "type: Bool");
}

#[test]
fn fields_and_lists_keep_what_they_are_given() {
    let f = Field::new("owner", Type::ByStr20);
    assert_eq!(f.name, "owner");
    assert_eq!(f.ty, Type::ByStr20);
    let d = Field::default();
    assert_eq!(d.name, "");
    assert_eq!(d.ty, Type::Other(String::new()));

    let mut list = FieldList::new();
    assert_eq!(list, FieldList::default());
    assert_eq!(list.len(), 0);
    assert!(list.get(0).is_none());
    list.push(Field::new("a", Type::Bool));
    list.push(Field::new("b", Type::BNum));
    assert_eq!(list.len(), 2);
    assert_eq!(list.get(0), Some(&Field::new("a", Type::Bool)));
    assert_eq!(list.get(1), Some(&Field::new("b", Type::BNum)));
    assert!(list.get(2).is_none());
    assert_eq!(list, FieldList(vec![Field::new("a", Type::Bool), Field::new("b", Type::BNum)]));
    assert_ne!(list, FieldList(vec![Field::new("b", Type::BNum), Field::new("a", Type::Bool)]));
}

#[test]
fn transitions_and_lists_keep_what_they_are_given() {
    let t = Transition::new("Go", FieldList(vec![Field::new("x", Type::Bool)]));
    assert_eq!(t.name, "Go");
    assert_eq!(t.params, FieldList(vec![Field::new("x", Type::Bool)]));
    let n = Transition::new_without_param("Stop");
    assert_eq!(n.name, "Stop");
    assert_eq!(n.params, FieldList::default());

    let mut list = TransitionList::new();
    assert_eq!(list, TransitionList::default());
    assert!(list.get(0).is_none());
    list.push(Transition::new_without_param("A"));
    list.push(Transition::new_without_param("B"));
    assert_eq!(list.len(), 2);
    assert_eq!(list.get(0).unwrap().name, "A");
    assert_eq!(list.get(1).unwrap().name, "B");
    assert!(list.get(2).is_none());
    assert_ne!(
        list,
        TransitionList(vec![
            Transition::new_without_param("B"),
            Transition::new_without_param("A")
        ])
    );
}

#[test]
fn new_contract_is_empty() {
    let c = Contract::new();
    assert_eq!(c, Contract::default());
    assert_eq!(c.name, "");
    assert_eq!(c.init_params.len(), 0);
    assert_eq!(c.fields.len(), 0);
    assert_eq!(c.transitions.len(), 0);
}

#[test]
fn identifiers_and_descriptors_are_built_from_names() {
    let id = SrIdentifier::new("Foo".to_string(), SrIdentifierKind::TypeName);
    assert_eq!(
        id,
        SrIdentifier {
            unresolved: "Foo".to_string(),
            resolved: None,
            type_reference: None,
            kind: SrIdentifierKind::TypeName,
            is_definition: false
        }
    );
    let mut d = SrType::from_identifier(id);
    assert_eq!(d.main_type, "Foo");
    assert!(d.sub_types.is_empty());
    assert!(d.address_type.is_none());
    d.push_sub_type(plain("A"));
    d.push_sub_type(plain("B"));
    assert_eq!(d.sub_types.len(), 2);
    assert_eq!(d.sub_types[0].main_type, "A");
    assert_eq!(d.sub_types[1].main_type, "B");
}

#[test]
fn generated_names_are_numbered_in_order() {
    let mut names = NameGenerator::new();
    assert_eq!(names.anonymous_type_count(), 0);
    assert_eq!(names.intermediate_count(), 0);
    let a = names.generate_anonymous_type_id("Anon".to_string());
    assert_eq!(names.anonymous_type_count(), 1);
    assert_eq!(names.intermediate_count(), 0);
    let b = names.generate_anonymous_type_id("Anon".to_string());
    let c = names.generate_anonymous_type_id("".to_string());
    assert_eq!(a.unresolved, "Anon0");
    assert_eq!(b.unresolved, "Anon1");
    assert_eq!(c.unresolved, "2");
    assert_eq!(a.kind, SrIdentifierKind::TypeName);
    assert!(a.is_definition);
    assert_eq!(a.resolved, None);
    assert_eq!(a.type_reference, None);
    let i = names.new_intermediate();
    let j = names.new_intermediate();
    assert_eq!(i.unresolved, "__imm_0");
    assert_eq!(j.unresolved, "__imm_1");
    assert_eq!(i.kind, SrIdentifierKind::VirtualRegisterIntermediate);
    assert!(i.is_definition);
    let d = names.generate_anonymous_type_id("Anon".to_string());
    assert_eq!(d.unresolved, "Anon3");
    for _ in 0..9 {
        names.new_intermediate();
    }
    assert_eq!(names.new_intermediate().unresolved, "__imm_11");
}

#[test]
fn string_and_hex_types_are_named_string() {
    let names = NameGenerator::new();
    let s = names.string_type();
    assert_eq!(s, SrIdentifier::new("String".to_string(), SrIdentifierKind::TypeName));
    let h = names.hex_type();
    assert_eq!(h, SrIdentifier::new("String".to_string(), SrIdentifierKind::TypeName));
}

#[test]
fn grammar_failures_become_parse_errors() {
    let failure: ParseError<usize, String, String> =
        ParseError::UnrecognizedEof { location: 42, expected: vec!["\"end\"".to_string()] };
    match Error::from_parse_error(failure) {
        Error::ParseError(text) => {
            assert_eq!(text, "UnrecognizedEof { location: 42, expected: [\"\\\"end\\\"\"] }")
        }
        other => panic!("unexpected {:?}", other),
    }
    let failure: ParseError<usize, String, String> = ParseError::InvalidToken { location: 3 };
    match Error::from_parse_error(failure) {
        Error::ParseError(text) => assert_eq!(text, "InvalidToken { location: 3 }"),
        other => panic!("unexpected {:?}", other),
    }
    let failure: ParseError<(usize, usize), char, u8> = ParseError::User { error: 9 };
    assert!(matches!(Error::from_parse_error(failure), Error::ParseError(_)));
}

#[test]
fn name_nodes_spell_their_names() {
    assert_eq!(NodeByteStr::Constant(at("0x12".to_string())).to_string(), "0x12");
    assert_eq!(NodeByteStr::Type(at("ByStr20".to_string())).to_string(), "ByStr20");
    assert_eq!(
        NodeTypeNameIdentifier::ByteStringType(at(NodeByteStr::Type(at("ByStr32".to_string()))))
            .to_string(),
        "ByStr32"
    );
    assert_eq!(NodeTypeNameIdentifier::EventType.to_string(), "Event");
    assert_eq!(
        NodeTypeNameIdentifier::TypeOrEnumLikeIdentifier(at("Foo".to_string())).to_string(),
        "Foo"
    );
    assert_eq!(NodeComponentId::WithRegularId(at("transfer".to_string())).to_string(), "transfer");
    assert_eq!(
        NodeComponentId::WithTypeLikeName(at(NodeTypeNameIdentifier::TypeOrEnumLikeIdentifier(
            at("Transfer".to_string())
        )))
        .to_string(),
        "Transfer"
    );
}

#[test]
fn source_positions_mark_start_and_nowhere() {
    assert_eq!(
        SourcePosition::start_position(),
        SourcePosition { position: 0, line: 0, column: 0 }
    );
    assert_eq!(
        SourcePosition::invalid_position(),
        SourcePosition { position: usize::MAX, line: usize::MAX, column: usize::MAX }
    );
}

fn nested() -> Type {
    Type::ByStr20With {
        typename: "contract".to_string(),
        fields: FieldList(vec![
            Field::new("a", Type::Mapping(Box::new(Type::ByStr20), Box::new(Type::Uint128))),
            Field::new("b", Type::Option(Box::new(Type::ByStrX(33)))),
            Field::new(
                "c",
                Type::ByStr20With {
                    typename: "library".to_string(),
                    fields: FieldList(vec![Field::new("d", Type::Other("T".to_string()))]),
                },
            ),
        ]),
    }
}

#[test]
fn equality_of_types_is_structural() {
    assert_eq!(nested(), nested());
    assert_eq!(Type::Int32, Type::Int32);
    assert_ne!(Type::Int32, Type::Int64);
    assert_ne!(Type::ByStr, Type::ByStr20);
    assert_ne!(Type::ByStrX(20), Type::ByStr20);
    assert_ne!(Type::ByStrX(32), Type::ByStrX(33));
    assert_ne!(Type::Other("String".to_string()), Type::String);
    assert_ne!(Type::Other("A".to_string()), Type::Other("B".to_string()));
    assert_ne!(Type::Option(Box::new(Type::Bool)), Type::List(Box::new(Type::Bool)));
    assert_ne!(Type::Option(Box::new(Type::Bool)), Type::Option(Box::new(Type::BNum)));
    assert_ne!(
        Type::Pair(Box::new(Type::Bool), Box::new(Type::BNum)),
        Type::Pair(Box::new(Type::BNum), Box::new(Type::Bool))
    );
    assert_ne!(
        Type::Mapping(Box::new(Type::Bool), Box::new(Type::BNum)),
        Type::Pair(Box::new(Type::Bool), Box::new(Type::BNum))
    );
    let shorter = Type::ByStr20With {
        typename: "contract".to_string(),
        fields: FieldList(vec![Field::new(
            "a",
            Type::Mapping(Box::new(Type::ByStr20), Box::new(Type::Uint128)),
        )]),
    };
    assert_ne!(nested(), shorter);
    let other_name =
        Type::ByStr20With { typename: "library".to_string(), fields: FieldList::default() };
    let this_name =
        Type::ByStr20With { typename: "contract".to_string(), fields: FieldList::default() };
    assert_ne!(other_name, this_name);
}

#[test]
fn equality_of_fields_transitions_and_contracts_is_order_sensitive() {
    assert_eq!(Field::new("a", Type::Bool), Field::new("a", Type::Bool));
    assert_ne!(Field::new("a", Type::Bool), Field::new("b", Type::Bool));
    assert_ne!(Field::new("a", Type::Bool), Field::new("a", Type::BNum));
    let ab = || FieldList(vec![Field::new("a", Type::Bool), Field::new("b", Type::BNum)]);
    let ba = || FieldList(vec![Field::new("b", Type::BNum), Field::new("a", Type::Bool)]);
    assert_eq!(ab(), ab());
    assert_ne!(ab(), ba());
    assert_ne!(ab(), FieldList(vec![Field::new("a", Type::Bool)]));
    assert_eq!(Transition::new("T", ab()), Transition::new("T", ab()));
    assert_ne!(Transition::new("T", ab()), Transition::new("T", ba()));
    assert_ne!(Transition::new("T", ab()), Transition::new("U", ab()));
    let contract = |first: &str, second: &str| Contract {
        name: "C".to_string(),
        init_params: ab(),
        fields: ba(),
        transitions: TransitionList(vec![
            Transition::new(first, ab()),
            Transition::new_without_param(second),
        ]),
    };
    assert_eq!(contract("X", "Y"), contract("X", "Y"));
    assert_ne!(contract("X", "Y"), contract("Y", "X"));
    let mut renamed = contract("X", "Y");
    renamed.name = "D".to_string();
    assert_ne!(contract("X", "Y"), renamed);
    let mut fewer = contract("X", "Y");
    fewer.fields = FieldList::default();
    assert_ne!(contract("X", "Y"), fewer);
    let mut other_params = contract("X", "Y");
    other_params.init_params = ba();
    assert_ne!(contract("X", "Y"), other_params);
}

#[test]
fn copies_are_equal_to_what_they_copy() {
    let t = nested();
    let copy = t.clone();
    assert_eq!(copy, t);
    assert_eq!(copy.to_string(), t.to_string());
    let f = Field::new("x", nested());
    assert_eq!(f.clone(), f);
    let list = FieldList(vec![Field::new("x", nested()), Field::new("y", Type::Bool)]);
    let again = list.clone();
    assert_eq!(again, list);
    assert_eq!(again.len(), 2);
}

#[test]
fn lists_give_read_access_to_their_items() {
    let list = FieldList(vec![Field::new("x", Type::Bool), Field::new("y", Type::BNum)]);
    let names: Vec<&str> = list.iter().map(|f| f.name.as_str()).collect();
    assert_eq!(names, vec!["x", "y"]);
    assert_eq!(list[1].ty, Type::BNum);
    let transitions = TransitionList(vec![
        Transition::new_without_param("A"),
        Transition::new_without_param("B"),
    ]);
    let names: Vec<&str> = transitions.iter().map(|t| t.name.as_str()).collect();
    assert_eq!(names, vec!["A", "B"]);
    assert_eq!(transitions[0].name, "A");
}

#[test]
fn copies_of_identifiers_and_descriptors_hold_the_same() {
    let id = SrIdentifier {
        unresolved: "f".to_string(),
        resolved: Some("Lib::f".to_string()),
        type_reference: None,
        kind: SrIdentifierKind::FunctionName,
        is_definition: true,
    };
    assert_eq!(id.clone(), id);

    let d = SrType {
        main_type: "Pair".to_string(),
        sub_types: vec![
            plain("Uint32"),
            SrType {
                main_type: "ByStr20".to_string(),
                sub_types: vec![],
                address_type: Some(AddressType {
                    typename: "contract".to_string(),
                    fields: FieldList(vec![Field::new("supply", Type::Uint128)]),
                }),
            },
        ],
        address_type: None,
    };
    let copy = d.clone();
    assert_eq!(copy.main_type, "Pair");
    assert_eq!(copy.sub_types.len(), 2);
    assert_eq!(copy.sub_types[0].main_type, "Uint32");
    let address = copy.sub_types[1].address_type.clone().unwrap();
    assert_eq!(address.typename, "contract");
    assert_eq!(address.fields, FieldList(vec![Field::new("supply", Type::Uint128)]));
    assert_eq!(Type::from_descriptor(copy).unwrap(), Type::from_descriptor(d).unwrap());

    let names = NameGenerator::new();
    let mut other = names.clone();
    assert_eq!(other.new_intermediate().unresolved, "__imm_0");
}

#[test]
fn parse_error_keeps_the_text_it_is_given() {
    match Error::from_parse_error_text("unexpected end".to_string()) {
        Error::ParseError(text) => assert_eq!(text, "unexpected end"),
        other => panic!("unexpected {:?}", other),
    }
}

#[test]
fn transition_list_can_be_changed_in_place() {
    let mut list = TransitionList::default();
    list.push(Transition::new_without_param("A"));
    list.push(Transition::new_without_param("B"));
    list[0].name = "C".to_string();
    list.truncate(1);
    assert_eq!(list, TransitionList(vec![Transition::new_without_param("C")]));
    let copy = list.clone();
    assert_eq!(copy, list);
    let contract = Contract {
        name: "K".to_string(),
        init_params: FieldList(vec![Field::new("a", Type::Bool)]),
        fields: FieldList::default(),
        transitions: copy,
    };
    assert_eq!(contract.clone(), contract);
}
