use scilla_parser::Type;

#[test]
fn test_type_to_string() {
    //(List (Pair ByStr20 (List (Pair ByStr20 Uint32))))
    let list_type = Type::List(Box::new(Type::Pair(
        Box::new(Type::ByStrX(20)),
        Box::new(Type::List(Box::new(Type::Pair(
            Box::new(Type::ByStrX(20)),
            Box::new(Type::Uint32),
        )))),
    )));

    assert_eq!(
        "(List (Pair ByStr20 (List (Pair ByStr20 Uint32))))",
        list_type.to_string()
    );

    // (List (Pair ByStr20 (List (Pair ByStr20 (List (Pair Uint32 Uint128))))))
    let list_type = Type::List(Box::new(Type::Pair(
        Box::new(Type::ByStrX(20)),
        Box::new(Type::List(Box::new(Type::Pair(
            Box::new(Type::ByStrX(20)),
            Box::new(Type::List(Box::new(Type::Pair(
                Box::new(Type::Uint32),
                Box::new(Type::Uint128),
            )))),
        )))),
    )));

    assert_eq!(
        "(List (Pair ByStr20 (List (Pair ByStr20 (List (Pair Uint32 Uint128))))))",
        list_type.to_string()
    );
}
