use crate::ast::converting::{within, Walk};
use crate::ast::nodes::{
    NodeAddressType, NodeAddressTypeField, NodeComponentDefinition, NodeContractField,
    NodeMetaIdentifier, NodeParameterPair, NodeProgram, NodeScillaType,
    NodeTransitionDefinition, NodeTypeArgument, NodeTypeMapEntry, NodeTypeMapKey,
    NodeTypeMapValue, NodeTypeMapValueAllowingTypeArguments, NodeTypeNameIdentifier,
    NodeTypedIdentifier, NodeVariableIdentifier, WithMetaData,
};
use crate::ast::traversal::definitions::{
    visit_component_definition_at_spec, visit_contract_definition_spec,
    visit_contract_field_at_spec, visit_parameter_pair_at_spec, visit_program_spec,
};
use crate::ast::traversal::names::{
    visit_meta_identifier_at_spec, visit_type_name_identifier_at_spec,
};
use crate::ast::traversal::types::{
    visit_address_type_at_spec, visit_scilla_type_at_spec, visit_type_map_entry_at_spec,
    visit_typed_identifier_at_spec,
};
use crate::contract::ContractView;
use crate::error::ErrorView;
use crate::simplified_representation::emitter::{
    emitted, lemma_pushed_dropped, EmitterState, SrEmitter,
};
use crate::simplified_representation::lowering::{
    address_descriptor, address_field, address_field_results, allowing_descriptor,
    as_declaration, as_type, contract_field_results, entry_descriptor, gather, key_object,
    lemma_gather_first_failure, lemma_gather_success, lowered_contract, meta_name,
    parameter_fields, parameter_results, scilla_type_descriptor, transition_signature,
    transition_signatures, type_argument_descriptor, type_argument_results, typed_field,
    unknown, value_argument_results, value_descriptor,
};
use crate::simplified_representation::primitives::SrTypeView;
use crate::transition::TransitionView;
use crate::types::resolved;
use vstd::prelude::*;

verus! {

/// The transitions among a row of components, in source order.
pub open spec fn transitions_among(
    components: Seq<WithMetaData<NodeComponentDefinition>>,
) -> Seq<NodeTransitionDefinition>
    decreases components.len(),
{
    if components.len() == 0 {
        Seq::empty()
    } else {
        match components.last().node {
            NodeComponentDefinition::TransitionComponent(transition) => transitions_among(
                components.drop_last(),
            ).push(transition.node),
            NodeComponentDefinition::ProcedureComponent(_) => transitions_among(
                components.drop_last(),
            ),
        }
    }
}

/// The signatures that a row of components lowers to are those of its transitions, one
/// for one and in source order.
pub proof fn lemma_signatures_follow_transitions(
    components: Seq<WithMetaData<NodeComponentDefinition>>,
)
    requires
        transition_signatures(components) is Ok,
    ensures
        transition_signatures(components)->Ok_0.len() == transitions_among(components).len(),
        forall|k: int|
            0 <= k < transitions_among(components).len() ==> transition_signature(
                #[trigger] transitions_among(components)[k],
            ) == Ok::<TransitionView, ErrorView>(transition_signatures(components)->Ok_0[k]),
    decreases components.len(),
{
    if components.len() > 0 {
        lemma_signatures_follow_transitions(components.drop_last());
    }
}

/// What visiting the contract definition of `program` with an emitter in `state` comes
/// to: the definition is entered at its place in the source, visited and left.
pub open spec fn contract_walk(state: EmitterState, program: NodeProgram) -> Walk<EmitterState> {
    within::<SrEmitter>(
        visit_contract_definition_spec::<SrEmitter>(
            program.contract_definition.node,
            state.at(program.contract_definition.start, program.contract_definition.end),
        ),
    )
}

/// A program without imports and without a library may as well be visited from its
/// root: the visit comes to what the visit of its contract definition comes to.
pub proof fn law_program_walk(state: EmitterState, program: NodeProgram)
    requires
        !state.failed,
        program.import_declarations is None,
        program.library_definition is None,
    ensures
        visit_program_spec::<SrEmitter>(program, state) == contract_walk(state, program),
{
    let entered = state.at(
        program.contract_definition.start,
        program.contract_definition.end,
    );
}

/// Lowering is a function of the program: an emitter that has not been used yields the
/// description of the contract and nothing else, so two lowerings of one program
/// yield equal results.
pub proof fn law_deterministic(program: NodeProgram, first: EmitterState, second: EmitterState)
    requires
        first == EmitterState::fresh(),
        second == EmitterState::fresh(),
    ensures
        emitted(first, program) == emitted(second, program),
        emitted(first, program) == lowered_contract(program),
        match contract_walk(first, program).outcome {
            Ok(_) => lowered_contract(program) == Ok::<ContractView, ErrorView>(
                contract_walk(first, program).state.contract,
            ),
            Err(error) => lowered_contract(program) == Err::<ContractView, ErrorView>(error),
        },
{
}

/// Lowering fails fast: where the parameters of the contract are lowered and a field
/// declaration fails after all field declarations before it were lowered, the failure of
/// that declaration is the failure of the lowering, whatever stands behind it.
pub proof fn law_first_failure_is_reported(program: NodeProgram, i: int)
    requires
        parameter_fields(program.contract_definition.node.parameters.node.parameters@) is Ok,
        0 <= i < program.contract_definition.node.fields@.len(),
        forall|j: int|
            0 <= j < i ==> typed_field(
                (#[trigger] program.contract_definition.node.fields@[j]).node.typed_identifier.node,
            ) is Ok,
        typed_field(program.contract_definition.node.fields@[i].node.typed_identifier.node) is Err,
    ensures
        lowered_contract(program) == Err::<ContractView, ErrorView>(
            typed_field(
                program.contract_definition.node.fields@[i].node.typed_identifier.node,
            )->Err_0,
        ),
{
    let fields = program.contract_definition.node.fields@;
    let results = contract_field_results(fields);
    lemma_gather_first_failure(results, i);
}

/// The lists of the description keep the order of declaration: the constructor
/// parameters are the parameters of the contract, the fields are its field
/// declarations and the transitions are its transition components, one for one and in
/// source order; each parameter list of a transition keeps the order of its parameters.
pub proof fn law_order_preserved(program: NodeProgram)
    requires
        lowered_contract(program) is Ok,
    ensures
        ({
            let definition = program.contract_definition.node;
            let contract = lowered_contract(program)->Ok_0;
            let parameters = definition.parameters.node.parameters@;
            let transitions = transitions_among(definition.components@);
            &&& contract.name == definition.contract_name.node.text()
            &&& contract.init_params.len() == parameters.len()
            &&& forall|i: int|
                0 <= i < parameters.len() ==> typed_field(
                    (#[trigger] parameters[i]).node.identifier_with_type.node,
                ) == Ok::<_, ErrorView>(contract.init_params[i])
            &&& contract.fields.len() == definition.fields@.len()
            &&& forall|i: int|
                0 <= i < definition.fields@.len() ==> typed_field(
                    (#[trigger] definition.fields@[i]).node.typed_identifier.node,
                ) == Ok::<_, ErrorView>(contract.fields[i])
            &&& contract.transitions.len() == transitions.len()
            &&& forall|k: int|
                0 <= k < transitions.len() ==> {
                    let declared = (#[trigger] transitions[k]).parameters.node.parameters@;
                    &&& contract.transitions[k].name == transitions[k].name.node.text()
                    &&& contract.transitions[k].params.len() == declared.len()
                    &&& forall|j: int|
                        0 <= j < declared.len() ==> typed_field(
                            (#[trigger] declared[j]).node.identifier_with_type.node,
                        ) == Ok::<_, ErrorView>(contract.transitions[k].params[j])
                }
        }),
{
    let definition = program.contract_definition.node;
    let contract = lowered_contract(program)->Ok_0;
    let parameters = definition.parameters.node.parameters@;
    let transitions = transitions_among(definition.components@);
    lemma_gather_success(parameter_results(parameters));
    lemma_gather_success(contract_field_results(definition.fields@));
    lemma_signatures_follow_transitions(definition.components@);
    assert forall|i: int| 0 <= i < parameters.len() implies typed_field(
        (#[trigger] parameters[i]).node.identifier_with_type.node,
    ) == Ok::<_, ErrorView>(contract.init_params[i]) by {
        assert(parameter_results(parameters)[i] == typed_field(
            parameters[i].node.identifier_with_type.node,
        ));
    }
    assert forall|i: int| 0 <= i < definition.fields@.len() implies typed_field(
        (#[trigger] definition.fields@[i]).node.typed_identifier.node,
    ) == Ok::<_, ErrorView>(contract.fields[i]) by {
        assert(contract_field_results(definition.fields@)[i] == typed_field(
            definition.fields@[i].node.typed_identifier.node,
        ));
    }
    assert forall|k: int| 0 <= k < transitions.len() implies {
        let declared = (#[trigger] transitions[k]).parameters.node.parameters@;
        &&& contract.transitions[k].name == transitions[k].name.node.text()
        &&& contract.transitions[k].params.len() == declared.len()
        &&& forall|j: int|
            0 <= j < declared.len() ==> typed_field(
                (#[trigger] declared[j]).node.identifier_with_type.node,
            ) == Ok::<_, ErrorView>(contract.transitions[k].params[j])
    } by {
        let declared = transitions[k].parameters.node.parameters@;
        lemma_gather_success(parameter_results(declared));
        assert forall|j: int| 0 <= j < declared.len() implies typed_field(
            (#[trigger] declared[j]).node.identifier_with_type.node,
        ) == Ok::<_, ErrorView>(contract.transitions[k].params[j]) by {
            assert(parameter_results(declared)[j] == typed_field(
                declared[j].node.identifier_with_type.node,
            ));
        }
    }
}

/// The stacks are balanced: a visit of the contract definition that succeeds leaves
/// the operand stack, the namespace stack and the position stack of the emitter as it
/// found them, so that an emitter that has not been used ends with all three empty.
/// The position stack is left as it was found when the visit fails, too.
pub proof fn law_stacks_balanced(program: NodeProgram, state: EmitterState)
    requires
        !state.failed,
    ensures
        contract_walk(state, program).state.positions == state.positions,
        contract_walk(state, program).outcome is Ok ==> {
            &&& !contract_walk(state, program).state.failed
            &&& contract_walk(state, program).state.stack == state.stack
            &&& contract_walk(state, program).state.namespaces == state.namespaces
        },
        contract_walk(state, program).outcome is Err ==> contract_walk(state, program).state
            == state.failing(),
        state == EmitterState::fresh() && contract_walk(state, program).outcome is Ok ==> {
            &&& contract_walk(state, program).state.stack.len() == 0
            &&& contract_walk(state, program).state.positions.len() == 0
            &&& contract_walk(state, program).state.namespaces.len() == 0
        },
{
    let entered = state.at(
        program.contract_definition.start,
        program.contract_definition.end,
    );
}

/// The state after the hooks of a type name have run: a name-bearing leaf has left its
/// identifier, the event type has left nothing.
pub open spec fn leaf_named(state: EmitterState, name: NodeTypeNameIdentifier) -> EmitterState {
    if name is EventType {
        state
    } else {
        state.pushed(unknown(name.text()))
    }
}

/// The traversal driver, run with the emitter as its backend on a type name at its place
/// in the source, leaves the identifier of a name-bearing leaf and nothing for the event
/// type, and leaves the position stack as it found it.
pub proof fn law_driver_names_leaf(state: EmitterState, name: WithMetaData<NodeTypeNameIdentifier>)
    requires
        !state.failed,
    ensures
        visit_type_name_identifier_at_spec::<SrEmitter>(name, state) == Walk::proceed(
            leaf_named(state, name.node),
        ),
{
    let inside = leaf_named(state.at(name.start, name.end), name.node);
    assert(inside.back() =~= leaf_named(state, name.node));
    match name.node {
        NodeTypeNameIdentifier::ByteStringType(bytes) => {
            assert(inside.at(bytes.start, bytes.end).back() =~= inside);
        },
        _ => {},
    }
}

/// The traversal driver, run with the emitter as its backend on a meta identifier at its
/// place in the source, leaves one identifier for every name-bearing leaf that it meets,
/// in source order, and leaves the position stack as it found it. A meta identifier
/// that holds one type name other than the event type, and the byte string marker,
/// leave exactly the identifier that the lowering rules resolve them to.
pub proof fn law_driver_names_leaves(state: EmitterState, meta: WithMetaData<NodeMetaIdentifier>)
    requires
        !state.failed,
    ensures
        visit_meta_identifier_at_spec::<SrEmitter>(meta, state) == Walk::proceed(
            match meta.node {
                NodeMetaIdentifier::MetaName(only) => leaf_named(state, only.node),
                NodeMetaIdentifier::MetaNameInNamespace(first, second) => leaf_named(
                    leaf_named(state, first.node),
                    second.node,
                ),
                NodeMetaIdentifier::MetaNameInHexspace(_, only) => leaf_named(state, only.node),
                NodeMetaIdentifier::ByteString => state.pushed(unknown("ByStr"@)),
            },
        ),
        match meta.node {
            NodeMetaIdentifier::MetaName(only) => !(only.node is EventType),
            NodeMetaIdentifier::MetaNameInNamespace(_, _) => false,
            NodeMetaIdentifier::MetaNameInHexspace(_, only) => !(only.node is EventType),
            NodeMetaIdentifier::ByteString => true,
        } ==> visit_meta_identifier_at_spec::<SrEmitter>(meta, state) == state.delivered(
            Ok(unknown(meta_name(meta.node))),
        ).adopted(),
{
    let inside = state.at(meta.start, meta.end);
    match meta.node {
        NodeMetaIdentifier::MetaName(only) => {
            law_driver_names_leaf(inside, only);
            assert(leaf_named(inside, only.node).back() =~= leaf_named(state, only.node));
        },
        NodeMetaIdentifier::MetaNameInNamespace(first, second) => {
            law_driver_names_leaf(inside, first);
            let then = leaf_named(inside, first.node);
            law_driver_names_leaf(then, second);
            assert(leaf_named(then, second.node).back() =~= leaf_named(
                leaf_named(state, first.node),
                second.node,
            ));
        },
        NodeMetaIdentifier::MetaNameInHexspace(_, only) => {
            law_driver_names_leaf(inside, only);
            assert(leaf_named(inside, only.node).back() =~= leaf_named(state, only.node));
        },
        NodeMetaIdentifier::ByteString => {
            assert(inside.pushed(unknown("ByStr"@)).back() =~= state.pushed(unknown("ByStr"@)));
        },
    }
}

/// The traversal driver, run with the emitter as its backend on a type or a typed name at
/// its place in the source, leaves on the operand stack exactly what the node lowers to
/// and leaves the position stack as it found it.
pub proof fn law_driver_leaves_one_operand(
    state: EmitterState,
    scilla_type: WithMetaData<NodeScillaType>,
    address: WithMetaData<NodeAddressType>,
    typed: WithMetaData<NodeTypedIdentifier>,
    parameter: WithMetaData<NodeParameterPair>,
)
    requires
        !state.failed,
    ensures
        visit_scilla_type_at_spec::<SrEmitter>(scilla_type, state) == state.delivered(
            as_type(scilla_type_descriptor(scilla_type.node)),
        ).adopted(),
        visit_address_type_at_spec::<SrEmitter>(address, state) == state.delivered(
            as_type(address_descriptor(address.node)),
        ).adopted(),
        visit_typed_identifier_at_spec::<SrEmitter>(typed, state) == state.delivered(
            as_declaration(typed_field(typed.node)),
        ).adopted(),
        visit_parameter_pair_at_spec::<SrEmitter>(parameter, state) == state.delivered(
            as_declaration(typed_field(parameter.node.identifier_with_type.node)),
        ).adopted(),
{
    assert forall|s: EmitterState, start, end| #[trigger] s.at(start, end).back() == s by {}
    assert forall|s: EmitterState, start, end, o| #[trigger]
        s.at(start, end).pushed(o).back() == s.pushed(o) by {}
    assert forall|s: EmitterState, start, end| #[trigger]
        s.at(start, end).failing().back() == s.failing() by {}
}

/// The traversal driver, run with the emitter as its backend on a key with its value at
/// their place in the source, leaves the descriptor of the map: the hook of the key
/// leaves the key, and the hook of the value lowers the value and combines the two.
pub proof fn law_driver_combines_map_entry(
    state: EmitterState,
    entry: WithMetaData<NodeTypeMapEntry>,
)
    requires
        !state.failed,
    ensures
        visit_type_map_entry_at_spec::<SrEmitter>(entry, state) == state.delivered(
            as_type(entry_descriptor(entry.node)),
        ).adopted(),
{
    assert forall|s: EmitterState, start, end| #[trigger] s.at(start, end).back() == s by {}
    assert forall|s: EmitterState, start, end, o| #[trigger]
        s.at(start, end).pushed(o).back() == s.pushed(o) by {}
    assert forall|s: EmitterState, start, end| #[trigger]
        s.at(start, end).failing().back() == s.failing() by {}
    assert forall|s: EmitterState, o| #[trigger] s.pushed(o).dropped() == s by {
        lemma_pushed_dropped(s, o);
    }
    assert forall|s: EmitterState, o| (#[trigger] s.pushed(o)).top() == Some(o) by {
        lemma_pushed_dropped(s, o);
    }
    let pushed = state.at(entry.start, entry.end);
    let key = entry.node.key;
    let value = entry.node.value;
    if key_object(key.node) is Ok {
        let k = key_object(key.node)->Ok_0;
        let keyed = pushed.pushed(k);
        assert(keyed.at(value.start, value.end).top() == Some(k));
        assert(keyed.at(value.start, value.end).dropped() =~= pushed.at(value.start, value.end));
        assert(keyed.failing() =~= pushed.failing());
    }
}

/// The traversal driver, run with the emitter as its backend on a declaration of a
/// contract at its place in the source, extends the description by what the
/// declaration lowers to and leaves the stacks as it found them: a field adds a field,
/// a transition adds its signature, a procedure adds nothing.
pub proof fn law_driver_records_declarations(
    state: EmitterState,
    field: WithMetaData<NodeContractField>,
    component: WithMetaData<NodeComponentDefinition>,
)
    requires
        !state.failed,
    ensures
        visit_contract_field_at_spec::<SrEmitter>(field, state) == state.with_field(
            typed_field(field.node.typed_identifier.node),
        ).adopted(),
        visit_component_definition_at_spec::<SrEmitter>(component, state) == (match component.node {
            NodeComponentDefinition::TransitionComponent(transition) => state.with_transition(
                transition_signature(transition.node),
            ).adopted(),
            NodeComponentDefinition::ProcedureComponent(_) => Walk::proceed(state),
        }),
{
    assert forall|s: EmitterState, start, end| #[trigger] s.at(start, end).back() == s by {}
    assert forall|s: EmitterState, start, end, c| #[trigger]
        s.at(start, end).describing(c).back() == s.describing(c) by {}
    assert forall|s: EmitterState, start, end| #[trigger]
        s.at(start, end).failing().back() == s.failing() by {}
}

/// Whether `error` is of a kind that the lowering gives: syntax that is not covered, or a
/// mismatch on the operand stack.
pub open spec fn of_lowering(error: ErrorView) -> bool {
    error is AstVisitError || error is Internal
}

/// Whether what a step yielded, if it failed, failed in the way of the lowering.
pub open spec fn fails_as_lowering<T>(result: Result<T, ErrorView>) -> bool {
    result matches Err(error) ==> of_lowering(error)
}

/// A row fails in the way of the lowering where each of its steps does.
pub proof fn lemma_gather_fails_as_lowering<T>(results: Seq<Result<T, ErrorView>>)
    requires
        forall|i: int| 0 <= i < results.len() ==> fails_as_lowering(#[trigger] results[i]),
    ensures
        fails_as_lowering(gather(results)),
    decreases results.len(),
{
    if results.len() > 0 {
        lemma_gather_fails_as_lowering(results.drop_last());
    }
}

/// A descriptor that does not resolve to a type fails for want of a type argument.
pub proof fn lemma_resolved_fails_as_lowering(d: SrTypeView)
    ensures
        fails_as_lowering(resolved(d)),
    decreases d,
{
    let n = d.sub_types.len();
    if n >= 1 {
        lemma_resolved_fails_as_lowering(d.sub_types[n - 1]);
    }
    if n >= 2 {
        lemma_resolved_fails_as_lowering(d.sub_types[n - 2]);
    }
    reveal_with_fuel(crate::types::resolved_last, 2);
}

/// A map key fails in the way of the lowering.
pub proof fn lemma_key_fails_as_lowering(key: NodeTypeMapKey)
    ensures
        fails_as_lowering(key_object(key)),
    decreases key,
{
    match key {
        NodeTypeMapKey::EnclosedAddressMapKeyType(address) => {
            lemma_address_fails_as_lowering(address.node);
        },
        NodeTypeMapKey::AddressMapKeyType(address) => {
            lemma_address_fails_as_lowering(address.node);
        },
        _ => {},
    }
}

/// A map value fails in the way of the lowering.
pub proof fn lemma_value_fails_as_lowering(value: NodeTypeMapValue)
    ensures
        fails_as_lowering(value_descriptor(value)),
    decreases value,
{
    match value {
        NodeTypeMapValue::MapValueTypeOrEnumLikeIdentifier(_) => {},
        NodeTypeMapValue::MapKeyValue(entry) => {
            lemma_entry_fails_as_lowering(entry.node);
        },
        NodeTypeMapValue::MapValueParenthesizedType(inner) => {
            lemma_allowing_fails_as_lowering(inner.node);
        },
        NodeTypeMapValue::MapValueAddressType(address) => {
            lemma_address_fails_as_lowering(address.node);
        },
    }
}

/// A key with a value fails in the way of the lowering.
pub proof fn lemma_entry_fails_as_lowering(entry: NodeTypeMapEntry)
    ensures
        fails_as_lowering(entry_descriptor(entry)),
    decreases entry,
{
    lemma_key_fails_as_lowering(entry.key.node);
    lemma_value_fails_as_lowering(entry.value.node);
}

/// A map value in parentheses fails in the way of the lowering.
pub proof fn lemma_allowing_fails_as_lowering(value: NodeTypeMapValueAllowingTypeArguments)
    ensures
        fails_as_lowering(allowing_descriptor(value)),
    decreases value,
{
    match value {
        NodeTypeMapValueAllowingTypeArguments::TypeMapValueNoArgs(inner) => {
            lemma_value_fails_as_lowering(inner.node);
        },
        NodeTypeMapValueAllowingTypeArguments::TypeMapValueWithArgs(_, arguments) => {
            lemma_gather_fails_as_lowering(value_argument_results(arguments@));
        },
    }
}

/// A type argument fails in the way of the lowering.
pub proof fn lemma_argument_fails_as_lowering(argument: NodeTypeArgument)
    ensures
        fails_as_lowering(type_argument_descriptor(argument)),
    decreases argument,
{
    match argument {
        NodeTypeArgument::EnclosedTypeArgument(inner) => {
            lemma_type_fails_as_lowering(inner.node);
        },
        _ => {},
    }
}

/// A type expression fails in the way of the lowering.
pub proof fn lemma_type_fails_as_lowering(t: NodeScillaType)
    ensures
        fails_as_lowering(scilla_type_descriptor(t)),
    decreases t,
{
    match t {
        NodeScillaType::GenericTypeWithArgs(_, arguments) => {
            let results = type_argument_results(arguments@);
            assert forall|i: int| 0 <= i < results.len() implies fails_as_lowering(
                #[trigger] results[i],
            ) by {
                lemma_argument_fails_as_lowering(arguments@[i].node);
            }
            lemma_gather_fails_as_lowering(results);
        },
        NodeScillaType::MapType(key, value) => {
            lemma_key_fails_as_lowering(key.node);
            lemma_value_fails_as_lowering(value.node);
        },
        NodeScillaType::EnclosedType(inner) => {
            lemma_type_fails_as_lowering(inner.node);
        },
        NodeScillaType::ScillaAddresseType(address) => {
            lemma_address_fails_as_lowering(address.node);
        },
        _ => {},
    }
}

/// A field of an address interface fails in the way of the lowering.
pub proof fn lemma_address_field_fails_as_lowering(field: NodeAddressTypeField)
    ensures
        fails_as_lowering(address_field(field)),
    decreases field,
{
    match field.identifier.node {
        NodeVariableIdentifier::VariableName(_) => {
            lemma_type_fails_as_lowering(field.typename.node);
            if scilla_type_descriptor(field.typename.node) is Ok {
                lemma_resolved_fails_as_lowering(
                    scilla_type_descriptor(field.typename.node)->Ok_0,
                );
            }
        },
        _ => {},
    }
}

/// An address type fails in the way of the lowering.
pub proof fn lemma_address_fails_as_lowering(address: NodeAddressType)
    ensures
        fails_as_lowering(address_descriptor(address)),
    decreases address,
{
    let results = address_field_results(address.address_fields@);
    assert forall|i: int| 0 <= i < results.len() implies fails_as_lowering(
        #[trigger] results[i],
    ) by {
        lemma_address_field_fails_as_lowering(address.address_fields@[i].node);
    }
    lemma_gather_fails_as_lowering(results);
}

/// A name with a type annotation fails in the way of the lowering.
pub proof fn lemma_typed_field_fails_as_lowering(identifier: NodeTypedIdentifier)
    ensures
        fails_as_lowering(typed_field(identifier)),
{
    lemma_type_fails_as_lowering(identifier.annotation.node.typename.node);
    if scilla_type_descriptor(identifier.annotation.node.typename.node) is Ok {
        lemma_resolved_fails_as_lowering(
            scilla_type_descriptor(identifier.annotation.node.typename.node)->Ok_0,
        );
    }
}

/// A row of parameters fails in the way of the lowering.
pub proof fn lemma_parameters_fail_as_lowering(parameters: Seq<WithMetaData<NodeParameterPair>>)
    ensures
        fails_as_lowering(parameter_fields(parameters)),
{
    let results = parameter_results(parameters);
    assert forall|i: int| 0 <= i < results.len() implies fails_as_lowering(
        #[trigger] results[i],
    ) by {
        lemma_typed_field_fails_as_lowering(parameters[i].node.identifier_with_type.node);
    }
    lemma_gather_fails_as_lowering(results);
}

/// A row of components fails in the way of the lowering.
pub proof fn lemma_signatures_fail_as_lowering(
    components: Seq<WithMetaData<NodeComponentDefinition>>,
)
    ensures
        fails_as_lowering(transition_signatures(components)),
    decreases components.len(),
{
    if components.len() > 0 {
        lemma_signatures_fail_as_lowering(components.drop_last());
        match components.last().node {
            NodeComponentDefinition::TransitionComponent(transition) => {
                lemma_parameters_fail_as_lowering(transition.node.parameters.node.parameters@);
            },
            NodeComponentDefinition::ProcedureComponent(_) => {},
        }
    }
}

/// Whatever the program, a lowering that fails reports syntax that it does not cover or
/// a mismatch on the operand stack: it never reports a failure of the grammar or of a
/// file.
pub proof fn law_failures_are_of_lowering(program: NodeProgram)
    ensures
        lowered_contract(program) matches Err(error) ==> of_lowering(error),
{
    let definition = program.contract_definition.node;
    lemma_parameters_fail_as_lowering(definition.parameters.node.parameters@);
    let results = contract_field_results(definition.fields@);
    assert forall|i: int| 0 <= i < results.len() implies fails_as_lowering(
        #[trigger] results[i],
    ) by {
        lemma_typed_field_fails_as_lowering(definition.fields@[i].node.typed_identifier.node);
    }
    lemma_gather_fails_as_lowering(results);
    lemma_signatures_fail_as_lowering(definition.components@);
}

} // verus!
