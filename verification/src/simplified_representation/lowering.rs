//! What the lowering of a syntax tree yields, stated as functions of the tree alone.

use crate::ast::nodes::{
    NodeAddressType, NodeAddressTypeField, NodeComponentDefinition, NodeContractDefinition,
    NodeContractField, NodeMetaIdentifier, NodeParameterPair, NodeProgram, NodeScillaType,
    NodeTransitionDefinition, NodeTypeArgument, NodeTypeMapEntry, NodeTypeMapKey,
    NodeTypeMapValue, NodeTypeMapValueAllowingTypeArguments, NodeTypeMapValueArguments,
    NodeTypedIdentifier, NodeVariableIdentifier, WithMetaData,
};
use crate::contract::ContractView;
use crate::error::ErrorView;
use crate::field::FieldView;
use crate::simplified_representation::primitives::{
    AddressTypeView, SrIdentifierKind, SrIdentifierView, SrTypeView,
};
use crate::transition::TransitionView;
use crate::types::resolved;
use vstd::prelude::*;

verus! {

/// The mathematical value of an object on the operand stack.
pub enum StackObjectView {
    IrIdentifier(SrIdentifierView),
    VariableDeclaration(FieldView),
    TypeDefinition(SrTypeView),
}

/// How the kind of an operand, or the lack of one, is called in a message.
pub open spec fn operand_name(operand: Option<StackObjectView>) -> Seq<char> {
    match operand {
        Some(StackObjectView::IrIdentifier(_)) => "symbol name"@,
        Some(StackObjectView::VariableDeclaration(_)) => "variable declaration"@,
        Some(StackObjectView::TypeDefinition(_)) => "type definition"@,
        None => "nothing"@,
    }
}

/// The failure of a rule that expected one kind of operand on top of the stack and found
/// another, or none.
pub open spec fn mismatch(expected: Seq<char>, found: Option<StackObjectView>) -> ErrorView {
    ErrorView::Internal("Expected "@ + expected + ", but found "@ + operand_name(found) + "."@)
}

/// The failure of a rule that met syntax which is not lowered.
pub open spec fn unsupported(what: Seq<char>) -> ErrorView {
    ErrorView::AstVisitError("Unsupported syntax: "@ + what)
}

/// The results of a row of steps taken together: the values in order where every step
/// succeeded, else the failure of the first step that failed.
pub open spec fn gather<T>(results: Seq<Result<T, ErrorView>>) -> Result<Seq<T>, ErrorView>
    decreases results.len(),
{
    if results.len() == 0 {
        Ok(Seq::empty())
    } else {
        match gather(results.drop_last()) {
            Err(e) => Err(e),
            Ok(values) => match results.last() {
                Err(e) => Err(e),
                Ok(value) => Ok(values.push(value)),
            },
        }
    }
}

/// A failure among the first steps of a row is the failure of the whole row.
pub proof fn lemma_gather_failure<T>(results: Seq<Result<T, ErrorView>>, i: int)
    requires
        0 <= i <= results.len(),
        gather(results.take(i)) is Err,
    ensures
        gather(results) == gather(results.take(i)),
    decreases results.len() - i,
{
    if i == results.len() {
        assert(results.take(i) =~= results);
    } else {
        assert(results.take(i + 1).drop_last() =~= results.take(i));
        lemma_gather_failure(results, i + 1);
    }
}

/// The failure of a row is the failure of its first step that fails.
pub proof fn lemma_gather_first_failure<T>(results: Seq<Result<T, ErrorView>>, i: int)
    requires
        0 <= i < results.len(),
        forall|j: int| 0 <= j < i ==> (#[trigger] results[j]) is Ok,
        results[i] is Err,
    ensures
        gather(results) == Err::<Seq<T>, ErrorView>(results[i]->Err_0),
{
    lemma_gather_prefix_succeeds(results, i);
    assert(results.take(i + 1).drop_last() =~= results.take(i));
    lemma_gather_failure(results, i + 1);
}

/// A row whose first steps all succeed has succeeded that far.
pub proof fn lemma_gather_prefix_succeeds<T>(results: Seq<Result<T, ErrorView>>, i: int)
    requires
        0 <= i <= results.len(),
        forall|j: int| 0 <= j < i ==> (#[trigger] results[j]) is Ok,
    ensures
        gather(results.take(i)) is Ok,
    decreases i,
{
    if i > 0 {
        lemma_gather_prefix_succeeds(results, i - 1);
        assert(results.take(i).drop_last() =~= results.take(i - 1));
    }
}

/// A row that succeeds yields one value for each step, in the order of the steps.
pub proof fn lemma_gather_success<T>(results: Seq<Result<T, ErrorView>>)
    requires
        gather(results) is Ok,
    ensures
        gather(results)->Ok_0.len() == results.len(),
        forall|i: int|
            0 <= i < results.len() ==> #[trigger] results[i] == Ok::<T, ErrorView>(
                gather(results)->Ok_0[i],
            ),
    decreases results.len(),
{
    if results.len() > 0 {
        lemma_gather_success(results.drop_last());
        assert forall|i: int| 0 <= i < results.len() implies #[trigger] results[i] == Ok::<
            T,
            ErrorView,
        >(gather(results)->Ok_0[i]) by {
            if i < results.len() - 1 {
                assert(results.drop_last()[i] == results[i]);
            }
        }
    }
}

/// The name that a meta identifier resolves to: the type name it holds, the last of the two
/// where it holds two, or `ByStr` for the byte string marker. The event type is called
/// `Event`.
pub open spec fn meta_name(id: NodeMetaIdentifier) -> Seq<char> {
    match id {
        NodeMetaIdentifier::MetaName(name) => name.node.text(),
        NodeMetaIdentifier::MetaNameInNamespace(_, name) => name.node.text(),
        NodeMetaIdentifier::MetaNameInHexspace(_, name) => name.node.text(),
        NodeMetaIdentifier::ByteString => "ByStr"@,
    }
}

/// The identifier that a name-bearing leaf resolves to before anything more is known of it.
pub open spec fn unknown(name: Seq<char>) -> StackObjectView {
    StackObjectView::IrIdentifier(SrIdentifierView::named(name, SrIdentifierKind::Unknown))
}

/// A type descriptor as an operand.
pub open spec fn as_type(descriptor: Result<SrTypeView, ErrorView>) -> Result<
    StackObjectView,
    ErrorView,
> {
    match descriptor {
        Ok(d) => Ok(StackObjectView::TypeDefinition(d)),
        Err(e) => Err(e),
    }
}

/// A variable declaration as an operand.
pub open spec fn as_declaration(field: Result<FieldView, ErrorView>) -> Result<
    StackObjectView,
    ErrorView,
> {
    match field {
        Ok(f) => Ok(StackObjectView::VariableDeclaration(f)),
        Err(e) => Err(e),
    }
}

/// The descriptor of the type constructor `name` applied to `arguments`.
pub open spec fn applied(name: Seq<char>, arguments: Result<Seq<SrTypeView>, ErrorView>) -> Result<
    SrTypeView,
    ErrorView,
> {
    match arguments {
        Ok(sub_types) => Ok(SrTypeView { main_type: name, sub_types, address_type: None }),
        Err(e) => Err(e),
    }
}

/// The descriptor of the map from the key that is found on the stack to `value`. The key
/// has to be an identifier.
pub open spec fn map_descriptor(key: Option<StackObjectView>, value: SrTypeView) -> Result<
    SrTypeView,
    ErrorView,
> {
    match key {
        Some(StackObjectView::IrIdentifier(id)) => Ok(
            SrTypeView {
                main_type: "Map"@,
                sub_types: seq![SrTypeView::plain(id.unresolved), value],
                address_type: None,
            },
        ),
        _ => Err(mismatch("symbol name"@, key)),
    }
}

/// The descriptor of a map type, given what its key and its value lower to. The key is
/// lowered first, then the value, then the two are combined.
pub open spec fn map_of(
    key: Result<StackObjectView, ErrorView>,
    value: Result<SrTypeView, ErrorView>,
) -> Result<SrTypeView, ErrorView> {
    match key {
        Err(e) => Err(e),
        Ok(k) => match value {
            Err(e) => Err(e),
            Ok(v) => map_descriptor(Some(k), v),
        },
    }
}

/// The field that a name and the descriptor of its type declare: the descriptor is
/// resolved to a type.
pub open spec fn declared(name: Seq<char>, descriptor: Result<SrTypeView, ErrorView>) -> Result<
    FieldView,
    ErrorView,
> {
    match descriptor {
        Err(e) => Err(e),
        Ok(d) => match resolved(d) {
            Err(e) => Err(e),
            Ok(ty) => Ok(FieldView { name, ty }),
        },
    }
}

/// The operand that a map key lowers to: an identifier for a named key, a type
/// descriptor for an address type.
pub open spec fn key_object(key: NodeTypeMapKey) -> Result<StackObjectView, ErrorView>
    decreases key,
{
    match key {
        NodeTypeMapKey::GenericMapKey(id) => Ok(unknown(meta_name(id.node))),
        NodeTypeMapKey::EnclosedGenericId(id) => Ok(unknown(meta_name(id.node))),
        NodeTypeMapKey::EnclosedAddressMapKeyType(address) => as_type(
            address_descriptor(address.node),
        ),
        NodeTypeMapKey::AddressMapKeyType(address) => as_type(address_descriptor(address.node)),
    }
}

/// The descriptor of the type that a map value spells.
pub open spec fn value_descriptor(value: NodeTypeMapValue) -> Result<SrTypeView, ErrorView>
    decreases value,
{
    match value {
        NodeTypeMapValue::MapValueTypeOrEnumLikeIdentifier(id) => Ok(
            SrTypeView::plain(meta_name(id.node)),
        ),
        NodeTypeMapValue::MapKeyValue(entry) => entry_descriptor(entry.node),
        NodeTypeMapValue::MapValueParenthesizedType(inner) => allowing_descriptor(inner.node),
        NodeTypeMapValue::MapValueAddressType(address) => address_descriptor(address.node),
    }
}

/// The descriptor of the map that a key and a value spell together.
pub open spec fn entry_descriptor(entry: NodeTypeMapEntry) -> Result<SrTypeView, ErrorView>
    decreases entry,
{
    map_of(key_object(entry.key.node), value_descriptor(entry.value.node))
}

/// The descriptor of a type argument of a map value. Only a named type is lowered.
pub open spec fn value_argument_descriptor(argument: NodeTypeMapValueArguments) -> Result<
    SrTypeView,
    ErrorView,
> {
    match argument {
        NodeTypeMapValueArguments::GenericMapValueArgument(id) => Ok(
            SrTypeView::plain(meta_name(id.node)),
        ),
        NodeTypeMapValueArguments::EnclosedTypeMapValue(_) => Err(
            unsupported("enclosed type as an argument of a map value"@),
        ),
        NodeTypeMapValueArguments::MapKeyValueType(_, _) => Err(
            unsupported("map as an argument of a map value"@),
        ),
    }
}

/// What each of the type arguments of a map value lowers to.
pub open spec fn value_argument_results(
    arguments: Seq<WithMetaData<NodeTypeMapValueArguments>>,
) -> Seq<Result<SrTypeView, ErrorView>> {
    Seq::new(arguments.len(), |i: int| value_argument_descriptor(arguments[i].node))
}

/// The descriptor of the type that stands in parentheses as a map value.
pub open spec fn allowing_descriptor(value: NodeTypeMapValueAllowingTypeArguments) -> Result<
    SrTypeView,
    ErrorView,
>
    decreases value,
{
    match value {
        NodeTypeMapValueAllowingTypeArguments::TypeMapValueNoArgs(inner) => value_descriptor(
            inner.node,
        ),
        NodeTypeMapValueAllowingTypeArguments::TypeMapValueWithArgs(lead, arguments) => applied(
            meta_name(lead.node),
            gather(value_argument_results(arguments@)),
        ),
    }
}

/// The descriptor of a type argument. A named type and a type in parentheses are lowered.
pub open spec fn type_argument_descriptor(argument: NodeTypeArgument) -> Result<
    SrTypeView,
    ErrorView,
>
    decreases argument,
{
    match argument {
        NodeTypeArgument::EnclosedTypeArgument(inner) => scilla_type_descriptor(inner.node),
        NodeTypeArgument::GenericTypeArgument(id) => Ok(SrTypeView::plain(meta_name(id.node))),
        NodeTypeArgument::TemplateTypeArgument(_) => Err(
            unsupported("type variable as a type argument"@),
        ),
        NodeTypeArgument::AddressTypeArgument(_) => Err(
            unsupported("address type as a type argument"@),
        ),
        NodeTypeArgument::MapTypeArgument(_, _) => Err(unsupported("map as a type argument"@)),
    }
}

/// What each of a row of type arguments lowers to.
pub open spec fn type_argument_results(arguments: Seq<WithMetaData<NodeTypeArgument>>) -> Seq<
    Result<SrTypeView, ErrorView>,
>
    decreases arguments,
{
    Seq::new(
        arguments.len(),
        |i: int|
            if 0 <= i < arguments.len() {
                type_argument_descriptor(arguments[i].node)
            } else {
                arbitrary()
            },
    )
}

/// The descriptor of the type that a type expression spells: the head with the
/// descriptors of its arguments in source order, a map of key and value, or an address
/// with its interface. Function types, polymorphic types and type variables are not
/// lowered.
pub open spec fn scilla_type_descriptor(t: NodeScillaType) -> Result<SrTypeView, ErrorView>
    decreases t,
{
    match t {
        NodeScillaType::GenericTypeWithArgs(lead, arguments) => applied(
            meta_name(lead.node),
            gather(type_argument_results(arguments@)),
        ),
        NodeScillaType::MapType(key, value) => map_of(
            key_object(key.node),
            value_descriptor(value.node),
        ),
        NodeScillaType::FunctionType(_, _) => Err(unsupported("function type"@)),
        NodeScillaType::EnclosedType(inner) => scilla_type_descriptor(inner.node),
        NodeScillaType::ScillaAddresseType(address) => address_descriptor(address.node),
        NodeScillaType::PolyFunctionType(_, _) => Err(unsupported("polymorphic function type"@)),
        NodeScillaType::TypeVarType(_) => Err(unsupported("type variable"@)),
    }
}

/// The field that one field of an address interface declares. Its name has to be a plain
/// variable name.
pub open spec fn address_field(field: NodeAddressTypeField) -> Result<FieldView, ErrorView>
    decreases field,
{
    match field.identifier.node {
        NodeVariableIdentifier::VariableName(name) => declared(
            name.node@,
            scilla_type_descriptor(field.typename.node),
        ),
        _ => Err(unsupported("qualified or special name of an address field"@)),
    }
}

/// What each of the fields of an address interface lowers to.
pub open spec fn address_field_results(fields: Seq<WithMetaData<NodeAddressTypeField>>) -> Seq<
    Result<FieldView, ErrorView>,
>
    decreases fields,
{
    Seq::new(
        fields.len(),
        |i: int|
            if 0 <= i < fields.len() {
                address_field(fields[i].node)
            } else {
                arbitrary()
            },
    )
}

/// The descriptor of an address type: the name of the base type without arguments, and
/// as its interface what stands behind the address and the fields in source order.
pub open spec fn address_descriptor(address: NodeAddressType) -> Result<SrTypeView, ErrorView>
    decreases address,
{
    match gather(address_field_results(address.address_fields@)) {
        Err(e) => Err(e),
        Ok(fields) => Ok(
            SrTypeView {
                main_type: address.identifier.node.text(),
                sub_types: Seq::empty(),
                address_type: Some(AddressTypeView { typename: address.typename.node@, fields }),
            },
        ),
    }
}

/// The field that a name with a type annotation declares.
pub open spec fn typed_field(identifier: NodeTypedIdentifier) -> Result<FieldView, ErrorView> {
    declared(
        identifier.identifier_name.node@,
        scilla_type_descriptor(identifier.annotation.node.typename.node),
    )
}

/// What each of a row of parameters lowers to.
pub open spec fn parameter_results(parameters: Seq<WithMetaData<NodeParameterPair>>) -> Seq<
    Result<FieldView, ErrorView>,
> {
    Seq::new(parameters.len(), |i: int| typed_field(parameters[i].node.identifier_with_type.node))
}

/// The fields that a row of parameters declares, in source order.
pub open spec fn parameter_fields(parameters: Seq<WithMetaData<NodeParameterPair>>) -> Result<
    Seq<FieldView>,
    ErrorView,
> {
    gather(parameter_results(parameters))
}

/// What each of the field declarations of a contract lowers to.
pub open spec fn contract_field_results(fields: Seq<WithMetaData<NodeContractField>>) -> Seq<
    Result<FieldView, ErrorView>,
> {
    Seq::new(fields.len(), |i: int| typed_field(fields[i].node.typed_identifier.node))
}

/// The signature of a transition: its name and its parameters in source order.
pub open spec fn transition_signature(transition: NodeTransitionDefinition) -> Result<
    TransitionView,
    ErrorView,
> {
    match parameter_fields(transition.parameters.node.parameters@) {
        Err(e) => Err(e),
        Ok(params) => Ok(TransitionView { name: transition.name.node.text(), params }),
    }
}

/// The signatures of the transitions among a row of components, in source order.
/// Procedures leave no trace.
pub open spec fn transition_signatures(
    components: Seq<WithMetaData<NodeComponentDefinition>>,
) -> Result<Seq<TransitionView>, ErrorView>
    decreases components.len(),
{
    if components.len() == 0 {
        Ok(Seq::empty())
    } else {
        match transition_signatures(components.drop_last()) {
            Err(e) => Err(e),
            Ok(signatures) => match components.last().node {
                NodeComponentDefinition::TransitionComponent(transition) => {
                    match transition_signature(transition.node) {
                        Err(e) => Err(e),
                        Ok(signature) => Ok(signatures.push(signature)),
                    }
                },
                NodeComponentDefinition::ProcedureComponent(_) => Ok(signatures),
            },
        }
    }
}

/// A failure among the first components of a row is the failure of the whole row.
pub proof fn lemma_transition_signatures_failure(
    components: Seq<WithMetaData<NodeComponentDefinition>>,
    i: int,
)
    requires
        0 <= i <= components.len(),
        transition_signatures(components.take(i)) is Err,
    ensures
        transition_signatures(components) == transition_signatures(components.take(i)),
    decreases components.len() - i,
{
    if i == components.len() {
        assert(components.take(i) =~= components);
    } else {
        assert(components.take(i + 1).drop_last() =~= components.take(i));
        lemma_transition_signatures_failure(components, i + 1);
    }
}

/// The contract that `definition` adds to `base`: the name is that of the definition;
/// the constructor parameters, the fields and the transitions of the definition follow
/// those that `base` holds, each list in source order. Parameters are lowered first,
/// then fields, then components, and the first failure is the failure of the whole.
pub open spec fn extended_contract(
    base: ContractView,
    definition: NodeContractDefinition,
) -> Result<ContractView, ErrorView> {
    match parameter_fields(definition.parameters.node.parameters@) {
        Err(e) => Err(e),
        Ok(init_params) => match gather(contract_field_results(definition.fields@)) {
            Err(e) => Err(e),
            Ok(fields) => match transition_signatures(definition.components@) {
                Err(e) => Err(e),
                Ok(transitions) => Ok(
                    ContractView {
                        name: definition.contract_name.node.text(),
                        init_params: base.init_params + init_params,
                        fields: base.fields + fields,
                        transitions: base.transitions + transitions,
                    },
                ),
            },
        },
    }
}

/// The description of the contract that a program defines.
pub open spec fn lowered_contract(program: NodeProgram) -> Result<ContractView, ErrorView> {
    extended_contract(ContractView::empty(), program.contract_definition.node)
}

} // verus!
