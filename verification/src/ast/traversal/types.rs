use crate::ast::converting::{
    conclude, goes_on, walked, within, AstConverting, AstNode, Walk,
};
use crate::ast::nodes::{
    NodeAddressType, NodeAddressTypeField, NodeContractTypeArguments, NodeScillaType,
    NodeTypeAlternativeClause, NodeTypeAnnotation, NodeTypeArgument, NodeTypeMapEntry,
    NodeTypeMapKey, NodeTypeMapValue, NodeTypeMapValueAllowingTypeArguments,
    NodeTypeMapValueArguments, NodeTypedIdentifier, NodeValueLiteral, WithMetaData,
};
use crate::ast::traversal::names::{
    visit_meta_identifier_at, visit_meta_identifier_at_spec, visit_type_name_identifier_at,
    visit_type_name_identifier_at_spec, visit_variable_identifier_at,
    visit_variable_identifier_at_spec,
};
use crate::ast::{TraversalResult, TreeTraversalMode};
use crate::error::Error;
use vstd::prelude::*;

verus! {

/// What visiting a type map key node in `state` comes to.
pub open spec fn visit_type_map_key_spec<C: AstConverting>(
    node: NodeTypeMapKey,
    state: C::V,
) -> Walk<C::V>
    decreases node,
{
    let entered = C::converted(state, TreeTraversalMode::Enter, AstNode::TypeMapKey(node));
    let children = match node {
        NodeTypeMapKey::GenericMapKey(key) => visit_meta_identifier_at_spec::<C>(
            key,
            entered.state,
        ),
        NodeTypeMapKey::EnclosedGenericId(key) => visit_meta_identifier_at_spec::<C>(
            key,
            entered.state,
        ),
        NodeTypeMapKey::EnclosedAddressMapKeyType(key) => visit_address_type_at_spec::<C>(
            key,
            entered.state,
        ),
        NodeTypeMapKey::AddressMapKeyType(key) => visit_address_type_at_spec::<C>(
            key,
            entered.state,
        ),
    };
    conclude::<C>(AstNode::TypeMapKey(node), entered, children)
}

/// Visits a type map key node: its enter hook, then its children in order, then its exit hook.
pub fn visit_type_map_key<C: AstConverting>(
    node: &NodeTypeMapKey,
    emitter: &mut C,
) -> (result: Result<TraversalResult, Error>)
    ensures
        walked(final(emitter)@, result) == visit_type_map_key_spec::<C>(
            *node,
            old(emitter)@,
        ),
    decreases node,
{
    match emitter.emit_type_map_key(TreeTraversalMode::Enter, node)? {
        TraversalResult::SkipChildren => {
            return Ok(TraversalResult::Continue);
        },
        TraversalResult::Continue => {},
    }
    let children = match node {
        NodeTypeMapKey::GenericMapKey(key) => visit_meta_identifier_at(key, emitter),
        NodeTypeMapKey::EnclosedGenericId(key) => visit_meta_identifier_at(key, emitter),
        NodeTypeMapKey::EnclosedAddressMapKeyType(key) => visit_address_type_at(key, emitter),
        NodeTypeMapKey::AddressMapKeyType(key) => visit_address_type_at(key, emitter),
    };
    if !goes_on(&children) {
        return children;
    }
    emitter.emit_type_map_key(TreeTraversalMode::Exit, node)
}

/// What visiting a type map key node at its place in the source comes to: the place is pushed,
/// the node is visited and the place is popped, whatever the visit returns.
pub open spec fn visit_type_map_key_at_spec<C: AstConverting>(
    node: WithMetaData<NodeTypeMapKey>,
    state: C::V,
) -> Walk<C::V>
    decreases node,
{
    within::<C>(
        visit_type_map_key_spec::<C>(node.node, C::position_pushed(state, node.start, node.end)),
    )
}

/// Visits a type map key node between a push and a pop of its place in the source.
pub fn visit_type_map_key_at<C: AstConverting>(
    node: &WithMetaData<NodeTypeMapKey>,
    emitter: &mut C,
) -> (result: Result<TraversalResult, Error>)
    ensures
        walked(final(emitter)@, result) == visit_type_map_key_at_spec::<C>(*node, old(emitter)@),
    decreases node,
{
    emitter.push_source_position(&node.start, &node.end);
    let visited = visit_type_map_key(&node.node, emitter);
    emitter.pop_source_position();
    visited
}

/// What visiting a type map value node in `state` comes to.
pub open spec fn visit_type_map_value_spec<C: AstConverting>(
    node: NodeTypeMapValue,
    state: C::V,
) -> Walk<C::V>
    decreases node,
{
    let entered = C::converted(state, TreeTraversalMode::Enter, AstNode::TypeMapValue(node));
    let children = match node {
        NodeTypeMapValue::MapValueTypeOrEnumLikeIdentifier(value) =>
            visit_meta_identifier_at_spec::<C>(
                value,
                entered.state,
            ),
        NodeTypeMapValue::MapKeyValue(entry) => visit_type_map_entry_at_spec::<C>(
            *entry,
            entered.state,
        ),
        NodeTypeMapValue::MapValueParenthesizedType(value) =>
            visit_type_map_value_allowing_type_arguments_at_spec::<C>(
                *value,
                entered.state,
            ),
        NodeTypeMapValue::MapValueAddressType(value) => visit_address_type_at_spec::<C>(
            *value,
            entered.state,
        ),
    };
    conclude::<C>(AstNode::TypeMapValue(node), entered, children)
}

/// Visits a type map value node: its enter hook, then its children in order, then its exit
/// hook.
pub fn visit_type_map_value<C: AstConverting>(
    node: &NodeTypeMapValue,
    emitter: &mut C,
) -> (result: Result<TraversalResult, Error>)
    ensures
        walked(final(emitter)@, result) == visit_type_map_value_spec::<C>(
            *node,
            old(emitter)@,
        ),
    decreases node,
{
    match emitter.emit_type_map_value(TreeTraversalMode::Enter, node)? {
        TraversalResult::SkipChildren => {
            return Ok(TraversalResult::Continue);
        },
        TraversalResult::Continue => {},
    }
    let children = match node {
        NodeTypeMapValue::MapValueTypeOrEnumLikeIdentifier(value) => visit_meta_identifier_at(
            value,
            emitter,
        ),
        NodeTypeMapValue::MapKeyValue(entry) => visit_type_map_entry_at(entry, emitter),
        NodeTypeMapValue::MapValueParenthesizedType(value) =>
            visit_type_map_value_allowing_type_arguments_at(
                value,
                emitter,
            ),
        NodeTypeMapValue::MapValueAddressType(value) => visit_address_type_at(value, emitter),
    };
    if !goes_on(&children) {
        return children;
    }
    emitter.emit_type_map_value(TreeTraversalMode::Exit, node)
}

/// What visiting a type map value node at its place in the source comes to: the place is
/// pushed, the node is visited and the place is popped, whatever the visit returns.
pub open spec fn visit_type_map_value_at_spec<C: AstConverting>(
    node: WithMetaData<NodeTypeMapValue>,
    state: C::V,
) -> Walk<C::V>
    decreases node,
{
    within::<C>(
        visit_type_map_value_spec::<C>(node.node, C::position_pushed(state, node.start, node.end)),
    )
}

/// Visits a type map value node between a push and a pop of its place in the source.
pub fn visit_type_map_value_at<C: AstConverting>(
    node: &WithMetaData<NodeTypeMapValue>,
    emitter: &mut C,
) -> (result: Result<TraversalResult, Error>)
    ensures
        walked(final(emitter)@, result) == visit_type_map_value_at_spec::<C>(*node, old(emitter)@),
    decreases node,
{
    emitter.push_source_position(&node.start, &node.end);
    let visited = visit_type_map_value(&node.node, emitter);
    emitter.pop_source_position();
    visited
}

/// What visiting a type argument node in `state` comes to.
pub open spec fn visit_type_argument_spec<C: AstConverting>(
    node: NodeTypeArgument,
    state: C::V,
) -> Walk<C::V>
    decreases node,
{
    let entered = C::converted(state, TreeTraversalMode::Enter, AstNode::TypeArgument(node));
    let children = match node {
        NodeTypeArgument::EnclosedTypeArgument(inner) => visit_scilla_type_at_spec::<C>(
            *inner,
            entered.state,
        ),
        NodeTypeArgument::GenericTypeArgument(name) => visit_meta_identifier_at_spec::<C>(
            name,
            entered.state,
        ),
        NodeTypeArgument::TemplateTypeArgument(_) => Walk::proceed(entered.state),
        NodeTypeArgument::AddressTypeArgument(address) => visit_address_type_at_spec::<C>(
            address,
            entered.state,
        ),
        NodeTypeArgument::MapTypeArgument(key, value) => {
            let first = visit_type_map_key_at_spec::<C>(key, entered.state);
            if !first.passed() {
                first
            } else {
                visit_type_map_value_at_spec::<C>(value, first.state)
            }
        },
    };
    conclude::<C>(AstNode::TypeArgument(node), entered, children)
}

/// Visits a type argument node: its enter hook, then its children in order, then its exit hook.
pub fn visit_type_argument<C: AstConverting>(
    node: &NodeTypeArgument,
    emitter: &mut C,
) -> (result: Result<TraversalResult, Error>)
    ensures
        walked(final(emitter)@, result) == visit_type_argument_spec::<C>(
            *node,
            old(emitter)@,
        ),
    decreases node,
{
    match emitter.emit_type_argument(TreeTraversalMode::Enter, node)? {
        TraversalResult::SkipChildren => {
            return Ok(TraversalResult::Continue);
        },
        TraversalResult::Continue => {},
    }
    let children = match node {
        NodeTypeArgument::EnclosedTypeArgument(inner) => visit_scilla_type_at(inner, emitter),
        NodeTypeArgument::GenericTypeArgument(name) => visit_meta_identifier_at(name, emitter),
        NodeTypeArgument::TemplateTypeArgument(_) => Ok(TraversalResult::Continue),
        NodeTypeArgument::AddressTypeArgument(address) => visit_address_type_at(address, emitter),
        NodeTypeArgument::MapTypeArgument(key, value) => {
            let visited = visit_type_map_key_at(key, emitter);
            if !goes_on(&visited) {
                return visited;
            }
            visit_type_map_value_at(value, emitter)
        },
    };
    if !goes_on(&children) {
        return children;
    }
    emitter.emit_type_argument(TreeTraversalMode::Exit, node)
}

/// What visiting a type argument node at its place in the source comes to: the place is pushed,
/// the node is visited and the place is popped, whatever the visit returns.
pub open spec fn visit_type_argument_at_spec<C: AstConverting>(
    node: WithMetaData<NodeTypeArgument>,
    state: C::V,
) -> Walk<C::V>
    decreases node,
{
    within::<C>(
        visit_type_argument_spec::<C>(node.node, C::position_pushed(state, node.start, node.end)),
    )
}

/// Visits a type argument node between a push and a pop of its place in the source.
pub fn visit_type_argument_at<C: AstConverting>(
    node: &WithMetaData<NodeTypeArgument>,
    emitter: &mut C,
) -> (result: Result<TraversalResult, Error>)
    ensures
        walked(final(emitter)@, result) == visit_type_argument_at_spec::<C>(*node, old(emitter)@),
    decreases node,
{
    emitter.push_source_position(&node.start, &node.end);
    let visited = visit_type_argument(&node.node, emitter);
    emitter.pop_source_position();
    visited
}

/// What visiting a row of type argument nodes, starting in `state`, comes to: the first that
/// fails or asks to skip ends the row.
pub open spec fn visit_each_type_argument_spec<C: AstConverting>(
    nodes: Seq<WithMetaData<NodeTypeArgument>>,
    state: C::V,
) -> Walk<C::V>
    decreases nodes,
{
    if nodes.len() == 0 {
        Walk::proceed(state)
    } else {
        let first = visit_type_argument_at_spec::<C>(nodes[0], state);
        if !first.passed() {
            first
        } else {
            visit_each_type_argument_spec::<C>(nodes.drop_first(), first.state)
        }
    }
}

/// Visits a row of type argument nodes in order, up to the first that fails or asks to skip.
pub fn visit_each_type_argument<C: AstConverting>(
    nodes: &Vec<WithMetaData<NodeTypeArgument>>,
    emitter: &mut C,
) -> (result: Result<TraversalResult, Error>)
    ensures
        walked(final(emitter)@, result) == visit_each_type_argument_spec::<C>(
            nodes@,
            old(emitter)@,
        ),
    decreases nodes,
{
    let mut i: usize = 0;
    assert(nodes@.skip(0) =~= nodes@);
    while i < nodes.len()
        invariant
            i <= nodes.len(),
            visit_each_type_argument_spec::<C>(nodes@.skip(i as int), emitter@)
                == visit_each_type_argument_spec::<C>(nodes@, old(emitter)@),
        decreases nodes.len() - i,
    {
        assert(nodes@.skip(i as int).drop_first() =~= nodes@.skip(i as int + 1));
        let visited = visit_type_argument_at(&nodes[i], emitter);
        if !goes_on(&visited) {
            return visited;
        }
        i += 1;
    }
    Ok(TraversalResult::Continue)
}

/// A row of type argument nodes ends with the first node whose visit fails or asks to skip:
/// what that visit comes to is what the row comes to, and no later node is visited.
pub proof fn lemma_visit_each_type_argument_stops<C: AstConverting>(
    nodes: Seq<WithMetaData<NodeTypeArgument>>,
    state: C::V,
    i: int,
)
    requires
        0 <= i < nodes.len(),
        visit_each_type_argument_spec::<C>(nodes.take(i), state).passed(),
        !visit_type_argument_at_spec::<C>(
            nodes[i],
            visit_each_type_argument_spec::<C>(nodes.take(i), state).state,
        ).passed(),
    ensures
        visit_each_type_argument_spec::<C>(nodes, state)
            == visit_type_argument_at_spec::<C>(
                nodes[i],
                visit_each_type_argument_spec::<C>(nodes.take(i), state).state,
            ),
    decreases i,
{
    if i > 0 {
        assert(nodes.take(i).drop_first() =~= nodes.drop_first().take(i - 1));
        let first = visit_type_argument_at_spec::<C>(nodes[0], state);
        lemma_visit_each_type_argument_stops::<C>(nodes.drop_first(), first.state, i - 1);
    }
}

/// What visiting a scilla type node in `state` comes to.
pub open spec fn visit_scilla_type_spec<C: AstConverting>(
    node: NodeScillaType,
    state: C::V,
) -> Walk<C::V>
    decreases node,
{
    let entered = C::converted(state, TreeTraversalMode::Enter, AstNode::ScillaType(node));
    let children = match node {
        NodeScillaType::GenericTypeWithArgs(lead, args) => {
            let first = visit_meta_identifier_at_spec::<C>(lead, entered.state);
            if !first.passed() {
                first
            } else {
                visit_each_type_argument_spec::<C>(args@, first.state)
            }
        },
        NodeScillaType::MapType(key, value) => {
            let first = visit_type_map_key_at_spec::<C>(key, entered.state);
            if !first.passed() {
                first
            } else {
                visit_type_map_value_at_spec::<C>(value, first.state)
            }
        },
        NodeScillaType::FunctionType(from, to) => {
            let first = visit_scilla_type_at_spec::<C>(*from, entered.state);
            if !first.passed() {
                first
            } else {
                visit_scilla_type_at_spec::<C>(*to, first.state)
            }
        },
        NodeScillaType::EnclosedType(inner) => visit_scilla_type_at_spec::<C>(
            *inner,
            entered.state,
        ),
        NodeScillaType::ScillaAddresseType(address) => visit_address_type_at_spec::<C>(
            *address,
            entered.state,
        ),
        NodeScillaType::PolyFunctionType(_, inner) => visit_scilla_type_at_spec::<C>(
            *inner,
            entered.state,
        ),
        NodeScillaType::TypeVarType(_) => Walk::proceed(entered.state),
    };
    conclude::<C>(AstNode::ScillaType(node), entered, children)
}

/// Visits a scilla type node: its enter hook, then its children in order, then its exit hook.
pub fn visit_scilla_type<C: AstConverting>(
    node: &NodeScillaType,
    emitter: &mut C,
) -> (result: Result<TraversalResult, Error>)
    ensures
        walked(final(emitter)@, result) == visit_scilla_type_spec::<C>(
            *node,
            old(emitter)@,
        ),
    decreases node,
{
    match emitter.emit_scilla_type(TreeTraversalMode::Enter, node)? {
        TraversalResult::SkipChildren => {
            return Ok(TraversalResult::Continue);
        },
        TraversalResult::Continue => {},
    }
    let children = match node {
        NodeScillaType::GenericTypeWithArgs(lead, args) => {
            let visited = visit_meta_identifier_at(lead, emitter);
            if !goes_on(&visited) {
                return visited;
            }
            visit_each_type_argument(args, emitter)
        },
        NodeScillaType::MapType(key, value) => {
            let visited = visit_type_map_key_at(key, emitter);
            if !goes_on(&visited) {
                return visited;
            }
            visit_type_map_value_at(value, emitter)
        },
        NodeScillaType::FunctionType(from, to) => {
            let visited = visit_scilla_type_at(from, emitter);
            if !goes_on(&visited) {
                return visited;
            }
            visit_scilla_type_at(to, emitter)
        },
        NodeScillaType::EnclosedType(inner) => visit_scilla_type_at(inner, emitter),
        NodeScillaType::ScillaAddresseType(address) => visit_address_type_at(address, emitter),
        NodeScillaType::PolyFunctionType(_, inner) => visit_scilla_type_at(inner, emitter),
        NodeScillaType::TypeVarType(_) => Ok(TraversalResult::Continue),
    };
    if !goes_on(&children) {
        return children;
    }
    emitter.emit_scilla_type(TreeTraversalMode::Exit, node)
}

/// What visiting a scilla type node at its place in the source comes to: the place is pushed,
/// the node is visited and the place is popped, whatever the visit returns.
pub open spec fn visit_scilla_type_at_spec<C: AstConverting>(
    node: WithMetaData<NodeScillaType>,
    state: C::V,
) -> Walk<C::V>
    decreases node,
{
    within::<C>(
        visit_scilla_type_spec::<C>(node.node, C::position_pushed(state, node.start, node.end)),
    )
}

/// Visits a scilla type node between a push and a pop of its place in the source.
pub fn visit_scilla_type_at<C: AstConverting>(
    node: &WithMetaData<NodeScillaType>,
    emitter: &mut C,
) -> (result: Result<TraversalResult, Error>)
    ensures
        walked(final(emitter)@, result) == visit_scilla_type_at_spec::<C>(*node, old(emitter)@),
    decreases node,
{
    emitter.push_source_position(&node.start, &node.end);
    let visited = visit_scilla_type(&node.node, emitter);
    emitter.pop_source_position();
    visited
}

/// What visiting a type map entry node in `state` comes to.
pub open spec fn visit_type_map_entry_spec<C: AstConverting>(
    node: NodeTypeMapEntry,
    state: C::V,
) -> Walk<C::V>
    decreases node,
{
    let entered = C::converted(state, TreeTraversalMode::Enter, AstNode::TypeMapEntry(node));
    let children = {
        let first = visit_type_map_key_at_spec::<C>(node.key, entered.state);
        if !first.passed() {
            first
        } else {
            visit_type_map_value_at_spec::<C>(node.value, first.state)
        }
    };
    conclude::<C>(AstNode::TypeMapEntry(node), entered, children)
}

/// Visits a type map entry node: its enter hook, then its children in order, then its exit
/// hook.
pub fn visit_type_map_entry<C: AstConverting>(
    node: &NodeTypeMapEntry,
    emitter: &mut C,
) -> (result: Result<TraversalResult, Error>)
    ensures
        walked(final(emitter)@, result) == visit_type_map_entry_spec::<C>(
            *node,
            old(emitter)@,
        ),
    decreases node,
{
    match emitter.emit_type_map_entry(TreeTraversalMode::Enter, node)? {
        TraversalResult::SkipChildren => {
            return Ok(TraversalResult::Continue);
        },
        TraversalResult::Continue => {},
    }
    let children = {
        let visited = visit_type_map_key_at(&node.key, emitter);
        if !goes_on(&visited) {
            return visited;
        }
        visit_type_map_value_at(&node.value, emitter)
    };
    if !goes_on(&children) {
        return children;
    }
    emitter.emit_type_map_entry(TreeTraversalMode::Exit, node)
}

/// What visiting a type map entry node at its place in the source comes to: the place is
/// pushed, the node is visited and the place is popped, whatever the visit returns.
pub open spec fn visit_type_map_entry_at_spec<C: AstConverting>(
    node: WithMetaData<NodeTypeMapEntry>,
    state: C::V,
) -> Walk<C::V>
    decreases node,
{
    within::<C>(
        visit_type_map_entry_spec::<C>(node.node, C::position_pushed(state, node.start, node.end)),
    )
}

/// Visits a type map entry node between a push and a pop of its place in the source.
pub fn visit_type_map_entry_at<C: AstConverting>(
    node: &WithMetaData<NodeTypeMapEntry>,
    emitter: &mut C,
) -> (result: Result<TraversalResult, Error>)
    ensures
        walked(final(emitter)@, result) == visit_type_map_entry_at_spec::<C>(*node, old(emitter)@),
    decreases node,
{
    emitter.push_source_position(&node.start, &node.end);
    let visited = visit_type_map_entry(&node.node, emitter);
    emitter.pop_source_position();
    visited
}

/// What visiting an address type field node in `state` comes to.
pub open spec fn visit_address_type_field_spec<C: AstConverting>(
    node: NodeAddressTypeField,
    state: C::V,
) -> Walk<C::V>
    decreases node,
{
    let entered = C::converted(state, TreeTraversalMode::Enter, AstNode::AddressTypeField(node));
    let children = {
        let first = visit_variable_identifier_at_spec::<C>(node.identifier, entered.state);
        if !first.passed() {
            first
        } else {
            visit_scilla_type_at_spec::<C>(node.typename, first.state)
        }
    };
    conclude::<C>(AstNode::AddressTypeField(node), entered, children)
}

/// Visits an address type field node: its enter hook, then its children in order, then its exit
/// hook.
pub fn visit_address_type_field<C: AstConverting>(
    node: &NodeAddressTypeField,
    emitter: &mut C,
) -> (result: Result<TraversalResult, Error>)
    ensures
        walked(final(emitter)@, result) == visit_address_type_field_spec::<C>(
            *node,
            old(emitter)@,
        ),
    decreases node,
{
    match emitter.emit_address_type_field(TreeTraversalMode::Enter, node)? {
        TraversalResult::SkipChildren => {
            return Ok(TraversalResult::Continue);
        },
        TraversalResult::Continue => {},
    }
    let children = {
        let visited = visit_variable_identifier_at(&node.identifier, emitter);
        if !goes_on(&visited) {
            return visited;
        }
        visit_scilla_type_at(&node.typename, emitter)
    };
    if !goes_on(&children) {
        return children;
    }
    emitter.emit_address_type_field(TreeTraversalMode::Exit, node)
}

/// What visiting an address type field node at its place in the source comes to: the place is
/// pushed, the node is visited and the place is popped, whatever the visit returns.
pub open spec fn visit_address_type_field_at_spec<C: AstConverting>(
    node: WithMetaData<NodeAddressTypeField>,
    state: C::V,
) -> Walk<C::V>
    decreases node,
{
    within::<C>(
        visit_address_type_field_spec::<C>(
            node.node,
            C::position_pushed(state, node.start, node.end),
        ),
    )
}

/// Visits an address type field node between a push and a pop of its place in the source.
pub fn visit_address_type_field_at<C: AstConverting>(
    node: &WithMetaData<NodeAddressTypeField>,
    emitter: &mut C,
) -> (result: Result<TraversalResult, Error>)
    ensures
        walked(final(emitter)@, result) == visit_address_type_field_at_spec::<C>(
            *node,
            old(emitter)@,
        ),
    decreases node,
{
    emitter.push_source_position(&node.start, &node.end);
    let visited = visit_address_type_field(&node.node, emitter);
    emitter.pop_source_position();
    visited
}

/// What visiting a row of address type field nodes, starting in `state`, comes to: the first
/// that fails or asks to skip ends the row.
pub open spec fn visit_each_address_type_field_spec<C: AstConverting>(
    nodes: Seq<WithMetaData<NodeAddressTypeField>>,
    state: C::V,
) -> Walk<C::V>
    decreases nodes,
{
    if nodes.len() == 0 {
        Walk::proceed(state)
    } else {
        let first = visit_address_type_field_at_spec::<C>(nodes[0], state);
        if !first.passed() {
            first
        } else {
            visit_each_address_type_field_spec::<C>(nodes.drop_first(), first.state)
        }
    }
}

/// Visits a row of address type field nodes in order, up to the first that fails or asks to
/// skip.
pub fn visit_each_address_type_field<C: AstConverting>(
    nodes: &Vec<WithMetaData<NodeAddressTypeField>>,
    emitter: &mut C,
) -> (result: Result<TraversalResult, Error>)
    ensures
        walked(final(emitter)@, result) == visit_each_address_type_field_spec::<C>(
            nodes@,
            old(emitter)@,
        ),
    decreases nodes,
{
    let mut i: usize = 0;
    assert(nodes@.skip(0) =~= nodes@);
    while i < nodes.len()
        invariant
            i <= nodes.len(),
            visit_each_address_type_field_spec::<C>(nodes@.skip(i as int), emitter@)
                == visit_each_address_type_field_spec::<C>(nodes@, old(emitter)@),
        decreases nodes.len() - i,
    {
        assert(nodes@.skip(i as int).drop_first() =~= nodes@.skip(i as int + 1));
        let visited = visit_address_type_field_at(&nodes[i], emitter);
        if !goes_on(&visited) {
            return visited;
        }
        i += 1;
    }
    Ok(TraversalResult::Continue)
}

/// A row of address type field nodes ends with the first node whose visit fails or asks to
/// skip: what that visit comes to is what the row comes to, and no later node is visited.
pub proof fn lemma_visit_each_address_type_field_stops<C: AstConverting>(
    nodes: Seq<WithMetaData<NodeAddressTypeField>>,
    state: C::V,
    i: int,
)
    requires
        0 <= i < nodes.len(),
        visit_each_address_type_field_spec::<C>(nodes.take(i), state).passed(),
        !visit_address_type_field_at_spec::<C>(
            nodes[i],
            visit_each_address_type_field_spec::<C>(nodes.take(i), state).state,
        ).passed(),
    ensures
        visit_each_address_type_field_spec::<C>(nodes, state)
            == visit_address_type_field_at_spec::<C>(
                nodes[i],
                visit_each_address_type_field_spec::<C>(nodes.take(i), state).state,
            ),
    decreases i,
{
    if i > 0 {
        assert(nodes.take(i).drop_first() =~= nodes.drop_first().take(i - 1));
        let first = visit_address_type_field_at_spec::<C>(nodes[0], state);
        lemma_visit_each_address_type_field_stops::<C>(nodes.drop_first(), first.state, i - 1);
    }
}

/// What visiting an address type node in `state` comes to.
pub open spec fn visit_address_type_spec<C: AstConverting>(
    node: NodeAddressType,
    state: C::V,
) -> Walk<C::V>
    decreases node,
{
    let entered = C::converted(state, TreeTraversalMode::Enter, AstNode::AddressType(node));
    let children = {
        let first = visit_type_name_identifier_at_spec::<C>(node.identifier, entered.state);
        if !first.passed() {
            first
        } else {
            visit_each_address_type_field_spec::<C>(node.address_fields@, first.state)
        }
    };
    conclude::<C>(AstNode::AddressType(node), entered, children)
}

/// Visits an address type node: its enter hook, then its children in order, then its exit hook.
pub fn visit_address_type<C: AstConverting>(
    node: &NodeAddressType,
    emitter: &mut C,
) -> (result: Result<TraversalResult, Error>)
    ensures
        walked(final(emitter)@, result) == visit_address_type_spec::<C>(
            *node,
            old(emitter)@,
        ),
    decreases node,
{
    match emitter.emit_address_type(TreeTraversalMode::Enter, node)? {
        TraversalResult::SkipChildren => {
            return Ok(TraversalResult::Continue);
        },
        TraversalResult::Continue => {},
    }
    let children = {
        let visited = visit_type_name_identifier_at(&node.identifier, emitter);
        if !goes_on(&visited) {
            return visited;
        }
        visit_each_address_type_field(&node.address_fields, emitter)
    };
    if !goes_on(&children) {
        return children;
    }
    emitter.emit_address_type(TreeTraversalMode::Exit, node)
}

/// What visiting an address type node at its place in the source comes to: the place is pushed,
/// the node is visited and the place is popped, whatever the visit returns.
pub open spec fn visit_address_type_at_spec<C: AstConverting>(
    node: WithMetaData<NodeAddressType>,
    state: C::V,
) -> Walk<C::V>
    decreases node,
{
    within::<C>(
        visit_address_type_spec::<C>(node.node, C::position_pushed(state, node.start, node.end)),
    )
}

/// Visits an address type node between a push and a pop of its place in the source.
pub fn visit_address_type_at<C: AstConverting>(
    node: &WithMetaData<NodeAddressType>,
    emitter: &mut C,
) -> (result: Result<TraversalResult, Error>)
    ensures
        walked(final(emitter)@, result) == visit_address_type_at_spec::<C>(*node, old(emitter)@),
    decreases node,
{
    emitter.push_source_position(&node.start, &node.end);
    let visited = visit_address_type(&node.node, emitter);
    emitter.pop_source_position();
    visited
}

/// What visiting a type map value arguments node in `state` comes to.
pub open spec fn visit_type_map_value_arguments_spec<C: AstConverting>(
    node: NodeTypeMapValueArguments,
    state: C::V,
) -> Walk<C::V>
    decreases node,
{
    let entered = C::converted(
        state,
        TreeTraversalMode::Enter,
        AstNode::TypeMapValueArguments(node),
    );
    let children = match node {
        NodeTypeMapValueArguments::EnclosedTypeMapValue(enclosed) =>
            visit_type_map_value_allowing_type_arguments_at_spec::<C>(
                *enclosed,
                entered.state,
            ),
        NodeTypeMapValueArguments::GenericMapValueArgument(name) =>
            visit_meta_identifier_at_spec::<C>(
                name,
                entered.state,
            ),
        NodeTypeMapValueArguments::MapKeyValueType(key, value) => {
            let first = visit_type_map_key_at_spec::<C>(key, entered.state);
            if !first.passed() {
                first
            } else {
                visit_type_map_value_at_spec::<C>(value, first.state)
            }
        },
    };
    conclude::<C>(AstNode::TypeMapValueArguments(node), entered, children)
}

/// Visits a type map value arguments node: its enter hook, then its children in order, then its
/// exit hook.
pub fn visit_type_map_value_arguments<C: AstConverting>(
    node: &NodeTypeMapValueArguments,
    emitter: &mut C,
) -> (result: Result<TraversalResult, Error>)
    ensures
        walked(final(emitter)@, result) == visit_type_map_value_arguments_spec::<C>(
            *node,
            old(emitter)@,
        ),
    decreases node,
{
    match emitter.emit_type_map_value_arguments(TreeTraversalMode::Enter, node)? {
        TraversalResult::SkipChildren => {
            return Ok(TraversalResult::Continue);
        },
        TraversalResult::Continue => {},
    }
    let children = match node {
        NodeTypeMapValueArguments::EnclosedTypeMapValue(enclosed) =>
            visit_type_map_value_allowing_type_arguments_at(
                enclosed,
                emitter,
            ),
        NodeTypeMapValueArguments::GenericMapValueArgument(name) => visit_meta_identifier_at(
            name,
            emitter,
        ),
        NodeTypeMapValueArguments::MapKeyValueType(key, value) => {
            let visited = visit_type_map_key_at(key, emitter);
            if !goes_on(&visited) {
                return visited;
            }
            visit_type_map_value_at(value, emitter)
        },
    };
    if !goes_on(&children) {
        return children;
    }
    emitter.emit_type_map_value_arguments(TreeTraversalMode::Exit, node)
}

/// What visiting a type map value arguments node at its place in the source comes to: the place
/// is pushed, the node is visited and the place is popped, whatever the visit returns.
pub open spec fn visit_type_map_value_arguments_at_spec<C: AstConverting>(
    node: WithMetaData<NodeTypeMapValueArguments>,
    state: C::V,
) -> Walk<C::V>
    decreases node,
{
    within::<C>(
        visit_type_map_value_arguments_spec::<C>(
            node.node,
            C::position_pushed(state, node.start, node.end),
        ),
    )
}

/// Visits a type map value arguments node between a push and a pop of its place in the source.
pub fn visit_type_map_value_arguments_at<C: AstConverting>(
    node: &WithMetaData<NodeTypeMapValueArguments>,
    emitter: &mut C,
) -> (result: Result<TraversalResult, Error>)
    ensures
        walked(final(emitter)@, result) == visit_type_map_value_arguments_at_spec::<C>(
            *node,
            old(emitter)@,
        ),
    decreases node,
{
    emitter.push_source_position(&node.start, &node.end);
    let visited = visit_type_map_value_arguments(&node.node, emitter);
    emitter.pop_source_position();
    visited
}

/// What visiting a row of type map value arguments nodes, starting in `state`, comes to: the
/// first that fails or asks to skip ends the row.
pub open spec fn visit_each_type_map_value_arguments_spec<C: AstConverting>(
    nodes: Seq<WithMetaData<NodeTypeMapValueArguments>>,
    state: C::V,
) -> Walk<C::V>
    decreases nodes,
{
    if nodes.len() == 0 {
        Walk::proceed(state)
    } else {
        let first = visit_type_map_value_arguments_at_spec::<C>(nodes[0], state);
        if !first.passed() {
            first
        } else {
            visit_each_type_map_value_arguments_spec::<C>(nodes.drop_first(), first.state)
        }
    }
}

/// Visits a row of type map value arguments nodes in order, up to the first that fails or asks
/// to skip.
pub fn visit_each_type_map_value_arguments<C: AstConverting>(
    nodes: &Vec<WithMetaData<NodeTypeMapValueArguments>>,
    emitter: &mut C,
) -> (result: Result<TraversalResult, Error>)
    ensures
        walked(final(emitter)@, result) == visit_each_type_map_value_arguments_spec::<C>(
            nodes@,
            old(emitter)@,
        ),
    decreases nodes,
{
    let mut i: usize = 0;
    assert(nodes@.skip(0) =~= nodes@);
    while i < nodes.len()
        invariant
            i <= nodes.len(),
            visit_each_type_map_value_arguments_spec::<C>(nodes@.skip(i as int), emitter@)
                == visit_each_type_map_value_arguments_spec::<C>(nodes@, old(emitter)@),
        decreases nodes.len() - i,
    {
        assert(nodes@.skip(i as int).drop_first() =~= nodes@.skip(i as int + 1));
        let visited = visit_type_map_value_arguments_at(&nodes[i], emitter);
        if !goes_on(&visited) {
            return visited;
        }
        i += 1;
    }
    Ok(TraversalResult::Continue)
}

/// A row of type map value arguments nodes ends with the first node whose visit fails or asks
/// to skip: what that visit comes to is what the row comes to, and no later node is visited.
pub proof fn lemma_visit_each_type_map_value_arguments_stops<C: AstConverting>(
    nodes: Seq<WithMetaData<NodeTypeMapValueArguments>>,
    state: C::V,
    i: int,
)
    requires
        0 <= i < nodes.len(),
        visit_each_type_map_value_arguments_spec::<C>(nodes.take(i), state).passed(),
        !visit_type_map_value_arguments_at_spec::<C>(
            nodes[i],
            visit_each_type_map_value_arguments_spec::<C>(nodes.take(i), state).state,
        ).passed(),
    ensures
        visit_each_type_map_value_arguments_spec::<C>(nodes, state)
            == visit_type_map_value_arguments_at_spec::<C>(
                nodes[i],
                visit_each_type_map_value_arguments_spec::<C>(nodes.take(i), state).state,
            ),
    decreases i,
{
    if i > 0 {
        assert(nodes.take(i).drop_first() =~= nodes.drop_first().take(i - 1));
        let first = visit_type_map_value_arguments_at_spec::<C>(nodes[0], state);
        lemma_visit_each_type_map_value_arguments_stops::<C>(
            nodes.drop_first(),
            first.state,
            i - 1,
        );
    }
}

/// What visiting a type map value allowing type arguments node in `state` comes to.
pub open spec fn visit_type_map_value_allowing_type_arguments_spec<C: AstConverting>(
    node: NodeTypeMapValueAllowingTypeArguments,
    state: C::V,
) -> Walk<C::V>
    decreases node,
{
    let entered = C::converted(
        state,
        TreeTraversalMode::Enter,
        AstNode::TypeMapValueAllowingTypeArguments(node),
    );
    let children = match node {
        NodeTypeMapValueAllowingTypeArguments::TypeMapValueNoArgs(value) =>
            visit_type_map_value_at_spec::<C>(
                value,
                entered.state,
            ),
        NodeTypeMapValueAllowingTypeArguments::TypeMapValueWithArgs(lead, args) => {
            let first = visit_meta_identifier_at_spec::<C>(lead, entered.state);
            if !first.passed() {
                first
            } else {
                visit_each_type_map_value_arguments_spec::<C>(args@, first.state)
            }
        },
    };
    conclude::<C>(AstNode::TypeMapValueAllowingTypeArguments(node), entered, children)
}

/// Visits a type map value allowing type arguments node: its enter hook, then its children in
/// order, then its exit hook.
pub fn visit_type_map_value_allowing_type_arguments<C: AstConverting>(
    node: &NodeTypeMapValueAllowingTypeArguments,
    emitter: &mut C,
) -> (result: Result<TraversalResult, Error>)
    ensures
        walked(final(emitter)@, result) == visit_type_map_value_allowing_type_arguments_spec::<C>(
            *node,
            old(emitter)@,
        ),
    decreases node,
{
    match emitter.emit_type_map_value_allowing_type_arguments(TreeTraversalMode::Enter, node)? {
        TraversalResult::SkipChildren => {
            return Ok(TraversalResult::Continue);
        },
        TraversalResult::Continue => {},
    }
    let children = match node {
        NodeTypeMapValueAllowingTypeArguments::TypeMapValueNoArgs(value) => visit_type_map_value_at(
            value,
            emitter,
        ),
        NodeTypeMapValueAllowingTypeArguments::TypeMapValueWithArgs(lead, args) => {
            let visited = visit_meta_identifier_at(lead, emitter);
            if !goes_on(&visited) {
                return visited;
            }
            visit_each_type_map_value_arguments(args, emitter)
        },
    };
    if !goes_on(&children) {
        return children;
    }
    emitter.emit_type_map_value_allowing_type_arguments(TreeTraversalMode::Exit, node)
}

/// What visiting a type map value allowing type arguments node at its place in the source comes
/// to: the place is pushed, the node is visited and the place is popped, whatever the visit
/// returns.
pub open spec fn visit_type_map_value_allowing_type_arguments_at_spec<C: AstConverting>(
    node: WithMetaData<NodeTypeMapValueAllowingTypeArguments>,
    state: C::V,
) -> Walk<C::V>
    decreases node,
{
    within::<C>(
        visit_type_map_value_allowing_type_arguments_spec::<C>(
            node.node,
            C::position_pushed(state, node.start, node.end),
        ),
    )
}

/// Visits a type map value allowing type arguments node between a push and a pop of its place
/// in the source.
pub fn visit_type_map_value_allowing_type_arguments_at<C: AstConverting>(
    node: &WithMetaData<NodeTypeMapValueAllowingTypeArguments>,
    emitter: &mut C,
) -> (result: Result<TraversalResult, Error>)
    ensures
        walked(final(emitter)@, result) ==
            visit_type_map_value_allowing_type_arguments_at_spec::<C>(
                *node,
                old(emitter)@,
            ),
    decreases node,
{
    emitter.push_source_position(&node.start, &node.end);
    let visited = visit_type_map_value_allowing_type_arguments(&node.node, emitter);
    emitter.pop_source_position();
    visited
}

/// What visiting a contract type arguments node in `state` comes to.
pub open spec fn visit_contract_type_arguments_spec<C: AstConverting>(
    node: NodeContractTypeArguments,
    state: C::V,
) -> Walk<C::V>
{
    let entered = C::converted(
        state,
        TreeTraversalMode::Enter,
        AstNode::ContractTypeArguments(node),
    );
    let children = visit_each_type_argument_spec::<C>(node.type_arguments@, entered.state);
    conclude::<C>(AstNode::ContractTypeArguments(node), entered, children)
}

/// Visits a contract type arguments node: its enter hook, then its children in order, then its
/// exit hook.
pub fn visit_contract_type_arguments<C: AstConverting>(
    node: &NodeContractTypeArguments,
    emitter: &mut C,
) -> (result: Result<TraversalResult, Error>)
    ensures
        walked(final(emitter)@, result) == visit_contract_type_arguments_spec::<C>(
            *node,
            old(emitter)@,
        ),
{
    match emitter.emit_contract_type_arguments(TreeTraversalMode::Enter, node)? {
        TraversalResult::SkipChildren => {
            return Ok(TraversalResult::Continue);
        },
        TraversalResult::Continue => {},
    }
    let children = visit_each_type_argument(&node.type_arguments, emitter);
    if !goes_on(&children) {
        return children;
    }
    emitter.emit_contract_type_arguments(TreeTraversalMode::Exit, node)
}

/// What visiting a type annotation node in `state` comes to.
pub open spec fn visit_type_annotation_spec<C: AstConverting>(
    node: NodeTypeAnnotation,
    state: C::V,
) -> Walk<C::V>
{
    let entered = C::converted(state, TreeTraversalMode::Enter, AstNode::TypeAnnotation(node));
    let children = visit_scilla_type_at_spec::<C>(node.typename, entered.state);
    conclude::<C>(AstNode::TypeAnnotation(node), entered, children)
}

/// Visits a type annotation node: its enter hook, then its children in order, then its exit
/// hook.
pub fn visit_type_annotation<C: AstConverting>(
    node: &NodeTypeAnnotation,
    emitter: &mut C,
) -> (result: Result<TraversalResult, Error>)
    ensures
        walked(final(emitter)@, result) == visit_type_annotation_spec::<C>(
            *node,
            old(emitter)@,
        ),
{
    match emitter.emit_type_annotation(TreeTraversalMode::Enter, node)? {
        TraversalResult::SkipChildren => {
            return Ok(TraversalResult::Continue);
        },
        TraversalResult::Continue => {},
    }
    let children = visit_scilla_type_at(&node.typename, emitter);
    if !goes_on(&children) {
        return children;
    }
    emitter.emit_type_annotation(TreeTraversalMode::Exit, node)
}

/// What visiting a type annotation node at its place in the source comes to: the place is
/// pushed, the node is visited and the place is popped, whatever the visit returns.
pub open spec fn visit_type_annotation_at_spec<C: AstConverting>(
    node: WithMetaData<NodeTypeAnnotation>,
    state: C::V,
) -> Walk<C::V>
{
    within::<C>(
        visit_type_annotation_spec::<C>(node.node, C::position_pushed(state, node.start, node.end)),
    )
}

/// Visits a type annotation node between a push and a pop of its place in the source.
pub fn visit_type_annotation_at<C: AstConverting>(
    node: &WithMetaData<NodeTypeAnnotation>,
    emitter: &mut C,
) -> (result: Result<TraversalResult, Error>)
    ensures
        walked(final(emitter)@, result) == visit_type_annotation_at_spec::<C>(*node, old(emitter)@),
{
    emitter.push_source_position(&node.start, &node.end);
    let visited = visit_type_annotation(&node.node, emitter);
    emitter.pop_source_position();
    visited
}

/// What visiting a typed identifier node in `state` comes to.
pub open spec fn visit_typed_identifier_spec<C: AstConverting>(
    node: NodeTypedIdentifier,
    state: C::V,
) -> Walk<C::V>
{
    let entered = C::converted(state, TreeTraversalMode::Enter, AstNode::TypedIdentifier(node));
    let children = visit_type_annotation_at_spec::<C>(node.annotation, entered.state);
    conclude::<C>(AstNode::TypedIdentifier(node), entered, children)
}

/// Visits a typed identifier node: its enter hook, then its children in order, then its exit
/// hook.
pub fn visit_typed_identifier<C: AstConverting>(
    node: &NodeTypedIdentifier,
    emitter: &mut C,
) -> (result: Result<TraversalResult, Error>)
    ensures
        walked(final(emitter)@, result) == visit_typed_identifier_spec::<C>(
            *node,
            old(emitter)@,
        ),
{
    match emitter.emit_typed_identifier(TreeTraversalMode::Enter, node)? {
        TraversalResult::SkipChildren => {
            return Ok(TraversalResult::Continue);
        },
        TraversalResult::Continue => {},
    }
    let children = visit_type_annotation_at(&node.annotation, emitter);
    if !goes_on(&children) {
        return children;
    }
    emitter.emit_typed_identifier(TreeTraversalMode::Exit, node)
}

/// What visiting a typed identifier node at its place in the source comes to: the place is
/// pushed, the node is visited and the place is popped, whatever the visit returns.
pub open spec fn visit_typed_identifier_at_spec<C: AstConverting>(
    node: WithMetaData<NodeTypedIdentifier>,
    state: C::V,
) -> Walk<C::V>
{
    within::<C>(
        visit_typed_identifier_spec::<C>(
            node.node,
            C::position_pushed(state, node.start, node.end),
        ),
    )
}

/// Visits a typed identifier node between a push and a pop of its place in the source.
pub fn visit_typed_identifier_at<C: AstConverting>(
    node: &WithMetaData<NodeTypedIdentifier>,
    emitter: &mut C,
) -> (result: Result<TraversalResult, Error>)
    ensures
        walked(final(emitter)@, result) == visit_typed_identifier_at_spec::<C>(
            *node,
            old(emitter)@,
        ),
{
    emitter.push_source_position(&node.start, &node.end);
    let visited = visit_typed_identifier(&node.node, emitter);
    emitter.pop_source_position();
    visited
}

/// What visiting a type alternative clause node in `state` comes to.
pub open spec fn visit_type_alternative_clause_spec<C: AstConverting>(
    node: NodeTypeAlternativeClause,
    state: C::V,
) -> Walk<C::V>
{
    let entered = C::converted(
        state,
        TreeTraversalMode::Enter,
        AstNode::TypeAlternativeClause(node),
    );
    let children = match node {
        NodeTypeAlternativeClause::ClauseType(name) => visit_type_name_identifier_at_spec::<C>(
            name,
            entered.state,
        ),
        NodeTypeAlternativeClause::ClauseTypeWithArgs(name, args) => {
            let first = visit_type_name_identifier_at_spec::<C>(name, entered.state);
            if !first.passed() {
                first
            } else {
                visit_each_type_argument_spec::<C>(args@, first.state)
            }
        },
    };
    conclude::<C>(AstNode::TypeAlternativeClause(node), entered, children)
}

/// Visits a type alternative clause node: its enter hook, then its children in order, then its
/// exit hook.
pub fn visit_type_alternative_clause<C: AstConverting>(
    node: &NodeTypeAlternativeClause,
    emitter: &mut C,
) -> (result: Result<TraversalResult, Error>)
    ensures
        walked(final(emitter)@, result) == visit_type_alternative_clause_spec::<C>(
            *node,
            old(emitter)@,
        ),
{
    match emitter.emit_type_alternative_clause(TreeTraversalMode::Enter, node)? {
        TraversalResult::SkipChildren => {
            return Ok(TraversalResult::Continue);
        },
        TraversalResult::Continue => {},
    }
    let children = match node {
        NodeTypeAlternativeClause::ClauseType(name) => visit_type_name_identifier_at(name, emitter),
        NodeTypeAlternativeClause::ClauseTypeWithArgs(name, args) => {
            let visited = visit_type_name_identifier_at(name, emitter);
            if !goes_on(&visited) {
                return visited;
            }
            visit_each_type_argument(args, emitter)
        },
    };
    if !goes_on(&children) {
        return children;
    }
    emitter.emit_type_alternative_clause(TreeTraversalMode::Exit, node)
}

/// What visiting a type alternative clause node at its place in the source comes to: the place
/// is pushed, the node is visited and the place is popped, whatever the visit returns.
pub open spec fn visit_type_alternative_clause_at_spec<C: AstConverting>(
    node: WithMetaData<NodeTypeAlternativeClause>,
    state: C::V,
) -> Walk<C::V>
{
    within::<C>(
        visit_type_alternative_clause_spec::<C>(
            node.node,
            C::position_pushed(state, node.start, node.end),
        ),
    )
}

/// Visits a type alternative clause node between a push and a pop of its place in the source.
pub fn visit_type_alternative_clause_at<C: AstConverting>(
    node: &WithMetaData<NodeTypeAlternativeClause>,
    emitter: &mut C,
) -> (result: Result<TraversalResult, Error>)
    ensures
        walked(final(emitter)@, result) == visit_type_alternative_clause_at_spec::<C>(
            *node,
            old(emitter)@,
        ),
{
    emitter.push_source_position(&node.start, &node.end);
    let visited = visit_type_alternative_clause(&node.node, emitter);
    emitter.pop_source_position();
    visited
}

/// What visiting a row of type alternative clause nodes, starting in `state`, comes to: the
/// first that fails or asks to skip ends the row.
pub open spec fn visit_each_type_alternative_clause_spec<C: AstConverting>(
    nodes: Seq<WithMetaData<NodeTypeAlternativeClause>>,
    state: C::V,
) -> Walk<C::V>
    decreases nodes,
{
    if nodes.len() == 0 {
        Walk::proceed(state)
    } else {
        let first = visit_type_alternative_clause_at_spec::<C>(nodes[0], state);
        if !first.passed() {
            first
        } else {
            visit_each_type_alternative_clause_spec::<C>(nodes.drop_first(), first.state)
        }
    }
}

/// Visits a row of type alternative clause nodes in order, up to the first that fails or asks
/// to skip.
pub fn visit_each_type_alternative_clause<C: AstConverting>(
    nodes: &Vec<WithMetaData<NodeTypeAlternativeClause>>,
    emitter: &mut C,
) -> (result: Result<TraversalResult, Error>)
    ensures
        walked(final(emitter)@, result) == visit_each_type_alternative_clause_spec::<C>(
            nodes@,
            old(emitter)@,
        ),
{
    let mut i: usize = 0;
    assert(nodes@.skip(0) =~= nodes@);
    while i < nodes.len()
        invariant
            i <= nodes.len(),
            visit_each_type_alternative_clause_spec::<C>(nodes@.skip(i as int), emitter@)
                == visit_each_type_alternative_clause_spec::<C>(nodes@, old(emitter)@),
        decreases nodes.len() - i,
    {
        assert(nodes@.skip(i as int).drop_first() =~= nodes@.skip(i as int + 1));
        let visited = visit_type_alternative_clause_at(&nodes[i], emitter);
        if !goes_on(&visited) {
            return visited;
        }
        i += 1;
    }
    Ok(TraversalResult::Continue)
}

/// A row of type alternative clause nodes ends with the first node whose visit fails or asks to
/// skip: what that visit comes to is what the row comes to, and no later node is visited.
pub proof fn lemma_visit_each_type_alternative_clause_stops<C: AstConverting>(
    nodes: Seq<WithMetaData<NodeTypeAlternativeClause>>,
    state: C::V,
    i: int,
)
    requires
        0 <= i < nodes.len(),
        visit_each_type_alternative_clause_spec::<C>(nodes.take(i), state).passed(),
        !visit_type_alternative_clause_at_spec::<C>(
            nodes[i],
            visit_each_type_alternative_clause_spec::<C>(nodes.take(i), state).state,
        ).passed(),
    ensures
        visit_each_type_alternative_clause_spec::<C>(nodes, state)
            == visit_type_alternative_clause_at_spec::<C>(
                nodes[i],
                visit_each_type_alternative_clause_spec::<C>(nodes.take(i), state).state,
            ),
    decreases i,
{
    if i > 0 {
        assert(nodes.take(i).drop_first() =~= nodes.drop_first().take(i - 1));
        let first = visit_type_alternative_clause_at_spec::<C>(nodes[0], state);
        lemma_visit_each_type_alternative_clause_stops::<C>(nodes.drop_first(), first.state, i - 1);
    }
}

/// What visiting a value literal node in `state` comes to.
pub open spec fn visit_value_literal_spec<C: AstConverting>(
    node: NodeValueLiteral,
    state: C::V,
) -> Walk<C::V>
{
    let entered = C::converted(state, TreeTraversalMode::Enter, AstNode::ValueLiteral(node));
    let children = match node {
        NodeValueLiteral::LiteralInt(name, _) => visit_type_name_identifier_at_spec::<C>(
            name,
            entered.state,
        ),
        NodeValueLiteral::LiteralEmptyMap(key, value) => {
            let first = visit_type_map_key_at_spec::<C>(key, entered.state);
            if !first.passed() {
                first
            } else {
                visit_type_map_value_at_spec::<C>(value, first.state)
            }
        },
        _ => Walk::proceed(entered.state),
    };
    conclude::<C>(AstNode::ValueLiteral(node), entered, children)
}

/// Visits a value literal node: its enter hook, then its children in order, then its exit hook.
pub fn visit_value_literal<C: AstConverting>(
    node: &NodeValueLiteral,
    emitter: &mut C,
) -> (result: Result<TraversalResult, Error>)
    ensures
        walked(final(emitter)@, result) == visit_value_literal_spec::<C>(
            *node,
            old(emitter)@,
        ),
{
    match emitter.emit_value_literal(TreeTraversalMode::Enter, node)? {
        TraversalResult::SkipChildren => {
            return Ok(TraversalResult::Continue);
        },
        TraversalResult::Continue => {},
    }
    let children = match node {
        NodeValueLiteral::LiteralInt(name, _) => visit_type_name_identifier_at(name, emitter),
        NodeValueLiteral::LiteralEmptyMap(key, value) => {
            let visited = visit_type_map_key_at(key, emitter);
            if !goes_on(&visited) {
                return visited;
            }
            visit_type_map_value_at(value, emitter)
        },
        _ => Ok(TraversalResult::Continue),
    };
    if !goes_on(&children) {
        return children;
    }
    emitter.emit_value_literal(TreeTraversalMode::Exit, node)
}

/// What visiting a value literal node at its place in the source comes to: the place is pushed,
/// the node is visited and the place is popped, whatever the visit returns.
pub open spec fn visit_value_literal_at_spec<C: AstConverting>(
    node: WithMetaData<NodeValueLiteral>,
    state: C::V,
) -> Walk<C::V>
{
    within::<C>(
        visit_value_literal_spec::<C>(node.node, C::position_pushed(state, node.start, node.end)),
    )
}

/// Visits a value literal node between a push and a pop of its place in the source.
pub fn visit_value_literal_at<C: AstConverting>(
    node: &WithMetaData<NodeValueLiteral>,
    emitter: &mut C,
) -> (result: Result<TraversalResult, Error>)
    ensures
        walked(final(emitter)@, result) == visit_value_literal_at_spec::<C>(*node, old(emitter)@),
{
    emitter.push_source_position(&node.start, &node.end);
    let visited = visit_value_literal(&node.node, emitter);
    emitter.pop_source_position();
    visited
}

} // verus!
