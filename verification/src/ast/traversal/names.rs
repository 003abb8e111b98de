use crate::ast::converting::{
    conclude, goes_on, walked, within, AstConverting, AstNode, Walk,
};
use crate::ast::nodes::{
    NodeBlockchainFetchArguments, NodeBuiltinArguments, NodeByteStr, NodeComponentId,
    NodeImportDeclarations, NodeImportedName, NodeMapAccess, NodeMetaIdentifier,
    NodeTypeNameIdentifier, NodeVariableIdentifier, WithMetaData,
};
use crate::ast::{TraversalResult, TreeTraversalMode};
use crate::error::Error;
use vstd::prelude::*;

verus! {

/// What visiting a byte str node in `state` comes to.
pub open spec fn visit_byte_str_spec<C: AstConverting>(
    node: NodeByteStr,
    state: C::V,
) -> Walk<C::V>
{
    let entered = C::converted(state, TreeTraversalMode::Enter, AstNode::ByteStr(node));
    let children = Walk::proceed(entered.state);
    conclude::<C>(AstNode::ByteStr(node), entered, children)
}

/// Visits a byte str node: its enter hook, then its children in order, then its exit hook.
pub fn visit_byte_str<C: AstConverting>(
    node: &NodeByteStr,
    emitter: &mut C,
) -> (result: Result<TraversalResult, Error>)
    ensures
        walked(final(emitter)@, result) == visit_byte_str_spec::<C>(
            *node,
            old(emitter)@,
        ),
{
    match emitter.emit_byte_str(TreeTraversalMode::Enter, node)? {
        TraversalResult::SkipChildren => {
            return Ok(TraversalResult::Continue);
        },
        TraversalResult::Continue => {},
    }
    emitter.emit_byte_str(TreeTraversalMode::Exit, node)
}

/// What visiting a byte str node at its place in the source comes to: the place is pushed, the
/// node is visited and the place is popped, whatever the visit returns.
pub open spec fn visit_byte_str_at_spec<C: AstConverting>(
    node: WithMetaData<NodeByteStr>,
    state: C::V,
) -> Walk<C::V>
{
    within::<C>(
        visit_byte_str_spec::<C>(node.node, C::position_pushed(state, node.start, node.end)),
    )
}

/// Visits a byte str node between a push and a pop of its place in the source.
pub fn visit_byte_str_at<C: AstConverting>(
    node: &WithMetaData<NodeByteStr>,
    emitter: &mut C,
) -> (result: Result<TraversalResult, Error>)
    ensures
        walked(final(emitter)@, result) == visit_byte_str_at_spec::<C>(*node, old(emitter)@),
{
    emitter.push_source_position(&node.start, &node.end);
    let visited = visit_byte_str(&node.node, emitter);
    emitter.pop_source_position();
    visited
}

/// What visiting a type name identifier node in `state` comes to.
pub open spec fn visit_type_name_identifier_spec<C: AstConverting>(
    node: NodeTypeNameIdentifier,
    state: C::V,
) -> Walk<C::V>
{
    let entered = C::converted(state, TreeTraversalMode::Enter, AstNode::TypeNameIdentifier(node));
    let children = match node {
        NodeTypeNameIdentifier::ByteStringType(bs_type) => visit_byte_str_at_spec::<C>(
            bs_type,
            entered.state,
        ),
        _ => Walk::proceed(entered.state),
    };
    conclude::<C>(AstNode::TypeNameIdentifier(node), entered, children)
}

/// Visits a type name identifier node: its enter hook, then its children in order, then its
/// exit hook.
pub fn visit_type_name_identifier<C: AstConverting>(
    node: &NodeTypeNameIdentifier,
    emitter: &mut C,
) -> (result: Result<TraversalResult, Error>)
    ensures
        walked(final(emitter)@, result) == visit_type_name_identifier_spec::<C>(
            *node,
            old(emitter)@,
        ),
{
    match emitter.emit_type_name_identifier(TreeTraversalMode::Enter, node)? {
        TraversalResult::SkipChildren => {
            return Ok(TraversalResult::Continue);
        },
        TraversalResult::Continue => {},
    }
    let children = match node {
        NodeTypeNameIdentifier::ByteStringType(bs_type) => visit_byte_str_at(bs_type, emitter),
        _ => Ok(TraversalResult::Continue),
    };
    if !goes_on(&children) {
        return children;
    }
    emitter.emit_type_name_identifier(TreeTraversalMode::Exit, node)
}

/// What visiting a type name identifier node at its place in the source comes to: the place is
/// pushed, the node is visited and the place is popped, whatever the visit returns.
pub open spec fn visit_type_name_identifier_at_spec<C: AstConverting>(
    node: WithMetaData<NodeTypeNameIdentifier>,
    state: C::V,
) -> Walk<C::V>
{
    within::<C>(
        visit_type_name_identifier_spec::<C>(
            node.node,
            C::position_pushed(state, node.start, node.end),
        ),
    )
}

/// Visits a type name identifier node between a push and a pop of its place in the source.
pub fn visit_type_name_identifier_at<C: AstConverting>(
    node: &WithMetaData<NodeTypeNameIdentifier>,
    emitter: &mut C,
) -> (result: Result<TraversalResult, Error>)
    ensures
        walked(final(emitter)@, result) == visit_type_name_identifier_at_spec::<C>(
            *node,
            old(emitter)@,
        ),
{
    emitter.push_source_position(&node.start, &node.end);
    let visited = visit_type_name_identifier(&node.node, emitter);
    emitter.pop_source_position();
    visited
}

/// What visiting an imported name node in `state` comes to.
pub open spec fn visit_imported_name_spec<C: AstConverting>(
    node: NodeImportedName,
    state: C::V,
) -> Walk<C::V>
{
    let entered = C::converted(state, TreeTraversalMode::Enter, AstNode::ImportedName(node));
    let children = match node {
        NodeImportedName::RegularImport(name) => visit_type_name_identifier_at_spec::<C>(
            name,
            entered.state,
        ),
        NodeImportedName::AliasedImport(name, alias) => {
            let first = visit_type_name_identifier_at_spec::<C>(name, entered.state);
            if !first.passed() {
                first
            } else {
                visit_type_name_identifier_at_spec::<C>(alias, first.state)
            }
        },
    };
    conclude::<C>(AstNode::ImportedName(node), entered, children)
}

/// Visits an imported name node: its enter hook, then its children in order, then its exit
/// hook.
pub fn visit_imported_name<C: AstConverting>(
    node: &NodeImportedName,
    emitter: &mut C,
) -> (result: Result<TraversalResult, Error>)
    ensures
        walked(final(emitter)@, result) == visit_imported_name_spec::<C>(
            *node,
            old(emitter)@,
        ),
{
    match emitter.emit_imported_name(TreeTraversalMode::Enter, node)? {
        TraversalResult::SkipChildren => {
            return Ok(TraversalResult::Continue);
        },
        TraversalResult::Continue => {},
    }
    let children = match node {
        NodeImportedName::RegularImport(name) => visit_type_name_identifier_at(name, emitter),
        NodeImportedName::AliasedImport(name, alias) => {
            let visited = visit_type_name_identifier_at(name, emitter);
            if !goes_on(&visited) {
                return visited;
            }
            visit_type_name_identifier_at(alias, emitter)
        },
    };
    if !goes_on(&children) {
        return children;
    }
    emitter.emit_imported_name(TreeTraversalMode::Exit, node)
}

/// What visiting an imported name node at its place in the source comes to: the place is
/// pushed, the node is visited and the place is popped, whatever the visit returns.
pub open spec fn visit_imported_name_at_spec<C: AstConverting>(
    node: WithMetaData<NodeImportedName>,
    state: C::V,
) -> Walk<C::V>
{
    within::<C>(
        visit_imported_name_spec::<C>(node.node, C::position_pushed(state, node.start, node.end)),
    )
}

/// Visits an imported name node between a push and a pop of its place in the source.
pub fn visit_imported_name_at<C: AstConverting>(
    node: &WithMetaData<NodeImportedName>,
    emitter: &mut C,
) -> (result: Result<TraversalResult, Error>)
    ensures
        walked(final(emitter)@, result) == visit_imported_name_at_spec::<C>(*node, old(emitter)@),
{
    emitter.push_source_position(&node.start, &node.end);
    let visited = visit_imported_name(&node.node, emitter);
    emitter.pop_source_position();
    visited
}

/// What visiting a row of imported name nodes, starting in `state`, comes to: the first that
/// fails or asks to skip ends the row.
pub open spec fn visit_each_imported_name_spec<C: AstConverting>(
    nodes: Seq<WithMetaData<NodeImportedName>>,
    state: C::V,
) -> Walk<C::V>
    decreases nodes,
{
    if nodes.len() == 0 {
        Walk::proceed(state)
    } else {
        let first = visit_imported_name_at_spec::<C>(nodes[0], state);
        if !first.passed() {
            first
        } else {
            visit_each_imported_name_spec::<C>(nodes.drop_first(), first.state)
        }
    }
}

/// Visits a row of imported name nodes in order, up to the first that fails or asks to skip.
pub fn visit_each_imported_name<C: AstConverting>(
    nodes: &Vec<WithMetaData<NodeImportedName>>,
    emitter: &mut C,
) -> (result: Result<TraversalResult, Error>)
    ensures
        walked(final(emitter)@, result) == visit_each_imported_name_spec::<C>(
            nodes@,
            old(emitter)@,
        ),
{
    let mut i: usize = 0;
    assert(nodes@.skip(0) =~= nodes@);
    while i < nodes.len()
        invariant
            i <= nodes.len(),
            visit_each_imported_name_spec::<C>(nodes@.skip(i as int), emitter@)
                == visit_each_imported_name_spec::<C>(nodes@, old(emitter)@),
        decreases nodes.len() - i,
    {
        assert(nodes@.skip(i as int).drop_first() =~= nodes@.skip(i as int + 1));
        let visited = visit_imported_name_at(&nodes[i], emitter);
        if !goes_on(&visited) {
            return visited;
        }
        i += 1;
    }
    Ok(TraversalResult::Continue)
}

/// A row of imported name nodes ends with the first node whose visit fails or asks to skip:
/// what that visit comes to is what the row comes to, and no later node is visited.
pub proof fn lemma_visit_each_imported_name_stops<C: AstConverting>(
    nodes: Seq<WithMetaData<NodeImportedName>>,
    state: C::V,
    i: int,
)
    requires
        0 <= i < nodes.len(),
        visit_each_imported_name_spec::<C>(nodes.take(i), state).passed(),
        !visit_imported_name_at_spec::<C>(
            nodes[i],
            visit_each_imported_name_spec::<C>(nodes.take(i), state).state,
        ).passed(),
    ensures
        visit_each_imported_name_spec::<C>(nodes, state)
            == visit_imported_name_at_spec::<C>(
                nodes[i],
                visit_each_imported_name_spec::<C>(nodes.take(i), state).state,
            ),
    decreases i,
{
    if i > 0 {
        assert(nodes.take(i).drop_first() =~= nodes.drop_first().take(i - 1));
        let first = visit_imported_name_at_spec::<C>(nodes[0], state);
        lemma_visit_each_imported_name_stops::<C>(nodes.drop_first(), first.state, i - 1);
    }
}

/// What visiting an import declarations node in `state` comes to.
pub open spec fn visit_import_declarations_spec<C: AstConverting>(
    node: NodeImportDeclarations,
    state: C::V,
) -> Walk<C::V>
{
    let entered = C::converted(state, TreeTraversalMode::Enter, AstNode::ImportDeclarations(node));
    let children = visit_each_imported_name_spec::<C>(node.import_list@, entered.state);
    conclude::<C>(AstNode::ImportDeclarations(node), entered, children)
}

/// Visits an import declarations node: its enter hook, then its children in order, then its
/// exit hook.
pub fn visit_import_declarations<C: AstConverting>(
    node: &NodeImportDeclarations,
    emitter: &mut C,
) -> (result: Result<TraversalResult, Error>)
    ensures
        walked(final(emitter)@, result) == visit_import_declarations_spec::<C>(
            *node,
            old(emitter)@,
        ),
{
    match emitter.emit_import_declarations(TreeTraversalMode::Enter, node)? {
        TraversalResult::SkipChildren => {
            return Ok(TraversalResult::Continue);
        },
        TraversalResult::Continue => {},
    }
    let children = visit_each_imported_name(&node.import_list, emitter);
    if !goes_on(&children) {
        return children;
    }
    emitter.emit_import_declarations(TreeTraversalMode::Exit, node)
}

/// What visiting an import declarations node at its place in the source comes to: the place is
/// pushed, the node is visited and the place is popped, whatever the visit returns.
pub open spec fn visit_import_declarations_at_spec<C: AstConverting>(
    node: WithMetaData<NodeImportDeclarations>,
    state: C::V,
) -> Walk<C::V>
{
    within::<C>(
        visit_import_declarations_spec::<C>(
            node.node,
            C::position_pushed(state, node.start, node.end),
        ),
    )
}

/// Visits an import declarations node between a push and a pop of its place in the source.
pub fn visit_import_declarations_at<C: AstConverting>(
    node: &WithMetaData<NodeImportDeclarations>,
    emitter: &mut C,
) -> (result: Result<TraversalResult, Error>)
    ensures
        walked(final(emitter)@, result) == visit_import_declarations_at_spec::<C>(
            *node,
            old(emitter)@,
        ),
{
    emitter.push_source_position(&node.start, &node.end);
    let visited = visit_import_declarations(&node.node, emitter);
    emitter.pop_source_position();
    visited
}

/// What visiting a meta identifier node in `state` comes to.
pub open spec fn visit_meta_identifier_spec<C: AstConverting>(
    node: NodeMetaIdentifier,
    state: C::V,
) -> Walk<C::V>
{
    let entered = C::converted(state, TreeTraversalMode::Enter, AstNode::MetaIdentifier(node));
    let children = match node {
        NodeMetaIdentifier::MetaName(name) => visit_type_name_identifier_at_spec::<C>(
            name,
            entered.state,
        ),
        NodeMetaIdentifier::MetaNameInNamespace(name, ns) => {
            let first = visit_type_name_identifier_at_spec::<C>(name, entered.state);
            if !first.passed() {
                first
            } else {
                visit_type_name_identifier_at_spec::<C>(ns, first.state)
            }
        },
        NodeMetaIdentifier::MetaNameInHexspace(_, name) => visit_type_name_identifier_at_spec::<C>(
            name,
            entered.state,
        ),
        NodeMetaIdentifier::ByteString => Walk::proceed(entered.state),
    };
    conclude::<C>(AstNode::MetaIdentifier(node), entered, children)
}

/// Visits a meta identifier node: its enter hook, then its children in order, then its exit
/// hook.
pub fn visit_meta_identifier<C: AstConverting>(
    node: &NodeMetaIdentifier,
    emitter: &mut C,
) -> (result: Result<TraversalResult, Error>)
    ensures
        walked(final(emitter)@, result) == visit_meta_identifier_spec::<C>(
            *node,
            old(emitter)@,
        ),
{
    match emitter.emit_meta_identifier(TreeTraversalMode::Enter, node)? {
        TraversalResult::SkipChildren => {
            return Ok(TraversalResult::Continue);
        },
        TraversalResult::Continue => {},
    }
    let children = match node {
        NodeMetaIdentifier::MetaName(name) => visit_type_name_identifier_at(name, emitter),
        NodeMetaIdentifier::MetaNameInNamespace(name, ns) => {
            let visited = visit_type_name_identifier_at(name, emitter);
            if !goes_on(&visited) {
                return visited;
            }
            visit_type_name_identifier_at(ns, emitter)
        },
        NodeMetaIdentifier::MetaNameInHexspace(_, name) => visit_type_name_identifier_at(
            name,
            emitter,
        ),
        NodeMetaIdentifier::ByteString => Ok(TraversalResult::Continue),
    };
    if !goes_on(&children) {
        return children;
    }
    emitter.emit_meta_identifier(TreeTraversalMode::Exit, node)
}

/// What visiting a meta identifier node at its place in the source comes to: the place is
/// pushed, the node is visited and the place is popped, whatever the visit returns.
pub open spec fn visit_meta_identifier_at_spec<C: AstConverting>(
    node: WithMetaData<NodeMetaIdentifier>,
    state: C::V,
) -> Walk<C::V>
{
    within::<C>(
        visit_meta_identifier_spec::<C>(node.node, C::position_pushed(state, node.start, node.end)),
    )
}

/// Visits a meta identifier node between a push and a pop of its place in the source.
pub fn visit_meta_identifier_at<C: AstConverting>(
    node: &WithMetaData<NodeMetaIdentifier>,
    emitter: &mut C,
) -> (result: Result<TraversalResult, Error>)
    ensures
        walked(final(emitter)@, result) == visit_meta_identifier_at_spec::<C>(*node, old(emitter)@),
{
    emitter.push_source_position(&node.start, &node.end);
    let visited = visit_meta_identifier(&node.node, emitter);
    emitter.pop_source_position();
    visited
}

/// What visiting a variable identifier node in `state` comes to.
pub open spec fn visit_variable_identifier_spec<C: AstConverting>(
    node: NodeVariableIdentifier,
    state: C::V,
) -> Walk<C::V>
{
    let entered = C::converted(state, TreeTraversalMode::Enter, AstNode::VariableIdentifier(node));
    let children = match node {
        NodeVariableIdentifier::VariableInNamespace(qualifier, _) =>
            visit_type_name_identifier_at_spec::<C>(
                qualifier,
                entered.state,
            ),
        _ => Walk::proceed(entered.state),
    };
    conclude::<C>(AstNode::VariableIdentifier(node), entered, children)
}

/// Visits a variable identifier node: its enter hook, then its children in order, then its exit
/// hook.
pub fn visit_variable_identifier<C: AstConverting>(
    node: &NodeVariableIdentifier,
    emitter: &mut C,
) -> (result: Result<TraversalResult, Error>)
    ensures
        walked(final(emitter)@, result) == visit_variable_identifier_spec::<C>(
            *node,
            old(emitter)@,
        ),
{
    match emitter.emit_variable_identifier(TreeTraversalMode::Enter, node)? {
        TraversalResult::SkipChildren => {
            return Ok(TraversalResult::Continue);
        },
        TraversalResult::Continue => {},
    }
    let children = match node {
        NodeVariableIdentifier::VariableInNamespace(qualifier, _) => visit_type_name_identifier_at(
            qualifier,
            emitter,
        ),
        _ => Ok(TraversalResult::Continue),
    };
    if !goes_on(&children) {
        return children;
    }
    emitter.emit_variable_identifier(TreeTraversalMode::Exit, node)
}

/// What visiting a variable identifier node at its place in the source comes to: the place is
/// pushed, the node is visited and the place is popped, whatever the visit returns.
pub open spec fn visit_variable_identifier_at_spec<C: AstConverting>(
    node: WithMetaData<NodeVariableIdentifier>,
    state: C::V,
) -> Walk<C::V>
{
    within::<C>(
        visit_variable_identifier_spec::<C>(
            node.node,
            C::position_pushed(state, node.start, node.end),
        ),
    )
}

/// Visits a variable identifier node between a push and a pop of its place in the source.
pub fn visit_variable_identifier_at<C: AstConverting>(
    node: &WithMetaData<NodeVariableIdentifier>,
    emitter: &mut C,
) -> (result: Result<TraversalResult, Error>)
    ensures
        walked(final(emitter)@, result) == visit_variable_identifier_at_spec::<C>(
            *node,
            old(emitter)@,
        ),
{
    emitter.push_source_position(&node.start, &node.end);
    let visited = visit_variable_identifier(&node.node, emitter);
    emitter.pop_source_position();
    visited
}

/// What visiting a row of variable identifier nodes, starting in `state`, comes to: the first
/// that fails or asks to skip ends the row.
pub open spec fn visit_each_variable_identifier_spec<C: AstConverting>(
    nodes: Seq<WithMetaData<NodeVariableIdentifier>>,
    state: C::V,
) -> Walk<C::V>
    decreases nodes,
{
    if nodes.len() == 0 {
        Walk::proceed(state)
    } else {
        let first = visit_variable_identifier_at_spec::<C>(nodes[0], state);
        if !first.passed() {
            first
        } else {
            visit_each_variable_identifier_spec::<C>(nodes.drop_first(), first.state)
        }
    }
}

/// Visits a row of variable identifier nodes in order, up to the first that fails or asks to
/// skip.
pub fn visit_each_variable_identifier<C: AstConverting>(
    nodes: &Vec<WithMetaData<NodeVariableIdentifier>>,
    emitter: &mut C,
) -> (result: Result<TraversalResult, Error>)
    ensures
        walked(final(emitter)@, result) == visit_each_variable_identifier_spec::<C>(
            nodes@,
            old(emitter)@,
        ),
{
    let mut i: usize = 0;
    assert(nodes@.skip(0) =~= nodes@);
    while i < nodes.len()
        invariant
            i <= nodes.len(),
            visit_each_variable_identifier_spec::<C>(nodes@.skip(i as int), emitter@)
                == visit_each_variable_identifier_spec::<C>(nodes@, old(emitter)@),
        decreases nodes.len() - i,
    {
        assert(nodes@.skip(i as int).drop_first() =~= nodes@.skip(i as int + 1));
        let visited = visit_variable_identifier_at(&nodes[i], emitter);
        if !goes_on(&visited) {
            return visited;
        }
        i += 1;
    }
    Ok(TraversalResult::Continue)
}

/// A row of variable identifier nodes ends with the first node whose visit fails or asks to
/// skip: what that visit comes to is what the row comes to, and no later node is visited.
pub proof fn lemma_visit_each_variable_identifier_stops<C: AstConverting>(
    nodes: Seq<WithMetaData<NodeVariableIdentifier>>,
    state: C::V,
    i: int,
)
    requires
        0 <= i < nodes.len(),
        visit_each_variable_identifier_spec::<C>(nodes.take(i), state).passed(),
        !visit_variable_identifier_at_spec::<C>(
            nodes[i],
            visit_each_variable_identifier_spec::<C>(nodes.take(i), state).state,
        ).passed(),
    ensures
        visit_each_variable_identifier_spec::<C>(nodes, state)
            == visit_variable_identifier_at_spec::<C>(
                nodes[i],
                visit_each_variable_identifier_spec::<C>(nodes.take(i), state).state,
            ),
    decreases i,
{
    if i > 0 {
        assert(nodes.take(i).drop_first() =~= nodes.drop_first().take(i - 1));
        let first = visit_variable_identifier_at_spec::<C>(nodes[0], state);
        lemma_visit_each_variable_identifier_stops::<C>(nodes.drop_first(), first.state, i - 1);
    }
}

/// What visiting a builtin arguments node in `state` comes to.
pub open spec fn visit_builtin_arguments_spec<C: AstConverting>(
    node: NodeBuiltinArguments,
    state: C::V,
) -> Walk<C::V>
{
    let entered = C::converted(state, TreeTraversalMode::Enter, AstNode::BuiltinArguments(node));
    let children = visit_each_variable_identifier_spec::<C>(node.arguments@, entered.state);
    conclude::<C>(AstNode::BuiltinArguments(node), entered, children)
}

/// Visits a builtin arguments node: its enter hook, then its children in order, then its exit
/// hook.
pub fn visit_builtin_arguments<C: AstConverting>(
    node: &NodeBuiltinArguments,
    emitter: &mut C,
) -> (result: Result<TraversalResult, Error>)
    ensures
        walked(final(emitter)@, result) == visit_builtin_arguments_spec::<C>(
            *node,
            old(emitter)@,
        ),
{
    match emitter.emit_builtin_arguments(TreeTraversalMode::Enter, node)? {
        TraversalResult::SkipChildren => {
            return Ok(TraversalResult::Continue);
        },
        TraversalResult::Continue => {},
    }
    let children = visit_each_variable_identifier(&node.arguments, emitter);
    if !goes_on(&children) {
        return children;
    }
    emitter.emit_builtin_arguments(TreeTraversalMode::Exit, node)
}

/// What visiting a builtin arguments node at its place in the source comes to: the place is
/// pushed, the node is visited and the place is popped, whatever the visit returns.
pub open spec fn visit_builtin_arguments_at_spec<C: AstConverting>(
    node: WithMetaData<NodeBuiltinArguments>,
    state: C::V,
) -> Walk<C::V>
{
    within::<C>(
        visit_builtin_arguments_spec::<C>(
            node.node,
            C::position_pushed(state, node.start, node.end),
        ),
    )
}

/// Visits a builtin arguments node between a push and a pop of its place in the source.
pub fn visit_builtin_arguments_at<C: AstConverting>(
    node: &WithMetaData<NodeBuiltinArguments>,
    emitter: &mut C,
) -> (result: Result<TraversalResult, Error>)
    ensures
        walked(final(emitter)@, result) == visit_builtin_arguments_at_spec::<C>(
            *node,
            old(emitter)@,
        ),
{
    emitter.push_source_position(&node.start, &node.end);
    let visited = visit_builtin_arguments(&node.node, emitter);
    emitter.pop_source_position();
    visited
}

/// What visiting a component id node in `state` comes to.
pub open spec fn visit_component_id_spec<C: AstConverting>(
    node: NodeComponentId,
    state: C::V,
) -> Walk<C::V>
{
    let entered = C::converted(state, TreeTraversalMode::Enter, AstNode::ComponentId(node));
    let children = match node {
        NodeComponentId::WithTypeLikeName(name) => visit_type_name_identifier_at_spec::<C>(
            name,
            entered.state,
        ),
        NodeComponentId::WithRegularId(_) => Walk::proceed(entered.state),
    };
    conclude::<C>(AstNode::ComponentId(node), entered, children)
}

/// Visits a component id node: its enter hook, then its children in order, then its exit hook.
pub fn visit_component_id<C: AstConverting>(
    node: &NodeComponentId,
    emitter: &mut C,
) -> (result: Result<TraversalResult, Error>)
    ensures
        walked(final(emitter)@, result) == visit_component_id_spec::<C>(
            *node,
            old(emitter)@,
        ),
{
    match emitter.emit_component_id(TreeTraversalMode::Enter, node)? {
        TraversalResult::SkipChildren => {
            return Ok(TraversalResult::Continue);
        },
        TraversalResult::Continue => {},
    }
    let children = match node {
        NodeComponentId::WithTypeLikeName(name) => visit_type_name_identifier_at(name, emitter),
        NodeComponentId::WithRegularId(_) => Ok(TraversalResult::Continue),
    };
    if !goes_on(&children) {
        return children;
    }
    emitter.emit_component_id(TreeTraversalMode::Exit, node)
}

/// What visiting a component id node at its place in the source comes to: the place is pushed,
/// the node is visited and the place is popped, whatever the visit returns.
pub open spec fn visit_component_id_at_spec<C: AstConverting>(
    node: WithMetaData<NodeComponentId>,
    state: C::V,
) -> Walk<C::V>
{
    within::<C>(
        visit_component_id_spec::<C>(node.node, C::position_pushed(state, node.start, node.end)),
    )
}

/// Visits a component id node between a push and a pop of its place in the source.
pub fn visit_component_id_at<C: AstConverting>(
    node: &WithMetaData<NodeComponentId>,
    emitter: &mut C,
) -> (result: Result<TraversalResult, Error>)
    ensures
        walked(final(emitter)@, result) == visit_component_id_at_spec::<C>(*node, old(emitter)@),
{
    emitter.push_source_position(&node.start, &node.end);
    let visited = visit_component_id(&node.node, emitter);
    emitter.pop_source_position();
    visited
}

/// What visiting a map access node in `state` comes to.
pub open spec fn visit_map_access_spec<C: AstConverting>(
    node: NodeMapAccess,
    state: C::V,
) -> Walk<C::V>
{
    let entered = C::converted(state, TreeTraversalMode::Enter, AstNode::MapAccess(node));
    let children = visit_variable_identifier_at_spec::<C>(node.identifier_name, entered.state);
    conclude::<C>(AstNode::MapAccess(node), entered, children)
}

/// Visits a map access node: its enter hook, then its children in order, then its exit hook.
pub fn visit_map_access<C: AstConverting>(
    node: &NodeMapAccess,
    emitter: &mut C,
) -> (result: Result<TraversalResult, Error>)
    ensures
        walked(final(emitter)@, result) == visit_map_access_spec::<C>(
            *node,
            old(emitter)@,
        ),
{
    match emitter.emit_map_access(TreeTraversalMode::Enter, node)? {
        TraversalResult::SkipChildren => {
            return Ok(TraversalResult::Continue);
        },
        TraversalResult::Continue => {},
    }
    let children = visit_variable_identifier_at(&node.identifier_name, emitter);
    if !goes_on(&children) {
        return children;
    }
    emitter.emit_map_access(TreeTraversalMode::Exit, node)
}

/// What visiting a map access node at its place in the source comes to: the place is pushed,
/// the node is visited and the place is popped, whatever the visit returns.
pub open spec fn visit_map_access_at_spec<C: AstConverting>(
    node: WithMetaData<NodeMapAccess>,
    state: C::V,
) -> Walk<C::V>
{
    within::<C>(
        visit_map_access_spec::<C>(node.node, C::position_pushed(state, node.start, node.end)),
    )
}

/// Visits a map access node between a push and a pop of its place in the source.
pub fn visit_map_access_at<C: AstConverting>(
    node: &WithMetaData<NodeMapAccess>,
    emitter: &mut C,
) -> (result: Result<TraversalResult, Error>)
    ensures
        walked(final(emitter)@, result) == visit_map_access_at_spec::<C>(*node, old(emitter)@),
{
    emitter.push_source_position(&node.start, &node.end);
    let visited = visit_map_access(&node.node, emitter);
    emitter.pop_source_position();
    visited
}

/// What visiting a row of map access nodes, starting in `state`, comes to: the first that fails
/// or asks to skip ends the row.
pub open spec fn visit_each_map_access_spec<C: AstConverting>(
    nodes: Seq<WithMetaData<NodeMapAccess>>,
    state: C::V,
) -> Walk<C::V>
    decreases nodes,
{
    if nodes.len() == 0 {
        Walk::proceed(state)
    } else {
        let first = visit_map_access_at_spec::<C>(nodes[0], state);
        if !first.passed() {
            first
        } else {
            visit_each_map_access_spec::<C>(nodes.drop_first(), first.state)
        }
    }
}

/// Visits a row of map access nodes in order, up to the first that fails or asks to skip.
pub fn visit_each_map_access<C: AstConverting>(
    nodes: &Vec<WithMetaData<NodeMapAccess>>,
    emitter: &mut C,
) -> (result: Result<TraversalResult, Error>)
    ensures
        walked(final(emitter)@, result) == visit_each_map_access_spec::<C>(
            nodes@,
            old(emitter)@,
        ),
{
    let mut i: usize = 0;
    assert(nodes@.skip(0) =~= nodes@);
    while i < nodes.len()
        invariant
            i <= nodes.len(),
            visit_each_map_access_spec::<C>(nodes@.skip(i as int), emitter@)
                == visit_each_map_access_spec::<C>(nodes@, old(emitter)@),
        decreases nodes.len() - i,
    {
        assert(nodes@.skip(i as int).drop_first() =~= nodes@.skip(i as int + 1));
        let visited = visit_map_access_at(&nodes[i], emitter);
        if !goes_on(&visited) {
            return visited;
        }
        i += 1;
    }
    Ok(TraversalResult::Continue)
}

/// A row of map access nodes ends with the first node whose visit fails or asks to skip: what
/// that visit comes to is what the row comes to, and no later node is visited.
pub proof fn lemma_visit_each_map_access_stops<C: AstConverting>(
    nodes: Seq<WithMetaData<NodeMapAccess>>,
    state: C::V,
    i: int,
)
    requires
        0 <= i < nodes.len(),
        visit_each_map_access_spec::<C>(nodes.take(i), state).passed(),
        !visit_map_access_at_spec::<C>(
            nodes[i],
            visit_each_map_access_spec::<C>(nodes.take(i), state).state,
        ).passed(),
    ensures
        visit_each_map_access_spec::<C>(nodes, state)
            == visit_map_access_at_spec::<C>(
                nodes[i],
                visit_each_map_access_spec::<C>(nodes.take(i), state).state,
            ),
    decreases i,
{
    if i > 0 {
        assert(nodes.take(i).drop_first() =~= nodes.drop_first().take(i - 1));
        let first = visit_map_access_at_spec::<C>(nodes[0], state);
        lemma_visit_each_map_access_stops::<C>(nodes.drop_first(), first.state, i - 1);
    }
}

/// What visiting a blockchain fetch arguments node in `state` comes to.
pub open spec fn visit_blockchain_fetch_arguments_spec<C: AstConverting>(
    node: NodeBlockchainFetchArguments,
    state: C::V,
) -> Walk<C::V>
{
    let entered = C::converted(
        state,
        TreeTraversalMode::Enter,
        AstNode::BlockchainFetchArguments(node),
    );
    let children = visit_each_variable_identifier_spec::<C>(node.arguments@, entered.state);
    conclude::<C>(AstNode::BlockchainFetchArguments(node), entered, children)
}

/// Visits a blockchain fetch arguments node: its enter hook, then its children in order, then
/// its exit hook.
pub fn visit_blockchain_fetch_arguments<C: AstConverting>(
    node: &NodeBlockchainFetchArguments,
    emitter: &mut C,
) -> (result: Result<TraversalResult, Error>)
    ensures
        walked(final(emitter)@, result) == visit_blockchain_fetch_arguments_spec::<C>(
            *node,
            old(emitter)@,
        ),
{
    match emitter.emit_blockchain_fetch_arguments(TreeTraversalMode::Enter, node)? {
        TraversalResult::SkipChildren => {
            return Ok(TraversalResult::Continue);
        },
        TraversalResult::Continue => {},
    }
    let children = visit_each_variable_identifier(&node.arguments, emitter);
    if !goes_on(&children) {
        return children;
    }
    emitter.emit_blockchain_fetch_arguments(TreeTraversalMode::Exit, node)
}

} // verus!
