use crate::ast::converting::walked;
use crate::ast::nodes::{
    NodeAddressType, NodeAddressTypeField, NodeMetaIdentifier, NodeScillaType, NodeTypeArgument,
    NodeTypeMapEntry, NodeTypeMapKey, NodeTypeMapValue, NodeTypeMapValueAllowingTypeArguments,
    NodeTypeMapValueArguments, NodeTypeNameIdentifier, NodeVariableIdentifier, WithMetaData,
};
use crate::ast::TraversalResult;
use crate::error::{Error, ErrorView};
use crate::field::{Field, FieldList, FieldView};
use crate::simplified_representation::emitter::{lemma_pushed_dropped, SrEmitter, StackObject};
use crate::simplified_representation::lowering::{
    address_descriptor, address_field, address_field_results, allowing_descriptor, as_declaration,
    as_type, declared, entry_descriptor, gather, key_object, lemma_gather_failure, meta_name,
    scilla_type_descriptor, type_argument_descriptor, type_argument_results, unknown,
    value_argument_descriptor, value_argument_results, value_descriptor, StackObjectView,
};
use crate::simplified_representation::primitives::{
    AddressType, SrIdentifier, SrIdentifierKind, SrType, SrTypeView,
};
use crate::types::Type;
use vstd::prelude::*;
use vstd::string::StringExecFns;

verus! {

/// Rules for names and types. Each of them leaves exactly one operand on the stack, or
/// fails.
///
/// A rule lowers all that stands below its node, so that the hook which runs it asks the
/// driver to skip the children. Below the node the rules call one another: a child is
/// visited as the driver visits it, between a push and a pop of its place in the source.
impl SrEmitter {
    /// Pushes the identifier that a name-bearing leaf resolves to.
    pub(crate) fn push_unknown(&mut self, name: String)
        requires
            !old(self)@.failed,
        ensures
            final(self)@ == old(self)@.pushed(unknown(name@)),
    {
        self.push(StackObject::IrIdentifier(SrIdentifier::new(name, SrIdentifierKind::Unknown)));
    }

    /// Turns the identifier on top of the stack into the descriptor of the type that it
    /// names.
    pub(crate) fn identifier_to_type(&mut self) -> (result: Result<TraversalResult, Error>)
        requires
            !old(self)@.failed,
            old(self)@.top() matches Some(StackObjectView::IrIdentifier(_)),
        ensures
            result == Ok::<TraversalResult, Error>(TraversalResult::SkipChildren),
            old(self)@.top() matches Some(StackObjectView::IrIdentifier(id))
                && final(self)@ == old(self)@.dropped().pushed(
                StackObjectView::TypeDefinition(SrTypeView::plain(id.unresolved)),
            ),
    {
        match self.pop_ir_identifier() {
            Ok(identifier) => {
                self.push(StackObject::TypeDefinition(SrType::from_identifier(identifier)));
            },
            Err(_) => {},
        }
        Ok(TraversalResult::SkipChildren)
    }

    /// Takes a value descriptor and the key beneath it from the stack and leaves the
    /// descriptor of the map.
    pub(crate) fn combine_map(&mut self) -> (result: Result<TraversalResult, Error>)
        requires
            !old(self)@.failed,
            old(self)@.top() matches Some(StackObjectView::TypeDefinition(_)),
        ensures
            old(self)@.top() matches Some(StackObjectView::TypeDefinition(value)) && walked(
                final(self)@,
                result,
            ) == old(self)@.dropped().mapped(Ok(value)),
    {
        let value = match self.pop_type_definition() {
            Ok(value) => value,
            Err(error) => {
                return Err(error);
            },
        };
        let key = match self.pop_ir_identifier() {
            Ok(key) => key,
            Err(error) => {
                return Err(error);
            },
        };
        let mut sub_types = Vec::new();
        sub_types.push(SrType::from_identifier(key));
        sub_types.push(value);
        let map = SrType { main_type: String::from_str("Map"), sub_types, address_type: None };
        assert(map@.sub_types =~= seq![SrTypeView::plain(key@.unresolved), value@]);
        self.push(StackObject::TypeDefinition(map));
        Ok(TraversalResult::SkipChildren)
    }

    /// A type name leaves an identifier of unknown kind; the event type, which bears no
    /// name, leaves nothing. The children are left to the driver.
    pub(crate) fn lower_type_name_identifier(
        &mut self,
        node: &NodeTypeNameIdentifier,
    ) -> (result: Result<TraversalResult, Error>)
        requires
            !old(self)@.failed,
        ensures
            walked(final(self)@, result) == if node is EventType {
                old(self)@.kept(TraversalResult::Continue)
            } else {
                old(self)@.pushed(unknown(node.text())).kept(TraversalResult::Continue)
            },
    {
        match node {
            NodeTypeNameIdentifier::EventType => {},
            _ => {
                self.push_unknown(node.to_string());
            },
        }
        Ok(TraversalResult::Continue)
    }

    /// Resolves a type name at its place in the source to the identifier that a rule
    /// needs of it, and leaves the identifier on the stack. Where the name is the event
    /// type, the identifier is called `Event`.
    pub(crate) fn descend_type_name(&mut self, node: &WithMetaData<NodeTypeNameIdentifier>)
        requires
            !old(self)@.failed,
        ensures
            final(self)@ == old(self)@.pushed(unknown(node.node.text())),
    {
        self.enter(&node.start, &node.end);
        self.push_unknown(node.node.to_string());
        self.leave();
    }

    /// The byte string marker among the meta identifiers leaves an identifier called
    /// `ByStr` and has no children. Every other meta identifier leaves it to the type
    /// names below it to leave theirs.
    pub(crate) fn lower_meta_identifier(
        &mut self,
        node: &NodeMetaIdentifier,
    ) -> (result: Result<TraversalResult, Error>)
        requires
            !old(self)@.failed,
        ensures
            walked(final(self)@, result) == if node is ByteString {
                old(self)@.delivered(Ok(unknown(meta_name(*node))))
            } else {
                old(self)@.kept(TraversalResult::Continue)
            },
    {
        match node {
            NodeMetaIdentifier::ByteString => {
                self.push_unknown(String::from_str("ByStr"));
                Ok(TraversalResult::SkipChildren)
            },
            _ => Ok(TraversalResult::Continue),
        }
    }

    /// Resolves a meta identifier at its place in the source to the one identifier that
    /// a rule needs of it, and leaves the identifier on the stack: it is called by the
    /// type name that the meta identifier holds, by the last of the two where it holds
    /// two, or `ByStr`.
    pub(crate) fn descend_meta_identifier(&mut self, node: &WithMetaData<NodeMetaIdentifier>)
        requires
            !old(self)@.failed,
        ensures
            final(self)@ == old(self)@.pushed(unknown(meta_name(node.node))),
    {
        self.enter(&node.start, &node.end);
        match &node.node {
            NodeMetaIdentifier::MetaName(name) => self.descend_type_name(name),
            NodeMetaIdentifier::MetaNameInNamespace(_, name) => self.descend_type_name(name),
            NodeMetaIdentifier::MetaNameInHexspace(_, name) => self.descend_type_name(name),
            NodeMetaIdentifier::ByteString => self.push_unknown(String::from_str("ByStr")),
        }
        self.leave();
    }

    /// The descriptor of the type that a meta identifier names.
    pub(crate) fn descend_named_type(
        &mut self,
        node: &WithMetaData<NodeMetaIdentifier>,
    ) -> (result: Result<TraversalResult, Error>)
        requires
            !old(self)@.failed,
        ensures
            walked(final(self)@, result) == old(self)@.delivered(
                Ok(StackObjectView::TypeDefinition(SrTypeView::plain(meta_name(node.node)))),
            ),
    {
        self.descend_meta_identifier(node);
        let result = self.identifier_to_type();
        assert(final(self)@.stack =~= old(self)@.stack.push(
            StackObjectView::TypeDefinition(SrTypeView::plain(meta_name(node.node))),
        ));
        result
    }

    /// A map key leaves what the value of the map is combined with: an identifier for a
    /// named key, a descriptor for an address type.
    pub(crate) fn lower_type_map_key(
        &mut self,
        node: &NodeTypeMapKey,
    ) -> (result: Result<TraversalResult, Error>)
        requires
            !old(self)@.failed,
        ensures
            walked(final(self)@, result) == old(self)@.delivered(key_object(*node)),
        decreases node,
    {
        match node {
            NodeTypeMapKey::GenericMapKey(key) => {
                self.descend_meta_identifier(key);
                Ok(TraversalResult::SkipChildren)
            },
            NodeTypeMapKey::EnclosedGenericId(key) => {
                self.descend_meta_identifier(key);
                Ok(TraversalResult::SkipChildren)
            },
            NodeTypeMapKey::EnclosedAddressMapKeyType(key) => self.descend_address_type(key),
            NodeTypeMapKey::AddressMapKeyType(key) => self.descend_address_type(key),
        }
    }

    /// Visits a map key at its place in the source.
    pub(crate) fn descend_type_map_key(
        &mut self,
        node: &WithMetaData<NodeTypeMapKey>,
    ) -> (result: Result<TraversalResult, Error>)
        requires
            !old(self)@.failed,
        ensures
            walked(final(self)@, result) == old(self)@.delivered(key_object(node.node)),
        decreases node,
    {
        self.enter(&node.start, &node.end);
        let result = self.lower_type_map_key(&node.node);
        self.leave();
        assert(final(self)@.positions =~= old(self)@.positions);
        result
    }

    /// Lowers the type that a map value spells, without regard to the key.
    pub(crate) fn lower_map_value_type(
        &mut self,
        node: &NodeTypeMapValue,
    ) -> (result: Result<TraversalResult, Error>)
        requires
            !old(self)@.failed,
        ensures
            walked(final(self)@, result) == old(self)@.delivered(as_type(value_descriptor(*node))),
        decreases node,
    {
        match node {
            NodeTypeMapValue::MapValueTypeOrEnumLikeIdentifier(value) => self.descend_named_type(
                value,
            ),
            NodeTypeMapValue::MapKeyValue(entry) => {
                self.enter(&entry.start, &entry.end);
                let result = self.lower_type_map_entry(&entry.node);
                self.leave();
                assert(final(self)@.positions =~= old(self)@.positions);
                result
            },
            NodeTypeMapValue::MapValueParenthesizedType(value) => {
                self.enter(&value.start, &value.end);
                let result = self.lower_type_map_value_allowing_type_arguments(&value.node);
                self.leave();
                assert(final(self)@.positions =~= old(self)@.positions);
                result
            },
            NodeTypeMapValue::MapValueAddressType(value) => self.descend_address_type(value),
        }
    }

    /// Lowers the type that a map value spells, at its place in the source.
    pub(crate) fn descend_map_value_type(
        &mut self,
        node: &WithMetaData<NodeTypeMapValue>,
    ) -> (result: Result<TraversalResult, Error>)
        requires
            !old(self)@.failed,
        ensures
            walked(final(self)@, result) == old(self)@.delivered(
                as_type(value_descriptor(node.node)),
            ),
        decreases node,
    {
        self.enter(&node.start, &node.end);
        let result = self.lower_map_value_type(&node.node);
        self.leave();
        assert(final(self)@.positions =~= old(self)@.positions);
        result
    }

    /// A key and a value leave the descriptor of the map from the one to the other.
    pub(crate) fn lower_type_map_entry(
        &mut self,
        node: &NodeTypeMapEntry,
    ) -> (result: Result<TraversalResult, Error>)
        requires
            !old(self)@.failed,
        ensures
            walked(final(self)@, result) == old(self)@.delivered(as_type(entry_descriptor(*node))),
        decreases node,
    {
        self.descend_type_map_key(&node.key)?;
        let ghost keyed = self@;
        self.descend_map_value_type(&node.value)?;
        let result = self.combine_map();
        proof {
            lemma_pushed_dropped(old(self)@, key_object(node.key.node)->Ok_0);
            lemma_pushed_dropped(
                keyed,
                StackObjectView::TypeDefinition(value_descriptor(node.value.node)->Ok_0),
            );
        }
        result
    }

    /// A type argument leaves the descriptor of the type that it spells.
    pub(crate) fn lower_type_argument(
        &mut self,
        node: &NodeTypeArgument,
    ) -> (result: Result<TraversalResult, Error>)
        requires
            !old(self)@.failed,
        ensures
            walked(final(self)@, result) == old(self)@.delivered(
                as_type(type_argument_descriptor(*node)),
            ),
        decreases node,
    {
        match node {
            NodeTypeArgument::EnclosedTypeArgument(inner) => self.descend_scilla_type(inner),
            NodeTypeArgument::GenericTypeArgument(name) => self.descend_named_type(name),
            NodeTypeArgument::TemplateTypeArgument(_) => self.refuse(
                "type variable as a type argument",
            ),
            NodeTypeArgument::AddressTypeArgument(_) => self.refuse(
                "address type as a type argument",
            ),
            NodeTypeArgument::MapTypeArgument(_, _) => self.refuse("map as a type argument"),
        }
    }

    /// A type expression leaves the descriptor of the type that it spells: the head
    /// with its arguments in source order, a map, or an address with its interface.
    pub(crate) fn lower_scilla_type(
        &mut self,
        node: &NodeScillaType,
    ) -> (result: Result<TraversalResult, Error>)
        requires
            !old(self)@.failed,
        ensures
            walked(final(self)@, result) == old(self)@.delivered(
                as_type(scilla_type_descriptor(*node)),
            ),
        decreases node,
    {
        match node {
            NodeScillaType::GenericTypeWithArgs(lead, arguments) => {
                self.descend_meta_identifier(lead);
                let mut main_type = match self.pop_ir_identifier() {
                    Ok(identifier) => SrType::from_identifier(identifier),
                    Err(error) => {
                        return Err(error);
                    },
                };
                let ghost results = type_argument_results(arguments@);
                let mut i: usize = 0;
                while i < arguments.len()
                    invariant
                        i <= arguments.len(),
                        decreases_to!(node => arguments@),
                        node == (NodeScillaType::GenericTypeWithArgs(*lead, *arguments)),
                        results == type_argument_results(arguments@),
                        self@ == old(self)@,
                        !self@.failed,
                        main_type@.main_type == meta_name(lead.node),
                        main_type@.address_type is None,
                        gather(results.take(i as int)) == Ok::<Seq<SrTypeView>, ErrorView>(
                            main_type@.sub_types,
                        ),
                    decreases arguments.len() - i,
                {
                    assert(results.take(i as int + 1).drop_last() =~= results.take(i as int));
                    self.enter(&arguments[i].start, &arguments[i].end);
                    let lowered = self.lower_type_argument(&arguments[i].node);
                    self.leave();
                    match lowered {
                        Ok(_) => {},
                        Err(error) => {
                            proof {
                                lemma_gather_failure(results, i as int + 1);
                                assert(self@.positions =~= old(self)@.positions);
                            }
                            return Err(error);
                        },
                    }
                    match self.pop_type_definition() {
                        Ok(sub_type) => {
                            main_type.push_sub_type(sub_type);
                        },
                        Err(error) => {
                            return Err(error);
                        },
                    }
                    i += 1;
                }
                assert(results.take(arguments.len() as int) =~= results);
                self.push(StackObject::TypeDefinition(main_type));
                Ok(TraversalResult::SkipChildren)
            },
            NodeScillaType::MapType(key, value) => {
                self.descend_type_map_key(key)?;
                let ghost keyed = self@;
                self.descend_map_value_type(value)?;
                let result = self.combine_map();
                proof {
                    lemma_pushed_dropped(old(self)@, key_object(key.node)->Ok_0);
                    lemma_pushed_dropped(
                        keyed,
                        StackObjectView::TypeDefinition(value_descriptor(value.node)->Ok_0),
                    );
                }
                result
            },
            NodeScillaType::FunctionType(_, _) => self.refuse("function type"),
            NodeScillaType::EnclosedType(inner) => self.descend_scilla_type(inner),
            NodeScillaType::ScillaAddresseType(address) => self.descend_address_type(address),
            NodeScillaType::PolyFunctionType(_, _) => self.refuse("polymorphic function type"),
            NodeScillaType::TypeVarType(_) => self.refuse("type variable"),
        }
    }

    /// Visits a type expression at its place in the source: it leaves a descriptor.
    pub(crate) fn descend_scilla_type(
        &mut self,
        node: &WithMetaData<NodeScillaType>,
    ) -> (result: Result<TraversalResult, Error>)
        requires
            !old(self)@.failed,
        ensures
            walked(final(self)@, result) == old(self)@.delivered(
                as_type(scilla_type_descriptor(node.node)),
            ),
        decreases node,
    {
        self.enter(&node.start, &node.end);
        let result = self.lower_scilla_type(&node.node);
        self.leave();
        assert(final(self)@.positions =~= old(self)@.positions);
        result
    }

    /// Takes the descriptor on top of the stack, resolves it to a type and leaves the
    /// declaration of `name` with that type.
    pub(crate) fn declare(&mut self, name: &str) -> (result: Result<TraversalResult, Error>)
        requires
            !old(self)@.failed,
            old(self)@.top() matches Some(StackObjectView::TypeDefinition(_)),
        ensures
            old(self)@.top() matches Some(StackObjectView::TypeDefinition(d)) && walked(
                final(self)@,
                result,
            ) == old(self)@.dropped().delivered(
                as_declaration(declared(name@, Ok(d))),
            ),
    {
        let descriptor = match self.pop_type_definition() {
            Ok(descriptor) => descriptor,
            Err(error) => {
                return Err(error);
            },
        };
        match Type::from_descriptor(descriptor) {
            Ok(ty) => {
                self.push(StackObject::VariableDeclaration(Field::new(name, ty)));
                Ok(TraversalResult::SkipChildren)
            },
            Err(error) => {
                self.fail();
                Err(error)
            },
        }
    }

    /// A field of an address interface leaves its declaration: the name with the
    /// resolved type.
    pub(crate) fn lower_address_type_field(
        &mut self,
        node: &NodeAddressTypeField,
    ) -> (result: Result<TraversalResult, Error>)
        requires
            !old(self)@.failed,
        ensures
            walked(final(self)@, result) == old(self)@.delivered(
                as_declaration(address_field(*node)),
            ),
        decreases node,
    {
        match &node.identifier.node {
            NodeVariableIdentifier::VariableName(name) => {
                self.descend_scilla_type(&node.typename)?;
                let result = self.declare(name.node.as_str());
                proof {
                    lemma_pushed_dropped(
                        old(self)@,
                        StackObjectView::TypeDefinition(
                            scilla_type_descriptor(node.typename.node)->Ok_0,
                        ),
                    );
                }
                result
            },
            _ => self.refuse("qualified or special name of an address field"),
        }
    }

    /// An address type leaves the descriptor of its base type with the interface: what
    /// stands behind the address, and the declared fields in source order.
    pub(crate) fn lower_address_type(
        &mut self,
        node: &NodeAddressType,
    ) -> (result: Result<TraversalResult, Error>)
        requires
            !old(self)@.failed,
        ensures
            walked(final(self)@, result) == old(self)@.delivered(
                as_type(address_descriptor(*node)),
            ),
        decreases node,
    {
        self.descend_type_name(&node.identifier);
        let mut main_type = match self.pop_ir_identifier() {
            Ok(identifier) => SrType::from_identifier(identifier),
            Err(error) => {
                return Err(error);
            },
        };
        let mut fields = FieldList::new();
        let ghost results = address_field_results(node.address_fields@);
        let mut i: usize = 0;
        while i < node.address_fields.len()
            invariant
                i <= node.address_fields.len(),
                decreases_to!(node => node.address_fields@),
                results == address_field_results(node.address_fields@),
                self@ == old(self)@,
                !self@.failed,
                gather(results.take(i as int)) == Ok::<Seq<FieldView>, ErrorView>(fields@),
            decreases node.address_fields.len() - i,
        {
            assert(results.take(i as int + 1).drop_last() =~= results.take(i as int));
            let field = &node.address_fields[i];
            self.enter(&field.start, &field.end);
            let lowered = self.lower_address_type_field(&field.node);
            self.leave();
            match lowered {
                Ok(_) => {},
                Err(error) => {
                    proof {
                        lemma_gather_failure(results, i as int + 1);
                        assert(self@.positions =~= old(self)@.positions);
                    }
                    return Err(error);
                },
            }
            match self.pop_variable_declaration() {
                Ok(field) => {
                    fields.push(field);
                },
                Err(error) => {
                    return Err(error);
                },
            }
            i += 1;
        }
        assert(results.take(node.address_fields.len() as int) =~= results);
        main_type.address_type = Some(AddressType { typename: node.typename.node.clone(), fields });
        self.push(StackObject::TypeDefinition(main_type));
        Ok(TraversalResult::SkipChildren)
    }

    /// Visits an address type at its place in the source: it leaves a descriptor.
    pub(crate) fn descend_address_type(
        &mut self,
        node: &WithMetaData<NodeAddressType>,
    ) -> (result: Result<TraversalResult, Error>)
        requires
            !old(self)@.failed,
        ensures
            walked(final(self)@, result) == old(self)@.delivered(
                as_type(address_descriptor(node.node)),
            ),
        decreases node,
    {
        self.enter(&node.start, &node.end);
        let result = self.lower_address_type(&node.node);
        self.leave();
        assert(final(self)@.positions =~= old(self)@.positions);
        result
    }

    /// A type argument of a map value leaves the descriptor of the type that it names.
    pub(crate) fn lower_type_map_value_arguments(
        &mut self,
        node: &NodeTypeMapValueArguments,
    ) -> (result: Result<TraversalResult, Error>)
        requires
            !old(self)@.failed,
        ensures
            walked(final(self)@, result) == old(self)@.delivered(
                as_type(value_argument_descriptor(*node)),
            ),
    {
        match node {
            NodeTypeMapValueArguments::GenericMapValueArgument(name) => self.descend_named_type(
                name,
            ),
            NodeTypeMapValueArguments::EnclosedTypeMapValue(_) => self.refuse(
                "enclosed type as an argument of a map value",
            ),
            NodeTypeMapValueArguments::MapKeyValueType(_, _) => self.refuse(
                "map as an argument of a map value",
            ),
        }
    }

    /// A type in parentheses that stands as a map value leaves its descriptor: that of
    /// the value inside, or the head with its arguments in source order.
    pub(crate) fn lower_type_map_value_allowing_type_arguments(
        &mut self,
        node: &NodeTypeMapValueAllowingTypeArguments,
    ) -> (result: Result<TraversalResult, Error>)
        requires
            !old(self)@.failed,
        ensures
            walked(final(self)@, result) == old(self)@.delivered(
                as_type(allowing_descriptor(*node)),
            ),
        decreases node,
    {
        match node {
            NodeTypeMapValueAllowingTypeArguments::TypeMapValueNoArgs(value) => {
                self.descend_map_value_type(value)
            },
            NodeTypeMapValueAllowingTypeArguments::TypeMapValueWithArgs(lead, arguments) => {
                self.descend_meta_identifier(lead);
                let mut main_type = match self.pop_ir_identifier() {
                    Ok(identifier) => SrType::from_identifier(identifier),
                    Err(error) => {
                        return Err(error);
                    },
                };
                let ghost results = value_argument_results(arguments@);
                let mut i: usize = 0;
                while i < arguments.len()
                    invariant
                        i <= arguments.len(),
                        node == (NodeTypeMapValueAllowingTypeArguments::TypeMapValueWithArgs(
                            *lead,
                            *arguments,
                        )),
                        results == value_argument_results(arguments@),
                        self@ == old(self)@,
                        !self@.failed,
                        main_type@.main_type == meta_name(lead.node),
                        main_type@.address_type is None,
                        gather(results.take(i as int)) == Ok::<Seq<SrTypeView>, ErrorView>(
                            main_type@.sub_types,
                        ),
                    decreases arguments.len() - i,
                {
                    assert(results.take(i as int + 1).drop_last() =~= results.take(i as int));
                    self.enter(&arguments[i].start, &arguments[i].end);
                    let lowered = self.lower_type_map_value_arguments(&arguments[i].node);
                    self.leave();
                    match lowered {
                        Ok(_) => {},
                        Err(error) => {
                            proof {
                                lemma_gather_failure(results, i as int + 1);
                                assert(self@.positions =~= old(self)@.positions);
                            }
                            return Err(error);
                        },
                    }
                    match self.pop_type_definition() {
                        Ok(sub_type) => {
                            main_type.push_sub_type(sub_type);
                        },
                        Err(error) => {
                            return Err(error);
                        },
                    }
                    i += 1;
                }
                assert(results.take(arguments.len() as int) =~= results);
                self.push(StackObject::TypeDefinition(main_type));
                Ok(TraversalResult::SkipChildren)
            },
        }
    }

    /// A map value is lowered and combined with the key that lies beneath it on the
    /// stack: the two leave the descriptor of the map.
    pub(crate) fn lower_type_map_value(
        &mut self,
        node: &NodeTypeMapValue,
    ) -> (result: Result<TraversalResult, Error>)
        requires
            !old(self)@.failed,
        ensures
            walked(final(self)@, result) == old(self)@.mapped(value_descriptor(*node)),
    {
        self.lower_map_value_type(node)?;
        let result = self.combine_map();
        proof {
            lemma_pushed_dropped(
                old(self)@,
                StackObjectView::TypeDefinition(value_descriptor(*node)->Ok_0),
            );
        }
        result
    }
}

} // verus!
