use crate::ast::converting::walked;
use crate::ast::nodes::{
    NodeComponentDefinition, NodeComponentId, NodeComponentParameters, NodeContractDefinition,
    NodeContractField, NodeLibraryDefinition, NodeParameterPair, NodeTransitionDefinition,
    NodeTypedIdentifier, WithMetaData,
};
use crate::ast::TraversalResult;
use crate::contract::ContractView;
use crate::error::{Error, ErrorView};
use crate::field::{FieldList, FieldView};
use crate::simplified_representation::emitter::{lemma_pushed_dropped, SrEmitter, StackObject};
use crate::simplified_representation::lowering::{
    as_declaration, contract_field_results, extended_contract, gather, lemma_gather_failure,
    lemma_transition_signatures_failure, parameter_fields, parameter_results,
    scilla_type_descriptor, transition_signature, transition_signatures, typed_field, unknown,
    StackObjectView,
};
use crate::simplified_representation::primitives::{
    SrIdentifier, SrIdentifierKind, SrIdentifierView,
};
use crate::transition::Transition;
use vstd::prelude::*;

verus! {

/// Rules for declarations. They extend the description of the contract and leave the
/// operand stack as they found it.
impl SrEmitter {
    /// The name of a component leaves an identifier of the kind of component names.
    pub(crate) fn lower_component_id(
        &mut self,
        node: &NodeComponentId,
    ) -> (result: Result<TraversalResult, Error>)
        requires
            !old(self)@.failed,
        ensures
            walked(final(self)@, result) == old(self)@.delivered(
                Ok(
                    StackObjectView::IrIdentifier(
                        SrIdentifierView::named(node.text(), SrIdentifierKind::ComponentName),
                    ),
                ),
            ),
    {
        self.push(
            StackObject::IrIdentifier(
                SrIdentifier::new(node.to_string(), SrIdentifierKind::ComponentName),
            ),
        );
        Ok(TraversalResult::SkipChildren)
    }

    /// A name with a type annotation leaves its declaration: the type is lowered and
    /// resolved, and declared under the name.
    pub(crate) fn lower_typed_identifier(
        &mut self,
        node: &NodeTypedIdentifier,
    ) -> (result: Result<TraversalResult, Error>)
        requires
            !old(self)@.failed,
        ensures
            walked(final(self)@, result) == old(self)@.delivered(
                as_declaration(typed_field(*node)),
            ),
    {
        self.enter(&node.annotation.start, &node.annotation.end);
        let lowered = self.descend_scilla_type(&node.annotation.node.typename);
        self.leave();
        assert(self@.positions =~= old(self)@.positions);
        match lowered {
            Ok(_) => {},
            Err(error) => {
                return Err(error);
            },
        }
        let result = self.declare(node.identifier_name.node.as_str());
        proof {
            lemma_pushed_dropped(
                old(self)@,
                StackObjectView::TypeDefinition(
                    scilla_type_descriptor(node.annotation.node.typename.node)->Ok_0,
                ),
            );
        }
        result
    }

    /// Visits a name with a type annotation at its place in the source.
    pub(crate) fn descend_typed_identifier(
        &mut self,
        node: &WithMetaData<NodeTypedIdentifier>,
    ) -> (result: Result<TraversalResult, Error>)
        requires
            !old(self)@.failed,
        ensures
            walked(final(self)@, result) == old(self)@.delivered(
                as_declaration(typed_field(node.node)),
            ),
    {
        self.enter(&node.start, &node.end);
        let result = self.lower_typed_identifier(&node.node);
        self.leave();
        assert(final(self)@.positions =~= old(self)@.positions);
        result
    }

    /// Lowers the parameters of a component or of a contract to fields, in source order.
    pub(crate) fn collect_parameters(
        &mut self,
        parameters: &Vec<WithMetaData<NodeParameterPair>>,
    ) -> (result: Result<FieldList, Error>)
        requires
            !old(self)@.failed,
        ensures
            match result {
                Ok(fields) => parameter_fields(parameters@) == Ok::<Seq<FieldView>, ErrorView>(
                    fields@,
                ) && final(self)@ == old(self)@,
                Err(error) => parameter_fields(parameters@) == Err::<Seq<FieldView>, ErrorView>(
                    error@,
                ) && final(self)@ == old(self)@.failing(),
            },
    {
        let mut fields = FieldList::new();
        let ghost results = parameter_results(parameters@);
        let mut i: usize = 0;
        while i < parameters.len()
            invariant
                i <= parameters.len(),
                results == parameter_results(parameters@),
                self@ == old(self)@,
                !self@.failed,
                gather(results.take(i as int)) == Ok::<Seq<FieldView>, ErrorView>(fields@),
            decreases parameters.len() - i,
        {
            assert(results.take(i as int + 1).drop_last() =~= results.take(i as int));
            let parameter = &parameters[i];
            self.enter(&parameter.start, &parameter.end);
            let lowered = self.descend_typed_identifier(&parameter.node.identifier_with_type);
            self.leave();
            match lowered {
                Ok(_) => {},
                Err(error) => {
                    proof {
                        lemma_gather_failure(results, i as int + 1);
                    }
                    return Err(error);
                },
            }
            match self.pop_variable_declaration() {
                Ok(field) => {
                    fields.push(field);
                },
                Err(error) => {
                    return Err(error);
                },
            }
            i += 1;
        }
        assert(results.take(parameters.len() as int) =~= results);
        Ok(fields)
    }

    /// The parameters of a contract follow the constructor parameters of the description.
    pub(crate) fn lower_component_parameters(
        &mut self,
        node: &NodeComponentParameters,
    ) -> (result: Result<TraversalResult, Error>)
        requires
            !old(self)@.failed,
        ensures
            walked(final(self)@, result) == old(self)@.with_init_params(
                parameter_fields(node.parameters@),
            ),
    {
        let fields = self.collect_parameters(&node.parameters)?;
        self.add_init_params(fields);
        Ok(TraversalResult::SkipChildren)
    }

    /// A field declaration of a contract adds the declared field to the description.
    /// The initial value is passed over.
    pub(crate) fn lower_contract_field(
        &mut self,
        node: &NodeContractField,
    ) -> (result: Result<TraversalResult, Error>)
        requires
            !old(self)@.failed,
        ensures
            walked(final(self)@, result) == old(self)@.with_field(
                typed_field(node.typed_identifier.node),
            ),
    {
        self.descend_typed_identifier(&node.typed_identifier)?;
        match self.pop_variable_declaration() {
            Ok(field) => {
                self.add_field(field);
                proof {
                    lemma_pushed_dropped(
                        old(self)@,
                        StackObjectView::VariableDeclaration(
                            typed_field(node.typed_identifier.node)->Ok_0,
                        ),
                    );
                }
                Ok(TraversalResult::SkipChildren)
            },
            Err(error) => Err(error),
        }
    }

    /// A transition adds its signature to the description: its name and its parameters
    /// in source order. The body is passed over.
    pub(crate) fn lower_transition_definition(
        &mut self,
        node: &NodeTransitionDefinition,
    ) -> (result: Result<TraversalResult, Error>)
        requires
            !old(self)@.failed,
        ensures
            walked(final(self)@, result) == old(self)@.with_transition(transition_signature(*node)),
    {
        self.enter(&node.name.start, &node.name.end);
        let _ = self.lower_component_id(&node.name.node);
        self.leave();
        assert(self@.positions =~= old(self)@.positions);
        let arguments = self.collect_parameters(&node.parameters.node.parameters)?;
        match self.pop_ir_identifier() {
            Ok(name) => {
                self.add_transition(Transition::new(name.unresolved.as_str(), arguments));
                proof {
                    lemma_pushed_dropped(
                        old(self)@,
                        StackObjectView::IrIdentifier(
                            SrIdentifierView::named(
                                node.name.node.text(),
                                SrIdentifierKind::ComponentName,
                            ),
                        ),
                    );
                }
                Ok(TraversalResult::SkipChildren)
            },
            Err(error) => Err(error),
        }
    }

    /// A contract definition names the description and opens the namespace of the
    /// contract; then its parameters, its fields and its components are lowered in this
    /// order, and the namespace is closed. The constraint is passed over, and so are
    /// procedures. Where one of them fails, the description is put back as it was.
    pub(crate) fn lower_contract_definition(
        &mut self,
        node: &NodeContractDefinition,
    ) -> (result: Result<TraversalResult, Error>)
        requires
            !old(self)@.failed,
        ensures
            walked(final(self)@, result) == old(self)@.recorded(
                extended_contract(old(self)@.contract, *node),
            ),
    {
        let ghost base = old(self)@.contract;
        let saved = self.saved_description();
        self.descend_type_name(&node.contract_name);
        let namespace = match self.pop_ir_identifier() {
            Ok(identifier) => identifier,
            Err(error) => {
                return Err(error);
            },
        };
        proof {
            lemma_pushed_dropped(old(self)@, unknown(node.contract_name.node.text()));
        }
        self.name_contract(namespace.unresolved.clone());
        self.open_namespace(namespace.unresolved);
        let ghost inside = old(self)@.opened(node.contract_name.node.text());

        self.enter(&node.parameters.start, &node.parameters.end);
        let lowered = self.lower_component_parameters(&node.parameters.node);
        self.leave();
        assert(self@.positions =~= old(self)@.positions);
        match lowered {
            Ok(_) => {},
            Err(error) => {
                self.restore_description(saved);
                return Err(error);
            },
        }
        let ghost init_params = base.init_params + parameter_fields(
            node.parameters.node.parameters@,
        )->Ok_0;

        let ghost results = contract_field_results(node.fields@);
        let mut i: usize = 0;
        while i < node.fields.len()
            invariant
                i <= node.fields.len(),
                results == contract_field_results(node.fields@),
                !self@.failed,
                base == old(self)@.contract,
                saved@ == base,
                parameter_fields(node.parameters.node.parameters@) is Ok,
                gather(results.take(i as int)) is Ok,
                self@ == inside.describing(
                    ContractView {
                        name: node.contract_name.node.text(),
                        init_params,
                        fields: base.fields + gather(results.take(i as int))->Ok_0,
                        transitions: base.transitions,
                    },
                ),
                inside.positions == old(self)@.positions,
            decreases node.fields.len() - i,
        {
            assert(results.take(i as int + 1).drop_last() =~= results.take(i as int));
            let ghost before = self@;
            let field = &node.fields[i];
            self.enter(&field.start, &field.end);
            let lowered = self.lower_contract_field(&field.node);
            self.leave();
            assert(self@.positions =~= before.positions);
            match lowered {
                Ok(_) => {},
                Err(error) => {
                    proof {
                        lemma_gather_failure(results, i as int + 1);
                    }
                    self.restore_description(saved);
                    return Err(error);
                },
            }
            i += 1;
        }
        assert(results.take(node.fields.len() as int) =~= results);
        let ghost fields = base.fields + gather(results)->Ok_0;

        let mut j: usize = 0;
        while j < node.components.len()
            invariant
                j <= node.components.len(),
                !self@.failed,
                base == old(self)@.contract,
                saved@ == base,
                parameter_fields(node.parameters.node.parameters@) is Ok,
                gather(contract_field_results(node.fields@)) is Ok,
                transition_signatures(node.components@.take(j as int)) is Ok,
                self@ == inside.describing(
                    ContractView {
                        name: node.contract_name.node.text(),
                        init_params,
                        fields,
                        transitions: base.transitions + transition_signatures(
                            node.components@.take(j as int),
                        )->Ok_0,
                    },
                ),
                inside.positions == old(self)@.positions,
            decreases node.components.len() - j,
        {
            assert(node.components@.take(j as int + 1).drop_last() =~= node.components@.take(
                j as int,
            ));
            let ghost before = self@;
            let component = &node.components[j];
            match &component.node {
                NodeComponentDefinition::TransitionComponent(transition) => {
                    self.enter(&component.start, &component.end);
                    self.enter(&transition.start, &transition.end);
                    let lowered = self.lower_transition_definition(&transition.node);
                    self.leave();
                    self.leave();
                    assert(self@.positions =~= before.positions);
                    match lowered {
                        Ok(_) => {},
                        Err(error) => {
                            proof {
                                lemma_transition_signatures_failure(
                                    node.components@,
                                    j as int + 1,
                                );
                            }
                            self.restore_description(saved);
                            return Err(error);
                        },
                    }
                },
                NodeComponentDefinition::ProcedureComponent(_) => {},
            }
            j += 1;
        }
        assert(node.components@.take(node.components.len() as int) =~= node.components@);
        self.close_namespace();
        assert(self@.namespaces =~= old(self)@.namespaces);
        Ok(TraversalResult::SkipChildren)
    }

    /// A library opens the namespace that its name resolves to.
    pub(crate) fn lower_library_definition(
        &mut self,
        node: &NodeLibraryDefinition,
    ) -> (result: Result<TraversalResult, Error>)
        requires
            !old(self)@.failed,
        ensures
            walked(final(self)@, result) == old(self)@.opened(node.name.node.text()).kept(
                TraversalResult::Continue,
            ),
    {
        self.descend_type_name(&node.name);
        match self.pop_ir_identifier() {
            Ok(namespace) => {
                proof {
                    lemma_pushed_dropped(old(self)@, unknown(node.name.node.text()));
                }
                self.open_namespace(namespace.unresolved);
                Ok(TraversalResult::Continue)
            },
            Err(error) => Err(error),
        }
    }
}

} // verus!
