use crate::ast::converting::{walked, Walk};
use crate::ast::nodes::{NodeProgram, SourcePosition};
use crate::ast::traversal::definitions::visit_contract_definition;
use crate::ast::TraversalResult;
use crate::contract::{Contract, ContractView};
use crate::error::{result_view, Error, ErrorView};
use crate::field::{Field, FieldList, FieldView};
use crate::simplified_representation::lowering::{
    extended_contract, lowered_contract, map_descriptor, mismatch, operand_name, unsupported,
    StackObjectView,
};
use crate::simplified_representation::primitives::{
    SrIdentifier, SrIdentifierKind, SrIdentifierView, SrType, SrTypeView,
};
use crate::transition::{Transition, TransitionView};
use vstd::prelude::*;
use vstd::string::StringExecFns;

verus! {

/// An object on the operand stack.
#[derive(Debug)]
pub enum StackObject {
    IrIdentifier(SrIdentifier),
    VariableDeclaration(Field),
    TypeDefinition(SrType),
}

impl View for StackObject {
    type V = StackObjectView;

    open spec fn view(&self) -> StackObjectView {
        match self {
            StackObject::IrIdentifier(identifier) => StackObjectView::IrIdentifier(identifier@),
            StackObject::VariableDeclaration(field) => StackObjectView::VariableDeclaration(field@),
            StackObject::TypeDefinition(descriptor) => StackObjectView::TypeDefinition(
                descriptor@,
            ),
        }
    }
}

impl Clone for StackObject {
    fn clone(&self) -> (copy: StackObject)
        ensures
            copy@ == self@,
    {
        match self {
            StackObject::IrIdentifier(identifier) => StackObject::IrIdentifier(identifier.clone()),
            StackObject::VariableDeclaration(field) => StackObject::VariableDeclaration(
                field.clone(),
            ),
            StackObject::TypeDefinition(descriptor) => StackObject::TypeDefinition(
                descriptor.clone(),
            ),
        }
    }
}

/// The state of a lowering: whether it has failed, the operand stack, the stack of
/// namespaces, the stack of source positions and the contract as far as it is described.
///
/// A lowering that fails lets go of its operands and its namespaces. It keeps the
/// description as it was when the hook that failed was called, and the source positions
/// are still followed.
#[verifier::ext_equal]
pub struct EmitterState {
    pub failed: bool,
    pub stack: Seq<StackObjectView>,
    pub namespaces: Seq<SrIdentifierView>,
    pub positions: Seq<(SourcePosition, SourcePosition)>,
    pub contract: ContractView,
}

impl EmitterState {
    /// The state in which a lowering begins.
    pub open spec fn fresh() -> EmitterState {
        EmitterState {
            failed: false,
            stack: Seq::empty(),
            namespaces: Seq::empty(),
            positions: Seq::empty(),
            contract: ContractView::empty(),
        }
    }

    /// The state of the lowering once it has failed: the operands and the namespaces are
    /// gone, the description and the source positions are kept.
    pub open spec fn failing(self) -> EmitterState {
        EmitterState {
            failed: true,
            stack: Seq::empty(),
            namespaces: Seq::empty(),
            positions: self.positions,
            contract: self.contract,
        }
    }

    /// The state with `object` on top of the operand stack.
    pub open spec fn pushed(self, object: StackObjectView) -> EmitterState {
        EmitterState { stack: self.stack.push(object), ..self }
    }

    /// The state without the top of the operand stack.
    pub open spec fn dropped(self) -> EmitterState {
        EmitterState { stack: self.stack.drop_last(), ..self }
    }

    /// The top of the operand stack, if the stack holds anything.
    pub open spec fn top(self) -> Option<StackObjectView> {
        if self.stack.len() > 0 {
            Some(self.stack.last())
        } else {
            None
        }
    }

    /// The state with the contract described by `contract`.
    pub open spec fn describing(self, contract: ContractView) -> EmitterState {
        EmitterState { contract, ..self }
    }

    /// The state with the source positions `start` and `end` on top of the position stack.
    pub open spec fn at(self, start: SourcePosition, end: SourcePosition) -> EmitterState {
        EmitterState { positions: self.positions.push((start, end)), ..self }
    }

    /// The state without the top of the position stack.
    pub open spec fn back(self) -> EmitterState {
        if self.positions.len() > 0 {
            EmitterState { positions: self.positions.drop_last(), ..self }
        } else {
            self
        }
    }

    /// A hook that changes nothing and returns `signal`.
    pub open spec fn kept(self, signal: TraversalResult) -> Walk<EmitterState> {
        Walk { state: self, outcome: Ok(signal) }
    }

    /// A hook that fails with `error`.
    pub open spec fn refused(self, error: ErrorView) -> Walk<EmitterState> {
        Walk { state: self.failing(), outcome: Err(error) }
    }

    /// A rule that leaves one operand on the stack and adopts the subtree, or fails.
    pub open spec fn delivered(self, operand: Result<StackObjectView, ErrorView>) -> Walk<
        EmitterState,
    > {
        match operand {
            Ok(object) => self.pushed(object).kept(TraversalResult::SkipChildren),
            Err(error) => self.refused(error),
        }
    }

    /// The rule for a map value: the value is lowered, then the key is taken from the
    /// top of the stack and the descriptor of the map is left in its place.
    pub open spec fn mapped(self, value: Result<SrTypeView, ErrorView>) -> Walk<EmitterState> {
        match value {
            Err(error) => self.refused(error),
            Ok(v) => match map_descriptor(self.top(), v) {
                Err(error) => self.refused(error),
                Ok(map) => self.dropped().pushed(StackObjectView::TypeDefinition(map)).kept(
                    TraversalResult::SkipChildren,
                ),
            },
        }
    }

    /// The state with one more namespace, called `name`, on top of the namespace stack.
    pub open spec fn opened(self, name: Seq<char>) -> EmitterState {
        EmitterState {
            namespaces: self.namespaces.push(
                SrIdentifierView::named(name, SrIdentifierKind::Namespace),
            ),
            ..self
        }
    }

    /// The state without the top of the namespace stack.
    pub open spec fn closed(self) -> EmitterState {
        if self.namespaces.len() > 0 {
            EmitterState { namespaces: self.namespaces.drop_last(), ..self }
        } else {
            self
        }
    }

    /// The rule for the parameters of a contract: they follow the constructor parameters
    /// that the description holds.
    pub open spec fn with_init_params(self, parameters: Result<Seq<FieldView>, ErrorView>) -> Walk<
        EmitterState,
    > {
        match parameters {
            Ok(fields) => self.describing(
                ContractView {
                    init_params: self.contract.init_params + fields,
                    ..self.contract
                },
            ).kept(TraversalResult::SkipChildren),
            Err(error) => self.refused(error),
        }
    }

    /// The rule for a field of a contract: it follows the fields that the description
    /// holds.
    pub open spec fn with_field(self, field: Result<FieldView, ErrorView>) -> Walk<EmitterState> {
        match field {
            Ok(f) => self.describing(
                ContractView { fields: self.contract.fields.push(f), ..self.contract },
            ).kept(TraversalResult::SkipChildren),
            Err(error) => self.refused(error),
        }
    }

    /// The rule for a transition: its signature follows the transitions that the
    /// description holds.
    pub open spec fn with_transition(self, signature: Result<TransitionView, ErrorView>) -> Walk<
        EmitterState,
    > {
        match signature {
            Ok(t) => self.describing(
                ContractView { transitions: self.contract.transitions.push(t), ..self.contract },
            ).kept(TraversalResult::SkipChildren),
            Err(error) => self.refused(error),
        }
    }

    /// A rule that extends the description of the contract and adopts the subtree, or fails.
    pub open spec fn recorded(self, contract: Result<ContractView, ErrorView>) -> Walk<
        EmitterState,
    > {
        match contract {
            Ok(c) => self.describing(c).kept(TraversalResult::SkipChildren),
            Err(error) => self.refused(error),
        }
    }
}

/// Taking off what was put on last gives the stack as it was.
pub proof fn lemma_pushed_dropped(state: EmitterState, object: StackObjectView)
    ensures
        state.pushed(object).dropped() == state,
        state.pushed(object).top() == Some(object),
{
}

/// The failure of a hook that is called after the lowering has failed.
pub open spec fn halted() -> ErrorView {
    ErrorView::AstVisitError("The lowering has failed before."@)
}

/// The values of the objects on an operand stack, bottom first.
pub open spec fn objects_view(objects: Seq<StackObject>) -> Seq<StackObjectView> {
    Seq::new(objects.len(), |i: int| objects[i]@)
}

/// The values of a stack of identifiers, bottom first.
pub open spec fn identifiers_view(identifiers: Seq<SrIdentifier>) -> Seq<SrIdentifierView> {
    Seq::new(identifiers.len(), |i: int| identifiers[i]@)
}

/// The `SrEmitter` struct is used for bookkeeping during the conversion of a Scilla AST to a
/// simplified representation. It implements the `AstConverting` trait, which is a generic
/// trait for AST conversions.
///
/// It keeps three stacks, all of them scratch state of one lowering: the operands that the
/// lowering rules hand to one another, the namespaces that are open, and the source
/// positions of the nodes that are being visited. Beside them it holds the description of
/// the contract as far as it has been built.
pub struct SrEmitter {
    stack: Vec<StackObject>,
    namespaces: Vec<SrIdentifier>,
    positions: Vec<(SourcePosition, SourcePosition)>,
    contract: Contract,
    failed: bool,
}

impl View for SrEmitter {
    type V = EmitterState;

    closed spec fn view(&self) -> EmitterState {
        EmitterState {
            failed: self.failed,
            stack: objects_view(self.stack@),
            namespaces: identifiers_view(self.namespaces@),
            positions: self.positions@,
            contract: self.contract@,
        }
    }
}

pub(crate) fn halted_error() -> (error: Error)
    ensures
        error@ == halted(),
{
    Error::AstVisitError(String::from_str("The lowering has failed before."))
}

pub(crate) fn unsupported_error(what: &str) -> (error: Error)
    ensures
        error@ == unsupported(what@),
{
    Error::AstVisitError(String::from_str("Unsupported syntax: ").concat(what))
}

fn operand_text(operand: &Option<StackObject>) -> (text: &'static str)
    ensures
        text@ == operand_name(
            match operand {
                Some(o) => Some(o@),
                None => None,
            },
        ),
{
    match operand {
        Some(StackObject::IrIdentifier(_)) => "symbol name",
        Some(StackObject::VariableDeclaration(_)) => "variable declaration",
        Some(StackObject::TypeDefinition(_)) => "type definition",
        None => "nothing",
    }
}

fn mismatch_error(expected: &str, found: &Option<StackObject>) -> (error: Error)
    ensures
        error@ == mismatch(
            expected@,
            match found {
                Some(o) => Some(o@),
                None => None,
            },
        ),
{
    let text = String::from_str("Expected ").concat(expected).concat(", but found ").concat(
        operand_text(found),
    ).concat(".");
    Error::Internal(text)
}

impl Default for SrEmitter {
    fn default() -> (emitter: SrEmitter)
        ensures
            emitter@ == EmitterState::fresh(),
    {
        SrEmitter::new()
    }
}

impl SrEmitter {
    /// An emitter at the start of a lowering.
    pub fn new() -> (emitter: SrEmitter)
        ensures
            emitter@ == EmitterState::fresh(),
    {
        let emitter = SrEmitter {
            stack: Vec::new(),
            namespaces: Vec::new(),
            positions: Vec::new(),
            contract: Contract::new(),
            failed: false,
        };
        emitter
    }

    /// Marks the lowering as failed and lets go of the operands and the namespaces.
    pub(crate) fn fail(&mut self)
        ensures
            final(self)@ == old(self)@.failing(),
    {
        self.failed = true;
        self.stack.clear();
        self.namespaces.clear();
        assert(final(self)@.stack =~= Seq::empty());
        assert(final(self)@.namespaces =~= Seq::empty());
    }

    /// Puts an operand on the stack.
    pub(crate) fn push(&mut self, object: StackObject)
        requires
            !old(self)@.failed,
        ensures
            final(self)@ == old(self)@.pushed(object@),
    {
        self.stack.push(object);
    }

    /// Takes the top operand off the stack, if there is one.
    pub(crate) fn pop(&mut self) -> (object: Option<StackObject>)
        requires
            !old(self)@.failed,
        ensures
            match object {
                Some(o) => old(self)@.top() == Some(o@) && final(self)@ == old(self)@.dropped(),
                None => old(self)@.top() is None && final(self)@ == old(self)@,
            },
    {
        let object = self.stack.pop();
        object
    }

    /// Opens a source position.
    pub(crate) fn enter(&mut self, start: &SourcePosition, end: &SourcePosition)
        ensures
            final(self)@ == old(self)@.at(*start, *end),
    {
        self.positions.push((*start, *end));
    }

    /// Closes the source position that was opened last.
    pub(crate) fn leave(&mut self)
        ensures
            final(self)@ == old(self)@.back(),
    {
        let _ = self.positions.pop();
    }

    /// Takes an identifier from the top of the operand stack.
    pub fn pop_ir_identifier(&mut self) -> (result: Result<SrIdentifier, Error>)
        ensures
            match result {
                Ok(identifier) => {
                    &&& !old(self)@.failed
                    &&& old(self)@.top() == Some(StackObjectView::IrIdentifier(identifier@))
                    &&& final(self)@ == old(self)@.dropped()
                },
                Err(error) => {
                    &&& !(old(self)@.top() matches Some(StackObjectView::IrIdentifier(_)))
                        || old(self)@.failed
                    &&& final(self)@ == old(self)@.failing()
                    &&& error@ == if old(self)@.failed {
                        halted()
                    } else {
                        mismatch("symbol name"@, old(self)@.top())
                    }
                },
            },
    {
        if self.failed {
            self.fail();
            return Err(halted_error());
        }
        let candidate = self.pop();
        match candidate {
            Some(StackObject::IrIdentifier(identifier)) => Ok(identifier),
            other => {
                let error = mismatch_error("symbol name", &other);
                self.fail();
                Err(error)
            },
        }
    }

    /// Takes a variable declaration from the top of the operand stack.
    pub fn pop_variable_declaration(&mut self) -> (result: Result<Field, Error>)
        ensures
            match result {
                Ok(field) => {
                    &&& !old(self)@.failed
                    &&& old(self)@.top() == Some(StackObjectView::VariableDeclaration(field@))
                    &&& final(self)@ == old(self)@.dropped()
                },
                Err(error) => {
                    &&& !(old(self)@.top() matches Some(StackObjectView::VariableDeclaration(_)))
                        || old(self)@.failed
                    &&& final(self)@ == old(self)@.failing()
                    &&& error@ == if old(self)@.failed {
                        halted()
                    } else {
                        mismatch("variable declaration"@, old(self)@.top())
                    }
                },
            },
    {
        if self.failed {
            self.fail();
            return Err(halted_error());
        }
        let candidate = self.pop();
        match candidate {
            Some(StackObject::VariableDeclaration(field)) => Ok(field),
            other => {
                let error = mismatch_error("variable declaration", &other);
                self.fail();
                Err(error)
            },
        }
    }

    /// Takes a type descriptor from the top of the operand stack.
    pub fn pop_type_definition(&mut self) -> (result: Result<SrType, Error>)
        ensures
            match result {
                Ok(descriptor) => {
                    &&& !old(self)@.failed
                    &&& old(self)@.top() == Some(StackObjectView::TypeDefinition(descriptor@))
                    &&& final(self)@ == old(self)@.dropped()
                },
                Err(error) => {
                    &&& !(old(self)@.top() matches Some(StackObjectView::TypeDefinition(_)))
                        || old(self)@.failed
                    &&& final(self)@ == old(self)@.failing()
                    &&& error@ == if old(self)@.failed {
                        halted()
                    } else {
                        mismatch("type definition"@, old(self)@.top())
                    }
                },
            },
    {
        if self.failed {
            self.fail();
            return Err(halted_error());
        }
        let candidate = self.pop();
        match candidate {
            Some(StackObject::TypeDefinition(descriptor)) => Ok(descriptor),
            other => {
                let error = mismatch_error("type definition", &other);
                self.fail();
                Err(error)
            },
        }
    }

    /// Whether the lowering has failed.
    pub fn has_failed(&self) -> (failed: bool)
        ensures
            failed == self@.failed,
    {
        self.failed
    }

    /// How many operands the stack holds.
    pub fn operand_count(&self) -> (count: usize)
        ensures
            count == self@.stack.len(),
    {
        self.stack.len()
    }

    /// How many source positions are open.
    pub fn position_count(&self) -> (count: usize)
        ensures
            count == self@.positions.len(),
    {
        self.positions.len()
    }

    /// The namespace that declarations belong to at this point: the innermost library
    /// or contract that has been entered and not left.
    pub fn current_namespace(&self) -> (namespace: Option<&SrIdentifier>)
        ensures
            match namespace {
                Some(identifier) => self@.namespaces.len() > 0 && identifier@
                    == self@.namespaces.last(),
                None => self@.namespaces.len() == 0,
            },
    {
        if self.namespaces.len() == 0 {
            None
        } else {
            Some(&self.namespaces[self.namespaces.len() - 1])
        }
    }

    /// The description of the contract as far as the traversal has built it. After a
    /// failure it is the description as it was when the hook that failed was called.
    pub fn description(&self) -> (contract: &Contract)
        ensures
            contract@ == self@.contract,
    {
        &self.contract
    }

    /// Ends the lowering and hands out the description of the contract as far as the
    /// traversal has built it; a lowering that has failed hands out none.
    pub fn finish(self) -> (result: Result<Contract, Error>)
        ensures
            result_view(result) == if self@.failed {
                Err::<ContractView, ErrorView>(halted())
            } else {
                Ok::<ContractView, ErrorView>(self@.contract)
            },
    {
        if self.failed {
            Err(halted_error())
        } else {
            Ok(self.contract)
        }
    }

    /// Fails because of syntax that is not lowered.
    pub(crate) fn refuse(&mut self, what: &str) -> (result: Result<TraversalResult, Error>)
        ensures
            walked(final(self)@, result) == old(self)@.refused(unsupported(what@)),
    {
        self.fail();
        Err(unsupported_error(what))
    }

    /// What a hook returns that has nothing to do: the signal, or the failure of a
    /// lowering that has failed before.
    pub(crate) fn pass(
        &mut self,
        signal: TraversalResult,
    ) -> (result: Result<TraversalResult, Error>)
        ensures
            walked(final(self)@, result) == if old(self)@.failed {
                Walk { state: old(self)@, outcome: Err(halted()) }
            } else {
                old(self)@.kept(signal)
            },
    {
        if self.failed {
            Err(halted_error())
        } else {
            Ok(signal)
        }
    }

    /// What a hook returns for syntax that is not lowered.
    pub(crate) fn reject(&mut self, what: &str) -> (result: Result<TraversalResult, Error>)
        ensures
            walked(final(self)@, result) == if old(self)@.failed {
                Walk { state: old(self)@, outcome: Err(halted()) }
            } else {
                old(self)@.refused(unsupported(what@))
            },
    {
        if self.failed {
            Err(halted_error())
        } else {
            self.refuse(what)
        }
    }

    /// Opens the namespace called `name`.
    pub(crate) fn open_namespace(&mut self, name: String)
        requires
            !old(self)@.failed,
        ensures
            final(self)@ == old(self)@.opened(name@),
    {
        self.namespaces.push(SrIdentifier::new(name, SrIdentifierKind::Namespace));
    }

    /// Closes the namespace that was opened last.
    pub(crate) fn close_namespace(&mut self)
        requires
            !old(self)@.failed,
        ensures
            final(self)@ == old(self)@.closed(),
    {
        let _ = self.namespaces.pop();
    }

    /// Gives the description its name.
    /// A copy of the description as it stands.
    pub(crate) fn saved_description(&self) -> (saved: Contract)
        ensures
            saved@ == self@.contract,
    {
        self.contract.clone()
    }

    /// Puts back a description that was saved before.
    pub(crate) fn restore_description(&mut self, saved: Contract)
        ensures
            final(self)@ == old(self)@.describing(saved@),
    {
        self.contract = saved;
    }

    pub(crate) fn name_contract(&mut self, name: String)
        requires
            !old(self)@.failed,
        ensures
            final(self)@ == old(self)@.describing(
                ContractView { name: name@, ..old(self)@.contract },
            ),
    {
        self.contract.name = name;
    }

    /// Appends constructor parameters to the description.
    pub(crate) fn add_init_params(&mut self, fields: FieldList)
        requires
            !old(self)@.failed,
        ensures
            final(self)@ == old(self)@.describing(
                ContractView {
                    init_params: old(self)@.contract.init_params + fields@,
                    ..old(self)@.contract
                },
            ),
    {
        let mut added = fields;
        self.contract.init_params.0.append(&mut added.0);
        assert(final(self)@.contract.init_params =~= old(self)@.contract.init_params + fields@);
    }

    /// Appends a field to the description.
    pub(crate) fn add_field(&mut self, field: Field)
        requires
            !old(self)@.failed,
        ensures
            final(self)@ == old(self)@.describing(
                ContractView {
                    fields: old(self)@.contract.fields.push(field@),
                    ..old(self)@.contract
                },
            ),
    {
        self.contract.fields.push(field);
    }

    /// Appends a transition to the description.
    pub(crate) fn add_transition(&mut self, transition: Transition)
        requires
            !old(self)@.failed,
        ensures
            final(self)@ == old(self)@.describing(
                ContractView {
                    transitions: old(self)@.contract.transitions.push(transition@),
                    ..old(self)@.contract
                },
            ),
    {
        self.contract.transitions.push(transition);
    }

    /// Lowers the contract that `node` defines to its description.
    ///
    /// The contract definition is visited once with this emitter as the backend. An
    /// emitter that has not been used gives the description of the contract alone.
    pub fn emit(self, node: &NodeProgram) -> (result: Result<Contract, Error>)
        ensures
            result_view(result) == emitted(self@, *node),
            self@ == EmitterState::fresh() ==> result_view(result) == lowered_contract(*node),
    {
        let mut emitter = self;
        emitter.enter(&node.contract_definition.start, &node.contract_definition.end);
        let visited = visit_contract_definition(&node.contract_definition.node, &mut emitter);
        emitter.leave();
        match visited {
            Ok(_) => Ok(emitter.contract),
            Err(error) => Err(error),
        }
    }
}

/// What lowering the contract of `program` with an emitter in `state` yields: the
/// description that the emitter holds, extended by the contract, or the first failure.
pub open spec fn emitted(state: EmitterState, program: NodeProgram) -> Result<
    ContractView,
    ErrorView,
> {
    if state.failed {
        Err(halted())
    } else {
        extended_contract(state.contract, program.contract_definition.node)
    }
}

} // verus!
