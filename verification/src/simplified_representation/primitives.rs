use crate::field::{FieldList, FieldView};
use vstd::prelude::*;

verus! {

/// Enum representing the different kinds of identifiers in the simplified representation.
#[derive(Debug, Clone, Copy, PartialEq, Eq, Structural)]
pub enum SrIdentifierKind {
    FunctionName,
    StaticFunctionName,
    TransitionName,
    ProcedureName,
    TemplateFunctionName,
    ExternalFunctionName,
    TypeName,
    ComponentName,
    Event,
    Namespace,
    BlockLabel,
    ContextResource,
    // Storage and reference
    VirtualRegister,
    VirtualRegisterIntermediate,
    Memory,
    State,
    // More info needed to derive kind
    Unknown,
}

/// Struct representing an identifier in the simplified representation.
#[derive(Debug, PartialEq)]
pub struct SrIdentifier {
    pub unresolved: String,
    pub resolved: Option<String>,
    pub type_reference: Option<String>,
    pub kind: SrIdentifierKind,
    pub is_definition: bool,
}

/// The mathematical value of an [`SrIdentifier`].
pub struct SrIdentifierView {
    pub unresolved: Seq<char>,
    pub resolved: Option<Seq<char>>,
    pub type_reference: Option<Seq<char>>,
    pub kind: SrIdentifierKind,
    pub is_definition: bool,
}

impl SrIdentifierView {
    /// The identifier of the given kind that is known by its unresolved name alone and
    /// does not stand at a definition site.
    pub open spec fn named(unresolved: Seq<char>, kind: SrIdentifierKind) -> SrIdentifierView {
        SrIdentifierView {
            unresolved,
            resolved: None,
            type_reference: None,
            kind,
            is_definition: false,
        }
    }
}

/// The characters of an optional text.
pub open spec fn optional_text(text: Option<String>) -> Option<Seq<char>> {
    match text {
        Some(t) => Some(t@),
        None => None,
    }
}

impl View for SrIdentifier {
    type V = SrIdentifierView;

    open spec fn view(&self) -> SrIdentifierView {
        SrIdentifierView {
            unresolved: self.unresolved@,
            resolved: optional_text(self.resolved),
            type_reference: optional_text(self.type_reference),
            kind: self.kind,
            is_definition: self.is_definition,
        }
    }
}

fn cloned_text(text: &Option<String>) -> (copy: Option<String>)
    ensures
        optional_text(copy) == optional_text(*text),
{
    match text {
        Some(t) => Some(t.clone()),
        None => None,
    }
}

impl Clone for SrIdentifier {
    fn clone(&self) -> (copy: SrIdentifier)
        ensures
            copy@ == self@,
    {
        SrIdentifier {
            unresolved: self.unresolved.clone(),
            resolved: cloned_text(&self.resolved),
            type_reference: cloned_text(&self.type_reference),
            kind: self.kind,
            is_definition: self.is_definition,
        }
    }
}

impl SrIdentifier {
    pub fn new(unresolved: String, kind: SrIdentifierKind) -> (identifier: SrIdentifier)
        ensures
            identifier@ == SrIdentifierView::named(unresolved@, kind),
    {
        SrIdentifier {
            unresolved,
            resolved: None,
            type_reference: None,
            kind,
            is_definition: false,
        }
    }
}

/// The interface that a typed address promises: what stands behind the address
/// (`contract`, `library`, ...) and the fields it is expected to have.
#[derive(Debug)]
pub struct AddressType {
    pub typename: String,
    pub fields: FieldList,
}

/// The mathematical value of an [`AddressType`].
pub struct AddressTypeView {
    pub typename: Seq<char>,
    pub fields: Seq<FieldView>,
}

impl View for AddressType {
    type V = AddressTypeView;

    open spec fn view(&self) -> AddressTypeView {
        AddressTypeView { typename: self.typename@, fields: self.fields@ }
    }
}

impl Clone for AddressType {
    fn clone(&self) -> (copy: AddressType)
        ensures
            copy@ == self@,
    {
        AddressType { typename: self.typename.clone(), fields: self.fields.clone() }
    }
}

/// A type under assembly: the name of its constructor, the descriptors of its arguments in
/// source order and, for a typed address, the interface.
#[derive(Debug)]
pub struct SrType {
    pub main_type: String,
    pub sub_types: Vec<SrType>,
    /// For types like `ByStr20 with contract field f1 : t1, field f2 : t2, ... end`
    pub address_type: Option<AddressType>,
}

/// The mathematical value of an [`SrType`].
pub struct SrTypeView {
    pub main_type: Seq<char>,
    pub sub_types: Seq<SrTypeView>,
    pub address_type: Option<AddressTypeView>,
}

impl SrTypeView {
    /// The descriptor of the type called `name` that takes no arguments.
    pub open spec fn plain(name: Seq<char>) -> SrTypeView {
        SrTypeView { main_type: name, sub_types: Seq::empty(), address_type: None }
    }

    /// This descriptor with `sub_type` as one more argument.
    pub open spec fn with_sub_type(self, sub_type: SrTypeView) -> SrTypeView {
        SrTypeView { sub_types: self.sub_types.push(sub_type), ..self }
    }
}

/// The value of an optional address interface.
pub open spec fn optional_address(address: Option<AddressType>) -> Option<AddressTypeView> {
    match address {
        Some(a) => Some(a@),
        None => None,
    }
}

/// The value of a type descriptor.
pub open spec fn sr_type_view(t: SrType) -> SrTypeView
    decreases t,
{
    SrTypeView {
        main_type: t.main_type@,
        sub_types: sr_types_view(t.sub_types@),
        address_type: optional_address(t.address_type),
    }
}

/// The values of a sequence of type descriptors, in the same order.
pub open spec fn sr_types_view(types: Seq<SrType>) -> Seq<SrTypeView>
    decreases types,
{
    Seq::new(
        types.len(),
        |i: int|
            if 0 <= i < types.len() {
                sr_type_view(types[i])
            } else {
                arbitrary()
            },
    )
}

/// A copy of a type descriptor.
pub fn cloned_descriptor(t: &SrType) -> (copy: SrType)
    ensures
        copy@ == t@,
    decreases t,
{
    let mut sub_types: Vec<SrType> = Vec::new();
    let mut i: usize = 0;
    while i < t.sub_types.len()
        invariant
            i <= t.sub_types.len(),
            decreases_to!(t => t.sub_types@),
            sub_types@.len() == i,
            sr_types_view(sub_types@) == sr_types_view(t.sub_types@).take(i as int),
        decreases t.sub_types.len() - i,
    {
        sub_types.push(cloned_descriptor(&t.sub_types[i]));
        i += 1;
    }
    assert(sr_types_view(t.sub_types@).take(t.sub_types.len() as int) =~= sr_types_view(
        t.sub_types@,
    ));
    let address_type = match &t.address_type {
        Some(address) => Some(address.clone()),
        None => None,
    };
    SrType { main_type: t.main_type.clone(), sub_types, address_type }
}

impl Clone for SrType {
    fn clone(&self) -> (copy: SrType)
        ensures
            copy@ == self@,
    {
        cloned_descriptor(self)
    }
}

impl View for SrType {
    type V = SrTypeView;

    open spec fn view(&self) -> SrTypeView {
        sr_type_view(*self)
    }
}

impl SrType {
    pub fn push_sub_type(&mut self, sub_type: SrType)
        ensures
            final(self)@ == old(self)@.with_sub_type(sub_type@),
    {
        self.sub_types.push(sub_type);
        assert(final(self)@.sub_types =~= old(self)@.sub_types.push(sub_type@));
    }

    /// The descriptor of the type that `identifier` names, without arguments.
    pub fn from_identifier(identifier: SrIdentifier) -> (descriptor: SrType)
        ensures
            descriptor@ == SrTypeView::plain(identifier@.unresolved),
    {
        let descriptor = SrType {
            main_type: identifier.unresolved,
            sub_types: Vec::new(),
            address_type: None,
        };
        assert(descriptor@.sub_types =~= Seq::empty());
        descriptor
    }
}

} // verus!
