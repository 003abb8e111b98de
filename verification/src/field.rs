use crate::types::{
    cloned_fields, cloned_type, same_fields, same_type, type_view, Type, TypeView,
};
use vstd::prelude::*;
use vstd::std_specs::cmp::PartialEqSpecImpl;
use vstd::string::StringExecFns;

verus! {

/// A named, typed slot of a contract: a field, a constructor parameter or a parameter of a
/// transition.
#[derive(Debug)]
pub struct Field {
    pub name: String,
    pub ty: Type,
}

/// The mathematical value of a [`Field`].
pub struct FieldView {
    pub name: Seq<char>,
    pub ty: TypeView,
}

/// The values of a sequence of fields, in the same order.
pub open spec fn fields_view(fields: Seq<Field>) -> Seq<FieldView>
    decreases fields,
{
    Seq::new(
        fields.len(),
        |i: int|
            if 0 <= i < fields.len() {
                FieldView { name: fields[i].name@, ty: type_view(fields[i].ty) }
            } else {
                arbitrary()
            },
    )
}

impl View for Field {
    type V = FieldView;

    open spec fn view(&self) -> FieldView {
        FieldView { name: self.name@, ty: self.ty@ }
    }
}

impl PartialEq for Field {
    fn eq(&self, other: &Field) -> (same: bool) {
        self.name == other.name && same_type(&self.ty, &other.ty)
    }
}

/// Two fields are equal when they have the same name and the same type.
impl PartialEqSpecImpl for Field {
    open spec fn obeys_eq_spec() -> bool {
        true
    }

    open spec fn eq_spec(&self, other: &Field) -> bool {
        self@ == other@
    }
}

impl Clone for Field {
    fn clone(&self) -> (copy: Field)
        ensures
            copy@ == self@,
    {
        Field { name: self.name.clone(), ty: cloned_type(&self.ty) }
    }
}

impl Default for Field {
    fn default() -> (field: Field)
        ensures
            field@ == (FieldView { name: Seq::empty(), ty: TypeView::Other(Seq::empty()) }),
    {
        Field { name: String::new(), ty: Type::Other(String::new()) }
    }
}

impl Field {
    /// Creates a new instance of field.
    ///
    /// Arguments:
    ///
    /// * `name`: A string representing the name of the field.
    /// * `ty`: Type of the field.
    pub fn new(name: &str, ty: Type) -> (field: Field)
        ensures
            field@ == (FieldView { name: name@, ty: ty@ }),
    {
        Field { name: String::from_str(name), ty }
    }
}

/// An ordered list of fields; the order is the order of declaration.
#[derive(Debug)]
pub struct FieldList(pub Vec<Field>);

impl PartialEq for FieldList {
    fn eq(&self, other: &FieldList) -> (same: bool) {
        same_fields(self, other)
    }
}

/// Two lists are equal when they hold equal fields in the same order.
impl PartialEqSpecImpl for FieldList {
    open spec fn obeys_eq_spec() -> bool {
        true
    }

    open spec fn eq_spec(&self, other: &FieldList) -> bool {
        self@ == other@
    }
}

impl Clone for FieldList {
    fn clone(&self) -> (copy: FieldList)
        ensures
            copy@ == self@,
    {
        cloned_fields(self)
    }
}

impl std::ops::Deref for FieldList {
    type Target = Vec<Field>;

    fn deref(&self) -> (fields: &Vec<Field>)
        ensures
            *fields == self.0,
    {
        &self.0
    }
}

impl Default for FieldList {
    fn default() -> (list: FieldList)
        ensures
            list@ == Seq::<FieldView>::empty(),
    {
        FieldList::new()
    }
}

impl View for FieldList {
    type V = Seq<FieldView>;

    open spec fn view(&self) -> Seq<FieldView> {
        fields_view(self.0@)
    }
}

impl FieldList {
    /// The empty list.
    pub fn new() -> (list: FieldList)
        ensures
            list@ == Seq::<FieldView>::empty(),
    {
        let list = FieldList(Vec::new());
        list
    }

    /// Appends `field` behind the fields that the list holds.
    pub fn push(&mut self, field: Field)
        ensures
            final(self)@ == old(self)@.push(field@),
    {
        self.0.push(field);
    }

    /// The number of fields.
    pub fn len(&self) -> (n: usize)
        ensures
            n == self@.len(),
    {
        self.0.len()
    }

    /// The field at position `index`, counted from zero.
    pub fn get(&self, index: usize) -> (field: Option<&Field>)
        ensures
            match field {
                Some(f) => index < self@.len() && f@ == self@[index as int],
                None => index >= self@.len(),
            },
    {
        if index < self.0.len() {
            Some(&self.0[index])
        } else {
            None
        }
    }
}

} // verus!
