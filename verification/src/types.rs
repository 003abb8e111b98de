use crate::error::{result_view, Error, ErrorView};
use crate::field::{fields_view, Field, FieldList, FieldView};
use crate::simplified_representation::primitives::{SrType, SrTypeView};
use crate::text::{append_decimal, decimal, parse_usize_from, parsed_usize, same_text, starts_with};
use vstd::prelude::*;
use vstd::std_specs::cmp::PartialEqSpecImpl;
use vstd::string::StrSliceExecFns;
use vstd::string::StringExecFns;

verus! {

/// Represents all different scilla types.
#[derive(Debug)]
pub enum Type {
    Int32,
    Int64,
    Int128,
    Int256,
    Uint32,
    Uint64,
    Uint128,
    Uint256,
    String,
    BNum,
    Mapping(Box<Type>, Box<Type>),
    ByStr,
    ByStrX(usize),
    ByStr20,
    /// See https://scilla.readthedocs.io/en/latest/scilla-in-depth.html#addresses-1
    ByStr20With {
        typename: String,  // contract, library, ...
        fields: FieldList,
    },
    // ADT
    Bool,
    Option(Box<Type>),
    Pair(Box<Type>, Box<Type>),
    List(Box<Type>),
    Other(String),
}

/// The mathematical value of a [`Type`].
pub enum TypeView {
    Int32,
    Int64,
    Int128,
    Int256,
    Uint32,
    Uint64,
    Uint128,
    Uint256,
    String,
    BNum,
    Mapping(Box<TypeView>, Box<TypeView>),
    ByStr,
    ByStrX(usize),
    ByStr20,
    ByStr20With { typename: Seq<char>, fields: Seq<FieldView> },
    Bool,
    Option(Box<TypeView>),
    Pair(Box<TypeView>, Box<TypeView>),
    List(Box<TypeView>),
    Other(Seq<char>),
}

/// The value of a type.
pub open spec fn type_view(t: Type) -> TypeView
    decreases t,
{
    match t {
        Type::Int32 => TypeView::Int32,
        Type::Int64 => TypeView::Int64,
        Type::Int128 => TypeView::Int128,
        Type::Int256 => TypeView::Int256,
        Type::Uint32 => TypeView::Uint32,
        Type::Uint64 => TypeView::Uint64,
        Type::Uint128 => TypeView::Uint128,
        Type::Uint256 => TypeView::Uint256,
        Type::String => TypeView::String,
        Type::BNum => TypeView::BNum,
        Type::Mapping(k, v) => TypeView::Mapping(Box::new(type_view(*k)), Box::new(type_view(*v))),
        Type::ByStr => TypeView::ByStr,
        Type::ByStrX(n) => TypeView::ByStrX(n),
        Type::ByStr20 => TypeView::ByStr20,
        Type::ByStr20With { typename, fields } => TypeView::ByStr20With {
            typename: typename@,
            fields: fields_view(fields.0@),
        },
        Type::Bool => TypeView::Bool,
        Type::Option(t) => TypeView::Option(Box::new(type_view(*t))),
        Type::Pair(a, b) => TypeView::Pair(Box::new(type_view(*a)), Box::new(type_view(*b))),
        Type::List(t) => TypeView::List(Box::new(type_view(*t))),
        Type::Other(name) => TypeView::Other(name@),
    }
}

impl View for Type {
    type V = TypeView;

    open spec fn view(&self) -> TypeView {
        type_view(*self)
    }
}

/// A copy of a list of fields.
pub fn cloned_fields(fields: &FieldList) -> (copy: FieldList)
    ensures
        copy@ == fields@,
    decreases fields,
{
    let mut copy = FieldList::new();
    let mut i: usize = 0;
    while i < fields.0.len()
        invariant
            i <= fields.0.len(),
            decreases_to!(fields => fields.0@),
            copy@ == fields@.take(i as int),
        decreases fields.0.len() - i,
    {
        let field = &fields.0[i];
        copy.push(Field { name: field.name.clone(), ty: cloned_type(&field.ty) });
        i += 1;
    }
    copy
}

/// A copy of a type.
pub fn cloned_type(t: &Type) -> (copy: Type)
    ensures
        copy@ == t@,
    decreases t,
{
    match t {
        Type::Int32 => Type::Int32,
        Type::Int64 => Type::Int64,
        Type::Int128 => Type::Int128,
        Type::Int256 => Type::Int256,
        Type::Uint32 => Type::Uint32,
        Type::Uint64 => Type::Uint64,
        Type::Uint128 => Type::Uint128,
        Type::Uint256 => Type::Uint256,
        Type::String => Type::String,
        Type::BNum => Type::BNum,
        Type::Mapping(k, v) => Type::Mapping(Box::new(cloned_type(k)), Box::new(cloned_type(v))),
        Type::ByStr => Type::ByStr,
        Type::ByStrX(n) => Type::ByStrX(*n),
        Type::ByStr20 => Type::ByStr20,
        Type::ByStr20With { typename, fields } => Type::ByStr20With {
            typename: typename.clone(),
            fields: cloned_fields(fields),
        },
        Type::Bool => Type::Bool,
        Type::Option(t) => Type::Option(Box::new(cloned_type(t))),
        Type::Pair(a, b) => Type::Pair(Box::new(cloned_type(a)), Box::new(cloned_type(b))),
        Type::List(t) => Type::List(Box::new(cloned_type(t))),
        Type::Other(name) => Type::Other(name.clone()),
    }
}

impl Clone for Type {
    fn clone(&self) -> (copy: Type)
        ensures
            copy@ == self@,
    {
        cloned_type(self)
    }
}

/// Whether two lists hold equal fields in the same order.
pub fn same_fields(a: &FieldList, b: &FieldList) -> (same: bool)
    ensures
        same == (a@ == b@),
    decreases a,
{
    if a.0.len() != b.0.len() {
        return false;
    }
    let mut i: usize = 0;
    while i < a.0.len()
        invariant
            i <= a.0.len(),
            a.0.len() == b.0.len(),
            decreases_to!(a => a.0@),
            a@.take(i as int) == b@.take(i as int),
        decreases a.0.len() - i,
    {
        let x = &a.0[i];
        let y = &b.0[i];
        if !(x.name == y.name && same_type(&x.ty, &y.ty)) {
            assert(a@[i as int] != b@[i as int]);
            return false;
        }
        i += 1;
    }
    assert(a@.take(a.0.len() as int) =~= a@);
    assert(b@.take(a.0.len() as int) =~= b@);
    true
}

/// Whether two types are the same type.
pub fn same_type(a: &Type, b: &Type) -> (same: bool)
    ensures
        same == (a@ == b@),
    decreases a,
{
    match a {
        Type::Int32 => matches!(b, Type::Int32),
        Type::Int64 => matches!(b, Type::Int64),
        Type::Int128 => matches!(b, Type::Int128),
        Type::Int256 => matches!(b, Type::Int256),
        Type::Uint32 => matches!(b, Type::Uint32),
        Type::Uint64 => matches!(b, Type::Uint64),
        Type::Uint128 => matches!(b, Type::Uint128),
        Type::Uint256 => matches!(b, Type::Uint256),
        Type::String => matches!(b, Type::String),
        Type::BNum => matches!(b, Type::BNum),
        Type::Mapping(k, v) => match b {
            Type::Mapping(other_k, other_v) => same_type(k, other_k) && same_type(v, other_v),
            _ => false,
        },
        Type::ByStr => matches!(b, Type::ByStr),
        Type::ByStrX(n) => match b {
            Type::ByStrX(m) => *n == *m,
            _ => false,
        },
        Type::ByStr20 => matches!(b, Type::ByStr20),
        Type::ByStr20With { typename, fields } => match b {
            Type::ByStr20With { typename: other_name, fields: other_fields } => {
                *typename == *other_name && same_fields(fields, other_fields)
            },
            _ => false,
        },
        Type::Bool => matches!(b, Type::Bool),
        Type::Option(t) => match b {
            Type::Option(other) => same_type(t, other),
            _ => false,
        },
        Type::Pair(x, y) => match b {
            Type::Pair(other_x, other_y) => same_type(x, other_x) && same_type(y, other_y),
            _ => false,
        },
        Type::List(t) => match b {
            Type::List(other) => same_type(t, other),
            _ => false,
        },
        Type::Other(name) => match b {
            Type::Other(other) => *name == *other,
            _ => false,
        },
    }
}

impl PartialEq for Type {
    fn eq(&self, other: &Type) -> (same: bool) {
        same_type(self, other)
    }
}

/// Two types are equal when they are the same type: the same constructor applied to
/// equal arguments or, for an address, the same interface with equal fields in the
/// same order.
impl PartialEqSpecImpl for Type {
    open spec fn obeys_eq_spec() -> bool {
        true
    }

    open spec fn eq_spec(&self, other: &Type) -> bool {
        self@ == other@
    }
}

/// How a type is spelled.
pub open spec fn spelled(t: TypeView) -> Seq<char>
    decreases t,
{
    match t {
        TypeView::Int32 => "Int32"@,
        TypeView::Int64 => "Int64"@,
        TypeView::Int128 => "Int128"@,
        TypeView::Int256 => "Int256"@,
        TypeView::Uint32 => "Uint32"@,
        TypeView::Uint64 => "Uint64"@,
        TypeView::Uint128 => "Uint128"@,
        TypeView::Uint256 => "Uint256"@,
        TypeView::String => "String"@,
        TypeView::BNum => "BNum"@,
        TypeView::Bool => "Bool"@,
        TypeView::Mapping(k, v) => "(Map "@ + spelled(*k) + ", "@ + spelled(*v) + ")"@,
        TypeView::Option(k) => "(Option "@ + spelled(*k) + ")"@,
        TypeView::List(k) => "(List "@ + spelled(*k) + ")"@,
        TypeView::Pair(k, v) => "(Pair "@ + spelled(*k) + " "@ + spelled(*v) + ")"@,
        TypeView::ByStr => "ByStr"@,
        TypeView::ByStrX(n) => "ByStr"@ + decimal(n as nat),
        TypeView::ByStr20 => "ByStr20"@,
        TypeView::ByStr20With { typename, fields } => "ByStr20 with "@ + typename + spelled_fields(
            fields,
        ) + " end"@,
        TypeView::Other(name) => name,
    }
}

/// How one field of an address interface is spelled.
pub open spec fn spelled_field(f: FieldView) -> Seq<char>
    decreases f,
{
    "field "@ + f.name + ": "@ + spelled(f.ty)
}

/// How the fields of an address interface are spelled behind the name of the interface: a
/// space before the first field, and a comma and a space between two fields. An interface
/// without fields adds nothing.
pub open spec fn spelled_fields(fields: Seq<FieldView>) -> Seq<char>
    decreases fields,
{
    if fields.len() == 0 {
        Seq::empty()
    } else if fields.len() == 1 {
        " "@ + spelled_field(fields[0])
    } else {
        spelled_fields(fields.drop_last()) + ", "@ + spelled_field(fields.last())
    }
}

/// The failure of a type constructor that was given fewer type arguments than it takes.
pub open spec fn missing_type_argument() -> ErrorView {
    ErrorView::AstVisitError("Type constructor is applied to too few type arguments."@)
}

/// Whether `text` begins with `prefix`.
pub open spec fn has_prefix(text: Seq<char>, prefix: Seq<char>) -> bool {
    prefix.len() <= text.len() && text.take(prefix.len() as int) == prefix
}

/// The type that the last argument of `d` resolves to.
pub open spec fn resolved_last(d: SrTypeView, back: int) -> Result<TypeView, ErrorView>
    decreases d, 0int,
{
    if 1 <= back <= d.sub_types.len() {
        resolved(d.sub_types[d.sub_types.len() - back])
    } else {
        Err(missing_type_argument())
    }
}

/// The type that a finished descriptor stands for.
///
/// A built-in scalar name gives its variant. `Map`, `Option`, `List` and `Pair` take their
/// arguments from the end of the argument list: the last one, or the last two in their
/// order. `ByStr20` with an interface gives the annotated address, `ByStr` followed by a
/// number gives the byte string of that width, and any other name stands for itself.
pub open spec fn resolved(d: SrTypeView) -> Result<TypeView, ErrorView>
    decreases d, 1int,
{
    let name = d.main_type;
    let n = d.sub_types.len();
    if name == "Int32"@ {
        Ok(TypeView::Int32)
    } else if name == "Int64"@ {
        Ok(TypeView::Int64)
    } else if name == "Int128"@ {
        Ok(TypeView::Int128)
    } else if name == "Int256"@ {
        Ok(TypeView::Int256)
    } else if name == "Uint32"@ {
        Ok(TypeView::Uint32)
    } else if name == "Uint64"@ {
        Ok(TypeView::Uint64)
    } else if name == "Uint128"@ {
        Ok(TypeView::Uint128)
    } else if name == "Uint256"@ {
        Ok(TypeView::Uint256)
    } else if name == "String"@ {
        Ok(TypeView::String)
    } else if name == "ByStr"@ {
        Ok(TypeView::ByStr)
    } else if name == "BNum"@ {
        Ok(TypeView::BNum)
    } else if name == "Bool"@ {
        Ok(TypeView::Bool)
    } else if name == "Option"@ {
        match resolved_last(d, 1) {
            Ok(t) => Ok(TypeView::Option(Box::new(t))),
            Err(e) => Err(e),
        }
    } else if name == "List"@ {
        match resolved_last(d, 1) {
            Ok(t) => Ok(TypeView::List(Box::new(t))),
            Err(e) => Err(e),
        }
    } else if name == "Pair"@ {
        if n < 2 {
            Err(missing_type_argument())
        } else {
            match resolved_last(d, 2) {
                Ok(first) => match resolved_last(d, 1) {
                    Ok(second) => Ok(TypeView::Pair(Box::new(first), Box::new(second))),
                    Err(e) => Err(e),
                },
                Err(e) => Err(e),
            }
        }
    } else if name == "Map"@ {
        if n < 2 {
            Err(missing_type_argument())
        } else {
            match resolved_last(d, 2) {
                Ok(key) => match resolved_last(d, 1) {
                    Ok(value) => Ok(TypeView::Mapping(Box::new(key), Box::new(value))),
                    Err(e) => Err(e),
                },
                Err(e) => Err(e),
            }
        }
    } else if name == "ByStr20"@ {
        match d.address_type {
            Some(address) => Ok(
                TypeView::ByStr20With { typename: address.typename, fields: address.fields },
            ),
            None => Ok(TypeView::ByStr20),
        }
    } else if has_prefix(name, "ByStr"@) {
        match parsed_usize(name.skip("ByStr"@.len() as int)) {
            Some(width) => Ok(TypeView::ByStrX(width)),
            None => Ok(TypeView::Other(name)),
        }
    } else {
        Ok(TypeView::Other(name))
    }
}

fn missing_argument() -> (error: Error)
    ensures
        error@ == missing_type_argument(),
{
    Error::AstVisitError(String::from_str("Type constructor is applied to too few type arguments."))
}

impl Type {
    /// Resolves a finished type descriptor to the type it stands for.
    pub fn from_descriptor(descriptor: SrType) -> (result: Result<Type, Error>)
        ensures
            result_view(result) == resolved(descriptor@),
        decreases descriptor,
    {
        let SrType { main_type, mut sub_types, address_type } = descriptor;
        let name = main_type.as_str();
        if same_text(name, "Int32") {
            Ok(Type::Int32)
        } else if same_text(name, "Int64") {
            Ok(Type::Int64)
        } else if same_text(name, "Int128") {
            Ok(Type::Int128)
        } else if same_text(name, "Int256") {
            Ok(Type::Int256)
        } else if same_text(name, "Uint32") {
            Ok(Type::Uint32)
        } else if same_text(name, "Uint64") {
            Ok(Type::Uint64)
        } else if same_text(name, "Uint128") {
            Ok(Type::Uint128)
        } else if same_text(name, "Uint256") {
            Ok(Type::Uint256)
        } else if same_text(name, "String") {
            Ok(Type::String)
        } else if same_text(name, "ByStr") {
            Ok(Type::ByStr)
        } else if same_text(name, "BNum") {
            Ok(Type::BNum)
        } else if same_text(name, "Bool") {
            Ok(Type::Bool)
        } else if same_text(name, "Option") {
            match sub_types.pop() {
                Some(last) => {
                    let inner = Type::from_descriptor(last)?;
                    Ok(Type::Option(Box::new(inner)))
                },
                None => Err(missing_argument()),
            }
        } else if same_text(name, "List") {
            match sub_types.pop() {
                Some(last) => {
                    let inner = Type::from_descriptor(last)?;
                    Ok(Type::List(Box::new(inner)))
                },
                None => Err(missing_argument()),
            }
        } else if same_text(name, "Pair") {
            if sub_types.len() < 2 {
                return Err(missing_argument());
            }
            let t2 = sub_types.pop();
            let t1 = sub_types.pop();
            match (t1, t2) {
                (Some(t1), Some(t2)) => {
                    let first = Type::from_descriptor(t1)?;
                    let second = Type::from_descriptor(t2)?;
                    Ok(Type::Pair(Box::new(first), Box::new(second)))
                },
                _ => Err(missing_argument()),
            }
        } else if same_text(name, "Map") {
            if sub_types.len() < 2 {
                return Err(missing_argument());
            }
            let value = sub_types.pop();
            let key = sub_types.pop();
            match (key, value) {
                (Some(key), Some(value)) => {
                    let key = Type::from_descriptor(key)?;
                    let value = Type::from_descriptor(value)?;
                    Ok(Type::Mapping(Box::new(key), Box::new(value)))
                },
                _ => Err(missing_argument()),
            }
        } else if same_text(name, "ByStr20") {
            match address_type {
                Some(address) => Ok(
                    Type::ByStr20With { typename: address.typename, fields: address.fields },
                ),
                None => Ok(Type::ByStr20),
            }
        } else if starts_with(name, "ByStr") {
            match parse_usize_from(name, "ByStr".unicode_len()) {
                Some(width) => Ok(Type::ByStrX(width)),
                None => Ok(Type::Other(main_type)),
            }
        } else {
            Ok(Type::Other(main_type))
        }
    }

    /// Writes the spelling of the type behind what `out` holds.
    pub fn write_to(&self, out: &mut String)
        ensures
            final(out)@ == old(out)@ + spelled(self@),
        decreases self,
    {
        match self {
            Type::Int32 => out.append("Int32"),
            Type::Int64 => out.append("Int64"),
            Type::Int128 => out.append("Int128"),
            Type::Int256 => out.append("Int256"),
            Type::Uint32 => out.append("Uint32"),
            Type::Uint64 => out.append("Uint64"),
            Type::Uint128 => out.append("Uint128"),
            Type::Uint256 => out.append("Uint256"),
            Type::String => out.append("String"),
            Type::BNum => out.append("BNum"),
            Type::Bool => out.append("Bool"),
            Type::Mapping(k, v) => {
                out.append("(Map ");
                k.write_to(out);
                out.append(", ");
                v.write_to(out);
                out.append(")");
            },
            Type::Option(k) => {
                out.append("(Option ");
                k.write_to(out);
                out.append(")");
            },
            Type::List(k) => {
                out.append("(List ");
                k.write_to(out);
                out.append(")");
            },
            Type::Pair(k, v) => {
                out.append("(Pair ");
                k.write_to(out);
                out.append(" ");
                v.write_to(out);
                out.append(")");
            },
            Type::ByStr => out.append("ByStr"),
            Type::ByStrX(n) => {
                out.append("ByStr");
                append_decimal(out, *n as u64);
            },
            Type::ByStr20 => out.append("ByStr20"),
            Type::ByStr20With { typename, fields } => {
                out.append("ByStr20 with ");
                out.append(typename.as_str());
                let ghost before = out@;
                let mut i: usize = 0;
                while i < fields.0.len()
                    invariant
                        i <= fields.0.len(),
                        decreases_to!(self => fields.0@),
                        out@ == before + spelled_fields(fields@.take(i as int)),
                    decreases fields.0.len() - i,
                {
                    if i > 0 {
                        out.append(", ");
                    } else {
                        out.append(" ");
                    }
                    out.append("field ");
                    out.append(fields.0[i].name.as_str());
                    out.append(": ");
                    fields.0[i].ty.write_to(out);
                    proof {
                        let next = fields@.take(i as int + 1);
                        assert(next.drop_last() =~= fields@.take(i as int));
                        assert(spelled_fields(next) == if i == 0 {
                            " "@ + spelled_field(fields@[i as int])
                        } else {
                            spelled_fields(fields@.take(i as int)) + ", "@ + spelled_field(
                                fields@[i as int],
                            )
                        });
                    }
                    i += 1;
                }
                assert(fields@.take(fields.0.len() as int) =~= fields@);
                out.append(" end");
            },
            Type::Other(name) => out.append(name.as_str()),
        }
    }

    /// The spelling of the type.
    pub fn to_string(&self) -> (text: String)
        ensures
            text@ == spelled(self@),
    {
        let mut text = String::new();
        self.write_to(&mut text);
        text
    }
}

} // verus!
