use crate::simplified_representation::primitives::{
    SrIdentifier, SrIdentifierKind, SrIdentifierView,
};
use crate::text::{append_decimal, decimal};
use vstd::prelude::*;
use vstd::string::StringExecFns;

verus! {

/// Hands out names that no source text spells: names of anonymous types and of
/// intermediate values, each numbered in the order in which it was asked for.
#[derive(Debug)]
pub struct NameGenerator {
    anonymous_type_number: u64,
    intermediate_counter: u64,
}

/// The identifier that a generated name defines.
pub open spec fn generated(name: Seq<char>, kind: SrIdentifierKind) -> SrIdentifierView {
    SrIdentifierView {
        unresolved: name,
        resolved: None,
        type_reference: None,
        kind,
        is_definition: true,
    }
}

impl Clone for NameGenerator {
    fn clone(&self) -> (copy: NameGenerator)
        ensures
            copy.anonymous_types() == self.anonymous_types(),
            copy.intermediates() == self.intermediates(),
    {
        NameGenerator {
            anonymous_type_number: self.anonymous_type_number,
            intermediate_counter: self.intermediate_counter,
        }
    }
}

impl NameGenerator {
    /// How many names of anonymous types have been handed out.
    pub closed spec fn anonymous_types(&self) -> nat {
        self.anonymous_type_number as nat
    }

    /// How many names of intermediate values have been handed out.
    pub closed spec fn intermediates(&self) -> nat {
        self.intermediate_counter as nat
    }

    pub fn new() -> (generator: NameGenerator)
        ensures
            generator.anonymous_types() == 0,
            generator.intermediates() == 0,
    {
        NameGenerator { anonymous_type_number: 0, intermediate_counter: 0 }
    }

    /// How many names of anonymous types have been handed out.
    pub fn anonymous_type_count(&self) -> (count: u64)
        ensures
            count == self.anonymous_types(),
    {
        self.anonymous_type_number
    }

    /// How many names of intermediate values have been handed out.
    pub fn intermediate_count(&self) -> (count: u64)
        ensures
            count == self.intermediates(),
    {
        self.intermediate_counter
    }

    /// The name of the type of texts.
    pub fn string_type(&self) -> (identifier: SrIdentifier)
        ensures
            identifier@ == SrIdentifierView::named("String"@, SrIdentifierKind::TypeName),
    {
        SrIdentifier::new(String::from_str("String"), SrIdentifierKind::TypeName)
    }

    /// The name of the type of hexadecimal values, which are kept as texts.
    pub fn hex_type(&self) -> (identifier: SrIdentifier)
        ensures
            identifier@ == SrIdentifierView::named("String"@, SrIdentifierKind::TypeName),
    {
        SrIdentifier::new(String::from_str("String"), SrIdentifierKind::TypeName)
    }

    /// A fresh type name: `prefix` followed by the number of anonymous types named before.
    pub fn generate_anonymous_type_id(&mut self, prefix: String) -> (identifier: SrIdentifier)
        requires
            old(self).anonymous_types() < u64::MAX,
        ensures
            identifier@ == generated(
                prefix@ + decimal(old(self).anonymous_types()),
                SrIdentifierKind::TypeName,
            ),
            final(self).anonymous_types() == old(self).anonymous_types() + 1,
            final(self).intermediates() == old(self).intermediates(),
    {
        let n = self.anonymous_type_number;
        self.anonymous_type_number += 1;
        let mut name = prefix;
        append_decimal(&mut name, n);
        SrIdentifier {
            unresolved: name,
            resolved: None,
            type_reference: None,
            kind: SrIdentifierKind::TypeName,
            is_definition: true,
        }
    }

    /// A fresh name for an intermediate value: `__imm_` followed by the number of
    /// intermediate values named before.
    pub fn new_intermediate(&mut self) -> (identifier: SrIdentifier)
        requires
            old(self).intermediates() < u64::MAX,
        ensures
            identifier@ == generated(
                "__imm_"@ + decimal(old(self).intermediates()),
                SrIdentifierKind::VirtualRegisterIntermediate,
            ),
            final(self).intermediates() == old(self).intermediates() + 1,
            final(self).anonymous_types() == old(self).anonymous_types(),
    {
        let n = self.intermediate_counter;
        self.intermediate_counter += 1;
        let mut name = String::from_str("__imm_");
        append_decimal(&mut name, n);
        SrIdentifier {
            unresolved: name,
            resolved: None,
            type_reference: None,
            kind: SrIdentifierKind::VirtualRegisterIntermediate,
            is_definition: true,
        }
    }
}

} // verus!
