use crate::field::{FieldList, FieldView};
use crate::transition::{TransitionList, TransitionView};
use vstd::prelude::*;
use vstd::std_specs::cmp::PartialEqSpecImpl;

verus! {

/// The `Contract` struct represents a parsed contract, including its name, initialization
/// parameters, fields, and transitions.
#[derive(Debug)]
pub struct Contract {
    /// Name of the parsed contract
    pub name: String,
    /// List of parameters needed to deploy the contract.
    pub init_params: FieldList,
    /// List of the contract's fields.
    pub fields: FieldList,
    /// List of the contract's transitions.
    pub transitions: TransitionList,
}

/// The mathematical value of a [`Contract`].
pub struct ContractView {
    pub name: Seq<char>,
    pub init_params: Seq<FieldView>,
    pub fields: Seq<FieldView>,
    pub transitions: Seq<TransitionView>,
}

impl ContractView {
    /// The contract without a name, parameters, fields or transitions.
    pub open spec fn empty() -> ContractView {
        ContractView {
            name: Seq::empty(),
            init_params: Seq::empty(),
            fields: Seq::empty(),
            transitions: Seq::empty(),
        }
    }
}

impl View for Contract {
    type V = ContractView;

    open spec fn view(&self) -> ContractView {
        ContractView {
            name: self.name@,
            init_params: self.init_params@,
            fields: self.fields@,
            transitions: self.transitions@,
        }
    }
}

impl PartialEq for Contract {
    fn eq(&self, other: &Contract) -> (same: bool) {
        self.name == other.name && self.init_params == other.init_params && self.fields
            == other.fields && self.transitions == other.transitions
    }
}

/// Two contracts are equal when they have the same name and equal constructor
/// parameters, fields and transitions, each list in the same order.
impl PartialEqSpecImpl for Contract {
    open spec fn obeys_eq_spec() -> bool {
        true
    }

    open spec fn eq_spec(&self, other: &Contract) -> bool {
        self@ == other@
    }
}

impl Clone for Contract {
    fn clone(&self) -> (copy: Contract)
        ensures
            copy@ == self@,
    {
        Contract {
            name: self.name.clone(),
            init_params: self.init_params.clone(),
            fields: self.fields.clone(),
            transitions: self.transitions.clone(),
        }
    }
}

impl Default for Contract {
    fn default() -> (contract: Contract)
        ensures
            contract@ == ContractView::empty(),
    {
        Contract::new()
    }
}

impl Contract {
    /// The contract without a name, parameters, fields or transitions.
    pub fn new() -> (contract: Contract)
        ensures
            contract@ == ContractView::empty(),
    {
        Contract {
            name: String::new(),
            init_params: FieldList::new(),
            fields: FieldList::new(),
            transitions: TransitionList::new(),
        }
    }
}

} // verus!
