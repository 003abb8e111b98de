use crate::field::{FieldList, FieldView};
use vstd::prelude::*;
use vstd::std_specs::cmp::PartialEqSpecImpl;
use vstd::string::StringExecFns;

verus! {

/// A callable entry point of a contract, with its parameters in declaration order.
#[derive(Debug)]
pub struct Transition {
    pub name: String,
    pub params: FieldList,
}

/// The mathematical value of a [`Transition`].
pub struct TransitionView {
    pub name: Seq<char>,
    pub params: Seq<FieldView>,
}

impl View for Transition {
    type V = TransitionView;

    open spec fn view(&self) -> TransitionView {
        TransitionView { name: self.name@, params: self.params@ }
    }
}

impl PartialEq for Transition {
    fn eq(&self, other: &Transition) -> (same: bool) {
        self.name == other.name && self.params == other.params
    }
}

/// Two transitions are equal when they have the same name and equal parameters in the
/// same order.
impl PartialEqSpecImpl for Transition {
    open spec fn obeys_eq_spec() -> bool {
        true
    }

    open spec fn eq_spec(&self, other: &Transition) -> bool {
        self@ == other@
    }
}

impl Clone for Transition {
    fn clone(&self) -> (copy: Transition)
        ensures
            copy@ == self@,
    {
        Transition { name: self.name.clone(), params: self.params.clone() }
    }
}

impl Transition {
    /// A transition called `name` that takes `params`.
    pub fn new(name: &str, params: FieldList) -> (transition: Transition)
        ensures
            transition@ == (TransitionView { name: name@, params: params@ }),
    {
        Transition { name: String::from_str(name), params }
    }

    /// A transition called `name` that takes nothing.
    pub fn new_without_param(name: &str) -> (transition: Transition)
        ensures
            transition@ == (TransitionView { name: name@, params: Seq::empty() }),
    {
        Transition { name: String::from_str(name), params: FieldList::new() }
    }
}

/// An ordered list of transitions; the order is the order of declaration.
#[derive(Debug)]
pub struct TransitionList(pub Vec<Transition>);

impl PartialEq for TransitionList {
    fn eq(&self, other: &TransitionList) -> (same: bool) {
        if self.0.len() != other.0.len() {
            return false;
        }
        let mut i: usize = 0;
        while i < self.0.len()
            invariant
                i <= self.0.len(),
                self.0.len() == other.0.len(),
                self@.take(i as int) == other@.take(i as int),
            decreases self.0.len() - i,
        {
            if !(self.0[i] == other.0[i]) {
                assert(self@[i as int] != other@[i as int]);
                return false;
            }
            i += 1;
        }
        assert(self@.take(self.0.len() as int) =~= self@);
        assert(other@.take(self.0.len() as int) =~= other@);
        true
    }
}

/// Two lists are equal when they hold equal transitions in the same order.
impl PartialEqSpecImpl for TransitionList {
    open spec fn obeys_eq_spec() -> bool {
        true
    }

    open spec fn eq_spec(&self, other: &TransitionList) -> bool {
        self@ == other@
    }
}

impl Clone for TransitionList {
    fn clone(&self) -> (copy: TransitionList)
        ensures
            copy@ == self@,
    {
        let mut copy = TransitionList::new();
        let mut i: usize = 0;
        while i < self.0.len()
            invariant
                i <= self.0.len(),
                copy@ == self@.take(i as int),
            decreases self.0.len() - i,
        {
            copy.push(self.0[i].clone());
            assert(copy@ =~= self@.take(i as int + 1));
            i += 1;
        }
        assert(self@.take(self.0.len() as int) =~= self@);
        copy
    }
}

impl std::ops::Deref for TransitionList {
    type Target = Vec<Transition>;

    fn deref(&self) -> (transitions: &Vec<Transition>)
        ensures
            *transitions == self.0,
    {
        &self.0
    }
}

impl std::ops::DerefMut for TransitionList {
    fn deref_mut(&mut self) -> (transitions: &mut Vec<Transition>)
        ensures
            *transitions == old(self).0,
            final(self).0 == *final(transitions),
    {
        &mut self.0
    }
}

impl Default for TransitionList {
    fn default() -> (list: TransitionList)
        ensures
            list@ == Seq::<TransitionView>::empty(),
    {
        TransitionList::new()
    }
}

impl View for TransitionList {
    type V = Seq<TransitionView>;

    open spec fn view(&self) -> Seq<TransitionView> {
        Seq::new(self.0@.len(), |i: int| self.0@[i]@)
    }
}

impl TransitionList {
    /// The empty list.
    pub fn new() -> (list: TransitionList)
        ensures
            list@ == Seq::<TransitionView>::empty(),
    {
        let list = TransitionList(Vec::new());
        list
    }

    /// Appends `transition` behind the transitions that the list holds.
    pub fn push(&mut self, transition: Transition)
        ensures
            final(self)@ == old(self)@.push(transition@),
    {
        self.0.push(transition);
    }

    /// The number of transitions.
    pub fn len(&self) -> (n: usize)
        ensures
            n == self@.len(),
    {
        self.0.len()
    }

    /// The transition at position `index`, counted from zero.
    pub fn get(&self, index: usize) -> (transition: Option<&Transition>)
        ensures
            match transition {
                Some(t) => index < self@.len() && t@ == self@[index as int],
                None => index >= self@.len(),
            },
    {
        if index < self.0.len() {
            Some(&self.0[index])
        } else {
            None
        }
    }
}

} // verus!
