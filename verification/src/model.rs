//! Models and the relations that select their parts.

use vstd::prelude::*;

use crate::form_state::StateProvider;
use crate::form_value::FormValue;

verus! {

/// A struct (or plain value) that a whole form is bound to.
pub trait Model: StateProvider {
}

impl<T: FormValue + StateProvider> Model for T {
}

/// A lens from a parent model onto one of its parts: it selects the part
/// out of the parent's model and state, and can replace it in both.
///
/// Implementations select struct fields or list elements; the two lens
/// lemmas are their proof obligations.
pub trait ModelRelation<P: StateProvider, C: StateProvider> {
    /// The part this relation selects out of a parent model.
    spec fn spec_model(&self, parent: P) -> C;

    /// The part it selects out of a parent state.
    spec fn spec_state(&self, parent: P::State) -> C::State;

    /// The parent model with the selected part replaced.
    spec fn spec_update_model(&self, parent: P, child: C) -> P;

    /// The parent state with the selected part replaced.
    spec fn spec_update_state(&self, parent: P::State, child: C::State) -> P::State;

    /// Borrows the selected part of `parent`.
    fn relation_model<'a>(&self, parent: &'a P) -> (c: &'a C)
        ensures
            *c == self.spec_model(*parent),
    ;

    /// Mutably borrows the selected part of `parent`: what the caller
    /// leaves in the borrow is what replaces the part.
    fn relation_model_mut<'a>(&self, parent: &'a mut P) -> (c: &'a mut C)
        ensures
            *c == self.spec_model(*old(parent)),
            *final(parent) == self.spec_update_model(*old(parent), *final(c)),
    ;

    /// Borrows the selected part of the parent state.
    fn relation_state<'a>(&self, parent: &'a P::State) -> (c: &'a C::State)
        ensures
            *c == self.spec_state(*parent),
    ;

    /// Mutably borrows the selected part of the parent state.
    fn relation_state_mut<'a>(&self, parent: &'a mut P::State) -> (c: &'a mut C::State)
        ensures
            *c == self.spec_state(*old(parent)),
            *final(parent) == self.spec_update_state(*old(parent), *final(c)),
    ;

    /// Replacing the selected part and selecting again gives the part
    /// back: the relation is a lens on the model.
    proof fn lemma_model_lens(&self, parent: P, child: C)
        ensures
            self.spec_model(self.spec_update_model(parent, child)) == child,
    ;

    /// The same lens law on the state side.
    proof fn lemma_state_lens(&self, parent: P::State, child: C::State)
        ensures
            self.spec_state(self.spec_update_state(parent, child)) == child,
    ;
}

} // verus!
