//! The selection store: what this process currently offers as the owner of
//! each selection.

use vstd::prelude::*;
use std::collections::HashMap;
use crate::atoms::Atom;

verus! {

broadcast use vstd::std_specs::hash::group_hash_axioms;

/// What is offered for one selection: the target it is encoded in and its
/// bytes.
pub struct Offer {
    pub target: Atom,
    pub value: Vec<u8>,
}

/// The mathematical content of a store: for each owned selection the target and
/// the bytes on offer.
pub type Offers = Map<Atom, (Atom, Seq<u8>)>;

/// A map from selection atom to the offer this process makes for it. A
/// selection has an entry exactly while this process claims to own it.
pub struct SelectionStore {
    entries: HashMap<Atom, Offer>,
}

impl View for SelectionStore {
    type V = Offers;

    closed spec fn view(&self) -> Offers {
        Map::new(
            |selection: Atom| self.entries@.contains_key(selection),
            |selection: Atom| (self.entries@[selection].target, self.entries@[selection].value@),
        )
    }
}

impl SelectionStore {
    /// A store that offers nothing.
    pub fn new() -> (store: SelectionStore)
        ensures
            store@ == Offers::empty(),
    {
        let store = SelectionStore { entries: HashMap::new() };
        assert(store@ =~= Offers::empty());
        store
    }

    /// Offers `value` under `target` for `selection`, in place of whatever was
    /// offered for it before. Other selections keep their offers.
    pub fn insert(&mut self, selection: Atom, target: Atom, value: Vec<u8>)
        ensures
            final(self)@ == old(self)@.insert(selection, (target, value@)),
    {
        let ghost bytes = value@;
        self.entries.insert(selection, Offer { target, value });
        assert(self@ =~= old(self)@.insert(selection, (target, bytes)));
    }

    /// The offer for `selection`, if this process owns it.
    pub fn get(&self, selection: Atom) -> (offer: Option<&Offer>)
        ensures
            offer is Some <==> self@.contains_key(selection),
            offer matches Some(o) ==> self@[selection] == (o.target, o.value@),
    {
        self.entries.get(&selection)
    }

    /// Whether this process owns `selection`.
    pub fn contains(&self, selection: Atom) -> (owned: bool)
        ensures
            owned == self@.contains_key(selection),
    {
        self.entries.contains_key(&selection)
    }

    /// Withdraws the offer for `selection`; other selections keep theirs.
    pub fn remove(&mut self, selection: Atom)
        ensures
            final(self)@ == old(self)@.remove(selection),
    {
        self.entries.remove(&selection);
        assert(self@ =~= old(self)@.remove(selection));
    }
}

} // verus!
