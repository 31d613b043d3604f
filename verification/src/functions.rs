//! The table of JavaScript functions that were handed to Python.

use crate::stream::id_after;
use std::collections::HashMap;
use vstd::prelude::*;

verus! {

broadcast use vstd::std_specs::hash::group_hash_axioms;

/// A JS function handed to Python, with the receiver it was read from (for
/// `this`). The engine's handles are known by their slot numbers.
#[derive(Clone, Copy, Debug, PartialEq, Eq, Structural)]
pub struct StoredFunction {
    pub function: u64,
    pub receiver: Option<u64>,
}

/// What a `FunctionTable` holds.
#[verifier::ext_equal]
pub struct FunctionsView {
    pub stored: Map<u32, StoredFunction>,
    pub next_id: u32,
}

impl FunctionsView {
    /// No functions, and ids from zero on.
    pub open spec fn fresh() -> FunctionsView {
        FunctionsView { stored: Map::empty(), next_id: 0 }
    }

    /// After one more function was stored under the next id.
    pub open spec fn with(self, entry: StoredFunction) -> FunctionsView {
        FunctionsView {
            stored: self.stored.insert(self.next_id, entry),
            next_id: id_after(self.next_id),
        }
    }

    /// After a function was released; an unknown id changes nothing.
    pub open spec fn without(self, id: u32) -> FunctionsView {
        FunctionsView { stored: self.stored.remove(id), ..self }
    }

    /// After every function was released.
    pub open spec fn cleared(self) -> FunctionsView {
        FunctionsView { stored: Map::empty(), ..self }
    }
}

/// The functions that Python holds proxies of, by id.
pub struct FunctionTable {
    stored: HashMap<u32, StoredFunction>,
    next_id: u32,
}

impl View for FunctionTable {
    type V = FunctionsView;

    closed spec fn view(&self) -> FunctionsView {
        FunctionsView { stored: self.stored@, next_id: self.next_id }
    }
}

impl FunctionTable {
    pub fn new() -> (table: Self)
        ensures
            table@ == FunctionsView::fresh(),
    {
        let table = FunctionTable { stored: HashMap::new(), next_id: 0 };
        assert(table@.stored =~= Map::empty());
        table
    }

    /// Stores a function and returns its id.
    pub fn store(&mut self, function: u64, receiver: Option<u64>) -> (id: u32)
        ensures
            id == old(self)@.next_id,
            final(self)@ == old(self)@.with(StoredFunction { function, receiver }),
    {
        let id: u32 = self.next_id;
        self.next_id = id.wrapping_add(1);
        self.stored.insert(id, StoredFunction { function, receiver });
        id
    }

    /// The function with this id.
    pub fn get(&self, id: u32) -> (r: Option<StoredFunction>)
        ensures
            match r {
                Some(entry) => self@.stored.contains_key(id) && self@.stored[id] == entry,
                None => !self@.stored.contains_key(id),
            },
    {
        match self.stored.get(&id) {
            Some(entry) => Some(*entry),
            None => None,
        }
    }

    /// Forgets a function; returns whether it was there.
    pub fn remove(&mut self, id: u32) -> (known: bool)
        ensures
            known == old(self)@.stored.contains_key(id),
            final(self)@ == old(self)@.without(id),
    {
        let ghost before = self@;
        let removed: Option<StoredFunction> = self.stored.remove(&id);
        assert(self@ =~= before.without(id));
        removed.is_some()
    }

    /// Forgets every function.
    pub fn clear(&mut self)
        ensures
            final(self)@ == old(self)@.cleared(),
    {
        self.stored.clear();
        assert(self@.stored =~= Map::empty());
    }

    /// The number of functions.
    pub fn len(&self) -> (n: usize)
        ensures
            n == self@.stored.dom().len(),
    {
        self.stored.len()
    }
}

/// A released function is not found again until another is stored under its id.
pub proof fn law_released_function_is_gone(table: FunctionsView, id: u32, entry: StoredFunction)
    ensures
        !table.without(id).stored.contains_key(id),
        table.with(entry).stored[table.next_id] == entry,
        forall|other: u32|
            other != table.next_id && table.stored.contains_key(other) ==> table.with(
                entry,
            ).stored.contains_key(other) && #[trigger] table.with(entry).stored[other]
                == table.stored[other],
{
}

} // verus!
