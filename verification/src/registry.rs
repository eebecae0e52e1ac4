//! The command registry: a table from operation names to handlers, filled at
//! startup and consulted on every call from the front-end.

use crate::error::{BridgeError, BridgeErrorView};
use vstd::prelude::*;

verus! {

/// A table of named handlers. No name occurs twice in it, and an entry, once
/// made, is never changed or removed.
pub struct Registry<H> {
    entries: Vec<(String, H)>,
}

impl<H> Registry<H> {
    #[verifier::type_invariant]
    spec fn names_are_unique(&self) -> bool {
        forall|i: int, j: int|
            0 <= i < j < self.entries@.len() ==> self.entries@[i].0@ != self.entries@[j].0@
    }

    /// Whether the entry at `index` exists and bears `name`.
    spec fn is_entry_of(&self, index: int, name: Seq<char>) -> bool {
        0 <= index < self.entries@.len() && self.entries@[index].0@ == name
    }

    /// The position of the entry that bears `name`, where there is one.
    spec fn index_of(&self, name: Seq<char>) -> int {
        choose|index: int| self.is_entry_of(index, name)
    }
}

impl<H> View for Registry<H> {
    type V = Map<Seq<char>, H>;

    /// The registry as a map: each registered name with its handler.
    closed spec fn view(&self) -> Map<Seq<char>, H> {
        Map::new(
            |name: Seq<char>| exists|index: int| self.is_entry_of(index, name),
            |name: Seq<char>| self.entries@[self.index_of(name)].1,
        )
    }
}

impl<H> Registry<H> {
    /// A registry with no operation in it.
    pub fn new() -> (out: Self)
        ensures
            out@ == Map::<Seq<char>, H>::empty(),
    {
        let out = Registry { entries: Vec::new() };
        assert(out@ =~= Map::<Seq<char>, H>::empty());
        out
    }

    /// Whether an operation is registered under `name`.
    pub fn is_registered(&self, name: &str) -> (found: bool)
        ensures
            found == self@.contains_key(name@),
    {
        self.position(name).is_some()
    }

    /// The position of the entry that bears `name`, or `None` where no entry does.
    fn position(&self, name: &str) -> (out: Option<usize>)
        ensures
            match out {
                Some(index) => self.is_entry_of(index as int, name@) && self@.contains_key(name@)
                    && self@[name@] == self.entries@[index as int].1,
                None => !self@.contains_key(name@) && forall|index: int|
                    !self.is_entry_of(index, name@),
            },
    {
        let wanted = String::from_str(name);
        let mut index: usize = 0;
        while index < self.entries.len()
            invariant
                index <= self.entries@.len(),
                wanted@ == name@,
                forall|earlier: int| 0 <= earlier < index ==> !self.is_entry_of(earlier, name@),
            decreases self.entries@.len() - index,
        {
            if self.entries[index].0 == wanted {
                proof {
                    use_type_invariant(self);
                    assert(self.is_entry_of(index as int, name@));
                    assert(self.is_entry_of(self.index_of(name@), name@));
                    assert(self.index_of(name@) == index);
                }
                return Some(index);
            }
            index += 1;
        }
        None
    }

    /// Registers `handler` under `name`, unless the name is taken: then the
    /// registry stays as it was and the answer is `false`.
    pub fn register(&mut self, name: String, handler: H) -> (added: bool)
        ensures
            added == !old(self)@.contains_key(name@),
            added ==> final(self)@ == old(self)@.insert(name@, handler),
            !added ==> final(self)@ == old(self)@,
    {
        if self.position(name.as_str()).is_some() {
            return false;
        }
        proof {
            use_type_invariant(&*self);
        }
        let ghost before = *self;
        let mut grown = Registry { entries: Vec::new() };
        std::mem::swap(self, &mut grown);
        let mut entries = grown.entries;
        entries.push((name, handler));
        proof {
            assert forall|i: int, j: int| 0 <= i < j < entries@.len() implies entries@[i].0@
                != entries@[j].0@ by {
                if j == before.entries@.len() {
                    assert(!before.is_entry_of(i, name@));
                }
            }
        }
        *self = Registry { entries };
        proof {
            assert forall|other: Seq<char>| #[trigger]
                self@.contains_key(other) == before@.insert(name@, handler).contains_key(
                    other,
                ) by {
                if before@.contains_key(other) {
                    let index = before.index_of(other);
                    assert(self.is_entry_of(index, other));
                }
                if other == name@ {
                    assert(self.is_entry_of(before.entries@.len() as int, other));
                }
                if self@.contains_key(other) && other != name@ {
                    let index = self.index_of(other);
                    assert(before.is_entry_of(index, other));
                }
            }
            assert forall|other: Seq<char>| #[trigger] self@.contains_key(other) implies self@[other]
                == before@.insert(name@, handler)[other] by {
                let index = self.index_of(other);
                assert(self.is_entry_of(index, other));
                if other != name@ {
                    assert(before.is_entry_of(index, other));
                    let old_index = before.index_of(other);
                    assert(before.is_entry_of(old_index, other));
                    assert(self.is_entry_of(old_index, other));
                }
            }
            assert(self@ =~= before@.insert(name@, handler));
        }
        true
    }

    /// Calls the operation registered under `name` with `args` and hands back
    /// what it returned, as it is. Where no operation bears the name, the call
    /// fails with `UnknownOperation`; no handler's precondition is assumed for
    /// that case, so none can have been called.
    pub fn dispatch<A, O>(&self, name: &str, args: A) -> (out: Result<O, BridgeError>) where
        H: Fn(A) -> O,

        requires
            self@.contains_key(name@) ==> call_requires(self@[name@], (args,)),
        ensures
            self@.contains_key(name@) ==> out is Ok && call_ensures(
                self@[name@],
                (args,),
                out->Ok_0,
            ),
            !self@.contains_key(name@) ==> out is Err && out->Err_0@
                == (BridgeErrorView::UnknownOperation { name: name@ }),
    {
        match self.position(name) {
            Some(index) => {
                let handler = &self.entries[index].1;
                Ok(handler(args))
            },
            None => Err(BridgeError::UnknownOperation { name: String::from_str(name) }),
        }
    }
}

} // verus!
