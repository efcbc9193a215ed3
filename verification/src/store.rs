//! Where the text that belongs to a todo is kept, under the todo's path.

use vstd::hash_map::StringHashMap;
use vstd::prelude::*;
use crate::failure::StoreError;
use crate::todo::Todo;

verus! {

/// A place that keeps one text per path.
pub trait Storer {
    /// Makes room for the todo's text under the todo's path.
    fn store(&mut self, todo: &Todo) -> (r: Result<(), StoreError>);

    /// The text kept under the todo's path, if there is one.
    fn read<'a>(&'a self, todo: &Todo) -> (r: Result<Option<&'a str>, StoreError>);

    /// Whether the text kept for the todo has changed behind the store's back.
    fn has_changed(&self, todo: &Todo) -> (r: Result<bool, StoreError>);
}

/// A store in memory, for tests: it never fails, and nothing changes behind
/// its back.
pub struct TestStore {
    map: StringHashMap<String>,
}

impl View for TestStore {
    type V = Map<Seq<char>, Seq<char>>;

    /// The text kept under each path.
    closed spec fn view(&self) -> Map<Seq<char>, Seq<char>> {
        self.map@.map_values(|text: String| text@)
    }
}

impl TestStore {
    /// A store that keeps nothing yet.
    pub fn new() -> (r: TestStore)
        ensures
            r@ == Map::<Seq<char>, Seq<char>>::empty(),
    {
        let r = TestStore { map: StringHashMap::new() };
        assert(r@ =~= Map::<Seq<char>, Seq<char>>::empty());
        r
    }
}

impl Storer for TestStore {
    /// Keeps the empty text under the todo's path, in place of what was there.
    fn store(&mut self, todo: &Todo) -> (r: Result<(), StoreError>)
        ensures
            r is Ok,
            final(self)@ == old(self)@.insert(todo@.path, Seq::<char>::empty()),
    {
        self.map.insert(todo.path.clone(), String::new());
        assert(self@ =~= old(self)@.insert(todo@.path, Seq::<char>::empty()));
        Ok(())
    }

    fn read<'a>(&'a self, todo: &Todo) -> (r: Result<Option<&'a str>, StoreError>)
        ensures
            r matches Ok(found) && match found {
                Some(text) => self@.contains_key(todo@.path) && text@ == self@[todo@.path],
                None => !self@.contains_key(todo@.path),
            },
    {
        match self.map.get(todo.path.as_str()) {
            Some(text) => Ok(Some(text.as_str())),
            None => Ok(None),
        }
    }

    fn has_changed(&self, _todo: &Todo) -> (r: Result<bool, StoreError>)
        ensures
            r == Ok::<bool, StoreError>(false),
    {
        Ok(false)
    }
}

} // verus!
