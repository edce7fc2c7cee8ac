//! The owner/counter record: created at instantiation, mutated only by
//! `increment` and `reset`, never deleted.

use vstd::prelude::*;

verus! {

#[derive(Debug, PartialEq, Eq)]
pub struct State {
    pub count: i32,
    pub owner: String,
}

impl Clone for State {
    fn clone(&self) -> (r: Self)
        ensures
            r == *self,
    {
        State { count: self.count, owner: self.owner.clone() }
    }
}

} // verus!
