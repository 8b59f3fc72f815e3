use vstd::prelude::*;

verus! {

/// The registry as stored between operations: its owner, fixed at creation, and its
/// members in the order they were added.
#[derive(Debug, Clone, PartialEq, Eq)]
pub struct State {
    pub users: Vec<String>,
    pub owner: String,
}

impl State {
    /// The members as a sequence of names, in stored order.
    pub open spec fn members(&self) -> Seq<Seq<char>> {
        self.users@.map_values(|u: String| u@)
    }
}

} // verus!
