//! What the server asks of the fiber runtime that hosts it.

use vstd::prelude::*;
use vstd::string::*;

verus! {

/// The name of the helper fibers of the server called `server_name`.
pub open spec fn child_fiber_name(server_name: Seq<char>) -> Seq<char> {
    server_name + "-child"@
}

/// Names the fibers that run the futures which the connection driver
/// spawns on behalf of one server.
pub struct TarantoolHyperExecutor {
    child_name: String,
}

impl View for TarantoolHyperExecutor {
    type V = Seq<char>;

    /// The name given to every fiber that the executor starts.
    closed spec fn view(&self) -> Seq<char> {
        self.child_name@
    }
}

impl TarantoolHyperExecutor {
    /// The executor of the server called `server_name`.
    pub fn new(server_name: &str) -> (executor: TarantoolHyperExecutor)
        ensures
            executor@ == child_fiber_name(server_name@),
    {
        TarantoolHyperExecutor { child_name: String::from_str(server_name).concat("-child") }
    }

    /// The name given to every fiber that the executor starts.
    pub fn child_name(&self) -> (name: &str)
        ensures
            name@ == self@,
    {
        self.child_name.as_str()
    }

    /// A second executor for the same server.
    pub fn duplicate(&self) -> (copy: TarantoolHyperExecutor)
        ensures
            copy@ == self@,
    {
        TarantoolHyperExecutor { child_name: self.child_name.clone() }
    }
}

} // verus!
