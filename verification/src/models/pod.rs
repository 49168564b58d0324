use vstd::prelude::*;

verus! {

/// Parameters for executing a command in a specified container.
pub struct ExecParams {
    /// The target container's name, if a specific container is required.
    pub container: Option<String>,
    /// The commands to be executed.
    pub commands: Vec<String>,
}

} // verus!
