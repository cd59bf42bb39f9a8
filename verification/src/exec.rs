use vstd::prelude::*;

verus! {

/// A runnable artifact: where it lies and the arguments that it is started
/// with.
#[derive(Debug, Clone, PartialEq, Eq)]
pub struct Executable {
    pub path: String,
    pub args: Vec<String>,
}

impl Executable {
    /// The executable at `path`, started without arguments.
    pub fn new(path: String) -> (executable: Executable)
        ensures
            executable.path == path,
            executable.args@ == Seq::<String>::empty(),
    {
        Executable { path, args: Vec::new() }
    }
}

} // verus!
