use vstd::prelude::*;

verus! {

/// The state of a session that outlives a line: where it stands in the file system.
#[derive(Debug, PartialEq, Eq)]
pub struct Context {
    pub working_dir: String,
}

impl View for Context {
    type V = Seq<char>;

    open spec fn view(&self) -> Seq<char> {
        self.working_dir@
    }
}

impl Context {
    /// A session that stands in `working_dir`.
    pub fn new(working_dir: String) -> (context: Context)
        ensures
            context@ == working_dir@,
    {
        Context { working_dir }
    }
}

} // verus!
