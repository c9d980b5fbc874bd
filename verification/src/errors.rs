use vstd::prelude::*;

verus! {

/// The ways a request's run can fail. None of these is retried: each is
/// fatal to the request that hit it.
#[derive(Clone, Copy, Debug, PartialEq, Eq, Structural)]
pub enum RunError {
    /// The submitted module source could not be compiled.
    CompileError,
    /// The module requires an import the host does not supply, or lacks a
    /// required export: the linear memory, `is_done` or `next_frame`.
    LinkError,
    /// The guest faulted during `is_done` or `next_frame`, or handed back a
    /// frame pointer whose window lies outside its own memory.
    GuestTrap,
}

impl RunError {
    /// A short description of the failure, for logs and error events.
    pub fn describe(&self) -> (r: &'static str)
        ensures
            *self is CompileError ==> r@ == "invalid module source"@,
            *self is LinkError ==> r@ == "missing import or export"@,
            *self is GuestTrap ==> r@ == "guest fault"@,
    {
        match self {
            RunError::CompileError => "invalid module source",
            RunError::LinkError => "missing import or export",
            RunError::GuestTrap => "guest fault",
        }
    }

    /// The wire-level event name under which a fault closes the stream, in
    /// place of the clean terminal event.
    pub fn wire_name(&self) -> (r: &'static str)
        ensures
            r@ == "error"@,
    {
        "error"
    }
}

} // verus!
