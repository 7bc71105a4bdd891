use vstd::prelude::*;

verus! {

/// The three blocking ways in which a command line can be executed.
#[derive(Debug, Clone, Copy, PartialEq, Eq, Structural)]
pub enum ExecKind {
    /// Attached to the caller's terminal; yields the exit status.
    Interactive,
    /// Not attached; succeeds or fails as a unit.
    Call,
    /// Not attached; yields the captured standard output.
    Capture,
}

/// One command line together with the way it is to be executed.
#[derive(Debug, Clone, PartialEq, Eq)]
pub struct Invocation {
    pub kind: ExecKind,
    pub line: String,
}

/// The mathematical value of an invocation.
pub ghost struct InvocationView {
    pub kind: ExecKind,
    pub line: Seq<char>,
}

impl View for Invocation {
    type V = InvocationView;

    open spec fn view(&self) -> InvocationView {
        InvocationView { kind: self.kind, line: self.line@ }
    }
}

} // verus!
