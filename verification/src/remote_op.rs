use crate::connection::{after_privilege_probe_of, after_state_probe_of};
use crate::error::{result_view, AdbError};
use crate::invocation::{ExecKind, Invocation, InvocationView};
use vstd::prelude::*;

verus! {

/// What any way of reaching a remote device over a shell has to offer.
///
/// An operation does not run anything itself: it says which command line is
/// to be executed and in which way. A backend chooses the command lines; the
/// way each operation is executed, and the course of the connection check,
/// are the same for every backend.
pub trait RemoteOp {
    /// The probe that opens the connection check.
    spec fn state_probe(&self) -> InvocationView;

    /// The probe that follows once the device has answered.
    spec fn privilege_probe(&self) -> InvocationView;

    /// The command line that runs `cmd` on the device.
    spec fn shell_line(&self, cmd: Seq<char>) -> Seq<char>;

    /// The command line that sends the local `src` to `place` on the device.
    spec fn push_line(&self, src: Seq<char>, place: Seq<char>) -> Seq<char>;

    /// The command line that fetches `place` on the device to the local `dst`.
    spec fn pull_line(&self, place: Seq<char>, dst: Seq<char>) -> Seq<char>;

    /// The command line that runs `cmd` with its output captured.
    spec fn output_line(&self, cmd: Seq<char>) -> Seq<char>;

    /// Opens the connection check: the state probe is to be run first.
    fn begin_check_connection(&self) -> (r: Invocation)
        ensures
            r@ == self.state_probe(),
    ;

    /// Takes what the state probe yielded and decides how the check goes on:
    /// with the privilege probe, or not at all.
    fn continue_check_connection(&self, status: Result<i32, String>) -> (r: Result<
        Invocation,
        AdbError,
    >)
        ensures
            result_view(r) == after_state_probe_of(self.privilege_probe(), result_view(status)),
    ;

    /// Takes what the privilege probe yielded and closes the check.
    fn finish_check_connection(&self, output: Result<String, String>) -> (r: Result<
        (),
        AdbError,
    >)
        ensures
            result_view(r) == after_privilege_probe_of(result_view(output)),
    ;

    /// Runs `cmd` on the device with the caller's terminal attached.
    fn shell(&self, cmd: &str) -> (r: Invocation)
        ensures
            r@ == (InvocationView { kind: ExecKind::Interactive, line: self.shell_line(cmd@) }),
    ;

    /// Runs `cmd` on the device without a terminal.
    fn check_call(&self, cmd: &str) -> (r: Invocation)
        ensures
            r@ == (InvocationView { kind: ExecKind::Call, line: self.shell_line(cmd@) }),
    ;

    /// Sends the local `src` to the device. Where it lands is what `remap`
    /// makes of `dst`.
    fn push<F: Fn(&str) -> String>(&self, src: &str, dst: &str, remap: F) -> (r: Invocation)
        requires
            call_requires(remap, (dst,)),
        ensures
            exists|place: String|
                call_ensures(remap, (dst,), place) && r@ == (InvocationView {
                    kind: ExecKind::Call,
                    line: self.push_line(src@, place@),
                }),
    ;

    /// Fetches from the device to the local `dst`. What is fetched is what
    /// `remap` makes of `src`.
    fn pull<F: Fn(&str) -> String>(&self, src: &str, dst: &str, remap: F) -> (r: Invocation)
        requires
            call_requires(remap, (src,)),
        ensures
            exists|place: String|
                call_ensures(remap, (src,), place) && r@ == (InvocationView {
                    kind: ExecKind::Call,
                    line: self.pull_line(place@, dst@),
                }),
    ;

    /// Runs `cmd` and captures what it prints.
    fn check_output(&self, cmd: &str) -> (r: Invocation)
        ensures
            r@ == (InvocationView { kind: ExecKind::Capture, line: self.output_line(cmd@) }),
    ;
}

} // verus!
