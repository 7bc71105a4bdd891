use crate::connection::{after_privilege_probe_of, after_state_probe_of, is_superuser_id};
use crate::device::{prefix_of, Adb, AdbView};
use crate::error::{result_view, AdbError};
use crate::invocation::{ExecKind, Invocation, InvocationView};
use crate::remote_op::RemoteOp;
use vstd::prelude::*;
use vstd::string::*;

verus! {

/// The first probe of the connection check: ask the device for its state,
/// attached to the terminal.
pub open spec fn state_probe_of(d: AdbView) -> InvocationView {
    InvocationView { kind: ExecKind::Interactive, line: prefix_of(d) + " get-state"@ }
}

/// The second probe of the connection check: ask the device's shell for its
/// numeric user identifier, capturing what it prints.
pub open spec fn privilege_probe_of(d: AdbView) -> InvocationView {
    InvocationView { kind: ExecKind::Capture, line: prefix_of(d) + " shell id -u"@ }
}

/// The command line that runs `cmd` in the device's shell.
pub open spec fn shell_line_of(d: AdbView, cmd: Seq<char>) -> Seq<char> {
    prefix_of(d) + " shell "@ + cmd
}

/// `cmd` in the device's shell, attached to the terminal.
pub open spec fn shell_of(d: AdbView, cmd: Seq<char>) -> InvocationView {
    InvocationView { kind: ExecKind::Interactive, line: shell_line_of(d, cmd) }
}

/// `cmd` in the device's shell, not attached.
pub open spec fn check_call_of(d: AdbView, cmd: Seq<char>) -> InvocationView {
    InvocationView { kind: ExecKind::Call, line: shell_line_of(d, cmd) }
}

/// The command line that sends the local `src` to `place` on the device.
pub open spec fn push_line_of(d: AdbView, src: Seq<char>, place: Seq<char>) -> Seq<char> {
    prefix_of(d) + " push "@ + src + " "@ + place
}

/// The command line that fetches `place` on the device to the local `dst`.
pub open spec fn pull_line_of(d: AdbView, place: Seq<char>, dst: Seq<char>) -> Seq<char> {
    prefix_of(d) + " pull "@ + place + " "@ + dst
}

/// The transfer of the local `src` to `place` on the device.
pub open spec fn push_of(d: AdbView, src: Seq<char>, place: Seq<char>) -> InvocationView {
    InvocationView { kind: ExecKind::Call, line: push_line_of(d, src, place) }
}

/// The transfer of `place` on the device to the local `dst`.
pub open spec fn pull_of(d: AdbView, place: Seq<char>, dst: Seq<char>) -> InvocationView {
    InvocationView { kind: ExecKind::Call, line: pull_line_of(d, place, dst) }
}

/// `cmd` as it stands, with its output captured: no device is addressed.
pub open spec fn check_output_of(cmd: Seq<char>) -> InvocationView {
    InvocationView { kind: ExecKind::Capture, line: cmd }
}

/// The device bridge as a backend: every command line but that of
/// `check_output` starts with the descriptor's prefix.
impl RemoteOp for Adb {
    open spec fn state_probe(&self) -> InvocationView {
        state_probe_of(self@)
    }

    open spec fn privilege_probe(&self) -> InvocationView {
        privilege_probe_of(self@)
    }

    open spec fn shell_line(&self, cmd: Seq<char>) -> Seq<char> {
        shell_line_of(self@, cmd)
    }

    open spec fn push_line(&self, src: Seq<char>, place: Seq<char>) -> Seq<char> {
        push_line_of(self@, src, place)
    }

    open spec fn pull_line(&self, place: Seq<char>, dst: Seq<char>) -> Seq<char> {
        pull_line_of(self@, place, dst)
    }

    open spec fn output_line(&self, cmd: Seq<char>) -> Seq<char> {
        cmd
    }

    fn begin_check_connection(&self) -> (r: Invocation)
        ensures
            r@ == state_probe_of(self@),
    {
        Invocation {
            kind: ExecKind::Interactive,
            line: self.get_cmd_prefix().concat(" get-state"),
        }
    }

    fn continue_check_connection(&self, status: Result<i32, String>) -> (r: Result<
        Invocation,
        AdbError,
    >)
        ensures
            result_view(r) == after_state_probe_of(privilege_probe_of(self@), result_view(status)),
    {
        match status {
            Ok(code) => if code == 0 {
                Ok(
                    Invocation {
                        kind: ExecKind::Capture,
                        line: self.get_cmd_prefix().concat(" shell id -u"),
                    },
                )
            } else {
                Err(AdbError::Connectivity)
            },
            Err(m) => Err(AdbError::Execution(m)),
        }
    }

    fn finish_check_connection(&self, output: Result<String, String>) -> (r: Result<
        (),
        AdbError,
    >)
        ensures
            result_view(r) == after_privilege_probe_of(result_view(output)),
    {
        match output {
            Ok(text) => if is_superuser_id(text.as_str()) {
                Ok(())
            } else {
                Err(AdbError::Privilege)
            },
            Err(m) => Err(AdbError::Execution(m)),
        }
    }

    fn shell(&self, cmd: &str) -> (r: Invocation)
        ensures
            r@ == shell_of(self@, cmd@),
    {
        Invocation {
            kind: ExecKind::Interactive,
            line: self.get_cmd_prefix().concat(" shell ").concat(cmd),
        }
    }

    fn check_call(&self, cmd: &str) -> (r: Invocation)
        ensures
            r@ == check_call_of(self@, cmd@),
    {
        Invocation {
            kind: ExecKind::Call,
            line: self.get_cmd_prefix().concat(" shell ").concat(cmd),
        }
    }

    fn push<F: Fn(&str) -> String>(&self, src: &str, dst: &str, remap: F) -> (r: Invocation)
        ensures
            exists|place: String|
                call_ensures(remap, (dst,), place) && r@ == push_of(self@, src@, place@),
    {
        let place = remap(dst);
        Invocation {
            kind: ExecKind::Call,
            line: self.get_cmd_prefix().concat(" push ").concat(src).concat(" ").concat(
                place.as_str(),
            ),
        }
    }

    fn pull<F: Fn(&str) -> String>(&self, src: &str, dst: &str, remap: F) -> (r: Invocation)
        ensures
            exists|place: String|
                call_ensures(remap, (src,), place) && r@ == pull_of(self@, place@, dst@),
    {
        let place = remap(src);
        Invocation {
            kind: ExecKind::Call,
            line: self.get_cmd_prefix().concat(" pull ").concat(place.as_str()).concat(
                " ",
            ).concat(dst),
        }
    }

    fn check_output(&self, cmd: &str) -> (r: Invocation)
        ensures
            r@ == check_output_of(cmd@),
    {
        Invocation { kind: ExecKind::Capture, line: String::from_str(cmd) }
    }
}

} // verus!
