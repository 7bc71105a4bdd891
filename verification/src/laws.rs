use crate::backend::{
    check_call_of, check_output_of, privilege_probe_of, pull_of, push_of, shell_of,
    state_probe_of,
};
use crate::connection::{after_state_probe_of, check_connection_of, names_superuser};
use crate::device::{prefix_of, Adb, AdbView};
use crate::error::AdbErrorView;
use crate::invocation::InvocationView;
use crate::remote_op::RemoteOp;
use crate::text::{
    is_whitespace, leading_whitespace, lemma_leading_whitespace_is, lemma_trailing_whitespace_is,
    trimmed, trimmed_is_the_core,
};
use vstd::prelude::*;
use vstd::utf8::encode_utf8;

verus! {

/// A descriptor with a serial is addressed by that serial, whatever its two
/// flags say: the prefix is `adb -s `, seven characters, followed by the
/// serial as it was given.
pub proof fn serial_takes_precedence(id: Seq<char>, tcp_device: bool, usb_device: bool)
    ensures
        prefix_of(AdbView { serial: Some(id), tcp_device, usb_device }) == "adb -s "@ + id,
        prefix_of(AdbView { serial: Some(id), tcp_device, usb_device }).len() == 7 + id.len(),
        prefix_of(AdbView { serial: Some(id), tcp_device, usb_device }).skip(7) == id,
{
    reveal_strlit("adb -s ");
    assert(("adb -s "@ + id).skip(7) =~= id);
}

/// Without a serial the network flag selects `adb -e`, whatever the USB flag
/// says; without it the USB flag selects `adb -d`; with nothing set the
/// prefix is the bare `adb`.
pub proof fn flags_select_addressing(usb_device: bool)
    ensures
        prefix_of(AdbView { serial: None, tcp_device: true, usb_device }) == "adb -e"@,
        prefix_of(AdbView { serial: None, tcp_device: false, usb_device: true }) == "adb -d"@,
        prefix_of(AdbView { serial: None, tcp_device: false, usb_device: false }) == "adb"@,
{
}

/// When the state probe ends with a status other than zero, the check fails
/// with a connectivity error: no privilege probe follows, and nothing that
/// such a probe could yield changes the verdict.
pub proof fn nonzero_state_is_connectivity_error(
    probe: InvocationView,
    code: i32,
    output: Result<Seq<char>, Seq<char>>,
)
    requires
        code != 0,
    ensures
        after_state_probe_of(probe, Ok(code)) == Err::<InvocationView, AdbErrorView>(
            AdbErrorView::Connectivity,
        ),
        check_connection_of(probe, Ok(code), output) == Err::<(), AdbErrorView>(
            AdbErrorView::Connectivity,
        ),
{
}

/// When the state probe passes and the privilege probe prints anything but
/// the superuser's identifier, the check fails with a privilege error.
pub proof fn other_user_is_privilege_error(probe: InvocationView, text: Seq<char>)
    requires
        !names_superuser(text),
    ensures
        after_state_probe_of(probe, Ok(0)) == Ok::<InvocationView, AdbErrorView>(probe),
        check_connection_of(probe, Ok(0), Ok(text)) == Err::<(), AdbErrorView>(
            AdbErrorView::Privilege,
        ),
{
}

/// The privilege probe's output names the superuser exactly when it holds one
/// `0` and, apart from it, nothing but white space.
pub proof fn superuser_output_shape(text: Seq<char>)
    ensures
        names_superuser(text) <==> exists|i: int|
            0 <= i < text.len() && #[trigger] text[i] == '0' && forall|k: int|
                0 <= k < text.len() && k != i ==> is_whitespace(#[trigger] text[k]),
{
    if names_superuser(text) {
        trimmed_is_the_core(text);
        let i = leading_whitespace(text) as int;
        assert(trimmed(text)[0] == '0');
        assert(text[i] == '0');
    }
    if exists|i: int|
        0 <= i < text.len() && #[trigger] text[i] == '0' && forall|k: int|
            0 <= k < text.len() && k != i ==> is_whitespace(#[trigger] text[k]) {
        let i = choose|i: int|
            0 <= i < text.len() && #[trigger] text[i] == '0' && forall|k: int|
                0 <= k < text.len() && k != i ==> is_whitespace(#[trigger] text[k]);
        lemma_leading_whitespace_is(text, i as nat);
        let rest = text.skip(i);
        let c = (text.len() - i - 1) as nat;
        assert forall|k: int| rest.len() - c <= k < rest.len() implies is_whitespace(
            #[trigger] rest[k],
        ) by {
            assert(rest[k] == text[k + i]);
        }
        assert(rest[0] == text[i]);
        lemma_trailing_whitespace_is(rest, c);
        assert(trimmed(text) =~= seq!['0']);
    }
}

/// The check succeeds exactly when the state probe ends with status zero and
/// the privilege probe prints the superuser's identifier.
pub proof fn check_succeeds_iff_both_probes_pass(
    probe: InvocationView,
    status: Result<i32, Seq<char>>,
    output: Result<Seq<char>, Seq<char>>,
)
    ensures
        check_connection_of(probe, status, output) is Ok <==> (status == Ok::<i32, Seq<char>>(0)
            && output is Ok && names_superuser(output->Ok_0)),
{
}

/// `check_output` hands the caller's command on as it is, while `shell` and
/// `check_call` put the device prefix and the shell token before it, so that
/// their command line is never the caller's command.
pub proof fn check_output_is_not_addressed(d: AdbView, cmd: Seq<char>)
    ensures
        check_output_of(cmd).line == cmd,
        shell_of(d, cmd).line == prefix_of(d) + " shell "@ + cmd,
        check_call_of(d, cmd).line == shell_of(d, cmd).line,
        shell_of(d, cmd).line.len() >= cmd.len() + 7,
        shell_of(d, cmd).line != cmd,
{
    reveal_strlit(" shell ");
}

/// Two descriptors with the same field values give the same command line,
/// executed in the same way, for every operation and every argument: the
/// two plans of one operation hold the same characters, and so the same
/// bytes.
pub proof fn equal_descriptors_equal_commands(
    a: Adb,
    b: Adb,
    cmd: Seq<char>,
    local: Seq<char>,
    place: Seq<char>,
)
    requires
        a@ == b@,
    ensures
        prefix_of(a@) == prefix_of(b@),
        encode_utf8(prefix_of(a@)) == encode_utf8(prefix_of(b@)),
        a.state_probe() == b.state_probe(),
        a.privilege_probe() == b.privilege_probe(),
        a.shell_line(cmd) == b.shell_line(cmd),
        a.push_line(local, place) == b.push_line(local, place),
        a.pull_line(place, local) == b.pull_line(place, local),
        a.output_line(cmd) == b.output_line(cmd),
        state_probe_of(a@) == state_probe_of(b@),
        privilege_probe_of(a@) == privilege_probe_of(b@),
        shell_of(a@, cmd) == shell_of(b@, cmd),
        check_call_of(a@, cmd) == check_call_of(b@, cmd),
        push_of(a@, local, place) == push_of(b@, local, place),
        pull_of(a@, place, local) == pull_of(b@, place, local),
{
}

} // verus!
