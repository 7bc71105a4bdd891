use crate::error::AdbErrorView;
use crate::invocation::InvocationView;
use crate::text::{trim, trimmed};
use vstd::prelude::*;
use vstd::string::*;

verus! {

/// Whether the text that the privilege probe printed names the superuser:
/// without the white space around it, it is exactly `0`.
pub open spec fn names_superuser(output: Seq<char>) -> bool {
    trimmed(output) == seq!['0']
}

/// What follows the state probe: the privilege probe after exit status zero,
/// a connectivity error after any other status, and the executor's failure
/// where the probe could not be run.
pub open spec fn after_state_probe_of(
    privilege_probe: InvocationView,
    status: Result<i32, Seq<char>>,
) -> Result<InvocationView, AdbErrorView> {
    match status {
        Ok(code) => if code == 0 {
            Ok(privilege_probe)
        } else {
            Err(AdbErrorView::Connectivity)
        },
        Err(m) => Err(AdbErrorView::Execution(m)),
    }
}

/// What follows the privilege probe: success where the output names the
/// superuser, a privilege error where it names anything else, and the
/// executor's failure where the probe could not be run.
pub open spec fn after_privilege_probe_of(output: Result<Seq<char>, Seq<char>>) -> Result<
    (),
    AdbErrorView,
> {
    match output {
        Ok(text) => if names_superuser(text) {
            Ok(())
        } else {
            Err(AdbErrorView::Privilege)
        },
        Err(m) => Err(AdbErrorView::Execution(m)),
    }
}

/// The verdict of the whole connection check, given what each probe yields
/// when it is run. The second probe is consulted only after the first passed.
pub open spec fn check_connection_of(
    privilege_probe: InvocationView,
    status: Result<i32, Seq<char>>,
    output: Result<Seq<char>, Seq<char>>,
) -> Result<(), AdbErrorView> {
    match after_state_probe_of(privilege_probe, status) {
        Ok(_) => after_privilege_probe_of(output),
        Err(e) => Err(e),
    }
}

/// Whether `output`, as the privilege probe printed it, names the superuser.
pub fn is_superuser_id(output: &str) -> (r: bool)
    ensures
        r == names_superuser(output@),
{
    let id = trim(output);
    if id.unicode_len() == 1 {
        let c = id.get_char(0);
        proof {
            if c == '0' {
                assert(id@ =~= seq!['0']);
            }
        }
        c == '0'
    } else {
        false
    }
}

} // verus!
