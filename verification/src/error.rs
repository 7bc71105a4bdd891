use vstd::prelude::*;
use vstd::string::*;

verus! {

/// Why an operation against the device did not succeed.
#[derive(Debug, Clone, PartialEq, Eq)]
pub enum AdbError {
    /// The device did not answer the connection-state probe with status zero.
    Connectivity,
    /// The shell session on the device does not run as the superuser.
    Privilege,
    /// A process could not be started or reported failure; holds the
    /// executor's own message.
    Execution(String),
}

/// The mathematical value of an error.
pub ghost enum AdbErrorView {
    Connectivity,
    Privilege,
    Execution(Seq<char>),
}

impl View for AdbError {
    type V = AdbErrorView;

    open spec fn view(&self) -> AdbErrorView {
        match self {
            AdbError::Connectivity => AdbErrorView::Connectivity,
            AdbError::Privilege => AdbErrorView::Privilege,
            AdbError::Execution(m) => AdbErrorView::Execution(m@),
        }
    }
}

/// The text shown to a person for each error.
pub open spec fn message_of(e: AdbErrorView) -> Seq<char> {
    match e {
        AdbErrorView::Connectivity => "failed to connect to device"@,
        AdbErrorView::Privilege => "adb root is necessary!"@,
        AdbErrorView::Execution(m) => m,
    }
}

/// A result with both sides taken by their views.
pub open spec fn result_view<T: View, E: View>(r: Result<T, E>) -> Result<T::V, E::V> {
    match r {
        Ok(t) => Ok(t@),
        Err(e) => Err(e@),
    }
}

impl AdbError {
    /// The human-readable message that the error carries.
    pub fn message(&self) -> (r: String)
        ensures
            r@ == message_of(self@),
    {
        match self {
            AdbError::Connectivity => String::from_str("failed to connect to device"),
            AdbError::Privilege => String::from_str("adb root is necessary!"),
            AdbError::Execution(m) => m.clone(),
        }
    }
}

} // verus!
