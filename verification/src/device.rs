use vstd::prelude::*;
use vstd::string::*;

verus! {

/// Which attached device to talk to, and how to address it.
#[derive(Debug, Clone, PartialEq)]
pub struct Adb {
    serial: Option<String>,
    tcp_device: bool,
    usb_device: bool,
}

/// The mathematical value of a descriptor: its three addressing hints.
pub ghost struct AdbView {
    pub serial: Option<Seq<char>>,
    pub tcp_device: bool,
    pub usb_device: bool,
}

impl View for Adb {
    type V = AdbView;

    closed spec fn view(&self) -> AdbView {
        AdbView {
            serial: self.serial.deep_view(),
            tcp_device: self.tcp_device,
            usb_device: self.usb_device,
        }
    }
}

/// The leading part of a command line that selects the device: the serial
/// wins over both flags, and the network flag wins over the USB flag.
pub open spec fn prefix_of(d: AdbView) -> Seq<char> {
    match d.serial {
        Some(id) => "adb -s "@ + id,
        None => if d.tcp_device {
            "adb -e"@
        } else if d.usb_device {
            "adb -d"@
        } else {
            "adb"@
        },
    }
}

impl Adb {
    /// A descriptor with the given hints. None of them is checked against
    /// the others.
    pub fn new(serial: Option<String>, tcp_device: bool, usb_device: bool) -> (r: Self)
        ensures
            r@ == (AdbView { serial: serial.deep_view(), tcp_device, usb_device }),
    {
        Adb { serial, tcp_device, usb_device }
    }

    /// The leading part of every command line that addresses the device.
    pub fn get_cmd_prefix(&self) -> (r: String)
        ensures
            r@ == prefix_of(self@),
    {
        match &self.serial {
            Some(serial) => String::from_str("adb -s ").concat(serial.as_str()),
            None => if self.tcp_device {
                String::from_str("adb -e")
            } else if self.usb_device {
                String::from_str("adb -d")
            } else {
                String::from_str("adb")
            },
        }
    }
}

} // verus!
